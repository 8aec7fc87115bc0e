//! Errors reported while connecting to the sound server and reading audio.
//!
//! Error codes that the sound server hands back (`PAErr` in the binding) are
//! carried here as the plain `i32` code they wrap.
use vstd::prelude::*;

verus! {

/// Why the monitor source of the default output could not be found.
#[derive(Debug, Clone, Copy, PartialEq, Eq, Structural)]
pub enum GetMonitorError {
    /// The main loop stopped while waiting for an answer.
    MainLoopExited,
    /// The server named no default output.
    NoDefaultSink,
    /// The default output has no monitor source.
    NoDefaultMonitor,
}

/// Why a recorder could not be created.
#[derive(Debug, Clone, Copy, PartialEq, Eq, Structural)]
pub enum CreateError {
    /// The main loop could not be created.
    MainLoopCreationFail,
    /// The context could not be created.
    ContextCreateFail,
    /// The connection could not be initiated; the server's error code.
    ConnectionInitFail(i32),
    /// The context went to a failed or terminated state while connecting.
    ConnectionFail,
    /// The monitor of the default output could not be found.
    MonitorFail(GetMonitorError),
    /// The main loop stopped while connecting.
    MainLoopExited,
}

/// Why a frame could not be read.
#[derive(Debug, Clone, Copy, PartialEq, Eq, Structural)]
pub enum ReadError {
    /// The main loop stopped while waiting for data.
    MainLoopExited,
    /// Peeking into the stream failed; the server's error code.
    StreamReadError(i32),
}

impl From<GetMonitorError> for CreateError {
    fn from(err: GetMonitorError) -> (res: CreateError) {
        CreateError::MonitorFail(err)
    }
}

impl vstd::std_specs::convert::FromSpecImpl<GetMonitorError> for CreateError {
    open spec fn obeys_from_spec() -> bool {
        true
    }

    open spec fn from_spec(v: GetMonitorError) -> CreateError {
        CreateError::MonitorFail(v)
    }
}

impl GetMonitorError {
    /// The human-readable text of the error.
    pub fn message(&self) -> (m: &'static str)
        ensures
            m@ == match *self {
                GetMonitorError::MainLoopExited => "Mainloop terminated unexpectedly"@,
                GetMonitorError::NoDefaultSink => "No default output found"@,
                GetMonitorError::NoDefaultMonitor => "No monitor found for default output"@,
            },
    {
        match self {
            GetMonitorError::MainLoopExited => "Mainloop terminated unexpectedly",
            GetMonitorError::NoDefaultSink => "No default output found",
            GetMonitorError::NoDefaultMonitor => "No monitor found for default output",
        }
    }
}

impl CreateError {
    /// The human-readable text of the error.
    pub fn message(&self) -> (m: &'static str)
        ensures
            m@ == match *self {
                CreateError::MainLoopCreationFail => "Failed to create main loop"@,
                CreateError::ContextCreateFail => "Failed to create context"@,
                CreateError::ConnectionInitFail(_) => "Failed to initiate context connection"@,
                CreateError::ConnectionFail => "Failed to connect context"@,
                CreateError::MonitorFail(_) => "Failed to get monitor for default output"@,
                CreateError::MainLoopExited => "Main loop exited unexpectedly"@,
            },
    {
        match self {
            CreateError::MainLoopCreationFail => "Failed to create main loop",
            CreateError::ContextCreateFail => "Failed to create context",
            CreateError::ConnectionInitFail(_) => "Failed to initiate context connection",
            CreateError::ConnectionFail => "Failed to connect context",
            CreateError::MonitorFail(_) => "Failed to get monitor for default output",
            CreateError::MainLoopExited => "Main loop exited unexpectedly",
        }
    }
}

impl ReadError {
    /// The human-readable text of the error.
    pub fn message(&self) -> (m: &'static str)
        ensures
            m@ == match *self {
                ReadError::MainLoopExited => "Main loop exited unexpectedly"@,
                ReadError::StreamReadError(_) => "Error reading stream"@,
            },
    {
        match self {
            ReadError::MainLoopExited => "Main loop exited unexpectedly",
            ReadError::StreamReadError(_) => "Error reading stream",
        }
    }
}

} // verus!
