//! The recorder's decisions while it connects to the sound server and while it
//! reads from its record stream, and the settings of that stream.
//!
//! The caller performs each call into the sound server and hands what came
//! back to these functions, which say what to do next.
use vstd::prelude::*;

use crate::error::{CreateError, ReadError};

verus! {

/// What one iteration of the server's main loop returned.
#[derive(Debug, Clone, Copy, PartialEq, Eq, Structural)]
pub enum IterateOutcome {
    /// Events were dispatched; their number.
    Success(u32),
    /// The loop was told to quit; the value it was given.
    Quit(i32),
    /// The iteration failed; the server's error code.
    Failed(i32),
}

/// The state of the connection to the sound server.
#[derive(Debug, Clone, Copy, PartialEq, Eq, Structural)]
pub enum ContextStatus {
    Unconnected,
    Connecting,
    Authorizing,
    SettingName,
    Ready,
    Failed,
    Terminated,
}

/// What a step of setting up the connection returned, before the recorder
/// waits for the connection to be ready.
#[derive(Debug, Clone, Copy, PartialEq, Eq, Structural)]
pub enum SetupOutcome {
    /// Whether the main loop was created.
    MainLoopCreated(bool),
    /// Whether the context was created.
    ContextCreated(bool),
    /// Whether the connection was initiated; if not, the server's error
    /// code.
    ConnectionInitiated(Option<i32>),
}

/// Decides whether setting up may go on after a step: a main loop or context
/// that could not be created, and a connection that could not be initiated,
/// each end the setup with their own error.
pub fn check_setup(outcome: SetupOutcome) -> (res: Result<(), CreateError>)
    ensures
        res == match outcome {
            SetupOutcome::MainLoopCreated(true) | SetupOutcome::ContextCreated(true)
            | SetupOutcome::ConnectionInitiated(None) => Ok(()),
            SetupOutcome::MainLoopCreated(false) => Err(CreateError::MainLoopCreationFail),
            SetupOutcome::ContextCreated(false) => Err(CreateError::ContextCreateFail),
            SetupOutcome::ConnectionInitiated(Some(code)) => Err(
                CreateError::ConnectionInitFail(code),
            ),
        },
{
    match outcome {
        SetupOutcome::MainLoopCreated(true) => Ok(()),
        SetupOutcome::MainLoopCreated(false) => Err(CreateError::MainLoopCreationFail),
        SetupOutcome::ContextCreated(true) => Ok(()),
        SetupOutcome::ContextCreated(false) => Err(CreateError::ContextCreateFail),
        SetupOutcome::ConnectionInitiated(None) => Ok(()),
        SetupOutcome::ConnectionInitiated(Some(code)) => Err(CreateError::ConnectionInitFail(code)),
    }
}

/// How the context connects to the server. No custom spawn API is handed
/// over.
pub struct ConnectOptions {
    /// The server to connect to; `None` for the default server.
    pub server: Option<String>,
    /// Do not spawn a server if none runs.
    pub no_autospawn: bool,
    /// Do not fail if no server is available at first.
    pub no_fail: bool,
}

/// The default server, with no connection flags.
pub fn connect_options() -> (opts: ConnectOptions)
    ensures
        opts.server is None,
        !opts.no_autospawn,
        !opts.no_fail,
{
    ConnectOptions { server: None, no_autospawn: false, no_fail: false }
}

/// The flags the record stream is connected with; every flag not named here
/// is left unset.
#[derive(Debug, Clone, Copy, PartialEq, Eq, Structural)]
pub struct RecordStreamFlags {
    /// Let the server adjust the latency to the requested buffer sizes.
    pub adjust_latency: bool,
}

/// Only the latency adjustment is asked for.
pub fn record_stream_flags() -> (flags: RecordStreamFlags)
    ensures
        flags == (RecordStreamFlags { adjust_latency: true }),
{
    RecordStreamFlags { adjust_latency: true }
}

/// What to do after one iteration while connecting.
#[derive(Debug, Clone, Copy, PartialEq, Eq, Structural)]
pub enum ConnectStep {
    /// Not connected yet: iterate again.
    Wait,
    /// The connection is ready.
    Ready,
    /// Give up with this error.
    Fail(CreateError),
}

/// The connecting decision: a loop that stops is reported first, then a
/// connection that is ready, failed or terminated; in every other state the
/// caller iterates again.
pub open spec fn connect_next(iterated: IterateOutcome, state: ContextStatus) -> ConnectStep {
    match iterated {
        IterateOutcome::Success(_) => match state {
            ContextStatus::Ready => ConnectStep::Ready,
            ContextStatus::Failed | ContextStatus::Terminated => ConnectStep::Fail(
                CreateError::ConnectionFail,
            ),
            _ => ConnectStep::Wait,
        },
        _ => ConnectStep::Fail(CreateError::MainLoopExited),
    }
}

/// Decides what follows one iteration of the main loop while the context
/// connects, given what the iteration returned and the context's state after
/// it.
pub fn connect_step(iterated: IterateOutcome, state: ContextStatus) -> (step: ConnectStep)
    ensures
        step == connect_next(iterated, state),
        !(iterated is Success) ==> step == ConnectStep::Fail(CreateError::MainLoopExited),
        iterated is Success ==> (step == ConnectStep::Ready <==> state == ContextStatus::Ready),
        iterated is Success && (state == ContextStatus::Failed || state
            == ContextStatus::Terminated) ==> step == ConnectStep::Fail(CreateError::ConnectionFail),
        iterated is Success && state != ContextStatus::Ready && state != ContextStatus::Failed
            && state != ContextStatus::Terminated ==> step == ConnectStep::Wait,
{
    match iterated {
        IterateOutcome::Success(_) => match state {
            ContextStatus::Ready => ConnectStep::Ready,
            ContextStatus::Failed | ContextStatus::Terminated => ConnectStep::Fail(
                CreateError::ConnectionFail,
            ),
            _ => ConnectStep::Wait,
        },
        _ => ConnectStep::Fail(CreateError::MainLoopExited),
    }
}

/// The state of a stream.
#[derive(Debug, Clone, Copy, PartialEq, Eq, Structural)]
pub enum StreamStatus {
    Unconnected,
    Creating,
    Ready,
    Failed,
    Terminated,
}

/// What a peek into the record stream found. The data itself stays with the
/// caller.
#[derive(Debug, Clone, Copy, PartialEq, Eq, Structural)]
pub enum PeekOutcome {
    /// Nothing to read yet.
    Empty,
    /// A gap of this many bytes in the stream.
    Hole(usize),
    /// A fragment of data.
    Data,
    /// The peek failed; the server's error code.
    Failed(i32),
}

/// What to do next while reading a frame.
#[derive(Debug, Clone, Copy, PartialEq, Eq, Structural)]
pub enum ReadStep {
    /// Iterate the main loop again.
    Iterate,
    /// Peek into the stream.
    Peek,
    /// Drop the current fragment, then iterate again.
    DiscardAndIterate,
    /// Drop the current fragment and hand its data to the caller.
    DiscardAndDeliver,
    /// Give up with this error.
    Fail(ReadError),
}

/// The reading decision after an iteration: a loop that stops ends the read;
/// a stream that is not ready yet is waited for; a ready one is peeked into.
pub open spec fn read_next_after_iterate(iterated: IterateOutcome, stream: StreamStatus) -> ReadStep {
    match iterated {
        IterateOutcome::Success(_) => if stream == StreamStatus::Ready {
            ReadStep::Peek
        } else {
            ReadStep::Iterate
        },
        _ => ReadStep::Fail(ReadError::MainLoopExited),
    }
}

/// The reading decision after a peek: data is delivered, a hole is skipped,
/// an empty stream is waited for, and a failed peek ends the read with the
/// server's error code.
pub open spec fn read_next_after_peek(peek: PeekOutcome) -> ReadStep {
    match peek {
        PeekOutcome::Data => ReadStep::DiscardAndDeliver,
        PeekOutcome::Empty => ReadStep::Iterate,
        PeekOutcome::Hole(_) => ReadStep::DiscardAndIterate,
        PeekOutcome::Failed(code) => ReadStep::Fail(ReadError::StreamReadError(code)),
    }
}

/// Decides what follows one iteration of the main loop while reading a frame,
/// given what the iteration returned and the record stream's state.
pub fn read_after_iterate(iterated: IterateOutcome, stream: StreamStatus) -> (step: ReadStep)
    ensures
        step == read_next_after_iterate(iterated, stream),
        iterated is Success && stream == StreamStatus::Ready ==> step == ReadStep::Peek,
        iterated is Success && stream != StreamStatus::Ready ==> step == ReadStep::Iterate,
        !(iterated is Success) ==> step == ReadStep::Fail(ReadError::MainLoopExited),
{
    match iterated {
        IterateOutcome::Success(_) => match stream {
            StreamStatus::Ready => ReadStep::Peek,
            _ => ReadStep::Iterate,
        },
        _ => ReadStep::Fail(ReadError::MainLoopExited),
    }
}

/// Decides what follows a peek into the record stream.
pub fn read_after_peek(peek: PeekOutcome) -> (step: ReadStep)
    ensures
        step == read_next_after_peek(peek),
        peek == PeekOutcome::Data ==> step == ReadStep::DiscardAndDeliver,
        peek == PeekOutcome::Empty ==> step == ReadStep::Iterate,
        peek is Hole ==> step == ReadStep::DiscardAndIterate,
        forall|code: i32|
            peek == PeekOutcome::Failed(code) ==> step == ReadStep::Fail(
                ReadError::StreamReadError(code),
            ),
{
    match peek {
        PeekOutcome::Data => ReadStep::DiscardAndDeliver,
        PeekOutcome::Empty => ReadStep::Iterate,
        PeekOutcome::Hole(_) => ReadStep::DiscardAndIterate,
        PeekOutcome::Failed(code) => ReadStep::Fail(ReadError::StreamReadError(code)),
    }
}

/// A frame is handed out only after an iteration that succeeded on a ready
/// stream and a peek that found data; whatever a peek finds in the stream,
/// data or a hole, is dropped from the stream before reading goes on.
pub proof fn lemma_read_protocol(iterated: IterateOutcome, stream: StreamStatus, peek: PeekOutcome)
    ensures
        read_next_after_iterate(iterated, stream) == ReadStep::Peek <==> (iterated is Success
            && stream == StreamStatus::Ready),
        read_next_after_peek(peek) == ReadStep::DiscardAndDeliver <==> peek == PeekOutcome::Data,
        (peek is Data || peek is Hole) <==> (read_next_after_peek(peek) is DiscardAndDeliver
            || read_next_after_peek(peek) is DiscardAndIterate),
{
}

/// Connecting, for every number of dispatched events: a stopped loop fails
/// with `MainLoopExited`; after a successful iteration a ready context is
/// ready, a failed or terminated one fails with `ConnectionFail`, and any
/// other state waits.
pub proof fn lemma_connect_outcomes(n: u32, code: i32, state: ContextStatus)
    ensures
        connect_next(IterateOutcome::Quit(code), state) == ConnectStep::Fail(
            CreateError::MainLoopExited,
        ),
        connect_next(IterateOutcome::Failed(code), state) == ConnectStep::Fail(
            CreateError::MainLoopExited,
        ),
        connect_next(IterateOutcome::Success(n), ContextStatus::Ready) == ConnectStep::Ready,
        connect_next(IterateOutcome::Success(n), ContextStatus::Failed) == ConnectStep::Fail(
            CreateError::ConnectionFail,
        ),
        connect_next(IterateOutcome::Success(n), ContextStatus::Terminated) == ConnectStep::Fail(
            CreateError::ConnectionFail,
        ),
        state != ContextStatus::Ready && state != ContextStatus::Failed && state
            != ContextStatus::Terminated ==> connect_next(IterateOutcome::Success(n), state)
            == ConnectStep::Wait,
{
}

/// Reading, for every number of dispatched events: a stopped loop fails with
/// `MainLoopExited`; after a successful iteration a ready stream is peeked
/// into and any other stream is waited for; a peek's data is dropped and
/// delivered, a hole of any size is dropped, an empty stream is waited for,
/// and a failed peek fails with its own code.
pub proof fn lemma_read_outcomes(
    n: u32,
    code: i32,
    size: usize,
    stream: StreamStatus,
)
    ensures
        read_next_after_iterate(IterateOutcome::Quit(code), stream) == ReadStep::Fail(
            ReadError::MainLoopExited,
        ),
        read_next_after_iterate(IterateOutcome::Failed(code), stream) == ReadStep::Fail(
            ReadError::MainLoopExited,
        ),
        read_next_after_iterate(IterateOutcome::Success(n), StreamStatus::Ready) == ReadStep::Peek,
        stream != StreamStatus::Ready ==> read_next_after_iterate(IterateOutcome::Success(n), stream)
            == ReadStep::Iterate,
        read_next_after_peek(PeekOutcome::Data) == ReadStep::DiscardAndDeliver,
        read_next_after_peek(PeekOutcome::Empty) == ReadStep::Iterate,
        read_next_after_peek(PeekOutcome::Hole(size)) == ReadStep::DiscardAndIterate,
        read_next_after_peek(PeekOutcome::Failed(code)) == ReadStep::Fail(
            ReadError::StreamReadError(code),
        ),
{
}

/// The sample format of the record stream.
#[derive(Debug, Clone, Copy, PartialEq, Eq, Structural)]
pub enum SampleFormat {
    /// Unsigned 8-bit samples.
    U8,
}

/// How the record stream's samples are laid out.
#[derive(Debug, Clone, Copy, PartialEq, Eq, Structural)]
pub struct SampleSpec {
    pub format: SampleFormat,
    pub rate: u32,
    pub channels: u8,
}

/// The buffer sizes asked of the server for the record stream, in bytes.
#[derive(Debug, Clone, Copy, PartialEq, Eq, Structural)]
pub struct BufferAttributes {
    pub maxlength: u32,
    pub tlength: u32,
    pub prebuf: u32,
    pub minreq: u32,
    pub fragsize: u32,
}

/// One channel of unsigned 8-bit samples at 48000 Hz.
pub fn record_sample_spec() -> (spec: SampleSpec)
    ensures
        spec == (SampleSpec { format: SampleFormat::U8, rate: 48000, channels: 1 }),
{
    SampleSpec { format: SampleFormat::U8, rate: 48000, channels: 1 }
}

/// Every size left to the server (the largest value), and no pre-buffering.
pub fn record_buffer_attributes() -> (attr: BufferAttributes)
    ensures
        attr == (BufferAttributes {
            maxlength: u32::MAX,
            tlength: u32::MAX,
            prebuf: 0,
            minreq: u32::MAX,
            fragsize: u32::MAX,
        }),
{
    let val = u32::MAX;
    BufferAttributes { maxlength: val, tlength: val, prebuf: 0, minreq: val, fragsize: val }
}

/// The name under which the record stream is created.
pub fn record_stream_name() -> (name: &'static str)
    ensures
        name@ == "Epic experiment stream"@,
{
    "Epic experiment stream"
}

} // verus!
