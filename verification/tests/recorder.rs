use audio::error::{CreateError, GetMonitorError, ReadError};
use audio::monitor::{LookupAction, LookupEvent, MonitorLookup, SinkInfoReport};
use audio::session::{
    check_setup, connect_options, connect_step, record_stream_flags, SetupOutcome, read_after_iterate, read_after_peek, record_buffer_attributes,
    record_sample_spec, record_stream_name, ConnectStep, ContextStatus, IterateOutcome,
    PeekOutcome, ReadStep, SampleFormat, StreamStatus,
};

fn expect_finish(action: LookupAction) -> Result<String, GetMonitorError> {
    match action {
        LookupAction::Finish(r) => r,
        _ => panic!("the lookup did not finish"),
    }
}

fn is_wait(a: &LookupAction) -> bool {
    matches!(a, LookupAction::Wait)
}

#[test]
fn connect_waits_then_is_ready() {
    for state in [
        ContextStatus::Unconnected,
        ContextStatus::Connecting,
        ContextStatus::Authorizing,
        ContextStatus::SettingName,
    ] {
        assert_eq!(connect_step(IterateOutcome::Success(1), state), ConnectStep::Wait);
    }
    assert_eq!(connect_step(IterateOutcome::Success(0), ContextStatus::Ready), ConnectStep::Ready);
}

#[test]
fn connect_fails() {
    assert_eq!(
        connect_step(IterateOutcome::Success(2), ContextStatus::Failed),
        ConnectStep::Fail(CreateError::ConnectionFail)
    );
    assert_eq!(
        connect_step(IterateOutcome::Success(2), ContextStatus::Terminated),
        ConnectStep::Fail(CreateError::ConnectionFail)
    );
    // A stopped loop is reported whatever the context's state.
    assert_eq!(
        connect_step(IterateOutcome::Quit(0), ContextStatus::Ready),
        ConnectStep::Fail(CreateError::MainLoopExited)
    );
    assert_eq!(
        connect_step(IterateOutcome::Failed(-3), ContextStatus::Connecting),
        ConnectStep::Fail(CreateError::MainLoopExited)
    );
}

#[test]
fn read_after_iteration() {
    assert_eq!(read_after_iterate(IterateOutcome::Success(1), StreamStatus::Ready), ReadStep::Peek);
    for s in [
        StreamStatus::Unconnected,
        StreamStatus::Creating,
        StreamStatus::Failed,
        StreamStatus::Terminated,
    ] {
        assert_eq!(read_after_iterate(IterateOutcome::Success(1), s), ReadStep::Iterate);
    }
    assert_eq!(
        read_after_iterate(IterateOutcome::Quit(1), StreamStatus::Ready),
        ReadStep::Fail(ReadError::MainLoopExited)
    );
    assert_eq!(
        read_after_iterate(IterateOutcome::Failed(-1), StreamStatus::Creating),
        ReadStep::Fail(ReadError::MainLoopExited)
    );
}

#[test]
fn read_after_peeking() {
    assert_eq!(read_after_peek(PeekOutcome::Data), ReadStep::DiscardAndDeliver);
    assert_eq!(read_after_peek(PeekOutcome::Empty), ReadStep::Iterate);
    assert_eq!(read_after_peek(PeekOutcome::Hole(64)), ReadStep::DiscardAndIterate);
    assert_eq!(
        read_after_peek(PeekOutcome::Failed(-7)),
        ReadStep::Fail(ReadError::StreamReadError(-7))
    );
}

#[test]
fn stream_settings() {
    let spec = record_sample_spec();
    assert_eq!(spec.format, SampleFormat::U8);
    assert_eq!(spec.rate, 48000);
    assert_eq!(spec.channels, 1);
    let attr = record_buffer_attributes();
    assert_eq!(attr.maxlength, u32::MAX);
    assert_eq!(attr.tlength, u32::MAX);
    assert_eq!(attr.prebuf, 0);
    assert_eq!(attr.minreq, u32::MAX);
    assert_eq!(attr.fragsize, u32::MAX);
    assert_eq!(record_stream_name(), "Epic experiment stream");
}

#[test]
fn lookup_finds_monitor() {
    let (s, a) = MonitorLookup::start();
    assert!(matches!(a, LookupAction::RequestServerInfo));
    let (s, a) = s.step(LookupEvent::ServerInfo(Some("speakers".to_string())));
    assert!(is_wait(&a));
    let (s, a) = s.step(LookupEvent::Iterated(IterateOutcome::Success(1)));
    match a {
        LookupAction::RequestSinkInfo(name) => assert_eq!(name, "speakers"),
        _ => panic!("expected a sink query"),
    }
    let (s, a) = s.step(LookupEvent::SinkInfo(SinkInfoReport::Item(Some(
        "speakers.monitor".to_string(),
    ))));
    assert!(is_wait(&a));
    let (s, a) = s.step(LookupEvent::SinkInfo(SinkInfoReport::End));
    assert!(is_wait(&a));
    let (s, a) = s.step(LookupEvent::Iterated(IterateOutcome::Success(2)));
    assert_eq!(expect_finish(a), Ok("speakers.monitor".to_string()));
    assert!(matches!(s, MonitorLookup::Done));
}

#[test]
fn lookup_keeps_first_monitor() {
    let s = MonitorLookup::AwaitingMonitor(None);
    let (s, _) = s.step(LookupEvent::SinkInfo(SinkInfoReport::Item(None)));
    let (s, _) = s.step(LookupEvent::SinkInfo(SinkInfoReport::Item(Some("first".to_string()))));
    let (s, a) = s.step(LookupEvent::SinkInfo(SinkInfoReport::Item(Some("second".to_string()))));
    assert!(is_wait(&a));
    let (s, a) = s.step(LookupEvent::SinkInfo(SinkInfoReport::Failed));
    assert!(is_wait(&a));
    let (_, a) = s.step(LookupEvent::Iterated(IterateOutcome::Success(0)));
    assert_eq!(expect_finish(a), Ok("first".to_string()));
}

#[test]
fn lookup_without_monitor() {
    let s = MonitorLookup::AwaitingMonitor(None);
    let (s, _) = s.step(LookupEvent::SinkInfo(SinkInfoReport::Item(None)));
    let (s, a) = s.step(LookupEvent::Iterated(IterateOutcome::Success(1)));
    assert!(matches!(a, LookupAction::CheckOperation));
    let (s, a) = s.step(LookupEvent::OperationChecked(false));
    assert!(matches!(a, LookupAction::Iterate));
    let (s, a) = s.step(LookupEvent::Iterated(IterateOutcome::Success(1)));
    assert!(matches!(a, LookupAction::CheckOperation));
    let (s, a) = s.step(LookupEvent::OperationChecked(true));
    assert_eq!(expect_finish(a), Err(GetMonitorError::NoDefaultMonitor));
    assert!(matches!(s, MonitorLookup::Done));
}

#[test]
fn lookup_loop_exit() {
    let s = MonitorLookup::AwaitingSink(Some("speakers".to_string()));
    let (s, a) = s.step(LookupEvent::Iterated(IterateOutcome::Quit(0)));
    assert_eq!(expect_finish(a), Err(GetMonitorError::MainLoopExited));
    let (_, a) = s.step(LookupEvent::Iterated(IterateOutcome::Success(1)));
    assert!(is_wait(&a));

    let s = MonitorLookup::AwaitingMonitor(Some("speakers.monitor".to_string()));
    let (_, a) = s.step(LookupEvent::Iterated(IterateOutcome::Failed(-2)));
    assert_eq!(expect_finish(a), Err(GetMonitorError::MainLoopExited));
}

#[test]
fn lookup_without_default_sink() {
    let (s, _) = MonitorLookup::start();
    let (s, a) = s.step(LookupEvent::ServerInfo(None));
    assert!(is_wait(&a));
    assert!(matches!(s, MonitorLookup::NoSink));
    let (s, a) = s.step(LookupEvent::Iterated(IterateOutcome::Success(1)));
    assert_eq!(expect_finish(a), Err(GetMonitorError::NoDefaultSink));
    assert!(matches!(s, MonitorLookup::Done));
}

#[test]
fn lookup_without_default_sink_and_loop_exit() {
    let (s, _) = s_after_missing_sink();
    let (_, a) = s.step(LookupEvent::Iterated(IterateOutcome::Quit(0)));
    assert_eq!(expect_finish(a), Err(GetMonitorError::MainLoopExited));
}

fn s_after_missing_sink() -> (MonitorLookup, LookupAction) {
    let (s, _) = MonitorLookup::start();
    s.step(LookupEvent::ServerInfo(None))
}

#[test]
fn lookup_waits_for_the_server_answer() {
    let (s, _) = MonitorLookup::start();
    let mut s = s;
    for _ in 0..5 {
        let (next, a) = s.step(LookupEvent::Iterated(IterateOutcome::Success(1)));
        assert!(matches!(a, LookupAction::Iterate));
        s = next;
    }
    let (s, _) = s.step(LookupEvent::ServerInfo(Some("hdmi".to_string())));
    let (_, a) = s.step(LookupEvent::Iterated(IterateOutcome::Success(1)));
    match a {
        LookupAction::RequestSinkInfo(name) => assert_eq!(name, "hdmi"),
        _ => panic!("expected a sink query"),
    }
}

#[test]
fn setup_errors() {
    assert_eq!(check_setup(SetupOutcome::MainLoopCreated(true)), Ok(()));
    assert_eq!(
        check_setup(SetupOutcome::MainLoopCreated(false)),
        Err(CreateError::MainLoopCreationFail)
    );
    assert_eq!(check_setup(SetupOutcome::ContextCreated(true)), Ok(()));
    assert_eq!(
        check_setup(SetupOutcome::ContextCreated(false)),
        Err(CreateError::ContextCreateFail)
    );
    assert_eq!(check_setup(SetupOutcome::ConnectionInitiated(None)), Ok(()));
    assert_eq!(
        check_setup(SetupOutcome::ConnectionInitiated(Some(-6))),
        Err(CreateError::ConnectionInitFail(-6))
    );
}

#[test]
fn connection_and_stream_flags() {
    let opts = connect_options();
    assert!(opts.server.is_none());
    assert!(!opts.no_autospawn);
    assert!(!opts.no_fail);
    assert!(record_stream_flags().adjust_latency);
}

#[test]
fn error_messages() {
    assert_eq!(GetMonitorError::MainLoopExited.message(), "Mainloop terminated unexpectedly");
    assert_eq!(GetMonitorError::NoDefaultSink.message(), "No default output found");
    assert_eq!(GetMonitorError::NoDefaultMonitor.message(), "No monitor found for default output");
    assert_eq!(CreateError::MainLoopCreationFail.message(), "Failed to create main loop");
    assert_eq!(CreateError::ContextCreateFail.message(), "Failed to create context");
    assert_eq!(CreateError::ConnectionInitFail(-1).message(), "Failed to initiate context connection");
    assert_eq!(CreateError::ConnectionFail.message(), "Failed to connect context");
    assert_eq!(
        CreateError::MonitorFail(GetMonitorError::NoDefaultSink).message(),
        "Failed to get monitor for default output"
    );
    assert_eq!(CreateError::MainLoopExited.message(), "Main loop exited unexpectedly");
    assert_eq!(ReadError::MainLoopExited.message(), "Main loop exited unexpectedly");
    assert_eq!(ReadError::StreamReadError(-5).message(), "Error reading stream");
}

#[test]
fn monitor_error_converts() {
    let e: CreateError = GetMonitorError::NoDefaultMonitor.into();
    assert_eq!(e, CreateError::MonitorFail(GetMonitorError::NoDefaultMonitor));
    assert_eq!(
        CreateError::from(GetMonitorError::MainLoopExited),
        CreateError::MonitorFail(GetMonitorError::MainLoopExited)
    );
}
