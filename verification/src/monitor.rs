//! Finding the monitor source of the default output.
//!
//! The lookup asks the server for its default output (sink), then asks for
//! that sink's monitor source. The answers arrive in callbacks while the
//! caller iterates the server's main loop; the caller hands each answer and
//! each iteration's outcome to [`MonitorLookup::step`], which says what to do
//! next.
use vstd::prelude::*;

use crate::error::GetMonitorError;
use crate::session::IterateOutcome;

verus! {

/// One answer to the query for the sink's description.
pub enum SinkInfoReport {
    /// A description of the sink, with the name of its monitor source if it
    /// has one.
    Item(Option<String>),
    /// The end of the answers.
    End,
    /// The query failed.
    Failed,
}

/// What the caller observed.
pub enum LookupEvent {
    /// The server's description arrived, with the name of its default sink
    /// if it names one.
    ServerInfo(Option<String>),
    /// An answer to the query for the sink's description arrived.
    SinkInfo(SinkInfoReport),
    /// One iteration of the main loop returned.
    Iterated(IterateOutcome),
    /// The caller looked at the query for the sink's description: whether it
    /// has finished.
    OperationChecked(bool),
}

/// What the caller does next.
pub enum LookupAction {
    /// Ask the server for its description, then iterate the main loop.
    RequestServerInfo,
    /// Nothing new: go on with what is under way.
    Wait,
    /// Iterate the main loop.
    Iterate,
    /// Ask for the description of the sink of this name, then iterate.
    RequestSinkInfo(String),
    /// Look whether the query for the sink's description has finished.
    CheckOperation,
    /// The lookup is over, with this result.
    Finish(Result<String, GetMonitorError>),
}

/// Where the lookup stands.
pub enum MonitorLookup {
    /// The server's description was asked for; the default sink's name once
    /// it is known.
    AwaitingSink(Option<String>),
    /// The server's description arrived and names no default sink.
    NoSink,
    /// The sink's description was asked for; the first monitor name
    /// reported.
    AwaitingMonitor(Option<String>),
    /// The lookup has finished.
    Done,
}

/// The lookup's transition: the next state and the action for the caller.
///
/// - A server description records whether it names a default sink, and
///   which; a later description replaces an earlier one.
/// - The first sink description that names a monitor source records that
///   name; every later answer is ignored.
/// - An iteration that does not succeed ends the lookup with
///   `MainLoopExited`.
/// - After a successful iteration, a known sink name is asked about; a
///   server that named no default sink ends the lookup with `NoDefaultSink`;
///   a known monitor name is the result; otherwise the caller iterates again
///   (while waiting for the server) or looks at the sink query (while waiting
///   for the monitor).
/// - A sink query that has finished without naming a monitor ends the lookup
///   with `NoDefaultMonitor`.
pub open spec fn lookup_next(s: MonitorLookup, e: LookupEvent) -> (MonitorLookup, LookupAction) {
    match s {
        MonitorLookup::AwaitingSink(sink) => match e {
            LookupEvent::ServerInfo(Some(name)) => (
                MonitorLookup::AwaitingSink(Some(name)),
                LookupAction::Wait,
            ),
            LookupEvent::ServerInfo(None) => (MonitorLookup::NoSink, LookupAction::Wait),
            LookupEvent::Iterated(IterateOutcome::Success(_)) => match sink {
                Some(name) => (MonitorLookup::AwaitingMonitor(None), LookupAction::RequestSinkInfo(name)),
                None => (MonitorLookup::AwaitingSink(None), LookupAction::Iterate),
            },
            LookupEvent::Iterated(_) => (
                MonitorLookup::Done,
                LookupAction::Finish(Err(GetMonitorError::MainLoopExited)),
            ),
            _ => (MonitorLookup::AwaitingSink(sink), LookupAction::Wait),
        },
        MonitorLookup::NoSink => match e {
            LookupEvent::ServerInfo(Some(name)) => (
                MonitorLookup::AwaitingSink(Some(name)),
                LookupAction::Wait,
            ),
            LookupEvent::Iterated(IterateOutcome::Success(_)) => (
                MonitorLookup::Done,
                LookupAction::Finish(Err(GetMonitorError::NoDefaultSink)),
            ),
            LookupEvent::Iterated(_) => (
                MonitorLookup::Done,
                LookupAction::Finish(Err(GetMonitorError::MainLoopExited)),
            ),
            _ => (MonitorLookup::NoSink, LookupAction::Wait),
        },
        MonitorLookup::AwaitingMonitor(monitor) => match e {
            LookupEvent::SinkInfo(SinkInfoReport::Item(Some(name))) => match monitor {
                Some(first) => (MonitorLookup::AwaitingMonitor(Some(first)), LookupAction::Wait),
                None => (MonitorLookup::AwaitingMonitor(Some(name)), LookupAction::Wait),
            },
            LookupEvent::Iterated(IterateOutcome::Success(_)) => match monitor {
                Some(name) => (MonitorLookup::Done, LookupAction::Finish(Ok(name))),
                None => (MonitorLookup::AwaitingMonitor(None), LookupAction::CheckOperation),
            },
            LookupEvent::Iterated(_) => (
                MonitorLookup::Done,
                LookupAction::Finish(Err(GetMonitorError::MainLoopExited)),
            ),
            LookupEvent::OperationChecked(true) => match monitor {
                None => (
                    MonitorLookup::Done,
                    LookupAction::Finish(Err(GetMonitorError::NoDefaultMonitor)),
                ),
                Some(name) => (MonitorLookup::AwaitingMonitor(Some(name)), LookupAction::Wait),
            },
            LookupEvent::OperationChecked(false) => match monitor {
                None => (MonitorLookup::AwaitingMonitor(None), LookupAction::Iterate),
                Some(name) => (MonitorLookup::AwaitingMonitor(Some(name)), LookupAction::Wait),
            },
            _ => (MonitorLookup::AwaitingMonitor(monitor), LookupAction::Wait),
        },
        MonitorLookup::Done => (MonitorLookup::Done, LookupAction::Wait),
    }
}

impl MonitorLookup {
    /// A new lookup: the caller asks for the server's description first.
    pub fn start() -> (res: (MonitorLookup, LookupAction))
        ensures
            res == (MonitorLookup::AwaitingSink(None), LookupAction::RequestServerInfo),
    {
        (MonitorLookup::AwaitingSink(None), LookupAction::RequestServerInfo)
    }

    /// Takes one observation and says what to do next.
    pub fn step(self, event: LookupEvent) -> (res: (MonitorLookup, LookupAction))
        ensures
            res == lookup_next(self, event),
    {
        match self {
            MonitorLookup::AwaitingSink(sink) => match event {
                LookupEvent::ServerInfo(Some(name)) => (
                    MonitorLookup::AwaitingSink(Some(name)),
                    LookupAction::Wait,
                ),
                LookupEvent::ServerInfo(None) => (MonitorLookup::NoSink, LookupAction::Wait),
                LookupEvent::Iterated(IterateOutcome::Success(_)) => match sink {
                    Some(name) => (
                        MonitorLookup::AwaitingMonitor(None),
                        LookupAction::RequestSinkInfo(name),
                    ),
                    None => (MonitorLookup::AwaitingSink(None), LookupAction::Iterate),
                },
                LookupEvent::Iterated(_) => (
                    MonitorLookup::Done,
                    LookupAction::Finish(Err(GetMonitorError::MainLoopExited)),
                ),
                _ => (MonitorLookup::AwaitingSink(sink), LookupAction::Wait),
            },
            MonitorLookup::NoSink => match event {
                LookupEvent::ServerInfo(Some(name)) => (
                    MonitorLookup::AwaitingSink(Some(name)),
                    LookupAction::Wait,
                ),
                LookupEvent::Iterated(IterateOutcome::Success(_)) => (
                    MonitorLookup::Done,
                    LookupAction::Finish(Err(GetMonitorError::NoDefaultSink)),
                ),
                LookupEvent::Iterated(_) => (
                    MonitorLookup::Done,
                    LookupAction::Finish(Err(GetMonitorError::MainLoopExited)),
                ),
                _ => (MonitorLookup::NoSink, LookupAction::Wait),
            },
            MonitorLookup::AwaitingMonitor(monitor) => match event {
                LookupEvent::SinkInfo(SinkInfoReport::Item(Some(name))) => match monitor {
                    Some(first) => (
                        MonitorLookup::AwaitingMonitor(Some(first)),
                        LookupAction::Wait,
                    ),
                    None => (MonitorLookup::AwaitingMonitor(Some(name)), LookupAction::Wait),
                },
                LookupEvent::Iterated(IterateOutcome::Success(_)) => match monitor {
                    Some(name) => (MonitorLookup::Done, LookupAction::Finish(Ok(name))),
                    None => (MonitorLookup::AwaitingMonitor(None), LookupAction::CheckOperation),
                },
                LookupEvent::Iterated(_) => (
                    MonitorLookup::Done,
                    LookupAction::Finish(Err(GetMonitorError::MainLoopExited)),
                ),
                LookupEvent::OperationChecked(true) => match monitor {
                    None => (
                        MonitorLookup::Done,
                        LookupAction::Finish(Err(GetMonitorError::NoDefaultMonitor)),
                    ),
                    Some(name) => (MonitorLookup::AwaitingMonitor(Some(name)), LookupAction::Wait),
                },
                LookupEvent::OperationChecked(false) => match monitor {
                    None => (MonitorLookup::AwaitingMonitor(None), LookupAction::Iterate),
                    Some(name) => (MonitorLookup::AwaitingMonitor(Some(name)), LookupAction::Wait),
                },
                _ => (MonitorLookup::AwaitingMonitor(monitor), LookupAction::Wait),
            },
            MonitorLookup::Done => (MonitorLookup::Done, LookupAction::Wait),
        }
    }
}

/// Once a monitor name has been reported, no later answer about the sink
/// replaces it: the first one is kept.
pub proof fn lemma_first_monitor_kept(first: String, report: SinkInfoReport)
    ensures
        lookup_next(MonitorLookup::AwaitingMonitor(Some(first)), LookupEvent::SinkInfo(report))
            == (MonitorLookup::AwaitingMonitor(Some(first)), LookupAction::Wait),
{
}

/// An answer that arrives in a callback only updates what the lookup knows:
/// it never asks the caller to do anything.
pub proof fn lemma_reports_ask_nothing(s: MonitorLookup, e: LookupEvent)
    requires
        e is ServerInfo || e is SinkInfo,
    ensures
        lookup_next(s, e).1 == LookupAction::Wait,
{
}

/// The lookup finishes with a monitor name only after a successful iteration,
/// and only with the name that was reported for the sink.
pub proof fn lemma_found_monitor_was_reported(s: MonitorLookup, e: LookupEvent, name: String)
    requires
        lookup_next(s, e).1 == LookupAction::Finish(Ok(name)),
    ensures
        s == MonitorLookup::AwaitingMonitor(Some(name)),
        e matches LookupEvent::Iterated(IterateOutcome::Success(_)),
{
}

/// While the lookup is under way, a main-loop iteration that does not
/// succeed ends it with `MainLoopExited`, whatever was learned before.
pub proof fn lemma_loop_exit_ends_lookup(s: MonitorLookup, outcome: IterateOutcome)
    requires
        !(s is Done),
        !(outcome is Success),
    ensures
        lookup_next(s, LookupEvent::Iterated(outcome)) == (
            MonitorLookup::Done,
            LookupAction::Finish(Err(GetMonitorError::MainLoopExited)),
        ),
{
}

/// Every finishing action leaves the lookup done, and a finished lookup
/// stays done and asks for nothing more.
pub proof fn lemma_finish_is_final(s: MonitorLookup, e: LookupEvent, e2: LookupEvent)
    ensures
        lookup_next(s, e).1 is Finish ==> lookup_next(s, e).0 is Done,
        lookup_next(MonitorLookup::Done, e2) == (MonitorLookup::Done, LookupAction::Wait),
{
}

/// The lookup's course, for every name and every number of dispatched
/// events:
/// - a server answer naming a sink records it, one naming none is noted;
/// - a known sink is asked about after a successful iteration, and the
///   lookup then waits for its monitor;
/// - the first monitor name reported is recorded, and a successful iteration
///   then finishes with exactly that name;
/// - without a monitor name, a successful iteration leads to a look at the
///   sink query; a finished query ends with `NoDefaultMonitor`, an unfinished
///   one leads to another iteration.
pub proof fn lemma_lookup_course(n: u32, sink: String, monitor: String, first: Option<String>)
    ensures
        lookup_next(MonitorLookup::AwaitingSink(first), LookupEvent::ServerInfo(Some(sink))) == (
            MonitorLookup::AwaitingSink(Some(sink)),
            LookupAction::Wait,
        ),
        lookup_next(MonitorLookup::AwaitingSink(first), LookupEvent::ServerInfo(None)) == (
            MonitorLookup::NoSink,
            LookupAction::Wait,
        ),
        lookup_next(
            MonitorLookup::AwaitingSink(Some(sink)),
            LookupEvent::Iterated(IterateOutcome::Success(n)),
        ) == (MonitorLookup::AwaitingMonitor(None), LookupAction::RequestSinkInfo(sink)),
        lookup_next(
            MonitorLookup::AwaitingSink(None),
            LookupEvent::Iterated(IterateOutcome::Success(n)),
        ) == (MonitorLookup::AwaitingSink(None), LookupAction::Iterate),
        lookup_next(
            MonitorLookup::AwaitingMonitor(None),
            LookupEvent::SinkInfo(SinkInfoReport::Item(Some(monitor))),
        ) == (MonitorLookup::AwaitingMonitor(Some(monitor)), LookupAction::Wait),
        lookup_next(
            MonitorLookup::AwaitingMonitor(Some(monitor)),
            LookupEvent::Iterated(IterateOutcome::Success(n)),
        ) == (MonitorLookup::Done, LookupAction::Finish(Ok(monitor))),
        lookup_next(
            MonitorLookup::AwaitingMonitor(None),
            LookupEvent::Iterated(IterateOutcome::Success(n)),
        ) == (MonitorLookup::AwaitingMonitor(None), LookupAction::CheckOperation),
        lookup_next(MonitorLookup::AwaitingMonitor(None), LookupEvent::OperationChecked(true)) == (
            MonitorLookup::Done,
            LookupAction::Finish(Err(GetMonitorError::NoDefaultMonitor)),
        ),
        lookup_next(MonitorLookup::AwaitingMonitor(None), LookupEvent::OperationChecked(false))
            == (MonitorLookup::AwaitingMonitor(None), LookupAction::Iterate),
        lookup_next(MonitorLookup::NoSink, LookupEvent::Iterated(IterateOutcome::Success(n))) == (
            MonitorLookup::Done,
            LookupAction::Finish(Err(GetMonitorError::NoDefaultSink)),
        ),
{
}

/// The lookup reports `NoDefaultSink` exactly when a successful iteration
/// follows a server description that named no default sink.
pub proof fn lemma_no_default_sink_exactly_after_missing_sink(s: MonitorLookup, e: LookupEvent)
    ensures
        lookup_next(s, e).1 == LookupAction::Finish(Err(GetMonitorError::NoDefaultSink)) <==> (s
            is NoSink && e matches LookupEvent::Iterated(IterateOutcome::Success(_))),
{
}

/// From the start, a server that names no default sink ends the lookup with
/// `NoDefaultSink` at the next successful iteration, before any sink is asked
/// about.
pub proof fn lemma_missing_sink_reported(n: u32)
    ensures
        ({
            let s1 = lookup_next(MonitorLookup::AwaitingSink(None), LookupEvent::ServerInfo(None));
            let s2 = lookup_next(s1.0, LookupEvent::Iterated(IterateOutcome::Success(n)));
            &&& s1 == (MonitorLookup::NoSink, LookupAction::Wait)
            &&& s2 == (MonitorLookup::Done, LookupAction::Finish(
                Err(GetMonitorError::NoDefaultSink),
            ))
        }),
{
}

} // verus!
