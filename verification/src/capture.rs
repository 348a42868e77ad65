//! The capture protocol: in which order a snapshot is taken from a metric
//! source, and what becomes of it when the source fails.
//!
//! The library does not read the operating system. A capture session tells
//! its caller what to ask of the source next, the caller does so and hands
//! back what came of it. The session asks for one refresh first, then for the
//! volumes, the interfaces, the process table and the host scalars, and
//! delivers the report once it has them all. A failure of the source, or an
//! answer that was not asked for, ends the session without a report.
//!
//! A session belongs to one capture. It is moved from step to step and holds
//! nothing that another capture could see, so captures that run side by side
//! cannot mix their readings.

use vstd::prelude::*;
use crate::report::{is_snapshot_of, SnapshotReport};
use crate::source::{DiskReading, HostReading, InterfaceReading, ProcessReading, SourceReadings};

verus! {

/// A step of a capture: what the session has asked of the source.
#[derive(Clone, Copy, Debug, PartialEq, Eq, Structural)]
pub enum Stage {
    Refresh,
    Disks,
    Networks,
    Processes,
    Host,
}

/// What came of the request that the session made last.
#[derive(Debug, PartialEq, Eq)]
pub enum CaptureEvent {
    /// The source has refreshed its state.
    Refreshed,
    /// The freshly listed volumes.
    Disks(Vec<DiskReading>),
    /// The freshly listed network interfaces.
    Networks(Vec<InterfaceReading>),
    /// The process table as of the refresh.
    Processes(Vec<ProcessReading>),
    /// The host scalars as of the refresh.
    Host(HostReading),
    /// The source could not do what was asked.
    Failed,
}

/// Why a capture ended without a report.
#[derive(Clone, Copy, Debug, PartialEq, Eq, Structural)]
pub enum CaptureError {
    /// The source failed at the given stage.
    AdapterFailure(Stage),
    /// The session waited for the given stage and was handed something else.
    OutOfOrder(Stage),
    /// The session had ended before.
    SessionClosed,
}

/// What the caller is to do next.
#[derive(Debug, PartialEq, Eq)]
pub enum CaptureAction {
    /// Refresh the source, then report `Refreshed`.
    RefreshAll,
    /// List the volumes afresh.
    ListDisks,
    /// List the network interfaces afresh.
    ListNetworks,
    /// Read the process table.
    ListProcesses,
    /// Read the host scalars.
    ReadHost,
    /// The capture is complete: this is its report.
    Deliver(SnapshotReport),
    /// The capture has failed as a whole: there is no report.
    Abort(CaptureError),
}

/// One capture in progress: the stage it waits for and the readings it has
/// gathered so far.
#[derive(Debug, PartialEq, Eq)]
pub enum CaptureSession {
    AwaitingRefresh,
    AwaitingDisks,
    AwaitingNetworks { disks: Vec<DiskReading> },
    AwaitingProcesses { disks: Vec<DiskReading>, networks: Vec<InterfaceReading> },
    AwaitingHost {
        disks: Vec<DiskReading>,
        networks: Vec<InterfaceReading>,
        processes: Vec<ProcessReading>,
    },
    Closed,
}

impl CaptureSession {
    /// The stage the session waits for, if it is still open.
    pub open spec fn pending(self) -> Option<Stage> {
        match self {
            CaptureSession::AwaitingRefresh => Some(Stage::Refresh),
            CaptureSession::AwaitingDisks => Some(Stage::Disks),
            CaptureSession::AwaitingNetworks { .. } => Some(Stage::Networks),
            CaptureSession::AwaitingProcesses { .. } => Some(Stage::Processes),
            CaptureSession::AwaitingHost { .. } => Some(Stage::Host),
            CaptureSession::Closed => None,
        }
    }

    /// Whether `event` completes the capture: the session has everything but
    /// the host scalars and is handed them.
    pub open spec fn delivers(self, event: CaptureEvent) -> bool {
        self is AwaitingHost && event is Host
    }

    /// The readings a completed capture has gathered, `event` bringing the
    /// last of them.
    pub open spec fn gathered(self, event: CaptureEvent) -> SourceReadings
        recommends
            self.delivers(event),
    {
        SourceReadings {
            host: event->Host_0,
            disks: self->AwaitingHost_disks,
            networks: self->AwaitingHost_networks,
            processes: self->AwaitingHost_processes,
        }
    }

    /// The session after `event`. The answer that was asked for moves it to
    /// the next stage; anything else closes it.
    pub open spec fn after(self, event: CaptureEvent) -> CaptureSession {
        match (self, event) {
            (CaptureSession::AwaitingRefresh, CaptureEvent::Refreshed) => {
                CaptureSession::AwaitingDisks
            },
            (CaptureSession::AwaitingDisks, CaptureEvent::Disks(disks)) => {
                CaptureSession::AwaitingNetworks { disks }
            },
            (CaptureSession::AwaitingNetworks { disks }, CaptureEvent::Networks(networks)) => {
                CaptureSession::AwaitingProcesses { disks, networks }
            },
            (
                CaptureSession::AwaitingProcesses { disks, networks },
                CaptureEvent::Processes(processes),
            ) => CaptureSession::AwaitingHost { disks, networks, processes },
            _ => CaptureSession::Closed,
        }
    }

    /// What the caller is told after `event`, unless `event` completes the
    /// capture.
    pub open spec fn reply(self, event: CaptureEvent) -> CaptureAction
        recommends
            !self.delivers(event),
    {
        match self.pending() {
            None => CaptureAction::Abort(CaptureError::SessionClosed),
            Some(stage) => if event is Failed {
                CaptureAction::Abort(CaptureError::AdapterFailure(stage))
            } else {
                match self.after(event) {
                    CaptureSession::AwaitingDisks => CaptureAction::ListDisks,
                    CaptureSession::AwaitingNetworks { .. } => CaptureAction::ListNetworks,
                    CaptureSession::AwaitingProcesses { .. } => CaptureAction::ListProcesses,
                    CaptureSession::AwaitingHost { .. } => CaptureAction::ReadHost,
                    _ => CaptureAction::Abort(CaptureError::OutOfOrder(stage)),
                }
            },
        }
    }

    /// The session after a run of events, taken in order.
    pub open spec fn after_all(self, events: Seq<CaptureEvent>) -> CaptureSession
        decreases events.len(),
    {
        if events.len() == 0 {
            self
        } else {
            self.after_all(events.drop_last()).after(events.last())
        }
    }

    /// Opens a capture. The first thing to do is to refresh the source.
    pub fn begin() -> (start: (CaptureSession, CaptureAction))
        ensures
            start.0 == CaptureSession::AwaitingRefresh,
            start.1 == CaptureAction::RefreshAll,
    {
        (CaptureSession::AwaitingRefresh, CaptureAction::RefreshAll)
    }

    /// Takes what came of the last request and says what to do next.
    ///
    /// When the host scalars arrive last, the report of everything gathered is
    /// delivered. When the source failed, or the event is not the one awaited,
    /// or the session had ended, the capture is aborted.
    pub fn advance(self, event: CaptureEvent) -> (next: (CaptureSession, CaptureAction))
        ensures
            next.0 == self.after(event),
            !self.delivers(event) ==> next.1 == self.reply(event),
            self.delivers(event) ==> (next.1 matches CaptureAction::Deliver(report)
                && is_snapshot_of(report@, self.gathered(event))),
    {
        match self {
            CaptureSession::AwaitingRefresh => match event {
                CaptureEvent::Refreshed => (CaptureSession::AwaitingDisks, CaptureAction::ListDisks),
                CaptureEvent::Failed => Self::abort(CaptureError::AdapterFailure(Stage::Refresh)),
                _ => Self::abort(CaptureError::OutOfOrder(Stage::Refresh)),
            },
            CaptureSession::AwaitingDisks => match event {
                CaptureEvent::Disks(disks) => (
                    CaptureSession::AwaitingNetworks { disks },
                    CaptureAction::ListNetworks,
                ),
                CaptureEvent::Failed => Self::abort(CaptureError::AdapterFailure(Stage::Disks)),
                _ => Self::abort(CaptureError::OutOfOrder(Stage::Disks)),
            },
            CaptureSession::AwaitingNetworks { disks } => match event {
                CaptureEvent::Networks(networks) => (
                    CaptureSession::AwaitingProcesses { disks, networks },
                    CaptureAction::ListProcesses,
                ),
                CaptureEvent::Failed => Self::abort(CaptureError::AdapterFailure(Stage::Networks)),
                _ => Self::abort(CaptureError::OutOfOrder(Stage::Networks)),
            },
            CaptureSession::AwaitingProcesses { disks, networks } => match event {
                CaptureEvent::Processes(processes) => (
                    CaptureSession::AwaitingHost { disks, networks, processes },
                    CaptureAction::ReadHost,
                ),
                CaptureEvent::Failed => Self::abort(
                    CaptureError::AdapterFailure(Stage::Processes),
                ),
                _ => Self::abort(CaptureError::OutOfOrder(Stage::Processes)),
            },
            CaptureSession::AwaitingHost { disks, networks, processes } => match event {
                CaptureEvent::Host(host) => {
                    let readings = SourceReadings { host, disks, networks, processes };
                    let report = SnapshotReport::assemble(readings);
                    (CaptureSession::Closed, CaptureAction::Deliver(report))
                },
                CaptureEvent::Failed => Self::abort(CaptureError::AdapterFailure(Stage::Host)),
                _ => Self::abort(CaptureError::OutOfOrder(Stage::Host)),
            },
            CaptureSession::Closed => Self::abort(CaptureError::SessionClosed),
        }
    }

    /// Ends a capture without a report.
    fn abort(error: CaptureError) -> (end: (CaptureSession, CaptureAction))
        ensures
            end.0 == CaptureSession::Closed,
            end.1 == CaptureAction::Abort(error),
    {
        (CaptureSession::Closed, CaptureAction::Abort(error))
    }
}

/// A failure of the source ends the capture whatever its stage: the session
/// closes and the caller is told to abort, never handed a report.
pub proof fn lemma_failure_aborts(session: CaptureSession, event: CaptureEvent)
    requires
        event is Failed,
    ensures
        !session.delivers(event),
        session.after(event) is Closed,
        session.reply(event) is Abort,
        session.pending() matches Some(stage) ==> session.reply(event) == CaptureAction::Abort(
            CaptureError::AdapterFailure(stage),
        ),
{
}

/// A closed session stays closed and delivers nothing, whatever it is handed.
pub proof fn lemma_closed_is_final(events: Seq<CaptureEvent>, event: CaptureEvent)
    ensures
        CaptureSession::Closed.after_all(events) is Closed,
        !CaptureSession::Closed.after_all(events).delivers(event),
        CaptureSession::Closed.after_all(events).reply(event) == CaptureAction::Abort(
            CaptureError::SessionClosed,
        ),
    decreases events.len(),
{
    if events.len() > 0 {
        lemma_closed_is_final(events.drop_last(), events.last());
    }
}

/// A session that is still open has been handed exactly the answers to the
/// stages before the one it waits for, in order, and holds what they brought.
pub proof fn lemma_open_session_history(events: Seq<CaptureEvent>)
    ensures
        ({
            let session = CaptureSession::AwaitingRefresh.after_all(events);
            &&& session is AwaitingRefresh ==> events.len() == 0
            &&& session is AwaitingDisks ==> events.len() == 1 && events[0] is Refreshed
            &&& session matches CaptureSession::AwaitingNetworks { disks } ==> events.len() == 2
                && events[0] is Refreshed && events[1] == CaptureEvent::Disks(disks)
            &&& session matches CaptureSession::AwaitingProcesses { disks, networks }
                ==> events.len() == 3 && events[0] is Refreshed && events[1]
                == CaptureEvent::Disks(disks) && events[2] == CaptureEvent::Networks(networks)
            &&& session matches CaptureSession::AwaitingHost { disks, networks, processes }
                ==> events.len() == 4 && events[0] is Refreshed && events[1]
                == CaptureEvent::Disks(disks) && events[2] == CaptureEvent::Networks(networks)
                && events[3] == CaptureEvent::Processes(processes)
        }),
    decreases events.len(),
{
    if events.len() > 0 {
        lemma_open_session_history(events.drop_last());
    }
}

/// A report is delivered only at the end of a full capture: after one refresh,
/// the volumes, the interfaces and the process table, in that order, by the
/// host scalars; and it is the report of exactly those readings.
pub proof fn lemma_delivery_needs_every_stage(events: Seq<CaptureEvent>, last: CaptureEvent)
    requires
        CaptureSession::AwaitingRefresh.after_all(events).delivers(last),
    ensures
        events.len() == 4,
        events[0] is Refreshed,
        events[1] is Disks,
        events[2] is Networks,
        events[3] is Processes,
        last is Host,
        CaptureSession::AwaitingRefresh.after_all(events).gathered(last) == (SourceReadings {
            host: last->Host_0,
            disks: events[1]->Disks_0,
            networks: events[2]->Networks_0,
            processes: events[3]->Processes_0,
        }),
{
    lemma_open_session_history(events);
}

/// Once the source has failed, the capture is over: the session is closed
/// after any run of events that holds a failure, so nothing handed to it
/// later brings a report.
pub proof fn lemma_no_report_after_failure(events: Seq<CaptureEvent>, at: int, later: CaptureEvent)
    requires
        0 <= at < events.len(),
        events[at] is Failed,
    ensures
        CaptureSession::AwaitingRefresh.after_all(events) is Closed,
        !CaptureSession::AwaitingRefresh.after_all(events).delivers(later),
{
    lemma_open_session_history(events);
}

} // verus!
