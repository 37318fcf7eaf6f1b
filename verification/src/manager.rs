//! The session manager: at most one session runs at a time.
//!
//! The manager keeps the books. Whoever owns it spawns the thread that
//! drives the session it hands out, and tells it how that thread ended.

use crate::session::{spec_new_session, SessionEnd, SessionError, StreamDecoder, RELAY_PORT};
use vstd::prelude::*;

verus! {

/// The refusal of a start request while a session is running.
#[derive(Clone, Copy, Debug, PartialEq, Eq, Structural)]
pub struct AlreadyRunningError;

/// Names one started session. Handed out by [`SessionManager::start`] and
/// given back to [`SessionManager::stop`].
#[derive(Debug, PartialEq, Eq)]
pub struct SessionHandle {
    serial: u64,
}

/// How the thread that drove a session ended.
#[derive(Clone, Copy, Debug, PartialEq, Eq, Structural)]
pub enum ThreadExit {
    /// The thread returned, and the session had ended so.
    Returned(SessionEnd),
    /// The thread was cut short by a failure that the session did not report.
    Aborted,
}

/// What became of a session that was stopped.
#[derive(Clone, Copy, Debug, PartialEq, Eq, Structural)]
pub enum StopReport {
    /// The stream was cancelled by request.
    Cancelled,
    /// The stream ended by itself, for the given reason, before the request
    /// was seen.
    StreamEnded(SessionError),
    /// The session's thread was cut short.
    Aborted,
}

/// A manager as a value: the serial number of the running session, if one
/// runs, and the serial number that the next session gets.
pub struct ManagerView {
    pub active: Option<u64>,
    pub next_serial: u64,
}

/// The serial number after `serial`; after the last one the count starts
/// over.
pub open spec fn spec_next_serial(serial: u64) -> u64 {
    if serial < u64::MAX {
        (serial + 1) as u64
    } else {
        0
    }
}

/// The manager after a start request, and the serial number of the session
/// that was started, if one was.
pub open spec fn spec_manager_start(m: ManagerView) -> (
    ManagerView,
    Result<u64, AlreadyRunningError>,
) {
    if m.active is Some {
        (m, Err(AlreadyRunningError))
    } else {
        (
            ManagerView {
                active: Some(m.next_serial),
                next_serial: spec_next_serial(m.next_serial),
            },
            Ok(m.next_serial),
        )
    }
}

/// What is reported of a session whose thread ended with `exit`.
pub open spec fn spec_stop_report(exit: ThreadExit) -> StopReport {
    match exit {
        ThreadExit::Returned(SessionEnd::Cancelled) => StopReport::Cancelled,
        ThreadExit::Returned(SessionEnd::Failed(error)) => StopReport::StreamEnded(error),
        ThreadExit::Aborted => StopReport::Aborted,
    }
}

/// The line for the diagnostics on a stopped session.
pub open spec fn spec_report_message(report: StopReport) -> &'static str {
    match report {
        StopReport::Cancelled => "Stream cancelled by request.",
        StopReport::StreamEnded(_) => "Stream ended.",
        StopReport::Aborted => "Stream thread was aborted.",
    }
}

/// The manager after a stop request for the session with the given serial
/// number, and the report, if that session was running.
pub open spec fn spec_manager_stop(m: ManagerView, serial: u64, exit: ThreadExit) -> (
    ManagerView,
    Option<StopReport>,
) {
    if m.active == Some(serial) {
        (ManagerView { active: None, ..m }, Some(spec_stop_report(exit)))
    } else {
        (m, None)
    }
}

impl StopReport {
    /// The line for the diagnostics on a stopped session. Why a stream ended
    /// by itself is told by the line of that end.
    pub fn message(&self) -> (m: &'static str)
        ensures
            m == spec_report_message(*self),
    {
        match self {
            StopReport::Cancelled => "Stream cancelled by request.",
            StopReport::StreamEnded(_) => "Stream ended.",
            StopReport::Aborted => "Stream thread was aborted.",
        }
    }
}

impl SessionHandle {
    /// The serial number of the session that this handle names.
    pub fn serial(&self) -> (serial: u64)
        ensures
            serial == self.spec_serial(),
    {
        self.serial
    }

    /// The serial number of the session that this handle names.
    pub closed spec fn spec_serial(&self) -> u64 {
        self.serial
    }
}

/// Holds at most one running session.
pub struct SessionManager {
    active: Option<u64>,
    next_serial: u64,
}

impl View for SessionManager {
    type V = ManagerView;

    closed spec fn view(&self) -> ManagerView {
        ManagerView { active: self.active, next_serial: self.next_serial }
    }
}

impl SessionManager {
    /// A manager with no session running.
    pub fn new() -> (m: Self)
        ensures
            m@ == (ManagerView { active: None, next_serial: 0 }),
    {
        SessionManager { active: None, next_serial: 0 }
    }

    /// Whether a session is running.
    pub fn is_running(&self) -> (running: bool)
        ensures
            running == self@.active is Some,
    {
        self.active.is_some()
    }

    /// Starts a session to the producer at `remote_host` and `remote_port`.
    ///
    /// While a session is running the request is refused and nothing
    /// changes. Otherwise the manager counts the new session as running and
    /// hands out its handle together with the session itself, new, for a
    /// thread to drive.
    pub fn start(&mut self, remote_host: String, remote_port: u16) -> (r: Result<
        (SessionHandle, StreamDecoder),
        AlreadyRunningError,
    >)
        ensures
            final(self)@ == spec_manager_start(old(self)@).0,
            match spec_manager_start(old(self)@).1 {
                Ok(serial) => r matches Ok((handle, session)) && handle.spec_serial() == serial
                    && session@ == spec_new_session(remote_host@, remote_port, RELAY_PORT),
                Err(e) => r matches Err(_),
            },
    {
        if self.active.is_some() {
            return Err(AlreadyRunningError);
        }
        let serial: u64 = self.next_serial;
        self.active = Some(serial);
        self.next_serial = if serial < u64::MAX {
            serial + 1
        } else {
            0
        };
        Ok((SessionHandle { serial }, StreamDecoder::new(remote_host, remote_port)))
    }

    /// Stops the session that `handle` names, whose thread ended with `exit`.
    ///
    /// If that session is the running one, no session runs afterwards and
    /// the report says what became of the stream. Otherwise nothing changes
    /// and there is no report.
    pub fn stop(&mut self, handle: SessionHandle, exit: ThreadExit) -> (r: Option<StopReport>)
        ensures
            final(self)@ == spec_manager_stop(old(self)@, handle.spec_serial(), exit).0,
            r == spec_manager_stop(old(self)@, handle.spec_serial(), exit).1,
    {
        let running: bool = match self.active {
            Some(serial) => serial == handle.serial,
            None => false,
        };
        if !running {
            return None;
        }
        self.active = None;
        Some(
            match exit {
                ThreadExit::Returned(SessionEnd::Cancelled) => StopReport::Cancelled,
                ThreadExit::Returned(SessionEnd::Failed(error)) => StopReport::StreamEnded(error),
                ThreadExit::Aborted => StopReport::Aborted,
            },
        )
    }
}

/// Single session: a start request that follows a successful one, with no
/// stop between them, is refused and leaves the manager as it was.
pub proof fn lemma_second_start_is_refused(m: ManagerView)
    requires
        spec_manager_start(m).1 is Ok,
    ensures
        spec_manager_start(spec_manager_start(m).0) == (
            spec_manager_start(m).0,
            Err::<u64, AlreadyRunningError>(AlreadyRunningError),
        ),
{
}

/// A start request is refused exactly while a session is running, and a
/// refused request changes nothing.
pub proof fn lemma_start_refused_iff_running(m: ManagerView)
    ensures
        spec_manager_start(m).1 is Err <==> m.active is Some,
        spec_manager_start(m).1 is Err ==> spec_manager_start(m).0 == m,
        spec_manager_start(m).0.active is Some,
{
}

/// Once the running session is stopped, a session can be started again.
pub proof fn lemma_stop_frees_the_slot(m: ManagerView, exit: ThreadExit)
    requires
        m.active is Some,
    ensures
        spec_manager_stop(m, m.active->Some_0, exit).1 == Some(spec_stop_report(exit)),
        spec_manager_start(spec_manager_stop(m, m.active->Some_0, exit).0).1 is Ok,
{
}

/// A stream that was cancelled by request is reported apart from one that
/// ended by itself, and both apart from a thread cut short.
pub proof fn lemma_reports_tell_causes_apart(a: ThreadExit, b: ThreadExit)
    ensures
        spec_stop_report(a) == spec_stop_report(b) <==> a == b,
{
}

} // verus!
