use vstd::prelude::*;

verus! {

/// What the VT manager service did last.
pub enum ServiceEvent {
    Started,
    StatusSent,
    VtReported,
    ConsoleSetUp,
    ReadySent,
    Slept,
    WatchdogSent,
}

/// What the VT manager service does next.
pub enum ServiceAction {
    /// Report this status line to the service manager.
    SendStatus(String),
    /// Report which virtual terminal is active.
    ReportActiveVt,
    /// Set up the console font and keyboard.
    SetUpConsole,
    /// Tell the service manager that the service is ready.
    SendReady,
    /// Wait this many seconds.
    Sleep(u64),
    /// Feed the service manager's watchdog.
    SendWatchdog,
}

/// The seconds between two watchdog notifications.
pub const WATCHDOG_INTERVAL_SECS: u64 = 30;

/// The status line that the service reports when it starts.
pub open spec fn starting_status() -> Seq<char> {
    "Starting Rusted-Linux VT Manager"@
}

/// The action that follows `ev`: announce the start, report the active
/// terminal, set up the console, report readiness, then sleep and feed the
/// watchdog in turn, forever.
pub open spec fn spec_service_step(a: ServiceAction, ev: ServiceEvent) -> bool {
    match ev {
        ServiceEvent::Started => a matches ServiceAction::SendStatus(s) && s@ == starting_status(),
        ServiceEvent::StatusSent => a is ReportActiveVt,
        ServiceEvent::VtReported => a is SetUpConsole,
        ServiceEvent::ConsoleSetUp => a is SendReady,
        ServiceEvent::ReadySent | ServiceEvent::WatchdogSent =>
            a == ServiceAction::Sleep(WATCHDOG_INTERVAL_SECS),
        ServiceEvent::Slept => a is SendWatchdog,
    }
}

/// The next step of the VT manager service after `event`.
pub fn service_step(event: ServiceEvent) -> (a: ServiceAction)
    ensures
        spec_service_step(a, event),
{
    match event {
        ServiceEvent::Started => ServiceAction::SendStatus(String::from_str("Starting Rusted-Linux VT Manager")),
        ServiceEvent::StatusSent => ServiceAction::ReportActiveVt,
        ServiceEvent::VtReported => ServiceAction::SetUpConsole,
        ServiceEvent::ConsoleSetUp => ServiceAction::SendReady,
        ServiceEvent::ReadySent | ServiceEvent::WatchdogSent => ServiceAction::Sleep(WATCHDOG_INTERVAL_SECS),
        ServiceEvent::Slept => ServiceAction::SendWatchdog,
    }
}

/// The event that reports that action `a` was carried out.
pub open spec fn done_event(a: ServiceAction) -> ServiceEvent {
    match a {
        ServiceAction::SendStatus(_) => ServiceEvent::StatusSent,
        ServiceAction::ReportActiveVt => ServiceEvent::VtReported,
        ServiceAction::SetUpConsole => ServiceEvent::ConsoleSetUp,
        ServiceAction::SendReady => ServiceEvent::ReadySent,
        ServiceAction::Sleep(_) => ServiceEvent::Slept,
        ServiceAction::SendWatchdog => ServiceEvent::WatchdogSent,
    }
}

/// A run of the service, each action carried out before the next is chosen:
/// it reports its start, the active terminal, sets up the console and
/// reports readiness, once each and in that order; from then on it sleeps
/// for the watchdog interval and feeds the watchdog, in turn.
pub proof fn lemma_service_run(acts: Seq<ServiceAction>)
    requires
        acts.len() > 0,
        spec_service_step(acts[0], ServiceEvent::Started),
        forall|i: int| 0 < i < acts.len() ==>
            #[trigger] spec_service_step(acts[i], done_event(acts[i - 1])),
    ensures
        acts[0] matches ServiceAction::SendStatus(s) && s@ == starting_status(),
        acts.len() > 1 ==> acts[1] is ReportActiveVt,
        acts.len() > 2 ==> acts[2] is SetUpConsole,
        acts.len() > 3 ==> acts[3] is SendReady,
        forall|i: int| 4 <= i < acts.len() && (i - 4) % 2 == 0 ==>
            #[trigger] acts[i] == ServiceAction::Sleep(WATCHDOG_INTERVAL_SECS),
        forall|i: int| 4 <= i < acts.len() && (i - 4) % 2 == 1 ==> #[trigger] acts[i] is SendWatchdog,
{
    assert forall|i: int| 0 <= i < acts.len() implies #[trigger] service_at(acts[i], i) by {
        lemma_service_prefix(acts, i);
    }
    assert forall|i: int| 4 <= i < acts.len() && (i - 4) % 2 == 0 implies
        #[trigger] acts[i] == ServiceAction::Sleep(WATCHDOG_INTERVAL_SECS) by {
        assert(service_at(acts[i], i));
    }
    assert forall|i: int| 4 <= i < acts.len() && (i - 4) % 2 == 1 implies #[trigger] acts[i] is SendWatchdog by {
        assert(service_at(acts[i], i));
    }
    assert(service_at(acts[0], 0));
    if acts.len() > 3 {
        assert(service_at(acts[1], 1));
        assert(service_at(acts[2], 2));
        assert(service_at(acts[3], 3));
    } else if acts.len() > 2 {
        assert(service_at(acts[1], 1));
        assert(service_at(acts[2], 2));
    } else if acts.len() > 1 {
        assert(service_at(acts[1], 1));
    }
}

/// What the action at position `i` of a run of the service is.
spec fn service_at(a: ServiceAction, i: int) -> bool {
    if i == 0 {
        a matches ServiceAction::SendStatus(s) && s@ == starting_status()
    } else if i == 1 {
        a is ReportActiveVt
    } else if i == 2 {
        a is SetUpConsole
    } else if i == 3 {
        a is SendReady
    } else if (i - 4) % 2 == 0 {
        a == ServiceAction::Sleep(WATCHDOG_INTERVAL_SECS)
    } else {
        a is SendWatchdog
    }
}

proof fn lemma_service_prefix(acts: Seq<ServiceAction>, i: int)
    requires
        acts.len() > 0,
        spec_service_step(acts[0], ServiceEvent::Started),
        forall|j: int| 0 < j < acts.len() ==>
            #[trigger] spec_service_step(acts[j], done_event(acts[j - 1])),
        0 <= i < acts.len(),
    ensures
        service_at(acts[i], i),
    decreases i,
{
    if i > 0 {
        lemma_service_prefix(acts, i - 1);
        assert(spec_service_step(acts[i], done_event(acts[i - 1])));
        if i >= 5 {
            assert((i - 4) % 2 == 0 <==> (i - 5) % 2 == 1);
        }
    }
}

} // verus!
