//! The supervisor of the player process: it has the player spawned, guards it
//! with a signal handler and a watchdog, and waits for it to exit.
//!
//! Three parties act on one process: the main path, the signal handler and
//! the watchdog. They share the process identifier, which is fixed once the
//! process is spawned, and the termination flag, which the signal handler
//! raises. Each party decides here and acts in the caller.

use vstd::prelude::*;
use vstd::string::StringExecFns;

verus! {

/// The process identifier that stands for "no process".
pub const NO_PROCESS: i32 = -1;

/// The time the watchdog sleeps between two looks at the termination flag,
/// in milliseconds.
pub const WATCHDOG_INTERVAL_MS: u64 = 100;

/// The process identifier kept for a spawned process: the identifier that the
/// system reported where it fits, and `NO_PROCESS` where none was reported or
/// it does not fit.
pub open spec fn process_id_of(id: Option<u32>) -> i32 {
    match id {
        Some(n) => if n <= i32::MAX {
            n as i32
        } else {
            NO_PROCESS
        },
        None => NO_PROCESS,
    }
}

/// Returns the process identifier kept for a spawned process.
pub fn process_id(id: Option<u32>) -> (r: i32)
    ensures
        r == process_id_of(id),
{
    match id {
        Some(n) => if n <= 0x7fff_ffff {
            n as i32
        } else {
            NO_PROCESS
        },
        None => NO_PROCESS,
    }
}

/// The process to terminate, if any: every identifier but `NO_PROCESS` names
/// one.
pub open spec fn termination_target_of(pid: i32) -> Option<i32> {
    if pid != NO_PROCESS {
        Some(pid)
    } else {
        None
    }
}

/// What the signal handler does when a signal arrives: it asks for the
/// process `pid` to be terminated, unless `pid` stands for no process. The
/// answer is the same however often it is asked.
pub fn termination_target(pid: i32) -> (r: Option<i32>)
    ensures
        r == termination_target_of(pid),
{
    if pid != NO_PROCESS {
        Some(pid)
    } else {
        None
    }
}

/// What the watchdog asks the caller to do.
#[derive(Clone, Copy, Debug, PartialEq, Eq, Structural)]
pub enum WatchdogAction {
    /// Read the termination flag.
    ReadFlag,
    /// Sleep for this many milliseconds.
    Sleep { millis: u64 },
    /// Ask the system to terminate this process.
    Terminate { pid: i32 },
}

/// What the caller reports to the watchdog.
#[derive(Clone, Copy, Debug, PartialEq, Eq, Structural)]
pub enum WatchdogEvent {
    /// The termination flag was read.
    Flag { raised: bool },
    /// The sleep is over.
    Woke,
    /// The system was asked to terminate the process; `delivered` is false
    /// where it found no such process.
    TerminationReported { delivered: bool },
}

/// Where the watchdog stands in its round.
#[derive(Clone, Copy, Debug, PartialEq, Eq, Structural)]
pub enum WatchdogPhase {
    /// About to read the termination flag.
    Polling,
    /// Asleep between two looks at the flag.
    Sleeping,
    /// Waiting for the system to take the termination request.
    Terminating,
    /// Stopped: the flag was raised.
    Stopped,
}

/// The watchdog of one process.
#[derive(Clone, Copy, Debug, PartialEq, Eq, Structural)]
pub struct Watchdog {
    /// The process it watches, fixed when it is armed.
    pub pid: i32,
    /// Where it stands.
    pub phase: WatchdogPhase,
}

/// The action that the watchdog waits for; once stopped it waits for none.
pub open spec fn pending_watchdog(w: Watchdog) -> Option<WatchdogAction> {
    match w.phase {
        WatchdogPhase::Polling => Some(WatchdogAction::ReadFlag),
        WatchdogPhase::Sleeping => Some(WatchdogAction::Sleep { millis: WATCHDOG_INTERVAL_MS }),
        WatchdogPhase::Terminating => Some(WatchdogAction::Terminate { pid: w.pid }),
        WatchdogPhase::Stopped => None,
    }
}

/// The watchdog that follows `w` on `event`.
///
/// While the flag is not raised the watchdog sleeps one interval and then
/// asks for the process to be terminated, round after round; an identifier
/// that stands for no process is skipped. Whatever the system answers to the
/// request, the next round begins. A raised flag stops the watchdog for good.
/// An event that answers nothing the watchdog waits for changes nothing.
pub open spec fn next_watchdog(w: Watchdog, event: WatchdogEvent) -> Watchdog {
    match (w.phase, event) {
        (WatchdogPhase::Polling, WatchdogEvent::Flag { raised }) => Watchdog {
            phase: if raised {
                WatchdogPhase::Stopped
            } else {
                WatchdogPhase::Sleeping
            },
            ..w
        },
        (WatchdogPhase::Sleeping, WatchdogEvent::Woke) => Watchdog {
            phase: if w.pid != NO_PROCESS {
                WatchdogPhase::Terminating
            } else {
                WatchdogPhase::Polling
            },
            ..w
        },
        (WatchdogPhase::Terminating, WatchdogEvent::TerminationReported { .. }) => Watchdog {
            phase: WatchdogPhase::Polling,
            ..w
        },
        _ => w,
    }
}

impl Watchdog {
    /// Arms the watchdog for the process `pid`: it starts by reading the flag.
    pub fn arm(pid: i32) -> (r: Watchdog)
        ensures
            r == (Watchdog { pid, phase: WatchdogPhase::Polling }),
    {
        Watchdog { pid, phase: WatchdogPhase::Polling }
    }

    /// The action that the watchdog waits for; `None` once it has stopped.
    pub fn pending(&self) -> (r: Option<WatchdogAction>)
        ensures
            r == pending_watchdog(*self),
            r is None <==> self.phase == WatchdogPhase::Stopped,
    {
        match self.phase {
            WatchdogPhase::Polling => Some(WatchdogAction::ReadFlag),
            WatchdogPhase::Sleeping => Some(WatchdogAction::Sleep { millis: WATCHDOG_INTERVAL_MS }),
            WatchdogPhase::Terminating => Some(WatchdogAction::Terminate { pid: self.pid }),
            WatchdogPhase::Stopped => None,
        }
    }

    /// Takes the report of the caller and moves on.
    pub fn on_event(self, event: WatchdogEvent) -> (r: Watchdog)
        ensures
            r == next_watchdog(self, event),
    {
        match (self.phase, event) {
            (WatchdogPhase::Polling, WatchdogEvent::Flag { raised }) => {
                if raised {
                    Watchdog { pid: self.pid, phase: WatchdogPhase::Stopped }
                } else {
                    Watchdog { pid: self.pid, phase: WatchdogPhase::Sleeping }
                }
            },
            (WatchdogPhase::Sleeping, WatchdogEvent::Woke) => {
                if self.pid != NO_PROCESS {
                    Watchdog { pid: self.pid, phase: WatchdogPhase::Terminating }
                } else {
                    Watchdog { pid: self.pid, phase: WatchdogPhase::Polling }
                }
            },
            (WatchdogPhase::Terminating, WatchdogEvent::TerminationReported { .. }) => {
                Watchdog { pid: self.pid, phase: WatchdogPhase::Polling }
            },
            _ => self,
        }
    }
}

/// One spawned player process as the supervisor tracks it.
#[derive(Clone, Copy, Debug, PartialEq, Eq, Structural)]
pub struct PlaybackSession {
    /// The identifier of the process, fixed at spawn time.
    pub process_id: i32,
    /// Whether a termination request has been seen to reach the process. Once
    /// set it stays set.
    pub terminated: bool,
}

/// Why supervising the player failed. Each case carries the text of the
/// failure as the caller met it.
#[derive(Debug, PartialEq, Eq)]
pub enum SupervisorError {
    /// The player could not be started.
    Spawn(String),
    /// The signal handler could not be registered.
    Handler(String),
    /// Waiting for the player to exit failed.
    Wait(String),
}

/// The line that reports a supervisor failure to the user.
pub open spec fn supervisor_error_message(e: SupervisorError) -> Seq<char> {
    match e {
        SupervisorError::Spawn(detail) => "cannot start the player: "@ + detail@,
        SupervisorError::Handler(detail) => "cannot register the signal handler: "@ + detail@,
        SupervisorError::Wait(detail) => "cannot wait for the player: "@ + detail@,
    }
}

impl SupervisorError {
    /// Returns the line that reports this failure to the user.
    pub fn message(&self) -> (r: String)
        ensures
            r@ == supervisor_error_message(*self),
    {
        match self {
            SupervisorError::Spawn(detail) => {
                let mut out = "cannot start the player: ".to_owned();
                out.append(detail.as_str());
                out
            },
            SupervisorError::Handler(detail) => {
                let mut out = "cannot register the signal handler: ".to_owned();
                out.append(detail.as_str());
                out
            },
            SupervisorError::Wait(detail) => {
                let mut out = "cannot wait for the player: ".to_owned();
                out.append(detail.as_str());
                out
            },
        }
    }
}

/// What the supervisor asks the caller to do.
#[derive(Debug, PartialEq, Eq)]
pub enum SupervisorAction {
    /// Start the player at this volume on this address.
    Spawn { volume: u8, url: String },
    /// Register the handler that terminates this process on an interrupt or
    /// termination signal.
    RegisterHandler { pid: i32 },
    /// Schedule the watchdog of this process in the background.
    ArmWatchdog { pid: i32 },
    /// Wait for the player to exit.
    Wait,
}

/// What the caller reports to the supervisor.
#[derive(Debug, PartialEq, Eq)]
pub enum SupervisorEvent {
    /// A station was chosen: play this address at this volume.
    Launch { volume: u8, url: String },
    /// The player runs; `id` is the identifier that the system reported.
    Spawned { id: Option<u32> },
    /// The player could not be started.
    SpawnFailed(String),
    /// The signal handler is registered.
    HandlerRegistered,
    /// The signal handler could not be registered.
    HandlerFailed(String),
    /// The watchdog is scheduled.
    WatchdogArmed,
    /// The player has exited.
    Exited,
    /// Waiting for the player failed.
    WaitFailed(String),
    /// The handler or the watchdog asked the system to terminate the process;
    /// `delivered` is false where the system found no such process.
    TerminationReported { delivered: bool },
}

/// Where the supervisor stands.
#[derive(Debug, PartialEq, Eq)]
pub enum SupervisorState {
    /// Nothing has been asked for.
    Idle,
    /// The player is being started.
    Spawning { volume: u8, url: String },
    /// The player runs and its identifier is known; the signal handler is
    /// being registered.
    Running(PlaybackSession),
    /// The signal handler is in place; the watchdog is being scheduled.
    Guarded(PlaybackSession),
    /// Handler and watchdog are in place; the supervisor waits for the exit.
    WatchdogArmed(PlaybackSession),
    /// The player has exited.
    Exited,
    /// Supervising failed.
    Failed(SupervisorError),
}

/// The session as it is after a termination report: a request that reached
/// the process marks the session terminated; one that found no process
/// changes nothing.
pub open spec fn after_report(session: PlaybackSession, delivered: bool) -> PlaybackSession {
    PlaybackSession { terminated: session.terminated || delivered, ..session }
}

/// The action that a state waits for. An idle supervisor waits for a station
/// to play, a finished one for nothing.
pub open spec fn pending_supervisor(state: SupervisorState) -> Option<SupervisorAction> {
    match state {
        SupervisorState::Spawning { volume, url } => Some(SupervisorAction::Spawn { volume, url }),
        SupervisorState::Running(session) => Some(
            SupervisorAction::RegisterHandler { pid: session.process_id },
        ),
        SupervisorState::Guarded(session) => Some(
            SupervisorAction::ArmWatchdog { pid: session.process_id },
        ),
        SupervisorState::WatchdogArmed(_) => Some(SupervisorAction::Wait),
        _ => None,
    }
}

/// The state that follows `state` on `event`.
///
/// A failed spawn ends the work before any session exists. Once the player
/// runs, the handler is registered, then the watchdog is armed, then the
/// supervisor waits; the exit of the player is the end. A termination report
/// never fails and never changes what the supervisor waits for. An event that
/// answers nothing the state waits for changes nothing.
pub open spec fn next_supervisor(
    state: SupervisorState,
    event: SupervisorEvent,
) -> SupervisorState {
    match (state, event) {
        (SupervisorState::Idle, SupervisorEvent::Launch { volume, url }) => {
            SupervisorState::Spawning { volume, url }
        },
        (SupervisorState::Spawning { .. }, SupervisorEvent::Spawned { id }) => {
            SupervisorState::Running(
                PlaybackSession { process_id: process_id_of(id), terminated: false },
            )
        },
        (SupervisorState::Spawning { .. }, SupervisorEvent::SpawnFailed(detail)) => {
            SupervisorState::Failed(SupervisorError::Spawn(detail))
        },
        (SupervisorState::Running(session), SupervisorEvent::HandlerRegistered) => {
            SupervisorState::Guarded(session)
        },
        (SupervisorState::Running(_), SupervisorEvent::HandlerFailed(detail)) => {
            SupervisorState::Failed(SupervisorError::Handler(detail))
        },
        (SupervisorState::Guarded(session), SupervisorEvent::WatchdogArmed) => {
            SupervisorState::WatchdogArmed(session)
        },
        (SupervisorState::WatchdogArmed(_), SupervisorEvent::Exited) => SupervisorState::Exited,
        (SupervisorState::WatchdogArmed(_), SupervisorEvent::WaitFailed(detail)) => {
            SupervisorState::Failed(SupervisorError::Wait(detail))
        },
        (
            SupervisorState::Running(session),
            SupervisorEvent::TerminationReported { delivered },
        ) => SupervisorState::Running(after_report(session, delivered)),
        (
            SupervisorState::Guarded(session),
            SupervisorEvent::TerminationReported { delivered },
        ) => SupervisorState::Guarded(after_report(session, delivered)),
        (
            SupervisorState::WatchdogArmed(session),
            SupervisorEvent::TerminationReported { delivered },
        ) => SupervisorState::WatchdogArmed(after_report(session, delivered)),
        (state, _) => state,
    }
}

/// The session of a state in which a player process is tracked.
pub open spec fn session_of(state: SupervisorState) -> Option<PlaybackSession> {
    match state {
        SupervisorState::Running(session) => Some(session),
        SupervisorState::Guarded(session) => Some(session),
        SupervisorState::WatchdogArmed(session) => Some(session),
        _ => None,
    }
}

/// How the work ended, once it has: well with the exit of the player, or with
/// an error.
pub open spec fn supervisor_outcome(state: SupervisorState) -> Option<
    Result<(), SupervisorError>,
> {
    match state {
        SupervisorState::Exited => Some(Ok(())),
        SupervisorState::Failed(e) => Some(Err(e)),
        _ => None,
    }
}

impl SupervisorState {
    /// The state in which a supervisor starts.
    pub fn idle() -> (r: SupervisorState)
        ensures
            r == SupervisorState::Idle,
    {
        SupervisorState::Idle
    }

    /// The action that this state waits for.
    pub fn pending(&self) -> (r: Option<SupervisorAction>)
        ensures
            r == pending_supervisor(*self),
    {
        match self {
            SupervisorState::Spawning { volume, url } => Some(
                SupervisorAction::Spawn { volume: *volume, url: url.clone() },
            ),
            SupervisorState::Running(session) => Some(
                SupervisorAction::RegisterHandler { pid: session.process_id },
            ),
            SupervisorState::Guarded(session) => Some(
                SupervisorAction::ArmWatchdog { pid: session.process_id },
            ),
            SupervisorState::WatchdogArmed(_) => Some(SupervisorAction::Wait),
            _ => None,
        }
    }

    /// The session, while a player process is tracked.
    pub fn session(&self) -> (r: Option<PlaybackSession>)
        ensures
            r == session_of(*self),
    {
        match self {
            SupervisorState::Running(session) => Some(*session),
            SupervisorState::Guarded(session) => Some(*session),
            SupervisorState::WatchdogArmed(session) => Some(*session),
            _ => None,
        }
    }

    /// Takes the report of the caller and moves on.
    pub fn on_event(self, event: SupervisorEvent) -> (r: SupervisorState)
        ensures
            r == next_supervisor(self, event),
    {
        match (self, event) {
            (SupervisorState::Idle, SupervisorEvent::Launch { volume, url }) => {
                SupervisorState::Spawning { volume, url }
            },
            (SupervisorState::Spawning { .. }, SupervisorEvent::Spawned { id }) => {
                SupervisorState::Running(
                    PlaybackSession { process_id: process_id(id), terminated: false },
                )
            },
            (SupervisorState::Spawning { .. }, SupervisorEvent::SpawnFailed(detail)) => {
                SupervisorState::Failed(SupervisorError::Spawn(detail))
            },
            (SupervisorState::Running(session), SupervisorEvent::HandlerRegistered) => {
                SupervisorState::Guarded(session)
            },
            (SupervisorState::Running(_), SupervisorEvent::HandlerFailed(detail)) => {
                SupervisorState::Failed(SupervisorError::Handler(detail))
            },
            (SupervisorState::Guarded(session), SupervisorEvent::WatchdogArmed) => {
                SupervisorState::WatchdogArmed(session)
            },
            (SupervisorState::WatchdogArmed(_), SupervisorEvent::Exited) => SupervisorState::Exited,
            (SupervisorState::WatchdogArmed(_), SupervisorEvent::WaitFailed(detail)) => {
                SupervisorState::Failed(SupervisorError::Wait(detail))
            },
            (
                SupervisorState::Running(session),
                SupervisorEvent::TerminationReported { delivered },
            ) => SupervisorState::Running(
                PlaybackSession {
                    process_id: session.process_id,
                    terminated: session.terminated || delivered,
                },
            ),
            (
                SupervisorState::Guarded(session),
                SupervisorEvent::TerminationReported { delivered },
            ) => SupervisorState::Guarded(
                PlaybackSession {
                    process_id: session.process_id,
                    terminated: session.terminated || delivered,
                },
            ),
            (
                SupervisorState::WatchdogArmed(session),
                SupervisorEvent::TerminationReported { delivered },
            ) => SupervisorState::WatchdogArmed(
                PlaybackSession {
                    process_id: session.process_id,
                    terminated: session.terminated || delivered,
                },
            ),
            (state, _) => state,
        }
    }

    /// How the work ended; `None` while it is under way.
    pub fn outcome(self) -> (r: Option<Result<(), SupervisorError>>)
        ensures
            r == supervisor_outcome(self),
    {
        match self {
            SupervisorState::Exited => Some(Ok(())),
            SupervisorState::Failed(e) => Some(Err(e)),
            _ => None,
        }
    }
}

/// The state reached from `state` when the events arrive one after another.
pub open spec fn supervisor_after(
    state: SupervisorState,
    events: Seq<SupervisorEvent>,
) -> SupervisorState
    decreases events.len(),
{
    if events.len() == 0 {
        state
    } else {
        supervisor_after(next_supervisor(state, events[0]), events.drop_first())
    }
}

/// The watchdog reached from `w` when the events arrive one after another.
pub open spec fn watchdog_after(w: Watchdog, events: Seq<WatchdogEvent>) -> Watchdog
    decreases events.len(),
{
    if events.len() == 0 {
        w
    } else {
        watchdog_after(next_watchdog(w, events[0]), events.drop_first())
    }
}

/// Some report among `reports` tells of a request that reached the process.
pub open spec fn some_delivered(reports: Seq<SupervisorEvent>) -> bool {
    exists|i: int|
        0 <= i < reports.len() && #[trigger] reports[i] == (SupervisorEvent::TerminationReported {
            delivered: true,
        })
}

/// Terminating is idempotent for the supervisor. However many termination
/// reports arrive, none is an error and none changes what the supervisor
/// waits for or which process it tracks; the session is marked terminated by
/// the first request that reached the process and by nothing after it. So
/// requests against a process that has exited, none of which is delivered,
/// change nothing at all.
pub proof fn lemma_termination_is_idempotent(state: SupervisorState, reports: Seq<SupervisorEvent>)
    requires
        forall|i: int| 0 <= i < reports.len() ==> #[trigger] reports[i] is TerminationReported,
    ensures
        pending_supervisor(supervisor_after(state, reports)) == pending_supervisor(state),
        supervisor_outcome(supervisor_after(state, reports)) == supervisor_outcome(state),
        match session_of(state) {
            Some(session) => session_of(supervisor_after(state, reports)) == Some(
                after_report(session, some_delivered(reports)),
            ),
            None => supervisor_after(state, reports) == state,
        },
        !some_delivered(reports) ==> supervisor_after(state, reports) == state,
    decreases reports.len(),
{
    if reports.len() > 0 {
        let first = reports[0];
        let rest = reports.drop_first();
        let next = next_supervisor(state, first);
        assert forall|i: int| 0 <= i < rest.len() implies #[trigger] rest[i]
            is TerminationReported by {
            assert(rest[i] == reports[i + 1]);
        }
        lemma_termination_is_idempotent(next, rest);
        if some_delivered(rest) {
            let i = choose|i: int|
                0 <= i < rest.len() && #[trigger] rest[i] == (SupervisorEvent::TerminationReported {
                    delivered: true,
                });
            assert(reports[i + 1] == rest[i]);
        }
        if some_delivered(reports) {
            let i = choose|i: int|
                0 <= i < reports.len() && #[trigger] reports[i] == (
                SupervisorEvent::TerminationReported { delivered: true });
            if i > 0 {
                assert(rest[i - 1] == reports[i]);
            }
        } else {
            assert(first != (SupervisorEvent::TerminationReported { delivered: true }));
        }
    }
}

/// Terminating is idempotent for the watchdog: a round leads back to where it
/// began, whatever the system answered to the request, so the next request
/// names the same process. A raised flag stops the watchdog at its next look,
/// and a stopped watchdog stays stopped.
pub proof fn lemma_watchdog_round(pid: i32, delivered: bool, event: WatchdogEvent)
    ensures
        pid != NO_PROCESS ==> watchdog_after(
            Watchdog { pid, phase: WatchdogPhase::Polling },
            seq![
                WatchdogEvent::Flag { raised: false },
                WatchdogEvent::Woke,
                WatchdogEvent::TerminationReported { delivered },
            ],
        ) == (Watchdog { pid, phase: WatchdogPhase::Polling }),
        pid == NO_PROCESS ==> watchdog_after(
            Watchdog { pid, phase: WatchdogPhase::Polling },
            seq![WatchdogEvent::Flag { raised: false }, WatchdogEvent::Woke],
        ) == (Watchdog { pid, phase: WatchdogPhase::Polling }),
        next_watchdog(
            Watchdog { pid, phase: WatchdogPhase::Polling },
            WatchdogEvent::Flag { raised: true },
        ) == (Watchdog { pid, phase: WatchdogPhase::Stopped }),
        next_watchdog(Watchdog { pid, phase: WatchdogPhase::Stopped }, event) == (Watchdog {
            pid,
            phase: WatchdogPhase::Stopped,
        }),
{
    reveal_with_fuel(watchdog_after, 4);
}

/// The process identifier is fixed once the process is spawned: no event
/// changes the identifier of a session or of a watchdog.
pub proof fn lemma_process_id_is_fixed(
    state: SupervisorState,
    event: SupervisorEvent,
    w: Watchdog,
    tick: WatchdogEvent,
)
    ensures
        session_of(state) is Some && session_of(next_supervisor(state, event)) is Some
            ==> session_of(next_supervisor(state, event))->0.process_id == session_of(
            state,
        )->0.process_id,
        session_of(state) is Some && session_of(state)->0.terminated && session_of(
            next_supervisor(state, event),
        ) is Some ==> session_of(next_supervisor(state, event))->0.terminated,
        next_watchdog(w, tick).pid == w.pid,
{
}

} // verus!
