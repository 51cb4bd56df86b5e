//! The sync coordinator: one state machine that decides when the primary is
//! verified, when a header is published, and how long to rest after a
//! failure or a detected fork.
//!
//! The caller owns the loop. It hands each event to [`Coordinator::step`]
//! together with the current time, performs the action that comes back, and
//! reports how that went as the next event.

use vstd::prelude::*;
use crate::state::{nanos_of, secs_to_nanos, AppState, TrustedHeader};

verus! {

/// The rest after the first failure, in seconds.
pub const INITIAL_BACKOFF_SECS: u64 = 1;

/// The longest rest after a failure, in seconds.
pub const MAX_BACKOFF_SECS: u64 = 30;

/// Where the coordinator stands.
#[derive(Clone, Copy, Debug, PartialEq, Eq)]
pub enum Phase {
    /// Waiting for the timer or a trigger.
    Idle,
    /// An attempt is running against the primary and the witnesses.
    Syncing,
    /// The attempt ended in a published header.
    Published,
    /// The attempt failed; no new one starts before `until`.
    BackingOff { until: u128 },
    /// A fork was detected; no new one starts before `until`.
    Halted { until: u128 },
}

/// What the caller reports to the coordinator.
#[derive(Clone, Copy, Debug, PartialEq, Eq)]
pub enum SyncEvent {
    /// The keep-warm timer fired or a trigger arrived.
    Wake,
    /// The primary could not be verified.
    VerifyFailed,
    /// The primary was verified up to `header`, and the witnesses were
    /// checked against it.
    Verified { header: TrustedHeader, fork_detected: bool },
    /// The action handed out last has been carried out.
    Settled,
}

/// What the coordinator asks the caller to do next.
#[derive(Clone, Copy, Debug, PartialEq, Eq)]
pub enum SyncAction {
    /// Verify the primary to its highest header and run fork detection, then
    /// report `Verified` or `VerifyFailed`.
    VerifyPrimary,
    /// Report `Settled` at once.
    Finish,
    /// Sleep this long, then report `Settled`.
    Sleep { nanos: u128 },
    /// Tell the waiting queries that the attempt is over, then wait for the
    /// next wake.
    NotifyWaiters,
    /// The event did not apply; nothing changed.
    Nothing,
}

/// The coordinator as the contracts see it.
pub struct CoordinatorView {
    pub phase: Phase,
    /// Seconds to rest after the next failure.
    pub backoff: u64,
}

/// One step's result: the coordinator and the shared state after it, and the
/// action handed out.
pub struct Step {
    pub coordinator: CoordinatorView,
    pub state: AppState,
    pub action: SyncAction,
}

/// The rest that follows a rest of `secs` seconds: twice as long, but never
/// more than the maximum.
pub open spec fn next_backoff(secs: u64) -> u64 {
    if 2 * secs >= MAX_BACKOFF_SECS {
        MAX_BACKOFF_SECS
    } else {
        (2 * secs) as u64
    }
}

/// The rest that follows `failures` failures in a row: one second at
/// first, doubled by each failure, and held at the maximum.
pub open spec fn backoff_after(failures: nat) -> u64
    decreases failures,
{
    if failures == 0 {
        INITIAL_BACKOFF_SECS
    } else {
        next_backoff(backoff_after((failures - 1) as nat))
    }
}

/// The time `secs` seconds after `now`, held at the clock's last value.
pub open spec fn deadline(now: u128, secs: u64) -> u128 {
    if now + nanos_of(secs) > u128::MAX {
        u128::MAX
    } else {
        (now + nanos_of(secs)) as u128
    }
}

impl CoordinatorView {
    /// The coordinator a daemon starts with.
    pub open spec fn initial() -> CoordinatorView {
        CoordinatorView { phase: Phase::Idle, backoff: INITIAL_BACKOFF_SECS }
    }

    /// The backoff stays between its first value and its cap.
    pub open spec fn inv(self) -> bool {
        INITIAL_BACKOFF_SECS <= self.backoff <= MAX_BACKOFF_SECS
    }

    /// The end of a rest: the in-flight flag is cleared and the waiters are
    /// told.
    pub open spec fn settle(self, state: AppState) -> Step {
        Step {
            coordinator: CoordinatorView { phase: Phase::Idle, backoff: self.backoff },
            state: AppState { syncing: false, ..state },
            action: SyncAction::NotifyWaiters,
        }
    }

    /// A rest that is not over at `now`: nothing changes, and the caller is
    /// sent back to sleep for what is left.
    pub open spec fn keep_resting(self, state: AppState, until: u128, now: u128) -> Step {
        Step {
            coordinator: self,
            state,
            action: SyncAction::Sleep { nanos: (until - now) as u128 },
        }
    }

    /// The transition taken on `event` at time `now`.
    pub open spec fn step(self, state: AppState, event: SyncEvent, now: u128) -> Step {
        match (self.phase, event) {
            (Phase::Idle, SyncEvent::Wake) => Step {
                coordinator: CoordinatorView { phase: Phase::Syncing, backoff: self.backoff },
                state: AppState { syncing: true, ..state },
                action: SyncAction::VerifyPrimary,
            },
            (Phase::Syncing, SyncEvent::VerifyFailed) => Step {
                coordinator: CoordinatorView {
                    phase: Phase::BackingOff { until: deadline(now, self.backoff) },
                    backoff: next_backoff(self.backoff),
                },
                state: AppState { last_sync_success: false, ..state },
                action: SyncAction::Sleep { nanos: nanos_of(self.backoff) as u128 },
            },
            (Phase::Syncing, SyncEvent::Verified { header, fork_detected }) => if fork_detected {
                Step {
                    coordinator: CoordinatorView {
                        phase: Phase::Halted {
                            until: deadline(now, state.config.halt_duration_on_fork),
                        },
                        backoff: self.backoff,
                    },
                    state,
                    action: SyncAction::Sleep {
                        nanos: nanos_of(state.config.halt_duration_on_fork) as u128,
                    },
                }
            } else {
                Step {
                    coordinator: CoordinatorView {
                        phase: Phase::Published,
                        backoff: INITIAL_BACKOFF_SECS,
                    },
                    state: AppState {
                        light_block: Some(header),
                        last_sync: now,
                        last_sync_success: true,
                        ..state
                    },
                    action: SyncAction::Finish,
                }
            },
            (Phase::Published, SyncEvent::Settled) => self.settle(state),
            (Phase::BackingOff { until }, SyncEvent::Settled) => if now >= until {
                self.settle(state)
            } else {
                self.keep_resting(state, until, now)
            },
            (Phase::Halted { until }, SyncEvent::Settled) => if now >= until {
                self.settle(state)
            } else {
                self.keep_resting(state, until, now)
            },
            _ => Step { coordinator: self, state, action: SyncAction::Nothing },
        }
    }
}

/// The time `secs` seconds after `now`, held at the clock's last value.
pub fn deadline_after(now: u128, secs: u64) -> (until: u128)
    ensures
        until == deadline(now, secs),
{
    now.saturating_add(secs_to_nanos(secs))
}

/// The rest that follows a rest of `secs` seconds.
pub fn grow_backoff(secs: u64) -> (next: u64)
    ensures
        next == next_backoff(secs),
{
    if secs >= 15 {
        MAX_BACKOFF_SECS
    } else {
        secs * 2
    }
}

/// The coordinator's own state: its phase and the backoff it will apply to
/// the next failure.
#[derive(Clone, Copy, Debug)]
pub struct Coordinator {
    phase: Phase,
    backoff_secs: u64,
}

impl View for Coordinator {
    type V = CoordinatorView;

    closed spec fn view(&self) -> CoordinatorView {
        CoordinatorView { phase: self.phase, backoff: self.backoff_secs }
    }
}

impl Coordinator {
    #[verifier::type_invariant]
    spec fn bounded(self) -> bool {
        INITIAL_BACKOFF_SECS <= self.backoff_secs <= MAX_BACKOFF_SECS
    }

    /// An idle coordinator with the backoff at its first value.
    pub fn new() -> (coordinator: Coordinator)
        ensures
            coordinator@ == CoordinatorView::initial(),
    {
        Coordinator { phase: Phase::Idle, backoff_secs: INITIAL_BACKOFF_SECS }
    }

    /// The phase the coordinator is in.
    pub fn phase(&self) -> (phase: Phase)
        ensures
            phase == self@.phase,
    {
        self.phase
    }

    /// Seconds the coordinator will rest after the next failure.
    pub fn backoff_secs(&self) -> (secs: u64)
        ensures
            secs == self@.backoff,
            self@.inv(),
    {
        proof {
            use_type_invariant(self);
        }
        self.backoff_secs
    }

    /// Takes `event` at time `now`: moves to the next phase, writes what the
    /// transition publishes or records into `state`, and returns what the
    /// caller is to do next.
    pub fn step(&mut self, state: &mut AppState, event: SyncEvent, now: u128) -> (action: SyncAction)
        ensures
            final(self)@ == old(self)@.step(*old(state), event, now).coordinator,
            *final(state) == old(self)@.step(*old(state), event, now).state,
            action == old(self)@.step(*old(state), event, now).action,
    {
        proof {
            use_type_invariant(&*self);
        }
        match (self.phase, event) {
            (Phase::Idle, SyncEvent::Wake) => {
                self.phase = Phase::Syncing;
                state.syncing = true;
                SyncAction::VerifyPrimary
            },
            (Phase::Syncing, SyncEvent::VerifyFailed) => {
                let rest: u64 = self.backoff_secs;
                self.phase = Phase::BackingOff { until: deadline_after(now, rest) };
                self.backoff_secs = grow_backoff(rest);
                state.last_sync_success = false;
                SyncAction::Sleep { nanos: secs_to_nanos(rest) }
            },
            (Phase::Syncing, SyncEvent::Verified { header, fork_detected }) => {
                if fork_detected {
                    let halt: u64 = state.config.halt_duration_on_fork;
                    self.phase = Phase::Halted { until: deadline_after(now, halt) };
                    SyncAction::Sleep { nanos: secs_to_nanos(halt) }
                } else {
                    self.phase = Phase::Published;
                    self.backoff_secs = INITIAL_BACKOFF_SECS;
                    state.light_block = Some(header);
                    state.last_sync = now;
                    state.last_sync_success = true;
                    SyncAction::Finish
                }
            },
            (Phase::Published, SyncEvent::Settled) => {
                self.phase = Phase::Idle;
                state.syncing = false;
                SyncAction::NotifyWaiters
            },
            (Phase::BackingOff { until }, SyncEvent::Settled) => {
                if now >= until {
                    self.phase = Phase::Idle;
                    state.syncing = false;
                    SyncAction::NotifyWaiters
                } else {
                    SyncAction::Sleep { nanos: until - now }
                }
            },
            (Phase::Halted { until }, SyncEvent::Settled) => {
                if now >= until {
                    self.phase = Phase::Idle;
                    state.syncing = false;
                    SyncAction::NotifyWaiters
                } else {
                    SyncAction::Sleep { nanos: until - now }
                }
            },
            _ => SyncAction::Nothing,
        }
    }
}

/// More failures never mean a shorter rest, and no rest is longer than the
/// maximum.
pub proof fn backoff_grows_to_cap(fewer: nat, more: nat)
    requires
        fewer <= more,
    ensures
        INITIAL_BACKOFF_SECS <= backoff_after(fewer) <= backoff_after(more) <= MAX_BACKOFF_SECS,
    decreases more,
{
    if more > 0 {
        if fewer < more {
            backoff_grows_to_cap(fewer, (more - 1) as nat);
        } else {
            backoff_grows_to_cap((fewer - 1) as nat, (more - 1) as nat);
        }
    }
}

/// The first rests are one, two, four, eight and sixteen seconds; from the
/// sixth failure on the rest is thirty seconds.
pub proof fn backoff_schedule(failures: nat)
    ensures
        backoff_after(0) == 1,
        backoff_after(1) == 2,
        backoff_after(2) == 4,
        backoff_after(3) == 8,
        backoff_after(4) == 16,
        failures >= 5 ==> backoff_after(failures) == MAX_BACKOFF_SECS,
    decreases failures,
{
    reveal_with_fuel(backoff_after, 6);
    if failures > 5 {
        backoff_schedule((failures - 1) as nat);
    }
}

} // verus!
