//! The daemon as a whole: the coordinator and the shared state, driven by
//! sync events and status queries in whatever order they arrive, and what
//! holds of every such run.

use vstd::prelude::*;
use crate::api::{answer, gate, GateDecision, StatusError, WaitOutcome};
use crate::detect::{nothing_to_examine_means_no_fork, verdict, WitnessOutcome};
use crate::state::{nanos_of, AppState, Config, StatusResponse, TrustedHeader};
use crate::sync::{
    backoff_after, backoff_grows_to_cap, deadline, CoordinatorView, Phase, SyncAction, SyncEvent,
    INITIAL_BACKOFF_SECS, MAX_BACKOFF_SECS,
};

verus! {

/// One thing that happens to the daemon.
pub enum Input {
    /// The coordinator takes `event` at time `now`.
    Sync { event: SyncEvent, now: u128 },
    /// A status query checks the state at time `now`, tolerating `threshold`
    /// seconds of staleness.
    Query { now: u128, threshold: u64 },
}

/// The coordinator together with the state it shares with the queries.
pub struct System {
    pub coordinator: CoordinatorView,
    pub state: AppState,
}

impl Input {
    /// When the input happens.
    pub open spec fn time(self) -> u128 {
        match self {
            Input::Sync { now, .. } => now,
            Input::Query { now, .. } => now,
        }
    }

    /// Whether the input publishes a header when it meets a running
    /// attempt.
    pub open spec fn publishes(self) -> bool {
        self matches Input::Sync { event: SyncEvent::Verified { fork_detected, .. }, .. }
            && !fork_detected
    }

    /// Whether the input reports the end of an attempt's rest.
    pub open spec fn settles(self) -> bool {
        self matches Input::Sync { event: SyncEvent::Settled, .. }
    }

    /// Whether the input only asks for fresh state: a status query, or a
    /// wake of the coordinator.
    pub open spec fn asks(self) -> bool {
        self is Query || self matches Input::Sync { event: SyncEvent::Wake, .. }
    }
}

impl System {
    /// The daemon at startup.
    pub open spec fn initial(config: Config, now: u128) -> System {
        System { coordinator: CoordinatorView::initial(), state: AppState::initial(config, now) }
    }

    /// The backoff is within its bounds, and the in-flight flag is up
    /// whenever the coordinator is not idle.
    pub open spec fn inv(self) -> bool {
        &&& self.coordinator.inv()
        &&& self.coordinator.phase != Phase::Idle ==> self.state.syncing
    }

    /// The system after `input`.
    pub open spec fn advance(self, input: Input) -> System {
        match input {
            Input::Sync { event, now } => {
                let step = self.coordinator.step(self.state, event, now);
                System { coordinator: step.coordinator, state: step.state }
            },
            Input::Query { now, threshold } => System {
                coordinator: self.coordinator,
                state: gate(self.state, now, threshold).state,
            },
        }
    }

    /// Whether `input` makes the coordinator start an attempt.
    pub open spec fn starts_attempt(self, input: Input) -> bool {
        input matches Input::Sync { event, now } && self.coordinator.step(
            self.state,
            event,
            now,
        ).action == SyncAction::VerifyPrimary
    }

    /// Whether `input` is a query that sends the trigger.
    pub open spec fn sends_trigger(self, input: Input) -> bool {
        input matches Input::Query { now, threshold } && gate(self.state, now, threshold).decision
            == GateDecision::TriggerSync
    }

    /// Whether `input` reports a failed verification to a running attempt.
    pub open spec fn fails(self, input: Input) -> bool {
        self.coordinator.phase == Phase::Syncing && input matches Input::Sync {
            event: SyncEvent::VerifyFailed,
            ..
        }
    }

    /// The system after `inputs`, taken in order.
    pub open spec fn run(self, inputs: Seq<Input>) -> System
        decreases inputs.len(),
    {
        if inputs.len() == 0 {
            self
        } else {
            self.run(inputs.drop_last()).advance(inputs.last())
        }
    }

    /// How many of `inputs` report a failed verification to a running
    /// attempt.
    pub open spec fn failures(self, inputs: Seq<Input>) -> nat
        decreases inputs.len(),
    {
        if inputs.len() == 0 {
            0
        } else {
            let earlier = self.failures(inputs.drop_last());
            if self.run(inputs.drop_last()).fails(inputs.last()) {
                earlier + 1
            } else {
                earlier
            }
        }
    }

    /// The system as the input at position `at` finds it.
    pub open spec fn before(self, inputs: Seq<Input>, at: int) -> System {
        self.run(inputs.take(at))
    }
}

/// Running one input further is running the shorter sequence and then
/// advancing.
pub proof fn run_unfolds(system: System, inputs: Seq<Input>, at: int)
    requires
        0 <= at < inputs.len(),
    ensures
        system.before(inputs, at + 1) == system.before(inputs, at).advance(inputs[at]),
{
    assert(inputs.take(at + 1).drop_last() =~= inputs.take(at));
}

/// The startup state satisfies the invariant.
pub proof fn initial_system_is_sound(config: Config, now: u128)
    ensures
        System::initial(config, now).inv(),
{
}

/// No input breaks the invariant: the backoff stays within its bounds, and
/// the in-flight flag stays up from the moment an attempt is decided on
/// until the coordinator is idle again.
pub proof fn advance_keeps_invariant(system: System, input: Input)
    requires
        system.inv(),
    ensures
        system.advance(input).inv(),
{
}

/// The invariant holds throughout every run.
pub proof fn run_keeps_invariant(system: System, inputs: Seq<Input>)
    requires
        system.inv(),
    ensures
        system.run(inputs).inv(),
    decreases inputs.len(),
{
    if inputs.len() > 0 {
        run_keeps_invariant(system, inputs.drop_last());
        advance_keeps_invariant(system.run(inputs.drop_last()), inputs.last());
    }
}

/// While an attempt is in flight, queries and wakes are absorbed by it:
/// however many arrive, none starts an attempt, none sends a trigger,
/// nothing in the system changes, and every query that finds the state stale
/// is told to wait for the attempt that is running.
pub proof fn attempt_in_flight_is_alone(system: System, inputs: Seq<Input>, at: int)
    requires
        system.inv(),
        system.coordinator.phase != Phase::Idle,
        forall|i: int| 0 <= i < inputs.len() ==> (#[trigger] inputs[i]).asks(),
        0 <= at < inputs.len(),
    ensures
        system.run(inputs) == system,
        system.before(inputs, at) == system,
        !system.before(inputs, at).starts_attempt(inputs[at]),
        !system.before(inputs, at).sends_trigger(inputs[at]),
        inputs[at] matches Input::Query { now, threshold } ==> gate(
            system.before(inputs, at).state,
            now,
            threshold,
        ).decision == (if system.state.stale_at(now, threshold) {
            GateDecision::AwaitSync
        } else {
            GateDecision::Fresh
        }),
{
    asking_changes_nothing(system, inputs);
    assert forall|i: int| 0 <= i < inputs.take(at).len() implies (#[trigger] inputs.take(
        at,
    )[i]).asks() by {
        assert(inputs.take(at)[i] == inputs[i]);
    }
    asking_changes_nothing(system, inputs.take(at));
    assert(inputs[at].asks());
}

/// Queries and wakes leave a system with an attempt in flight as it is.
proof fn asking_changes_nothing(system: System, inputs: Seq<Input>)
    requires
        system.inv(),
        system.coordinator.phase != Phase::Idle,
        forall|i: int| 0 <= i < inputs.len() ==> (#[trigger] inputs[i]).asks(),
    ensures
        system.run(inputs) == system,
    decreases inputs.len(),
{
    if inputs.len() > 0 {
        let earlier = inputs.drop_last();
        assert forall|i: int| 0 <= i < earlier.len() implies (#[trigger] earlier[i]).asks() by {
            assert(earlier[i] == inputs[i]);
        }
        asking_changes_nothing(system, earlier);
        assert(inputs.last().asks());
    }
}

/// Queries that waited on the same attempt get the same answer: whatever
/// else happens between their reads, the answer changes only when another
/// header is published.
pub proof fn waiters_agree(system: System, inputs: Seq<Input>, waited: Option<WaitOutcome>)
    requires
        forall|i: int| 0 <= i < inputs.len() ==> !(#[trigger] inputs[i]).publishes(),
    ensures
        answer(system.run(inputs).state, waited) == answer(system.state, waited),
{
    header_changes_only_by_publication(system, inputs);
}

/// Between two reports that a rest has ended, at most one input starts an
/// attempt and at most one query sends a trigger: whatever starts or asks
/// for an attempt raises the in-flight flag, and only the end of an attempt
/// lowers it.
pub proof fn one_attempt_per_round(system: System, inputs: Seq<Input>, first: int, second: int)
    requires
        system.inv(),
        0 <= first < second < inputs.len(),
        forall|i: int| first < i < second ==> !(#[trigger] inputs[i]).settles(),
    ensures
        !(system.before(inputs, first).starts_attempt(inputs[first]) && system.before(
            inputs,
            second,
        ).starts_attempt(inputs[second])),
        !(system.before(inputs, first).sends_trigger(inputs[first]) && system.before(
            inputs,
            second,
        ).sends_trigger(inputs[second])),
{
    run_keeps_invariant(system, inputs.take(first));
    let found = system.before(inputs, first);
    run_unfolds(system, inputs, first);
    if found.starts_attempt(inputs[first]) {
        busy_until_settled(system, inputs, first + 1, second);
    }
    if found.sends_trigger(inputs[first]) {
        flagged_until_settled(system, inputs, first + 1, second);
    }
}

/// A coordinator that is not idle stays so until a rest is reported over.
proof fn busy_until_settled(system: System, inputs: Seq<Input>, from: int, to: int)
    requires
        0 <= from <= to <= inputs.len(),
        system.before(inputs, from).coordinator.phase != Phase::Idle,
        forall|i: int| from <= i < to ==> !(#[trigger] inputs[i]).settles(),
    ensures
        system.before(inputs, to).coordinator.phase != Phase::Idle,
    decreases to - from,
{
    if from < to {
        busy_until_settled(system, inputs, from, to - 1);
        run_unfolds(system, inputs, to - 1);
        assert(!inputs[to - 1].settles());
    }
}

/// The in-flight flag stays up until a rest is reported over.
proof fn flagged_until_settled(system: System, inputs: Seq<Input>, from: int, to: int)
    requires
        0 <= from <= to <= inputs.len(),
        system.before(inputs, from).state.syncing,
        forall|i: int| from <= i < to ==> !(#[trigger] inputs[i]).settles(),
    ensures
        system.before(inputs, to).state.syncing,
    decreases to - from,
{
    if from < to {
        flagged_until_settled(system, inputs, from, to - 1);
        run_unfolds(system, inputs, to - 1);
        assert(!inputs[to - 1].settles());
    }
}

/// A successful sync with no witnesses configured always publishes: whatever
/// the detection round is fed, it finds no fork, the new header replaces the
/// old one, and the attempt ends with the waiters told.
pub proof fn sync_without_witnesses_publishes(
    system: System,
    header: TrustedHeader,
    trace_usable: bool,
    outcomes: Seq<WitnessOutcome>,
    verified_at: u128,
    settled_at: u128,
)
    requires
        system.coordinator.phase == Phase::Syncing,
    ensures
        ({
            let fork_detected = verdict(0, trace_usable, outcomes);
            let verified = system.coordinator.step(
                system.state,
                SyncEvent::Verified { header, fork_detected },
                verified_at,
            );
            let settled = verified.coordinator.step(verified.state, SyncEvent::Settled, settled_at);
            &&& !fork_detected
            &&& verified.state.light_block == Some(header)
            &&& verified.state.last_sync_success
            &&& verified.coordinator.phase == Phase::Published
            &&& settled.state.light_block == Some(header)
            &&& !settled.state.syncing
            &&& settled.action == SyncAction::NotifyWaiters
        }),
{
    nothing_to_examine_means_no_fork(0, trace_usable, outcomes);
}

/// A round that detects a fork publishes nothing: the shared state is left
/// exactly as it was, and the coordinator halts until the configured halt
/// duration has passed.
pub proof fn fork_publishes_nothing(system: System, header: TrustedHeader, now: u128)
    requires
        system.coordinator.phase == Phase::Syncing,
    ensures
        ({
            let halted = system.advance(
                Input::Sync { event: SyncEvent::Verified { header, fork_detected: true }, now },
            );
            let halt = system.state.config.halt_duration_on_fork;
            &&& halted.state == system.state
            &&& halted.coordinator.phase == Phase::Halted { until: deadline(now, halt) }
            &&& halted.coordinator.backoff == system.coordinator.backoff
            &&& now + nanos_of(halt) <= u128::MAX ==> deadline(now, halt) == now + nanos_of(halt)
        }),
{
}

/// A halt is kept: as long as every input comes before the halt's end,
/// nothing in the system changes. No attempt starts, no trigger is sent, and
/// the trusted header is the one from before the round.
pub proof fn halt_is_kept(system: System, until: u128, inputs: Seq<Input>, at: int)
    requires
        system.inv(),
        system.coordinator.phase == (Phase::Halted { until }),
        forall|i: int| 0 <= i < inputs.len() ==> (#[trigger] inputs[i]).time() < until,
        0 <= at < inputs.len(),
    ensures
        system.run(inputs) == system,
        system.before(inputs, at) == system,
        !system.before(inputs, at).starts_attempt(inputs[at]),
        !system.before(inputs, at).sends_trigger(inputs[at]),
{
    resting_changes_nothing(system, until, inputs);
    assert forall|i: int| 0 <= i < inputs.take(at).len() implies (#[trigger] inputs.take(
        at,
    )[i]).time() < until by {
        assert(inputs.take(at)[i] == inputs[i]);
    }
    resting_changes_nothing(system, until, inputs.take(at));
    assert(inputs[at].time() < until);
}

/// After a round in which a fork was detected, the trusted header is the
/// one from before the round, and no attempt starts until the halt
/// duration has passed: whatever arrives before then, wakes and queries
/// included, finds the coordinator halted and leaves it so.
pub proof fn fork_halts_syncing(
    system: System,
    header: TrustedHeader,
    forked_at: u128,
    inputs: Seq<Input>,
    at: int,
)
    requires
        system.inv(),
        system.coordinator.phase == Phase::Syncing,
        forall|i: int|
            0 <= i < inputs.len() ==> (#[trigger] inputs[i]).time() < deadline(
                forked_at,
                system.state.config.halt_duration_on_fork,
            ),
        0 <= at < inputs.len(),
    ensures
        ({
            let halted = system.advance(
                Input::Sync {
                    event: SyncEvent::Verified { header, fork_detected: true },
                    now: forked_at,
                },
            );
            &&& halted.run(inputs).state == system.state
            &&& halted.run(inputs).coordinator.phase == halted.coordinator.phase
            &&& !halted.before(inputs, at).starts_attempt(inputs[at])
            &&& !halted.before(inputs, at).sends_trigger(inputs[at])
        }),
{
    let fork = Input::Sync {
        event: SyncEvent::Verified { header, fork_detected: true },
        now: forked_at,
    };
    let halted = system.advance(fork);
    advance_keeps_invariant(system, fork);
    halt_is_kept(
        halted,
        deadline(forked_at, system.state.config.halt_duration_on_fork),
        inputs,
        at,
    );
}

/// A backoff is kept in the same way: no attempt starts before its end.
pub proof fn backoff_is_kept(system: System, until: u128, inputs: Seq<Input>, at: int)
    requires
        system.inv(),
        system.coordinator.phase == (Phase::BackingOff { until }),
        forall|i: int| 0 <= i < inputs.len() ==> (#[trigger] inputs[i]).time() < until,
        0 <= at < inputs.len(),
    ensures
        system.run(inputs) == system,
        system.before(inputs, at) == system,
        !system.before(inputs, at).starts_attempt(inputs[at]),
        !system.before(inputs, at).sends_trigger(inputs[at]),
{
    resting_changes_nothing(system, until, inputs);
    assert forall|i: int| 0 <= i < inputs.take(at).len() implies (#[trigger] inputs.take(
        at,
    )[i]).time() < until by {
        assert(inputs.take(at)[i] == inputs[i]);
    }
    resting_changes_nothing(system, until, inputs.take(at));
    assert(inputs[at].time() < until);
}

/// Inputs that come before the end of a rest leave the system as it is.
proof fn resting_changes_nothing(system: System, until: u128, inputs: Seq<Input>)
    requires
        system.inv(),
        system.coordinator.phase == (Phase::Halted { until }) || system.coordinator.phase == (
        Phase::BackingOff { until }),
        forall|i: int| 0 <= i < inputs.len() ==> (#[trigger] inputs[i]).time() < until,
    ensures
        system.run(inputs) == system,
    decreases inputs.len(),
{
    if inputs.len() > 0 {
        let earlier = inputs.drop_last();
        assert forall|i: int| 0 <= i < earlier.len() implies (#[trigger] earlier[i]).time()
            < until by {
            assert(earlier[i] == inputs[i]);
        }
        resting_changes_nothing(system, until, earlier);
        assert(inputs.last().time() < until);
    }
}

/// However an attempt goes, it ends the same way: once the rest that its
/// outcome calls for is over, the coordinator is idle again, the in-flight
/// flag is down, and the waiting queries are told. The header is what the
/// outcome left it as.
pub proof fn every_attempt_ends_with_notice(
    system: System,
    outcome: SyncEvent,
    reported_at: u128,
    settled_at: u128,
)
    requires
        system.coordinator.phase == Phase::Syncing,
        outcome is VerifyFailed || outcome is Verified,
        match system.coordinator.step(system.state, outcome, reported_at).coordinator.phase {
            Phase::BackingOff { until } => settled_at >= until,
            Phase::Halted { until } => settled_at >= until,
            _ => true,
        },
    ensures
        ({
            let reported = system.coordinator.step(system.state, outcome, reported_at);
            let settled = reported.coordinator.step(reported.state, SyncEvent::Settled, settled_at);
            &&& reported.coordinator.phase != Phase::Idle
            &&& reported.coordinator.phase != Phase::Syncing
            &&& reported.action != SyncAction::Nothing
            &&& settled.coordinator.phase == Phase::Idle
            &&& settled.action == SyncAction::NotifyWaiters
            &&& !settled.state.syncing
            &&& settled.state.light_block == reported.state.light_block
        }),
{
}

/// A failed attempt rests for the backoff the coordinator holds at that
/// moment, and records the failure without touching the trusted header.
pub proof fn failure_rests_for_backoff(system: System, now: u128)
    requires
        system.fails(Input::Sync { event: SyncEvent::VerifyFailed, now }),
    ensures
        ({
            let step = system.coordinator.step(system.state, SyncEvent::VerifyFailed, now);
            &&& step.action == SyncAction::Sleep { nanos: nanos_of(system.coordinator.backoff) as u128 }
            &&& step.coordinator.phase == Phase::BackingOff {
                until: deadline(now, system.coordinator.backoff),
            }
            &&& !step.state.last_sync_success
            &&& step.state.light_block == system.state.light_block
        }),
{
}

/// Between two successes the backoff is counted by the failures alone: with
/// the backoff standing where `base` failures in a row leave it, a run
/// without a publication ends where `base` plus the run's own failures
/// leave it. So the backoff never shrinks across consecutive failures, never
/// passes its cap, and is back at its first value right after a success.
pub proof fn backoff_follows_failures(system: System, inputs: Seq<Input>, base: nat)
    requires
        system.coordinator.backoff == backoff_after(base),
        forall|i: int| 0 <= i < inputs.len() ==> !(#[trigger] inputs[i]).publishes(),
    ensures
        system.run(inputs).coordinator.backoff == backoff_after(
            base + system.failures(inputs),
        ),
        system.coordinator.backoff <= system.run(inputs).coordinator.backoff
            <= MAX_BACKOFF_SECS,
    decreases inputs.len(),
{
    if inputs.len() > 0 {
        let earlier = inputs.drop_last();
        assert forall|i: int| 0 <= i < earlier.len() implies !(#[trigger] earlier[i]).publishes() by {
            assert(earlier[i] == inputs[i]);
        }
        backoff_follows_failures(system, earlier, base);
        assert(!inputs.last().publishes());
    }
    backoff_grows_to_cap(base, base + system.failures(inputs));
}

/// A publication puts the backoff back to its first value, whatever it was.
pub proof fn success_resets_backoff(system: System, header: TrustedHeader, now: u128)
    requires
        system.coordinator.phase == Phase::Syncing,
    ensures
        system.advance(
            Input::Sync { event: SyncEvent::Verified { header, fork_detected: false }, now },
        ).coordinator.backoff == backoff_after(0),
        backoff_after(0) == INITIAL_BACKOFF_SECS,
{
}

/// The trusted header changes only by publication: a run in which no sync
/// is reported verified and free of forks ends with the header it began
/// with.
pub proof fn header_changes_only_by_publication(system: System, inputs: Seq<Input>)
    requires
        forall|i: int| 0 <= i < inputs.len() ==> !(#[trigger] inputs[i]).publishes(),
    ensures
        system.run(inputs).state.light_block == system.state.light_block,
        system.run(inputs).state.config == system.state.config,
    decreases inputs.len(),
{
    if inputs.len() > 0 {
        let earlier = inputs.drop_last();
        assert forall|i: int| 0 <= i < earlier.len() implies !(#[trigger] earlier[i]).publishes() by {
            assert(earlier[i] == inputs[i]);
        }
        header_changes_only_by_publication(system, earlier);
        assert(!inputs.last().publishes());
    }
}

/// Until a sync has succeeded there is no header, and a query is never
/// answered with one: it is refused as unavailable, unless its wait already
/// failed with a timeout or a closed channel.
pub proof fn no_answer_before_first_success(
    config: Config,
    started_at: u128,
    inputs: Seq<Input>,
    waited: Option<WaitOutcome>,
)
    requires
        forall|i: int| 0 <= i < inputs.len() ==> !(#[trigger] inputs[i]).publishes(),
    ensures
        ({
            let state = System::initial(config, started_at).run(inputs).state;
            &&& state.light_block is None
            &&& answer(state, waited) is Err
            &&& (waited is None || waited == Some(WaitOutcome::Completed)) ==> answer(state, waited)
                == Err::<StatusResponse, StatusError>(StatusError::ServiceUnavailable)
        }),
{
    header_changes_only_by_publication(System::initial(config, started_at), inputs);
}

} // verus!
