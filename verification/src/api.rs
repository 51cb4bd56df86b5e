//! The freshness gate: what a status query decides before it answers.
//!
//! A query first settles how stale the state may be, then checks the state
//! against that under one exclusive update, waits for the sync in flight if
//! the state is too old, and at last answers from the state as it then is.
//! The waiting is the caller's; the decisions are made here.

use vstd::prelude::*;
use crate::state::{
    AppState, Config, RootResponse, StatusResponse, SERVICE_NAME, SERVICE_VERSION,
};
use crate::text::{all_digits, decimal_value, parse_u64, parsed_u64, without_sign};

verus! {

/// What a query is to do once the state's age has been checked.
#[derive(Clone, Copy, Debug, PartialEq, Eq)]
pub enum GateDecision {
    /// The state is fresh enough: answer at once.
    Fresh,
    /// The state is stale and a sync is already in flight: wait for it, and
    /// ask for no other.
    AwaitSync,
    /// The state is stale and no sync was in flight: the flag has been set,
    /// so send the trigger and wait.
    TriggerSync,
}

/// How a query's wait for the sync in flight ended.
#[derive(Clone, Copy, Debug, PartialEq, Eq)]
pub enum WaitOutcome {
    /// The completion notice arrived.
    Completed,
    /// The completion channel was closed.
    Closed,
    /// The wait timeout passed first.
    TimedOut,
}

/// Why a status query was not answered with a header.
#[derive(Clone, Copy, Debug, PartialEq, Eq)]
pub enum StatusError {
    /// The state was stale and the sync did not finish in time.
    GatewayTimeout,
    /// The completion channel failed.
    InternalError,
    /// No sync has succeeded yet.
    ServiceUnavailable,
}

/// The outcome of checking the state's age: the state afterwards and the
/// decision.
pub struct GateStep {
    pub state: AppState,
    pub decision: GateDecision,
}

/// What a status query goes through.
#[derive(Clone, Copy, Debug)]
pub enum QueryEvent<'a> {
    /// The query arrived at time `now`, with or without a `freshness`
    /// override.
    Arrived { freshness: Option<&'a str>, now: u128 },
    /// The wait that the query was told to make has ended.
    Waited { outcome: WaitOutcome },
}

/// What the caller is to do for a status query.
#[derive(Clone, Copy, Debug, PartialEq, Eq)]
pub enum QueryAction {
    /// Send the trigger, then wait for the completion notice for at most
    /// `timeout` seconds and report how the wait ended.
    TriggerAndWait { timeout: u64 },
    /// Wait for the completion notice for at most `timeout` seconds and
    /// report how the wait ended.
    Wait { timeout: u64 },
    /// Answer the query.
    Respond { result: Result<StatusResponse, StatusError> },
}

/// One step of a status query: the state after it and what to do.
pub struct QueryStep {
    pub state: AppState,
    pub action: QueryAction,
}

/// The staleness a query tolerates, in seconds: the number its override
/// reads as, or else the configured default.
pub open spec fn threshold_for(freshness: Option<Seq<char>>, default: u64) -> u64 {
    match freshness {
        Some(text) => match parsed_u64(text) {
            Some(secs) => secs,
            None => default,
        },
        None => default,
    }
}

/// The check a query makes at time `now` with `threshold` seconds of
/// staleness tolerated.
pub open spec fn gate(state: AppState, now: u128, threshold: u64) -> GateStep {
    if !state.stale_at(now, threshold) {
        GateStep { state, decision: GateDecision::Fresh }
    } else if state.syncing {
        GateStep { state, decision: GateDecision::AwaitSync }
    } else {
        GateStep { state: AppState { syncing: true, ..state }, decision: GateDecision::TriggerSync }
    }
}

/// The response that carries `state`'s header, if it has one.
pub open spec fn header_response(state: AppState) -> Option<StatusResponse> {
    match state.light_block {
        Some(header) => Some(
            StatusResponse {
                block_height: header.height,
                block_hash: header.hash,
                block_timestamp: header.time,
            },
        ),
        None => None,
    }
}

/// The answer to a query whose wait, if it had to wait, ended in `waited`.
pub open spec fn answer(state: AppState, waited: Option<WaitOutcome>) -> Result<
    StatusResponse,
    StatusError,
> {
    match waited {
        Some(WaitOutcome::TimedOut) => Err(StatusError::GatewayTimeout),
        Some(WaitOutcome::Closed) => Err(StatusError::InternalError),
        _ => match header_response(state) {
            Some(response) => Ok(response),
            None => Err(StatusError::ServiceUnavailable),
        },
    }
}

/// What a query does on arrival at `now` with `threshold` seconds of
/// staleness tolerated: answer if the state is fresh, wait otherwise, and
/// send the trigger first if no sync was in flight.
pub open spec fn arrival(state: AppState, now: u128, threshold: u64) -> QueryStep {
    let checked = gate(state, now, threshold);
    QueryStep {
        state: checked.state,
        action: match checked.decision {
            GateDecision::Fresh => QueryAction::Respond { result: answer(state, None) },
            GateDecision::AwaitSync => QueryAction::Wait { timeout: state.config.api_timeout },
            GateDecision::TriggerSync => QueryAction::TriggerAndWait {
                timeout: state.config.api_timeout,
            },
        },
    }
}

/// What a query does once its wait has ended in `outcome`: answer, and leave
/// the state alone.
pub open spec fn after_wait(state: AppState, outcome: WaitOutcome) -> QueryStep {
    QueryStep { state, action: QueryAction::Respond { result: answer(state, Some(outcome)) } }
}

impl StatusError {
    /// The HTTP status code of this error's class.
    pub open spec fn code(self) -> u16 {
        match self {
            StatusError::GatewayTimeout => 504,
            StatusError::InternalError => 500,
            StatusError::ServiceUnavailable => 503,
        }
    }

    /// The HTTP status code of this error's class.
    pub fn status_code(&self) -> (code: u16)
        ensures
            code == self.code(),
    {
        match self {
            StatusError::GatewayTimeout => 504,
            StatusError::InternalError => 500,
            StatusError::ServiceUnavailable => 503,
        }
    }
}

/// The root query's answer: the service's name and version, whatever the
/// state.
pub fn root_handler() -> (response: RootResponse)
    ensures
        response.name == SERVICE_NAME,
        response.version == SERVICE_VERSION,
{
    RootResponse { name: SERVICE_NAME, version: SERVICE_VERSION }
}

/// The threshold that a parsed override selects.
pub fn threshold_or_default(parsed: Option<u64>, default: u64) -> (threshold: u64)
    ensures
        threshold == match parsed {
            Some(secs) => secs,
            None => default,
        },
{
    match parsed {
        Some(secs) => secs,
        None => default,
    }
}

/// The staleness a query tolerates: its `freshness` override where that is
/// given and reads as a number of seconds, the configured threshold
/// otherwise.
pub fn effective_threshold(freshness: Option<&str>, config: &Config) -> (threshold: u64)
    ensures
        threshold == threshold_for(
            match freshness {
                Some(text) => Some(text@),
                None => None,
            },
            config.freshness_threshold,
        ),
{
    match freshness {
        Some(text) => threshold_or_default(parse_u64(text), config.freshness_threshold),
        None => config.freshness_threshold,
    }
}

/// Checks the state's age at `now` against `threshold`. A stale state with
/// no sync in flight has its in-flight flag set, and the caller is told to
/// send the trigger; with a sync in flight the caller only waits.
pub fn check_freshness(state: &mut AppState, now: u128, threshold: u64) -> (decision: GateDecision)
    ensures
        *final(state) == gate(*old(state), now, threshold).state,
        decision == gate(*old(state), now, threshold).decision,
{
    if !state.is_stale(now, threshold) {
        GateDecision::Fresh
    } else if state.syncing {
        GateDecision::AwaitSync
    } else {
        state.syncing = true;
        GateDecision::TriggerSync
    }
}

/// Answers a query from the state as it is after the wait. `waited` is
/// `None` for a query that did not have to wait.
pub fn status_response(state: &AppState, waited: Option<WaitOutcome>) -> (result: Result<
    StatusResponse,
    StatusError,
>)
    ensures
        result == answer(*state, waited),
{
    match waited {
        Some(WaitOutcome::TimedOut) => Err(StatusError::GatewayTimeout),
        Some(WaitOutcome::Closed) => Err(StatusError::InternalError),
        _ => match state.light_block {
            Some(header) => Ok(
                StatusResponse {
                    block_height: header.height,
                    block_hash: header.hash,
                    block_timestamp: header.time,
                },
            ),
            None => Err(StatusError::ServiceUnavailable),
        },
    }
}

/// Takes a status query one step on: on arrival the state's age is checked
/// against the query's threshold, and after the wait the query is answered
/// from the state as it then is.
pub fn status_handler(state: &mut AppState, event: QueryEvent<'_>) -> (action: QueryAction)
    ensures
        match event {
            QueryEvent::Arrived { freshness, now } => {
                let threshold = threshold_for(
                    match freshness {
                        Some(text) => Some(text@),
                        None => None,
                    },
                    old(state).config.freshness_threshold,
                );
                &&& *final(state) == arrival(*old(state), now, threshold).state
                &&& action == arrival(*old(state), now, threshold).action
            },
            QueryEvent::Waited { outcome } => {
                &&& *final(state) == after_wait(*old(state), outcome).state
                &&& action == after_wait(*old(state), outcome).action
            },
        },
{
    match event {
        QueryEvent::Arrived { freshness, now } => {
            let threshold: u64 = effective_threshold(freshness, &state.config);
            let timeout: u64 = state.config.api_timeout;
            let ready = status_response(state, None);
            match check_freshness(state, now, threshold) {
                GateDecision::Fresh => QueryAction::Respond { result: ready },
                GateDecision::AwaitSync => QueryAction::Wait { timeout },
                GateDecision::TriggerSync => QueryAction::TriggerAndWait { timeout },
            }
        },
        QueryEvent::Waited { outcome } => QueryAction::Respond {
            result: status_response(state, Some(outcome)),
        },
    }
}

/// An override of `0` tolerates no staleness at all: once any time has
/// passed since the last publication, the query sends the trigger if no
/// sync is in flight, and waits for the one that is otherwise.
pub proof fn zero_override_forces_sync(state: AppState, now: u128)
    requires
        now > state.last_sync,
    ensures
        threshold_for(Some("0"@), state.config.freshness_threshold) == 0,
        gate(state, now, 0).state.syncing,
        gate(state, now, 0).decision == (if state.syncing {
            GateDecision::AwaitSync
        } else {
            GateDecision::TriggerSync
        }),
{
    reveal_strlit("0");
    let text = "0"@;
    assert(text =~= seq!['0']);
    assert(without_sign(text) == text);
    assert(all_digits(text));
    assert(text.drop_last() =~= Seq::<char>::empty());
    assert(decimal_value(text) == 0) by {
        reveal_with_fuel(decimal_value, 2);
    }
}

/// Checking never touches the header, the settings or the time of the last
/// publication, never lowers the in-flight flag, and asks for a sync only
/// where the state is stale.
pub proof fn gate_only_raises_flag(state: AppState, now: u128, threshold: u64)
    ensures
        gate(state, now, threshold).state == (AppState {
            syncing: gate(state, now, threshold).state.syncing,
            ..state
        }),
        state.syncing ==> gate(state, now, threshold).state.syncing,
        gate(state, now, threshold).decision == GateDecision::Fresh <==> !state.stale_at(
            now,
            threshold,
        ),
        gate(state, now, threshold).decision == GateDecision::TriggerSync <==> (state.stale_at(
            now,
            threshold,
        ) && !state.syncing),
{
}

} // verus!
