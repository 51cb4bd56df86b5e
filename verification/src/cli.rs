//! What the operator supplies at startup: verbosity, list-valued options,
//! the trust threshold, and the settings made of them.

use vstd::prelude::*;
use crate::state::Config;
use crate::text::{
    cut_at_first, is_split_of, parse_u64, parsed_u64, split_all, split_once, texts,
};

verus! {

/// The most verbose level of log output that is let through.
#[derive(Clone, Copy, Debug, PartialEq, Eq, Structural)]
pub enum LevelFilter {
    Info,
    Debug,
    Trace,
}

/// How many times the verbosity flag was given.
#[derive(Clone, Copy, Debug)]
pub struct Verbosity {
    verbose: u8,
}

impl Verbosity {
    /// A verbosity from the number of times the flag was given.
    pub fn new(verbose: u8) -> (v: Verbosity)
        ensures
            v.count() == verbose,
    {
        Verbosity { verbose }
    }

    /// The number of times the flag was given.
    pub closed spec fn count(&self) -> u8 {
        self.verbose
    }

    /// The level filter this verbosity selects.
    pub open spec fn level(&self) -> LevelFilter {
        if self.count() == 0 {
            LevelFilter::Info
        } else if self.count() == 1 {
            LevelFilter::Debug
        } else {
            LevelFilter::Trace
        }
    }

    /// No flag means informational output, one flag debug output, and two
    /// or more full tracing.
    pub fn to_level_filter(&self) -> (filter: LevelFilter)
        ensures
            filter == self.level(),
    {
        match self.verbose {
            0 => LevelFilter::Info,
            1 => LevelFilter::Debug,
            _ => LevelFilter::Trace,
        }
    }
}

/// A list-valued option.
#[derive(Clone, Debug)]
pub struct List<T>(pub Vec<T>);

impl<T> List<T> {
    /// The items in order.
    pub open spec fn items(&self) -> Seq<T> {
        self.0@
    }

    /// Makes a list of items that were each read on their own: the list of
    /// all of them if every one was read, and otherwise the error of the
    /// first that was not.
    pub fn from_results<E>(results: Vec<Result<T, E>>) -> (list: Result<List<T>, E>)
        ensures
            match list {
                Ok(list) => {
                    &&& list.items().len() == results@.len()
                    &&& forall|i: int|
                        0 <= i < results@.len() ==> results@[i] == Ok::<T, E>(list.items()[i])
                },
                Err(error) => exists|at: int|
                    {
                        &&& 0 <= at < results@.len()
                        &&& #[trigger] results@[at] == Err::<T, E>(error)
                        &&& forall|i: int| 0 <= i < at ==> results@[i] is Ok
                    },
            },
    {
        let ghost all = results@;
        let mut items: Vec<T> = Vec::new();
        for result in it: results.into_iter()
            invariant
                it.seq() == all,
                items@.len() == it.index(),
                forall|i: int| 0 <= i < it.index() ==> all[i] == Ok::<T, E>(items@[i]),
        {
            match result {
                Ok(item) => {
                    items.push(item);
                },
                Err(error) => {
                    assert(all[it.index() as int] == Err::<T, E>(error));
                    return Err(error);
                },
            }
        }
        Ok(List(items))
    }
}

impl List<String> {
    /// Reads a comma-separated list: the items are what stands between the
    /// commas, in order and as written. A text without a comma is a list of
    /// one item.
    pub fn split(s: &str) -> (list: List<String>)
        ensures
            is_split_of(texts(list.items()), s@, ','),
    {
        List(split_all(s, ','))
    }
}

impl core::str::FromStr for List<String> {
    type Err = core::convert::Infallible;

    /// Reads a comma-separated list. Every text is one: reading never
    /// fails, and the items are what stands between the commas.
    fn from_str(s: &str) -> (list: Result<Self, Self::Err>)
        ensures
            list matches Ok(read) && is_split_of(texts(read.items()), s@, ','),
    {
        Ok(List::split(s))
    }
}

/// The share of a trusted validator set's voting power that must stand
/// behind a header: `numerator / denominator`.
#[derive(Clone, Copy, Debug, PartialEq, Eq)]
pub struct TrustThreshold {
    pub numerator: u64,
    pub denominator: u64,
}

/// Why a text is not a trust threshold.
#[derive(Clone, Copy, Debug, PartialEq, Eq)]
pub enum ThresholdError {
    /// There is no `/` in the text.
    MissingSeparator,
    /// What stands before the first `/` is not a number.
    InvalidNumerator,
    /// What stands after the first `/` is not a number.
    InvalidDenominator,
    /// The fraction is more than one.
    TooLarge,
    /// The denominator is zero.
    Undefined,
    /// The fraction is less than a third.
    TooSmall,
}

/// What is wrong with `numerator / denominator` as a trust threshold, if
/// anything: a threshold lies between a third and one.
pub open spec fn fraction_fault(numerator: u64, denominator: u64) -> Option<ThresholdError> {
    if numerator > denominator {
        Some(ThresholdError::TooLarge)
    } else if denominator == 0 {
        Some(ThresholdError::Undefined)
    } else if 3 * numerator < denominator {
        Some(ThresholdError::TooSmall)
    } else {
        None
    }
}

/// The threshold `numerator / denominator`, or what is wrong with it.
pub open spec fn checked_fraction(numerator: u64, denominator: u64) -> Result<
    TrustThreshold,
    ThresholdError,
> {
    match fraction_fault(numerator, denominator) {
        Some(fault) => Err(fault),
        None => Ok(TrustThreshold { numerator, denominator }),
    }
}

/// What `text` reads as: a numerator, a `/` and a denominator that make a
/// threshold.
pub open spec fn parsed_threshold(text: Seq<char>) -> Result<TrustThreshold, ThresholdError> {
    match cut_at_first(text, '/') {
        None => Err(ThresholdError::MissingSeparator),
        Some((before, after)) => match parsed_u64(before) {
            None => Err(ThresholdError::InvalidNumerator),
            Some(numerator) => match parsed_u64(after) {
                None => Err(ThresholdError::InvalidDenominator),
                Some(denominator) => checked_fraction(numerator, denominator),
            },
        },
    }
}

/// `tendermint::Error`, the error the outside constructor refuses a
/// fraction with. Nothing is read from it.
#[verifier::external_type_specification]
#[verifier::external_body]
pub struct ExFractionError(tendermint::Error);

/// Calls `tendermint::trust_threshold::TrustThresholdFraction::new`, which
/// accepts a fraction exactly when it lies between a third and one, and
/// hands the accepted fraction back with the numbers it was made of. The
/// constructor multiplies the numerator by three in 64 bits, so numerators
/// for which that does not fit are kept away from it.
#[verifier::external_body]
fn new_fraction(numerator: u64, denominator: u64) -> (made: Result<TrustThreshold, tendermint::Error>)
    requires
        3 * numerator <= u64::MAX,
    ensures
        made is Ok <==> fraction_fault(numerator, denominator) is None,
        made matches Ok(threshold) ==> threshold == (TrustThreshold { numerator, denominator }),
{
    match tendermint::trust_threshold::TrustThresholdFraction::new(numerator, denominator) {
        Ok(fraction) => Ok(
            TrustThreshold {
                numerator: fraction.numerator(),
                denominator: fraction.denominator(),
            },
        ),
        Err(error) => Err(error),
    }
}

impl TrustThreshold {
    /// Whether the fraction lies between a third and one.
    pub open spec fn valid(self) -> bool {
        fraction_fault(self.numerator, self.denominator) is None
    }

    /// Two thirds, the threshold used where none is given.
    pub fn two_thirds() -> (threshold: TrustThreshold)
        ensures
            threshold == (TrustThreshold { numerator: 2, denominator: 3 }),
            threshold.valid(),
    {
        TrustThreshold { numerator: 2, denominator: 3 }
    }

    /// The threshold `numerator / denominator` if it lies between a third
    /// and one, and otherwise what is wrong with it.
    pub fn new(numerator: u64, denominator: u64) -> (made: Result<TrustThreshold, ThresholdError>)
        ensures
            made == checked_fraction(numerator, denominator),
            made matches Ok(threshold) ==> threshold.valid(),
    {
        if numerator > u64::MAX / 3 {
            // Three times the numerator is beyond any denominator.
            if numerator > denominator {
                Err(ThresholdError::TooLarge)
            } else {
                Ok(TrustThreshold { numerator, denominator })
            }
        } else {
            match new_fraction(numerator, denominator) {
                Ok(threshold) => Ok(threshold),
                Err(_) => if numerator > denominator {
                    Err(ThresholdError::TooLarge)
                } else if denominator == 0 {
                    Err(ThresholdError::Undefined)
                } else {
                    Err(ThresholdError::TooSmall)
                },
            }
        }
    }
}

/// Reads a trust threshold written as `X/Y`.
pub fn parse_trust_threshold(s: &str) -> (threshold: Result<TrustThreshold, ThresholdError>)
    ensures
        threshold == parsed_threshold(s@),
        threshold matches Ok(threshold) ==> threshold.valid(),
{
    match split_once(s, '/') {
        None => Err(ThresholdError::MissingSeparator),
        Some((before, after)) => match parse_u64(before) {
            None => Err(ThresholdError::InvalidNumerator),
            Some(numerator) => match parse_u64(after) {
                None => Err(ThresholdError::InvalidDenominator),
                Some(denominator) => TrustThreshold::new(numerator, denominator),
            },
        },
    }
}

/// The address the server binds to where none is given.
pub const DEFAULT_LISTEN_ADDR: &'static str = "127.0.0.1:8080";

/// Two weeks, in seconds.
pub const DEFAULT_TRUSTING_PERIOD: u64 = 1209600;

/// Seconds of clock drift tolerated where none are given.
pub const DEFAULT_MAX_CLOCK_DRIFT: u64 = 5;

/// Seconds of block lag tolerated where none are given.
pub const DEFAULT_MAX_BLOCK_LAG: u64 = 5;

/// Seconds of staleness tolerated where none are given.
pub const DEFAULT_FRESHNESS_THRESHOLD: u64 = 10;

/// Five minutes, in seconds.
pub const DEFAULT_KEEP_WARM_INTERVAL: u64 = 300;

/// One hour, in seconds.
pub const DEFAULT_HALT_DURATION_ON_FORK: u64 = 3600;

/// Seconds a query waits where none are given.
pub const DEFAULT_API_TIMEOUT: u64 = 5;

/// The trust parameters handed to header verification, periods in seconds.
#[derive(Clone, Copy, Debug, PartialEq, Eq)]
pub struct Options {
    pub trust_threshold: TrustThreshold,
    pub trusting_period: u64,
    pub clock_drift: u64,
}

/// Everything the operator supplies at startup, periods in seconds.
#[derive(Clone, Debug)]
pub struct Args {
    /// The address to bind the server to.
    pub listen_addr: String,
    /// Identifier of the chain.
    pub chain_id: String,
    /// Address of the primary.
    pub primary: String,
    /// Addresses of the witnesses.
    pub witnesses: List<String>,
    /// Height of the trusted checkpoint.
    pub trusted_height: u64,
    /// Hash of the trusted checkpoint.
    pub trusted_hash: [u8; 32],
    pub trust_threshold: TrustThreshold,
    pub trusting_period: u64,
    pub max_clock_drift: u64,
    pub max_block_lag: u64,
    pub freshness_threshold: u64,
    pub keep_warm_interval: u64,
    pub halt_duration_on_fork: u64,
    pub api_timeout: u64,
    pub verbose: Verbosity,
}

impl Args {
    /// The settings the shared state is created with.
    pub open spec fn config_of(&self) -> Config {
        Config {
            freshness_threshold: self.freshness_threshold,
            keep_warm_interval: self.keep_warm_interval,
            halt_duration_on_fork: self.halt_duration_on_fork,
            api_timeout: self.api_timeout,
        }
    }

    /// The trust parameters every provider is built with.
    pub open spec fn options_of(&self) -> Options {
        Options {
            trust_threshold: self.trust_threshold,
            trusting_period: self.trusting_period,
            clock_drift: self.max_clock_drift,
        }
    }

    /// The settings the shared state is created with.
    pub fn config(&self) -> (config: Config)
        ensures
            config == self.config_of(),
    {
        Config {
            freshness_threshold: self.freshness_threshold,
            keep_warm_interval: self.keep_warm_interval,
            halt_duration_on_fork: self.halt_duration_on_fork,
            api_timeout: self.api_timeout,
        }
    }

    /// The trust parameters every provider is built with.
    pub fn options(&self) -> (options: Options)
        ensures
            options == self.options_of(),
    {
        Options {
            trust_threshold: self.trust_threshold,
            trusting_period: self.trusting_period,
            clock_drift: self.max_clock_drift,
        }
    }
}

} // verus!
