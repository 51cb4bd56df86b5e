//! One round of fork detection: every witness is examined against the
//! primary's trace, evidence is reported where the two diverge, and the
//! round ends in a single verdict.
//!
//! The caller examines the witnesses and sends the reports. The detector
//! decides which witness is next, which reports a finding calls for, and
//! what the round amounts to.

use vstd::prelude::*;
use tendermint_light_client::types::LightBlock;
use tendermint_light_client_detector::Trace;

verus! {

/// `tendermint_light_client::types::LightBlock`, a block as the light
/// client holds it. Nothing is read from it.
#[verifier::external_type_specification]
#[verifier::external_body]
pub struct ExLightBlock(LightBlock);

/// `tendermint_light_client_detector::Trace`, the blocks of one
/// verification made ready for examination. It is handed on as it is.
#[verifier::external_type_specification]
#[verifier::external_body]
pub struct ExTrace(Trace);

/// The fewest blocks a trace can be examined with: the trusted block and
/// the target block.
pub const MIN_TRACE_BLOCKS: usize = 2;

/// Whether a round over `witnesses` witnesses with a primary trace of
/// `blocks` blocks has anything to examine.
pub open spec fn round_possible(witnesses: nat, blocks: nat) -> bool {
    witnesses > 0 && blocks >= MIN_TRACE_BLOCKS
}

/// Calls `tendermint_light_client_detector::Trace::new`, which makes a
/// trace of the blocks it is given, ordered by height, and refuses fewer
/// than two blocks.
#[verifier::external_body]
fn make_trace(blocks: Vec<LightBlock>) -> (trace: Option<Trace>)
    ensures
        trace is Some <==> blocks@.len() >= MIN_TRACE_BLOCKS,
{
    Trace::new(blocks).ok()
}

/// How examining one witness ended.
#[derive(Clone, Copy, Debug, PartialEq, Eq)]
pub enum WitnessOutcome {
    /// The witness agrees with the primary.
    Agreed,
    /// The witness holds a conflicting header. There is always evidence
    /// against the primary; `against_witness` says whether there is evidence
    /// against the witness as well.
    Diverged { against_witness: bool },
    /// The witness could not be examined.
    Failed,
}

/// The evidence reports a finding calls for.
#[derive(Clone, Copy, Debug, PartialEq, Eq)]
pub struct Reports {
    /// Report the evidence against the primary to the witness.
    pub to_witness: bool,
    /// Report the evidence against the witness to the primary.
    pub to_primary: bool,
}

/// The detector as the contracts see it.
pub struct DetectorView {
    /// Witnesses configured.
    pub witnesses: nat,
    /// Whether the primary's trace can be examined at all.
    pub usable: bool,
    /// Witnesses examined so far.
    pub examined: nat,
    /// Whether a witness examined so far diverged.
    pub fork_detected: bool,
}

/// The reports that `outcome` calls for.
pub open spec fn reports_for(outcome: WitnessOutcome) -> Reports {
    match outcome {
        WitnessOutcome::Diverged { against_witness } => Reports {
            to_witness: true,
            to_primary: against_witness,
        },
        _ => Reports { to_witness: false, to_primary: false },
    }
}

/// Whether one of the first `count` outcomes is a divergence.
pub open spec fn any_diverged(outcomes: Seq<WitnessOutcome>, count: int) -> bool {
    exists|i: int| 0 <= i < count && i < outcomes.len() && #[trigger] outcomes[i] is Diverged
}

/// The verdict of a round over `witnesses` witnesses whose outcomes, in
/// order, are `outcomes`: a fork is detected when the trace can be examined
/// and one of the witnesses diverged.
pub open spec fn verdict(witnesses: nat, usable: bool, outcomes: Seq<WitnessOutcome>) -> bool {
    usable && any_diverged(outcomes, witnesses as int)
}

impl DetectorView {
    /// The detector at the start of a round.
    pub open spec fn start(witnesses: nat, usable: bool) -> DetectorView {
        DetectorView { witnesses, usable, examined: 0, fork_detected: false }
    }

    /// Never more witnesses examined than configured.
    pub open spec fn inv(self) -> bool {
        self.examined <= self.witnesses
    }

    /// Whether a witness is still to be examined.
    pub open spec fn pending(self) -> bool {
        self.usable && self.examined < self.witnesses
    }

    /// The witness to examine next, by its position among the configured ones.
    pub open spec fn next_witness(self) -> Option<usize> {
        if self.pending() {
            Some(self.examined as usize)
        } else {
            None
        }
    }

    /// The detector after the pending witness ended in `outcome`. A
    /// divergence sets the verdict for good; agreement and failure leave it
    /// as it is. With no witness pending nothing changes.
    pub open spec fn record(self, outcome: WitnessOutcome) -> DetectorView {
        if self.pending() {
            DetectorView {
                examined: self.examined + 1,
                fork_detected: self.fork_detected || outcome is Diverged,
                ..self
            }
        } else {
            self
        }
    }

    /// The reports to send after the pending witness ended in `outcome`.
    pub open spec fn reports(self, outcome: WitnessOutcome) -> Reports {
        if self.pending() {
            reports_for(outcome)
        } else {
            Reports { to_witness: false, to_primary: false }
        }
    }

    /// The detector after `outcomes` were recorded in order.
    pub open spec fn record_all(self, outcomes: Seq<WitnessOutcome>) -> DetectorView
        decreases outcomes.len(),
    {
        if outcomes.len() == 0 {
            self
        } else {
            self.record_all(outcomes.drop_last()).record(outcomes.last())
        }
    }
}

/// The state of one detection round.
#[derive(Clone, Copy, Debug)]
pub struct ForkDetector {
    witnesses: usize,
    usable: bool,
    examined: usize,
    fork_detected: bool,
}

impl View for ForkDetector {
    type V = DetectorView;

    closed spec fn view(&self) -> DetectorView {
        DetectorView {
            witnesses: self.witnesses as nat,
            usable: self.usable,
            examined: self.examined as nat,
            fork_detected: self.fork_detected,
        }
    }
}

impl ForkDetector {
    #[verifier::type_invariant]
    spec fn bounded(self) -> bool {
        self.examined <= self.witnesses
    }

    /// Starts a round over `witnesses` witnesses. `trace_usable` says
    /// whether the primary's trace could be made ready for examination;
    /// without it no witness is examined.
    pub fn new(witnesses: usize, trace_usable: bool) -> (detector: ForkDetector)
        ensures
            detector@ == DetectorView::start(witnesses as nat, trace_usable),
    {
        ForkDetector { witnesses, usable: trace_usable, examined: 0, fork_detected: false }
    }

    /// Starts a round over `witnesses` witnesses from the blocks the primary
    /// used in its last verification. With no witnesses, or with blocks
    /// that make no trace, the round has nothing to examine; otherwise the
    /// trace comes back with the detector, to examine each witness against.
    pub fn start(witnesses: usize, primary_trace: Vec<LightBlock>) -> (round: (
        ForkDetector,
        Option<Trace>,
    ))
        ensures
            round.0@ == DetectorView::start(
                witnesses as nat,
                round_possible(witnesses as nat, primary_trace@.len()),
            ),
            round.1 is Some <==> round_possible(witnesses as nat, primary_trace@.len()),
    {
        if witnesses == 0 {
            return (ForkDetector::new(witnesses, false), None);
        }
        match make_trace(primary_trace) {
            Some(trace) => (ForkDetector::new(witnesses, true), Some(trace)),
            None => (ForkDetector::new(witnesses, false), None),
        }
    }

    /// The witness to examine next, or `None` when the round is over.
    pub fn next_witness(&self) -> (next: Option<usize>)
        ensures
            next == self@.next_witness(),
            self@.inv(),
    {
        proof {
            use_type_invariant(self);
        }
        if self.usable && self.examined < self.witnesses {
            Some(self.examined)
        } else {
            None
        }
    }

    /// Records how examining the pending witness ended and returns the
    /// reports to send before the next witness is examined.
    pub fn record(&mut self, outcome: WitnessOutcome) -> (reports: Reports)
        ensures
            final(self)@ == old(self)@.record(outcome),
            reports == old(self)@.reports(outcome),
    {
        proof {
            use_type_invariant(&*self);
        }
        if self.usable && self.examined < self.witnesses {
            self.examined = self.examined + 1;
            match outcome {
                WitnessOutcome::Diverged { against_witness } => {
                    self.fork_detected = true;
                    Reports { to_witness: true, to_primary: against_witness }
                },
                _ => Reports { to_witness: false, to_primary: false },
            }
        } else {
            Reports { to_witness: false, to_primary: false }
        }
    }

    /// Whether a witness examined so far diverged.
    pub fn fork_detected(&self) -> (detected: bool)
        ensures
            detected == self@.fork_detected,
    {
        self.fork_detected
    }
}

/// Recording never examines more witnesses than are configured.
pub proof fn record_keeps_bound(detector: DetectorView, outcome: WitnessOutcome)
    requires
        detector.inv(),
    ensures
        detector.record(outcome).inv(),
{
}

/// A detected fork stays detected whatever the remaining witnesses say.
pub proof fn fork_is_sticky(detector: DetectorView, outcomes: Seq<WitnessOutcome>)
    requires
        detector.fork_detected,
    ensures
        detector.record_all(outcomes).fork_detected,
    decreases outcomes.len(),
{
    if outcomes.len() > 0 {
        fork_is_sticky(detector, outcomes.drop_last());
    }
}

/// Recording outcomes in order examines one witness per outcome until the
/// witnesses run out, and the detector's answer is the round's verdict over
/// the outcomes recorded.
pub proof fn round_reaches_verdict(witnesses: nat, usable: bool, outcomes: Seq<WitnessOutcome>)
    ensures
        ({
            let end = DetectorView::start(witnesses, usable).record_all(outcomes);
            &&& end.witnesses == witnesses
            &&& end.usable == usable
            &&& end.examined == if !usable {
                0
            } else if outcomes.len() <= witnesses {
                outcomes.len()
            } else {
                witnesses
            }
            &&& end.fork_detected == verdict(witnesses, usable, outcomes)
        }),
    decreases outcomes.len(),
{
    let begin = DetectorView::start(witnesses, usable);
    if outcomes.len() > 0 {
        let earlier = outcomes.drop_last();
        round_reaches_verdict(witnesses, usable, earlier);
        let before = begin.record_all(earlier);
        let end = before.record(outcomes.last());
        if before.pending() {
            let at = outcomes.len() - 1;
            if outcomes.last() is Diverged {
                assert(outcomes[at] is Diverged);
            } else if any_diverged(outcomes, witnesses as int) {
                let i = choose|i: int|
                    0 <= i < witnesses && i < outcomes.len() && #[trigger] outcomes[i] is Diverged;
                assert(earlier[i] is Diverged);
            }
            if any_diverged(earlier, witnesses as int) {
                let i = choose|i: int|
                    0 <= i < witnesses && i < earlier.len() && #[trigger] earlier[i] is Diverged;
                assert(outcomes[i] is Diverged);
            }
        } else if usable {
            if any_diverged(outcomes, witnesses as int) {
                let i = choose|i: int|
                    0 <= i < witnesses && i < outcomes.len() && #[trigger] outcomes[i] is Diverged;
                assert(earlier[i] is Diverged);
            }
            if any_diverged(earlier, witnesses as int) {
                let i = choose|i: int|
                    0 <= i < witnesses && i < earlier.len() && #[trigger] earlier[i] is Diverged;
                assert(outcomes[i] is Diverged);
            }
        }
    }
}

/// With no witnesses, or with a trace that cannot be examined, no round
/// detects a fork.
pub proof fn nothing_to_examine_means_no_fork(
    witnesses: nat,
    usable: bool,
    outcomes: Seq<WitnessOutcome>,
)
    requires
        witnesses == 0 || !usable,
    ensures
        !verdict(witnesses, usable, outcomes),
        !DetectorView::start(witnesses, usable).record_all(outcomes).fork_detected,
{
    round_reaches_verdict(witnesses, usable, outcomes);
}

/// Witnesses that fail or agree never make a fork: the verdict is the same
/// as if they had not been asked.
pub proof fn only_divergence_counts(witnesses: nat, usable: bool, outcomes: Seq<WitnessOutcome>)
    requires
        forall|i: int| 0 <= i < outcomes.len() ==> !(#[trigger] outcomes[i] is Diverged),
    ensures
        !verdict(witnesses, usable, outcomes),
{
}

} // verus!
