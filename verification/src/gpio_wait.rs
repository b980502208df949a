//! The GPIO wait/edge state machine: the one stateful, potentially
//! long-blocking operation family. A wait for an edge must observe a
//! transition — two samples, an earlier one and a changed one — and must
//! not return on an already-satisfied level; only the waits for a plain
//! high or low level are satisfied immediately by the current level.

use vstd::prelude::*;

use crate::schema::{GpioState, WaitKind};

verus! {

/// Whether one new sample completes a wait of kind `kind`, given the
/// previously observed level, if any. Level waits need no history; edge
/// waits need a previous sample on the other side of the transition.
pub open spec fn spec_wait_done(kind: WaitKind, last: Option<GpioState>, sample: GpioState) -> bool {
    match kind {
        WaitKind::High => sample == GpioState::High,
        WaitKind::Low => sample == GpioState::Low,
        WaitKind::RisingEdge => last == Some(GpioState::Low) && sample == GpioState::High,
        WaitKind::FallingEdge => last == Some(GpioState::High) && sample == GpioState::Low,
        WaitKind::AnyEdge => match last {
            Some(prev) => prev != sample,
            None => false,
        },
    }
}

/// One pending wait on one pin: the condition waited for and the level
/// observed by the previous sample, if any.
#[derive(Debug, Clone, Copy, PartialEq, Eq, Structural)]
pub struct EdgeWaiter {
    pub kind: WaitKind,
    pub last: Option<GpioState>,
}

impl EdgeWaiter {
    /// Starts a wait: no sample has been observed yet.
    pub fn new(kind: WaitKind) -> (r: EdgeWaiter)
        ensures
            r.kind == kind,
            r.last is None,
    {
        EdgeWaiter { kind, last: None }
    }

    /// Feeds one pin sample to the wait; true exactly when the sample
    /// completes it. The sample becomes the previous level of the next step.
    pub fn step(&mut self, sample: GpioState) -> (done: bool)
        ensures
            done == spec_wait_done(old(self).kind, old(self).last, sample),
            final(self).kind == old(self).kind,
            final(self).last == Some(sample),
    {
        let done = match self.kind {
            WaitKind::High => sample == GpioState::High,
            WaitKind::Low => sample == GpioState::Low,
            WaitKind::RisingEdge => self.last == Some(GpioState::Low) && sample == GpioState::High,
            WaitKind::FallingEdge => self.last == Some(GpioState::High) && sample
                == GpioState::Low,
            WaitKind::AnyEdge => match self.last {
                Some(prev) => prev != sample,
                None => false,
            },
        };
        self.last = Some(sample);
        done
    }
}

/// The previous level at sample `i` of a run over `samples`.
pub open spec fn spec_prev(samples: Seq<GpioState>, i: int) -> Option<GpioState> {
    if i == 0 {
        None
    } else {
        Some(samples[i - 1])
    }
}

/// Whether sample `i` of a run completes a wait of kind `kind`.
pub open spec fn spec_done_at(kind: WaitKind, samples: Seq<GpioState>, i: int) -> bool {
    spec_wait_done(kind, spec_prev(samples, i), samples[i])
}

/// The first sample index at or after `i` that completes the wait.
pub open spec fn spec_first_done_from(kind: WaitKind, samples: Seq<GpioState>, i: int) -> Option<
    int,
>
    decreases samples.len() - i,
{
    if i < 0 || i >= samples.len() {
        None
    } else if spec_done_at(kind, samples, i) {
        Some(i)
    } else {
        spec_first_done_from(kind, samples, i + 1)
    }
}

/// The sample index at which a wait started before the first sample
/// completes, if it completes at all.
pub open spec fn spec_first_done(kind: WaitKind, samples: Seq<GpioState>) -> Option<int> {
    spec_first_done_from(kind, samples, 0)
}

/// Runs a fresh wait over a whole sequence of samples and reports the index
/// of the sample that completed it, if any did.
pub fn run_waiter(kind: WaitKind, samples: &Vec<GpioState>) -> (r: Option<usize>)
    ensures
        (match r {
            Some(i) => spec_first_done(kind, samples@) == Some(i as int) && i < samples@.len(),
            None => spec_first_done(kind, samples@) is None,
        }),
{
    let mut w = EdgeWaiter::new(kind);
    let mut i: usize = 0;
    while i < samples.len()
        invariant
            i <= samples@.len(),
            w.kind == kind,
            w.last == spec_prev(samples@, i as int),
            spec_first_done(kind, samples@) == spec_first_done_from(kind, samples@, i as int),
        decreases samples@.len() - i,
    {
        let done = w.step(samples[i]);
        if done {
            return Some(i);
        }
        i = i + 1;
    }
    None
}

// ---------------------------------------------------------------- laws

/// A wait for a plain level returns immediately when the level already
/// holds: a pin currently high satisfies a wait-for-high at its very first
/// sample, and likewise for low.
pub proof fn lemma_level_wait_immediate(samples: Seq<GpioState>)
    requires
        samples.len() > 0,
    ensures
        samples[0] == GpioState::High ==> spec_first_done(WaitKind::High, samples) == Some(0int),
        samples[0] == GpioState::Low ==> spec_first_done(WaitKind::Low, samples) == Some(0int),
{
    reveal_with_fuel(spec_first_done_from, 1);
}

/// An edge wait never completes on the first sample: a transition takes two
/// observations, so an already-satisfied level does not end it.
pub proof fn lemma_edge_wait_needs_two_samples(kind: WaitKind, samples: Seq<GpioState>, i: int)
    requires
        kind == WaitKind::RisingEdge || kind == WaitKind::FallingEdge || kind == WaitKind::AnyEdge,
        spec_first_done(kind, samples) == Some(i),
    ensures
        i >= 1,
{
    lemma_first_done_is_done(kind, samples, 0, i);
}

/// A rising-edge wait completes exactly at a low-then-high pair of
/// observations, a falling-edge wait at a high-then-low pair, and an
/// any-edge wait at either transition, whichever comes first.
pub proof fn lemma_edge_wait_observes_transition(kind: WaitKind, samples: Seq<GpioState>, i: int)
    requires
        spec_first_done(kind, samples) == Some(i),
    ensures
        0 <= i < samples.len(),
        kind == WaitKind::RisingEdge ==> i >= 1 && samples[i - 1] == GpioState::Low && samples[i]
            == GpioState::High,
        kind == WaitKind::FallingEdge ==> i >= 1 && samples[i - 1] == GpioState::High && samples[i]
            == GpioState::Low,
        kind == WaitKind::AnyEdge ==> i >= 1 && samples[i - 1] != samples[i],
{
    lemma_first_done_is_done(kind, samples, 0, i);
}

/// No sample before the completing one completes the wait: the wait ends at
/// the first satisfying observation, not a later one.
pub proof fn lemma_first_done_is_first(kind: WaitKind, samples: Seq<GpioState>, i: int, j: int)
    requires
        spec_first_done(kind, samples) == Some(i),
        0 <= j < i,
    ensures
        !spec_done_at(kind, samples, j),
{
    lemma_first_done_from_skips(kind, samples, 0, j);
}

/// What a returned completion index means: it is in range and its sample
/// completes the wait.
proof fn lemma_first_done_is_done(kind: WaitKind, samples: Seq<GpioState>, from: int, i: int)
    requires
        spec_first_done_from(kind, samples, from) == Some(i),
        0 <= from,
    ensures
        from <= i < samples.len(),
        spec_done_at(kind, samples, i),
    decreases samples.len() - from,
{
    if from < samples.len() && !spec_done_at(kind, samples, from) {
        lemma_first_done_is_done(kind, samples, from + 1, i);
    }
}

/// A search that returns `i` found nothing at any earlier index `j`.
proof fn lemma_first_done_from_skips(kind: WaitKind, samples: Seq<GpioState>, from: int, j: int)
    requires
        0 <= from <= j,
        (match spec_first_done_from(kind, samples, from) {
            Some(i) => j < i,
            None => j < samples.len(),
        }),
    ensures
        !spec_done_at(kind, samples, j),
    decreases j - from,
{
    if from < j {
        lemma_first_done_from_skips(kind, samples, from + 1, j);
    }
}

} // verus!
