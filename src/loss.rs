use vstd::prelude::*;

verus! {

/// What to do after a poll that brought no usable frame.
#[derive(Debug, Clone, Copy, PartialEq, Eq, Structural)]
pub enum LossDecision {
    /// Count the failure and poll again.
    Retry,
    /// Hand an empty buffer downstream; the stream is never declared closed.
    EmitEmpty,
    /// The consecutive-loss budget is spent: the stream is taken as closed.
    Closed,
}

/// The decision for a failed poll after `failures` consecutive failures, with
/// `threshold` failures tolerated (`0`: never close, send empty buffers).
pub open spec fn loss_decision_spec(failures: u32, threshold: u32) -> LossDecision {
    if threshold == 0 {
        LossDecision::EmitEmpty
    } else if failures < threshold {
        LossDecision::Retry
    } else {
        LossDecision::Closed
    }
}

pub fn classify_loss(failures: u32, threshold: u32) -> (r: LossDecision)
    ensures
        r == loss_decision_spec(failures, threshold),
{
    if threshold == 0 {
        LossDecision::EmitEmpty
    } else if failures < threshold {
        LossDecision::Retry
    } else {
        LossDecision::Closed
    }
}

/// Where a create cycle stands after a run of consecutive failed polls.
#[derive(Debug, Clone, Copy, PartialEq, Eq, Structural)]
pub enum LossRun {
    /// Still polling, with this many failures counted.
    Polling(u32),
    /// The cycle ended with this decision.
    Ended(LossDecision),
}

/// The state of a fresh create cycle after `k` consecutive failed polls.
pub open spec fn run_failures(threshold: u32, k: nat) -> LossRun
    decreases k,
{
    if k == 0 {
        LossRun::Polling(0)
    } else {
        match run_failures(threshold, (k - 1) as nat) {
            LossRun::Polling(c) => match loss_decision_spec(c, threshold) {
                LossDecision::Retry => LossRun::Polling((c + 1) as u32),
                d => LossRun::Ended(d),
            },
            e => e,
        }
    }
}

/// With a threshold of zero a failed poll always yields an empty buffer and
/// never closes the stream, however many failures came before.
pub proof fn lemma_zero_threshold_never_closes(failures: u32, k: nat)
    requires
        k >= 1,
    ensures
        loss_decision_spec(failures, 0) == LossDecision::EmitEmpty,
        run_failures(0, k) == LossRun::Ended(LossDecision::EmitEmpty),
    decreases k,
{
    if k > 1 {
        lemma_zero_threshold_never_closes(failures, (k - 1) as nat);
    } else {
        assert(run_failures(0, 0) == LossRun::Polling(0));
    }
}

/// With a threshold `n > 0`, up to `n` consecutive failures keep the cycle
/// polling with the failures counted, and failure `n + 1` closes the stream.
pub proof fn lemma_loss_budget(threshold: u32, k: nat)
    requires
        threshold > 0,
        k <= threshold as nat + 1,
    ensures
        k <= threshold ==> run_failures(threshold, k) == LossRun::Polling(k as u32),
        k == threshold as nat + 1 ==> run_failures(threshold, k) == LossRun::Ended(
            LossDecision::Closed,
        ),
    decreases k,
{
    if k > 0 {
        lemma_loss_budget(threshold, (k - 1) as nat);
    }
}

} // verus!
