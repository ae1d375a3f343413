//! The mining action: repetitions of wait, deposit, wait, withdrawal, in
//! that order and no other.

use vstd::prelude::*;

verus! {

/// How many deposit/withdrawal pairs a mining action makes.
#[derive(Clone, Copy, Debug, PartialEq, Eq, Structural)]
pub enum Repetitions {
    Bounded(u64),
    Unbounded,
}

/// The four stages of one repetition, in their order.
#[derive(Clone, Copy, Debug, PartialEq, Eq, Structural)]
pub enum MiningStage {
    /// Wait out the cooldown after the last withdrawal.
    DepositWait,
    /// Submit the deposit.
    DepositSubmit,
    /// Wait out the cooldown after the last deposit.
    WithdrawalWait,
    /// Submit the withdrawal.
    WithdrawalSubmit,
}

impl MiningStage {
    /// The place of the stage in its repetition, from zero.
    pub open spec fn index(self) -> int {
        match self {
            MiningStage::DepositWait => 0,
            MiningStage::DepositSubmit => 1,
            MiningStage::WithdrawalWait => 2,
            MiningStage::WithdrawalSubmit => 3,
        }
    }
}

/// Where the action stands, which is also what its driver has to do next.
#[derive(Clone, Copy, Debug, PartialEq, Eq, Structural)]
pub enum MiningPhase {
    /// Carry out `stage`; `remaining` counts the repetitions not yet
    /// completed, this one included.
    Working { stage: MiningStage, remaining: Repetitions },
    /// Every repetition is made.
    Done,
    /// A stage failed; the action was given up there.
    Failed,
}

/// The phase in which the action starts.
pub open spec fn first_stage(repetitions: Repetitions) -> MiningPhase {
    if repetitions == Repetitions::Bounded(0) {
        MiningPhase::Done
    } else {
        MiningPhase::Working { stage: MiningStage::DepositWait, remaining: repetitions }
    }
}

/// The phase after a completed repetition.
pub open spec fn next_repetition(remaining: Repetitions) -> MiningPhase {
    match remaining {
        Repetitions::Unbounded => MiningPhase::Working {
            stage: MiningStage::DepositWait,
            remaining: Repetitions::Unbounded,
        },
        Repetitions::Bounded(left) => if left <= 1 {
            MiningPhase::Done
        } else {
            MiningPhase::Working {
                stage: MiningStage::DepositWait,
                remaining: Repetitions::Bounded((left - 1) as u64),
            }
        },
    }
}

/// The transition function of the action: the phase after the current stage
/// succeeded or failed. An ended action stays as it is.
pub open spec fn next_stage(phase: MiningPhase, succeeded: bool) -> MiningPhase {
    match phase {
        MiningPhase::Working { stage, remaining } => if !succeeded {
            MiningPhase::Failed
        } else {
            match stage {
                MiningStage::DepositWait => MiningPhase::Working {
                    stage: MiningStage::DepositSubmit,
                    remaining,
                },
                MiningStage::DepositSubmit => MiningPhase::Working {
                    stage: MiningStage::WithdrawalWait,
                    remaining,
                },
                MiningStage::WithdrawalWait => MiningPhase::Working {
                    stage: MiningStage::WithdrawalSubmit,
                    remaining,
                },
                MiningStage::WithdrawalSubmit => next_repetition(remaining),
            }
        },
        _ => phase,
    }
}

/// The phase in which a mining action of `repetitions` pairs starts.
pub fn start_mining(repetitions: Repetitions) -> (res: MiningPhase)
    ensures
        res == first_stage(repetitions),
{
    match repetitions {
        Repetitions::Bounded(0) => MiningPhase::Done,
        _ => MiningPhase::Working { stage: MiningStage::DepositWait, remaining: repetitions },
    }
}

/// One step of the mining action: the phase that follows `phase` once its
/// stage has succeeded or failed.
pub fn mining_loop(phase: MiningPhase, succeeded: bool) -> (res: MiningPhase)
    ensures
        res == next_stage(phase, succeeded),
{
    match phase {
        MiningPhase::Working { stage, remaining } => {
            if !succeeded {
                return MiningPhase::Failed;
            }
            match stage {
                MiningStage::DepositWait => MiningPhase::Working {
                    stage: MiningStage::DepositSubmit,
                    remaining,
                },
                MiningStage::DepositSubmit => MiningPhase::Working {
                    stage: MiningStage::WithdrawalWait,
                    remaining,
                },
                MiningStage::WithdrawalWait => MiningPhase::Working {
                    stage: MiningStage::WithdrawalSubmit,
                    remaining,
                },
                MiningStage::WithdrawalSubmit => match remaining {
                    Repetitions::Unbounded => MiningPhase::Working {
                        stage: MiningStage::DepositWait,
                        remaining,
                    },
                    Repetitions::Bounded(left) => {
                        if left <= 1 {
                            MiningPhase::Done
                        } else {
                            MiningPhase::Working {
                                stage: MiningStage::DepositWait,
                                remaining: Repetitions::Bounded(left - 1),
                            }
                        }
                    },
                },
            }
        },
        _ => phase,
    }
}

/// The phase reached from `phase` when `count` stages succeed one after the other.
pub open spec fn after_successes(phase: MiningPhase, count: nat) -> MiningPhase
    decreases count,
{
    if count == 0 {
        phase
    } else {
        next_stage(after_successes(phase, (count - 1) as nat), true)
    }
}

/// Within a repetition a stage is followed by the next of the four and by
/// no other; only after a withdrawal is submitted does a new repetition
/// start, with the wait before its deposit, or the action end.
pub proof fn lemma_stages_in_order(stage: MiningStage, remaining: Repetitions)
    ensures
        !(stage is WithdrawalSubmit) ==> (next_stage(MiningPhase::Working { stage, remaining }, true)
            matches MiningPhase::Working { stage: following, remaining: left } && following.index()
            == stage.index() + 1 && left == remaining),
        stage is WithdrawalSubmit ==> (next_stage(MiningPhase::Working { stage, remaining }, true)
            matches MiningPhase::Working { stage: following, .. } ==> following is DepositWait),
        next_stage(MiningPhase::Working { stage, remaining }, false) == MiningPhase::Failed,
{
}

/// A bounded action of `total` repetitions is, after `count` successful
/// stages, in stage `count % 4` of repetition `count / 4`, and done after
/// exactly four stages per repetition.
pub proof fn lemma_bounded_action_completes(total: u64, count: nat)
    requires
        count <= 4 * total,
    ensures
        count < 4 * total ==> (after_successes(first_stage(Repetitions::Bounded(total)), count)
            matches MiningPhase::Working { stage, remaining } && stage.index() == count % 4
            && remaining == Repetitions::Bounded((total - count / 4) as u64)),
        count == 4 * total ==> after_successes(first_stage(Repetitions::Bounded(total)), count)
            == MiningPhase::Done,
    decreases count,
{
    if count > 0 {
        lemma_bounded_action_completes(total, (count - 1) as nat);
    }
}

/// An unbounded action never ends by itself: after any number of successful
/// stages it is at work, in stage `count % 4`.
pub proof fn lemma_unbounded_action_goes_on(count: nat)
    ensures
        after_successes(first_stage(Repetitions::Unbounded), count) matches MiningPhase::Working {
            stage,
            remaining,
        } && stage.index() == count % 4 && remaining == Repetitions::Unbounded,
    decreases count,
{
    if count > 0 {
        lemma_unbounded_action_goes_on((count - 1) as nat);
    }
}

} // verus!
