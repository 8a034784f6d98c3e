//! The transition states and the consensus engine active in each.

use vstd::prelude::*;

verus! {

/// The consensus engine that authors blocks.
#[derive(Debug, Clone, Copy, PartialEq, Eq, Structural)]
pub enum ActiveEngine {
    Aura,
    Babe,
}

/// The consensus-engine transition state machine.
#[derive(Debug, Clone, Copy, PartialEq, Eq, Structural)]
pub enum State {
    /// AURA block production, the baseline state before any transition is armed.
    Aura,
    /// A flip to BABE has been armed but not yet scheduled. The node adds BABE
    /// secondary-plain pre-runtime digests to the blocks it authors.
    ArmedBabe,
    /// The flip to BABE takes effect at the last block of an epoch. Blocks are
    /// still produced with AURA until the flip commits.
    ScheduledFlip,
    /// The post-flip state: the migration happened, consensus is BABE.
    Babe,
}

impl State {
    /// The engine active while in this state: only `Babe` authors with BABE.
    pub open spec fn engine(self) -> ActiveEngine {
        match self {
            State::Babe => ActiveEngine::Babe,
            _ => ActiveEngine::Aura,
        }
    }

    /// Position of the state along the transition: `Aura` is first, `Babe` last.
    pub open spec fn rank(self) -> nat {
        match self {
            State::Aura => 0,
            State::ArmedBabe => 1,
            State::ScheduledFlip => 2,
            State::Babe => 3,
        }
    }

    /// A single operation may keep the state or move it one state forward.
    pub open spec fn may_step_to(self, next: State) -> bool {
        next == self || next.rank() == self.rank() + 1
    }

    /// The consensus engine that is active while in this state.
    pub fn active_engine(&self) -> (engine: ActiveEngine)
        ensures
            engine == self.engine(),
    {
        match self {
            State::Aura | State::ArmedBabe | State::ScheduledFlip => ActiveEngine::Aura,
            State::Babe => ActiveEngine::Babe,
        }
    }
}

impl Default for State {
    /// A chain starts on AURA.
    fn default() -> (state: State)
        ensures
            state == State::Aura,
    {
        State::Aura
    }
}

/// Along any run of operations, each of which keeps the state or moves it one
/// state forward, the state never goes back: a later state is never ranked
/// below an earlier one, and once `Babe` is reached the run stays in `Babe`.
pub proof fn lemma_runs_never_go_back(run: Seq<State>)
    requires
        forall|i: int| 0 <= i < run.len() - 1 ==> #[trigger] run[i].may_step_to(run[i + 1]),
    ensures
        forall|i: int, j: int| 0 <= i <= j < run.len() ==> run[i].rank() <= run[j].rank(),
        forall|i: int, j: int|
            0 <= i <= j < run.len() && run[i] == State::Babe ==> run[j] == State::Babe,
    decreases run.len(),
{
    if run.len() > 1 {
        let rest = run.drop_last();
        assert forall|i: int| 0 <= i < rest.len() - 1 implies #[trigger] rest[i].may_step_to(
            rest[i + 1],
        ) by {
            assert(run[i].may_step_to(run[i + 1]));
        }
        lemma_runs_never_go_back(rest);
        let n = run.len() - 1;
        let k = n - 1;
        assert(run[k].may_step_to(run[k + 1]));
        assert forall|i: int, j: int| 0 <= i <= j < run.len() implies run[i].rank()
            <= run[j].rank() by {
            if j < n {
                assert(rest[i] == run[i] && rest[j] == run[j]);
            } else if i < n {
                assert(rest[i] == run[i] && rest[n - 1] == run[n - 1]);
            }
        }
        assert forall|i: int, j: int|
            0 <= i <= j < run.len() && run[i] == State::Babe implies run[j] == State::Babe by {
            assert(run[i].rank() <= run[j].rank());
        }
    }
}

/// Only the `Babe` state authors with BABE; every other state authors with AURA.
pub proof fn lemma_only_babe_state_authors_with_babe(state: State)
    ensures
        state.engine() == ActiveEngine::Babe <==> state == State::Babe,
        state.engine() == ActiveEngine::Aura <==> state != State::Babe,
{
}

} // verus!
