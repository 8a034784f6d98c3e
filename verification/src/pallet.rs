//! The pallet driving the consensus-engine change.
//!
//! The chain starts on AURA and moves through [`State`]s as governance arms the
//! flip to BABE, then schedules it; the flip itself commits in `on_initialize`
//! at the last slot of an epoch. Each operation here takes the pallet's storage
//! as a value and returns the hook (if any) that the runtime's BABE binding must
//! run, so that the runtime stays in charge of *how* BABE is bootstrapped while
//! the pallet decides *when*.

use crate::digest::{
    aura_slot, babe_engine_id_bytes, current_slot_from_aura_digest, has_babe_pre_digest,
    has_pre_runtime_of, DigestLog,
};
use crate::epoch::{
    effective_duration, epoch_boundary_after, is_epoch_end, lemma_boundary_after_is_next_epoch_start,
    lemma_epoch_end_boundary_is_next_slot, lemma_epoch_end_iff_next_slot_starts_epoch,
};
use crate::state::{lemma_runs_never_go_back, ActiveEngine, State};
use vstd::prelude::*;

verus! {

/// The runtime's binding that bootstraps `pallet-babe` at the flip.
///
/// The pallet owns *when* the flip happens; the runtime owns *how* to bootstrap
/// BABE (its storage and the AURA to BABE key bridge).
pub trait BabeMigration {
    /// Called when BABE is armed, before the node starts emitting BABE
    /// pre-runtime digests.
    fn on_arm();

    /// Bootstrap BABE for its genesis epoch at the flip, given the first slot of
    /// the new epoch.
    fn migrate(babe_genesis_slot: u64);
}

/// A runtime that does not run BABE has nothing to bootstrap.
impl BabeMigration for () {
    fn on_arm() {
    }

    fn migrate(_babe_genesis_slot: u64) {
    }
}

/// A call into the runtime's [`BabeMigration`] binding that an operation asks for.
#[derive(Debug, Clone, Copy, PartialEq, Eq, Structural)]
pub enum Hook {
    /// Run `BabeMigration::on_arm`.
    OnArm,
    /// Run `BabeMigration::migrate` with this genesis slot.
    Migrate { babe_genesis_slot: u64 },
}

/// Why a governance call was refused.
#[derive(Debug, Clone, Copy, PartialEq, Eq, Structural)]
pub enum DispatchError {
    /// The call's origin is not the governance origin.
    BadOrigin,
}

/// The pallet's storage: the transition state, and the configured epoch length
/// (midnight epochs and BABE epochs have the same length).
#[derive(Debug, Clone, Copy, PartialEq, Eq, Structural)]
pub struct Pallet {
    pub engine_state: State,
    pub epoch_duration: u64,
}

/// The flip is due in a block whose AURA digest announces the last slot of an
/// epoch.
pub open spec fn flip_due(logs: Seq<DigestLog>, epoch_duration: u64) -> bool {
    aura_slot(logs) is Some && is_epoch_end(aura_slot(logs)->0 as int, epoch_duration)
}

/// The migration hook of a flip at `slot`: BABE's genesis is the first slot of
/// the next epoch.
pub open spec fn flip_hook(slot: u64, epoch_duration: u64) -> Hook {
    Hook::Migrate { babe_genesis_slot: epoch_boundary_after(slot as int, epoch_duration) as u64 }
}

/// What one operation may do to the state, and the hook it asks for: keep the
/// state with no hook, or take one of the three forward transitions. Arming
/// asks for `on_arm`; the flip asks for the BABE migration; scheduling asks for
/// nothing.
pub open spec fn step_ok(before: State, after: State, hook: Option<Hook>) -> bool {
    ||| after == before && hook is None
    ||| before == State::Aura && after == State::ArmedBabe && hook == Some(Hook::OnArm)
    ||| before == State::ArmedBabe && after == State::ScheduledFlip && hook is None
    ||| before == State::ScheduledFlip && after == State::Babe && hook matches Some(
        Hook::Migrate { .. },
    )
}

/// The hook that a governance call's result asks for: none when it was refused.
pub open spec fn hook_of(result: Result<Option<Hook>, DispatchError>) -> Option<Hook> {
    match result {
        Ok(hook) => hook,
        Err(_) => None,
    }
}

/// The state and hook after `on_initialize` on a block with header digest
/// `logs`: a scheduled flip commits when the AURA slot ends an epoch; nothing
/// else changes. (A block carrying a BABE pre-runtime digest in `Aura` does not
/// get here: it is rejected, see [`Pallet::rejects_block`].)
pub open spec fn initialize_outcome(state: State, logs: Seq<DigestLog>, epoch_duration: u64) -> (
    State,
    Option<Hook>,
) {
    if state == State::ScheduledFlip && flip_due(logs, epoch_duration) {
        (State::Babe, Some(flip_hook(aura_slot(logs)->0, epoch_duration)))
    } else {
        (state, None)
    }
}

impl Pallet {
    /// The pallet at genesis: the chain starts on AURA.
    pub fn new(epoch_duration: u64) -> (pallet: Pallet)
        ensures
            pallet.engine_state == State::Aura,
            pallet.epoch_duration == epoch_duration,
    {
        Pallet { engine_state: State::default(), epoch_duration }
    }

    /// The consensus engine currently active, derived from the engine state.
    pub fn active_engine(&self) -> (engine: ActiveEngine)
        ensures
            engine == self.engine_state.engine(),
    {
        self.engine_state.active_engine()
    }

    /// Arm the flip to BABE: move `Aura` to `ArmedBabe`.
    ///
    /// Governance-gated: `is_governance` is whether the call's origin passed the
    /// governance origin check. A no-op unless the engine is currently `Aura`;
    /// on the transition it asks for `on_arm`, which pre-seeds BABE before the
    /// node starts emitting BABE pre-runtime digests.
    pub fn arm_babe(&mut self, is_governance: bool) -> (result: Result<Option<Hook>, DispatchError>)
        ensures
            !is_governance ==> result == Err::<Option<Hook>, DispatchError>(DispatchError::BadOrigin)
                && *final(self) == *old(self),
            is_governance && old(self).engine_state == State::Aura ==> result == Ok::<
                Option<Hook>,
                DispatchError,
            >(Some(Hook::OnArm)) && final(self).engine_state == State::ArmedBabe,
            is_governance && old(self).engine_state != State::Aura ==> result == Ok::<
                Option<Hook>,
                DispatchError,
            >(None) && *final(self) == *old(self),
            final(self).epoch_duration == old(self).epoch_duration,
            step_ok(old(self).engine_state, final(self).engine_state, hook_of(result)),
    {
        if !is_governance {
            return Err(DispatchError::BadOrigin);
        }
        if self.engine_state == State::Aura {
            self.engine_state = State::ArmedBabe;
            Ok(Some(Hook::OnArm))
        } else {
            Ok(None)
        }
    }

    /// Schedule the flip to BABE: move `ArmedBabe` to `ScheduledFlip`.
    ///
    /// Governance-gated, as [`Pallet::arm_babe`]. A no-op unless the engine is
    /// currently `ArmedBabe`. The flip itself commits at the next epoch end, in
    /// [`Pallet::on_initialize`].
    pub fn schedule_flip(&mut self, is_governance: bool) -> (result: Result<(), DispatchError>)
        ensures
            !is_governance ==> result == Err::<(), DispatchError>(DispatchError::BadOrigin)
                && *final(self) == *old(self),
            is_governance && old(self).engine_state == State::ArmedBabe ==> result == Ok::<
                (),
                DispatchError,
            >(()) && final(self).engine_state == State::ScheduledFlip,
            is_governance && old(self).engine_state != State::ArmedBabe ==> result == Ok::<
                (),
                DispatchError,
            >(()) && *final(self) == *old(self),
            final(self).epoch_duration == old(self).epoch_duration,
            step_ok(old(self).engine_state, final(self).engine_state, None),
    {
        if !is_governance {
            return Err(DispatchError::BadOrigin);
        }
        if self.engine_state == State::ArmedBabe {
            self.engine_state = State::ScheduledFlip;
        }
        Ok(())
    }

    /// Whether a block with header digest `logs` must be rejected on import:
    /// in `Aura` the node must not emit BABE pre-runtime digests, since a block
    /// carrying one would let BABE self-initialize its genesis epoch
    /// prematurely. Every node reads the same header, so the rejection is
    /// deterministic.
    pub fn rejects_block(&self, logs: &[DigestLog]) -> (rejected: bool)
        ensures
            rejected == (self.engine_state == State::Aura && has_pre_runtime_of(
                logs@,
                babe_engine_id_bytes(),
            )),
    {
        self.engine_state == State::Aura && has_babe_pre_digest(logs)
    }

    /// Drives the automatic, non-governance part of the state machine at the
    /// start of each block, given the block's header digest.
    ///
    /// In `ScheduledFlip`, a block whose AURA digest announces the last slot of
    /// an epoch commits the flip: the state becomes `Babe` and the BABE
    /// migration runs with the first slot of the next epoch. A block at any
    /// other slot, including the first block after a skipped last slot, leaves
    /// the flip pending until the next epoch's last slot. In the other states
    /// nothing happens.
    ///
    /// The block is aborted, and does not get here, when
    /// [`Pallet::rejects_block`] holds; and while the flip is scheduled, when
    /// its AURA slot is `u64::MAX`, which has no following slot.
    pub fn on_initialize(&mut self, logs: &[DigestLog]) -> (hook: Option<Hook>)
        requires
            !(old(self).engine_state == State::Aura && has_pre_runtime_of(
                logs@,
                babe_engine_id_bytes(),
            )),
            old(self).engine_state == State::ScheduledFlip && aura_slot(logs@) is Some
                ==> aura_slot(logs@)->0 < u64::MAX,
        ensures
            (final(self).engine_state, hook) == initialize_outcome(
                old(self).engine_state,
                logs@,
                old(self).epoch_duration,
            ),
            final(self).epoch_duration == old(self).epoch_duration,
            step_ok(old(self).engine_state, final(self).engine_state, hook),
    {
        if self.engine_state == State::ScheduledFlip {
            if let Some(slot) = current_slot_from_aura_digest(logs) {
                if self.is_last_slot_of_epoch(slot) {
                    proof {
                        lemma_epoch_end_boundary_is_next_slot(slot as nat, self.epoch_duration);
                    }
                    let hook = self.migrate_to_babe(slot);
                    self.engine_state = State::Babe;
                    return Some(hook);
                }
            }
        }
        None
    }

    /// The hook that hands off to the runtime's BABE bootstrap at the flip.
    ///
    /// `slot` is the last slot of the ending epoch (the current block's slot).
    /// BABE's genesis is the first slot of the next epoch, so its epoch
    /// boundaries stay aligned with the sidechain epochs.
    fn migrate_to_babe(&self, slot: u64) -> (hook: Hook)
        requires
            epoch_boundary_after(slot as int, self.epoch_duration) <= u64::MAX,
        ensures
            hook == flip_hook(slot, self.epoch_duration),
    {
        let babe_genesis_slot = self.next_epoch_start(slot);
        Hook::Migrate { babe_genesis_slot }
    }

    /// Whether `slot` is the last slot of its epoch.
    pub fn is_last_slot_of_epoch(&self, slot: u64) -> (last: bool)
        requires
            slot < u64::MAX,
        ensures
            last == is_epoch_end(slot as int, self.epoch_duration),
    {
        let duration = if self.epoch_duration == 0 {
            1
        } else {
            self.epoch_duration
        };
        (slot + 1) % duration == 0
    }

    /// The first slot of the epoch after the one containing `slot`.
    pub fn next_epoch_start(&self, slot: u64) -> (start: u64)
        requires
            epoch_boundary_after(slot as int, self.epoch_duration) <= u64::MAX,
        ensures
            start == epoch_boundary_after(slot as int, self.epoch_duration),
    {
        let duration = if self.epoch_duration == 0 {
            1
        } else {
            self.epoch_duration
        };
        let q = slot / duration;
        assert(q + 1 <= u64::MAX) by (nonlinear_arith)
            requires
                (q + 1) * duration <= u64::MAX,
                duration >= 1,
        ;
        (q + 1) * duration
    }
}

/// The BABE genesis slot of a flip is epoch-aligned: a flip at the last slot
/// of an epoch migrates with the very next slot, which starts an epoch.
pub proof fn lemma_flip_genesis_is_next_slot_and_epoch_start(slot: u64, epoch_duration: u64)
    requires
        slot < u64::MAX,
        is_epoch_end(slot as int, epoch_duration),
    ensures
        flip_hook(slot, epoch_duration) == (Hook::Migrate { babe_genesis_slot: (slot + 1) as u64 }),
        (slot + 1) % effective_duration(epoch_duration) == 0,
{
    lemma_epoch_end_boundary_is_next_slot(slot as nat, epoch_duration);
}

/// BABE's genesis slot is the first slot of the epoch that follows the flip's
/// slot: it starts an epoch, after the flip's slot, at most one epoch later.
pub proof fn lemma_flip_genesis_starts_following_epoch(slot: u64, epoch_duration: u64)
    requires
        slot < u64::MAX,
        is_epoch_end(slot as int, epoch_duration),
    ensures
        flip_hook(slot, epoch_duration) matches Hook::Migrate { babe_genesis_slot: g } && (g as int)
            % effective_duration(epoch_duration) == 0 && slot < g <= slot + effective_duration(
            epoch_duration,
        ),
{
    lemma_epoch_end_boundary_is_next_slot(slot as nat, epoch_duration);
    lemma_boundary_after_is_next_epoch_start(slot as nat, epoch_duration);
}

/// In `ScheduledFlip`, a block whose AURA slot `slot` ends an epoch (`slot + 1`
/// is a multiple of the epoch length, a length of `0` counting as `1`) commits
/// the flip with BABE genesis slot `slot + 1`, whatever else the digest holds.
pub proof fn lemma_flip_commits_at_every_epoch_end(logs: Seq<DigestLog>, epoch_duration: u64, slot: u64)
    requires
        aura_slot(logs) == Some(slot),
        slot < u64::MAX,
        (slot + 1) as int % (if epoch_duration == 0 {
            1int
        } else {
            epoch_duration as int
        }) == 0,
    ensures
        initialize_outcome(State::ScheduledFlip, logs, epoch_duration) == (
            State::Babe,
            Some(Hook::Migrate { babe_genesis_slot: (slot + 1) as u64 }),
        ),
{
    lemma_epoch_end_iff_next_slot_starts_epoch(slot as nat, epoch_duration);
}

/// In `ScheduledFlip`, a block without an AURA slot, or whose AURA slot does
/// not end an epoch, leaves the flip pending and asks for no hook.
pub proof fn lemma_flip_waits_off_epoch_end(logs: Seq<DigestLog>, epoch_duration: u64)
    ensures
        aura_slot(logs) is None ==> initialize_outcome(State::ScheduledFlip, logs, epoch_duration)
            == (State::ScheduledFlip, None::<Hook>),
        aura_slot(logs) is Some && (aura_slot(logs)->0 + 1) as int % (if epoch_duration == 0 {
            1int
        } else {
            epoch_duration as int
        }) != 0 ==> initialize_outcome(State::ScheduledFlip, logs, epoch_duration) == (
            State::ScheduledFlip,
            None::<Hook>,
        ),
{
    if aura_slot(logs) is Some {
        lemma_epoch_end_iff_next_slot_starts_epoch(aura_slot(logs)->0 as nat, epoch_duration);
    }
}

/// Outside `ScheduledFlip`, `on_initialize` keeps the state and asks for no
/// hook, whatever the digest holds.
pub proof fn lemma_initialize_outside_schedule_does_nothing(
    state: State,
    logs: Seq<DigestLog>,
    epoch_duration: u64,
)
    requires
        state != State::ScheduledFlip,
    ensures
        initialize_outcome(state, logs, epoch_duration) == (state, None::<Hook>),
{
}

/// What `on_initialize` does depends on the digest only through the slot that
/// its AURA pre-runtime item announces: two digests announcing the same slot
/// (whatever other items they carry, such as BABE pre-runtime digests) give
/// the same state and hook.
pub proof fn lemma_initialize_reads_only_the_aura_slot(
    state: State,
    logs1: Seq<DigestLog>,
    logs2: Seq<DigestLog>,
    epoch_duration: u64,
)
    requires
        aura_slot(logs1) == aura_slot(logs2),
    ensures
        initialize_outcome(state, logs1, epoch_duration) == initialize_outcome(
            state,
            logs2,
            epoch_duration,
        ),
{
}

/// Whatever the header holds, `on_initialize` keeps the state or commits a
/// scheduled flip; in `Babe` it does nothing and asks for no hook.
pub proof fn lemma_initialize_keeps_or_flips(state: State, logs: Seq<DigestLog>, epoch_duration: u64)
    ensures
        initialize_outcome(state, logs, epoch_duration).0 == state || (state
            == State::ScheduledFlip && initialize_outcome(state, logs, epoch_duration).0
            == State::Babe),
        state == State::Babe ==> initialize_outcome(state, logs, epoch_duration) == (
            State::Babe,
            None::<Hook>,
        ),
        step_ok(
            state,
            initialize_outcome(state, logs, epoch_duration).0,
            initialize_outcome(state, logs, epoch_duration).1,
        ),
{
}

/// The hook asks for the BABE migration.
pub open spec fn is_migration(hook: Option<Hook>) -> bool {
    hook matches Some(Hook::Migrate { .. })
}

/// The hook asks for `on_arm`.
pub open spec fn is_arming(hook: Option<Hook>) -> bool {
    hook == Some(Hook::OnArm)
}

/// The operation at position `k` of a run scheduled the flip.
pub open spec fn schedules_at(states: Seq<State>, k: int) -> bool {
    states[k] == State::ArmedBabe && states[k + 1] == State::ScheduledFlip
}

/// A run of operations: `states[i]` is the state before the `i`-th operation,
/// `states[i + 1]` the state after it, and `hooks[i]` the hook it asked for.
/// Each of `arm_babe`, `schedule_flip` and `on_initialize` ensures `step_ok`.
pub open spec fn valid_run(states: Seq<State>, hooks: Seq<Option<Hook>>) -> bool {
    &&& states.len() == hooks.len() + 1
    &&& forall|i: int| 0 <= i < hooks.len() ==> #[trigger] step_ok(states[i], states[i + 1], hooks[i])
}

proof fn lemma_valid_run_never_goes_back(states: Seq<State>, hooks: Seq<Option<Hook>>)
    requires
        valid_run(states, hooks),
    ensures
        forall|i: int, j: int| 0 <= i <= j < states.len() ==> states[i].rank() <= states[j].rank(),
{
    assert forall|i: int| 0 <= i < states.len() - 1 implies #[trigger] states[i].may_step_to(
        states[i + 1],
    ) by {
        assert(step_ok(states[i], states[i + 1], hooks[i]));
    }
    lemma_runs_never_go_back(states);
}

/// Where a run goes from a rank at most `r` to a rank above `r`, some operation
/// moves it from exactly `r` to `r + 1`.
proof fn lemma_run_crosses_rank(states: Seq<State>, hooks: Seq<Option<Hook>>, m: int, r: nat) -> (j: int)
    requires
        valid_run(states, hooks),
        0 <= m < states.len(),
        states[0].rank() <= r < states[m].rank(),
    ensures
        0 <= j < m,
        states[j].rank() == r,
        states[j + 1].rank() == r + 1,
    decreases m,
{
    let p = m - 1;
    assert(step_ok(states[p], states[p + 1], hooks[p]));
    if states[p].rank() <= r {
        p
    } else {
        lemma_run_crosses_rank(states, hooks, p, r)
    }
}

/// Over any run of operations from genesis (`Aura`), the BABE migration runs
/// at most once and `on_arm` at most once; and the migration runs only after
/// `on_arm` ran and then a governance call scheduled the flip.
pub proof fn lemma_migration_once_after_arm_and_schedule(
    states: Seq<State>,
    hooks: Seq<Option<Hook>>,
)
    requires
        valid_run(states, hooks),
        states[0] == State::Aura,
    ensures
        forall|i: int, j: int|
            0 <= i < hooks.len() && 0 <= j < hooks.len() && #[trigger] is_migration(hooks[i])
                && #[trigger] is_migration(hooks[j]) ==> i == j,
        forall|i: int, j: int|
            0 <= i < hooks.len() && 0 <= j < hooks.len() && #[trigger] is_arming(hooks[i])
                && #[trigger] is_arming(hooks[j]) ==> i == j,
        forall|i: int|
            0 <= i < hooks.len() && #[trigger] is_migration(hooks[i]) ==> exists|j: int, k: int|
                #![trigger is_arming(hooks[j]), schedules_at(states, k)]
                0 <= j < k < i && is_arming(hooks[j]) && schedules_at(states, k),
{
    lemma_valid_run_never_goes_back(states, hooks);
    assert forall|i: int, j: int|
        0 <= i < hooks.len() && 0 <= j < hooks.len() && #[trigger] is_migration(hooks[i])
            && #[trigger] is_migration(hooks[j]) implies i == j by {
        assert(step_ok(states[i], states[i + 1], hooks[i]));
        assert(step_ok(states[j], states[j + 1], hooks[j]));
        if i < j {
            assert(states[i + 1].rank() <= states[j].rank());
        } else if j < i {
            assert(states[j + 1].rank() <= states[i].rank());
        }
    }
    assert forall|i: int, j: int|
        0 <= i < hooks.len() && 0 <= j < hooks.len() && #[trigger] is_arming(hooks[i])
            && #[trigger] is_arming(hooks[j]) implies i == j by {
        assert(step_ok(states[i], states[i + 1], hooks[i]));
        assert(step_ok(states[j], states[j + 1], hooks[j]));
        if i < j {
            assert(states[i + 1].rank() <= states[j].rank());
        } else if j < i {
            assert(states[j + 1].rank() <= states[i].rank());
        }
    }
    assert forall|i: int| 0 <= i < hooks.len() && #[trigger] is_migration(hooks[i]) implies exists|
        j: int,
        k: int,
    |
        #![trigger is_arming(hooks[j]), schedules_at(states, k)]
        0 <= j < k < i && is_arming(hooks[j]) && schedules_at(states, k) by {
        assert(step_ok(states[i], states[i + 1], hooks[i]));
        assert(states[i] == State::ScheduledFlip);
        let j = lemma_run_crosses_rank(states, hooks, i, 0);
        let k = lemma_run_crosses_rank(states, hooks, i, 1);
        assert(step_ok(states[j], states[j + 1], hooks[j]));
        assert(states[j] == State::Aura && states[j + 1] == State::ArmedBabe);
        assert(is_arming(hooks[j]));
        assert(schedules_at(states, k));
        if k <= j {
            assert(states[k].rank() <= states[j].rank());
        }
        assert(is_arming(hooks[j]) && schedules_at(states, k));
    }
}

} // verus!
