//! The runtime's BABE bootstrap: what it writes into `pallet-babe`'s storage as
//! the consensus-engine state machine transitions.

use vstd::prelude::*;

verus! {

/// One write into `pallet-babe`'s storage.
#[derive(Debug, Clone, Copy, PartialEq, Eq)]
pub enum BabeWrite {
    /// `GenesisSlot`: the first slot of BABE's genesis epoch.
    GenesisSlot(u64),
    /// `CurrentSlot`: the slot of the current block.
    CurrentSlot(u64),
    /// `EpochIndex`: the index of the current epoch.
    EpochIndex(u64),
    /// `Randomness`: the randomness of the current epoch.
    Randomness([u8; 32]),
    /// `NextRandomness`: the randomness of the next epoch.
    NextRandomness([u8; 32]),
}

/// The value written into `GenesisSlot` when BABE is armed. `pallet-babe`
/// initializes its genesis epoch only while `GenesisSlot` is `0`.
pub open spec fn armed_genesis_sentinel() -> u64 {
    u64::MAX
}

/// The writes that bootstrap BABE's genesis epoch (epoch index `0`) at
/// `babe_genesis_slot`, seeding both the current and the next epoch's
/// randomness with the genesis bootstrap value.
pub open spec fn genesis_epoch_writes(babe_genesis_slot: u64, genesis_randomness: [u8; 32]) -> Seq<
    BabeWrite,
> {
    seq![
        BabeWrite::GenesisSlot(babe_genesis_slot),
        BabeWrite::CurrentSlot(babe_genesis_slot),
        BabeWrite::EpochIndex(0),
        BabeWrite::Randomness(genesis_randomness),
        BabeWrite::NextRandomness(genesis_randomness),
    ]
}

/// Alters `pallet-babe`'s storage when the consensus-engine state machine
/// makes transitions.
pub struct BabeMigrator;

impl BabeMigrator {
    /// On arming: pre-seed `GenesisSlot` with a non-zero sentinel, so that
    /// `pallet-babe` does not self-initialize a genesis epoch (and deposit a
    /// bogus epoch descriptor) once the node starts emitting BABE pre-runtime
    /// digests.
    pub fn on_arm() -> (writes: Vec<BabeWrite>)
        ensures
            writes@ == seq![BabeWrite::GenesisSlot(armed_genesis_sentinel())],
            writes@.len() == 1,
            writes@[0] == BabeWrite::GenesisSlot(u64::MAX),
    {
        let mut writes: Vec<BabeWrite> = Vec::new();
        writes.push(BabeWrite::GenesisSlot(u64::MAX));
        writes
    }

    /// At the flip: the writes that bootstrap BABE's genesis epoch at
    /// `babe_genesis_slot`, the first slot of the new epoch, so that BABE's
    /// epoch boundaries stay aligned with the sidechain epochs.
    ///
    /// BABE authorities must come from real registered BABE session keys, not a
    /// copy of the AURA set. Until those are wired in, the runtime binding
    /// refuses to complete the flip after making these writes: it aborts the
    /// block, nothing is committed, and the engine stays `ScheduledFlip`.
    pub fn migrate(babe_genesis_slot: u64, genesis_randomness: [u8; 32]) -> (writes: Vec<BabeWrite>)
        ensures
            writes@ == genesis_epoch_writes(babe_genesis_slot, genesis_randomness),
            writes@.len() == 5,
            writes@[0] == BabeWrite::GenesisSlot(babe_genesis_slot),
            writes@[1] == BabeWrite::CurrentSlot(babe_genesis_slot),
            writes@[2] == BabeWrite::EpochIndex(0),
            writes@[3] == BabeWrite::Randomness(genesis_randomness),
            writes@[4] == BabeWrite::NextRandomness(genesis_randomness),
    {
        let mut writes: Vec<BabeWrite> = Vec::new();
        writes.push(BabeWrite::GenesisSlot(babe_genesis_slot));
        writes.push(BabeWrite::CurrentSlot(babe_genesis_slot));
        writes.push(BabeWrite::EpochIndex(0));
        writes.push(BabeWrite::Randomness(genesis_randomness));
        writes.push(BabeWrite::NextRandomness(genesis_randomness));
        proof {
            assert(writes@ =~= genesis_epoch_writes(babe_genesis_slot, genesis_randomness));
        }
        writes
    }
}

/// The genesis writes carry their inputs unchanged: BABE starts at epoch `0`
/// in `babe_genesis_slot`, and both the current and the next epoch's
/// randomness are exactly the genesis randomness given.
pub proof fn lemma_genesis_writes_carry_their_inputs(babe_genesis_slot: u64, genesis_randomness: [u8; 32])
    ensures
        genesis_epoch_writes(babe_genesis_slot, genesis_randomness).len() == 5,
        genesis_epoch_writes(babe_genesis_slot, genesis_randomness)[0] == BabeWrite::GenesisSlot(
            babe_genesis_slot,
        ),
        genesis_epoch_writes(babe_genesis_slot, genesis_randomness)[1] == BabeWrite::CurrentSlot(
            babe_genesis_slot,
        ),
        genesis_epoch_writes(babe_genesis_slot, genesis_randomness)[2] == BabeWrite::EpochIndex(0),
        genesis_epoch_writes(babe_genesis_slot, genesis_randomness)[3] == BabeWrite::Randomness(
            genesis_randomness,
        ),
        genesis_epoch_writes(babe_genesis_slot, genesis_randomness)[4]
            == BabeWrite::NextRandomness(genesis_randomness),
{
}

/// Arming writes the `u64::MAX` sentinel into `GenesisSlot`, which is never `0`.
pub proof fn lemma_armed_sentinel_is_nonzero()
    ensures
        armed_genesis_sentinel() == u64::MAX,
        armed_genesis_sentinel() != 0,
{
}

} // verus!
