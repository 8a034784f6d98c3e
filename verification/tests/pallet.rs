//! The pallet's behaviour, driven the way a runtime drives it: governance calls
//! from an origin, and `on_initialize` on blocks whose header digest carries an
//! AURA (and possibly a BABE) pre-runtime digest.

use consensus_engine::digest::DigestLog;
use consensus_engine::pallet::{DispatchError, Hook, Pallet};
use consensus_engine::state::{ActiveEngine, State};
use parity_scale_codec::Encode;
use sp_consensus_aura::AURA_ENGINE_ID;
use sp_consensus_babe::digests::{PreDigest as BabePreDigest, SecondaryPlainPreDigest};
use sp_consensus_babe::BABE_ENGINE_ID;
use sp_consensus_slots::Slot;

/// The epoch length of the test runtime.
const EPOCH_DURATION: u64 = 300;

/// Origins of calls; only root is the governance origin here.
#[derive(Clone, Copy)]
enum Origin {
    Root,
    Signed(u64),
    Unsigned,
}

impl Origin {
    fn is_governance(self) -> bool {
        match self {
            Origin::Root => true,
            Origin::Signed(_) | Origin::Unsigned => false,
        }
    }
}

/// A runtime around the pallet, recording the BABE hooks it runs.
struct TestRuntime {
    pallet: Pallet,
    /// Whether the arm hook ran.
    babe_armed: bool,
    /// The BABE genesis slot the migration ran with, or `None` if it has not run.
    babe_migrate_genesis_slot: Option<Slot>,
    /// The header digest of the current block.
    logs: Vec<DigestLog>,
}

impl TestRuntime {
    fn new() -> TestRuntime {
        TestRuntime {
            pallet: Pallet::new(EPOCH_DURATION),
            babe_armed: false,
            babe_migrate_genesis_slot: None,
            logs: Vec::new(),
        }
    }

    fn put_state(&mut self, state: State) {
        self.pallet.engine_state = state;
    }

    fn state(&self) -> State {
        self.pallet.engine_state
    }

    fn run(&mut self, hook: Option<Hook>) {
        match hook {
            Some(Hook::OnArm) => self.babe_armed = true,
            Some(Hook::Migrate { babe_genesis_slot }) => {
                self.babe_migrate_genesis_slot = Some(Slot::from(babe_genesis_slot))
            },
            None => {},
        }
    }

    fn arm_babe(&mut self, origin: Origin) -> Result<(), DispatchError> {
        let hook = self.pallet.arm_babe(origin.is_governance())?;
        self.run(hook);
        Ok(())
    }

    fn schedule_flip(&mut self, origin: Origin) -> Result<(), DispatchError> {
        self.pallet.schedule_flip(origin.is_governance())
    }

    fn on_initialize(&mut self) {
        if self.pallet.rejects_block(&self.logs) {
            panic!("BABE pre-runtime digest present while in state 'Aura'");
        }
        let hook = self.pallet.on_initialize(&self.logs);
        self.run(hook);
    }

    /// Start a new block whose header carries an AURA pre-runtime digest for `slot`.
    fn start_block_at_slot(&mut self, slot: u64) {
        self.logs = vec![DigestLog::PreRuntime(AURA_ENGINE_ID, Slot::from(slot).encode())];
    }

    /// Start a new block whose header carries a BABE pre-runtime digest
    /// alongside the AURA one.
    fn start_block_with_babe_pre_digest(&mut self, slot: u64) {
        self.logs = vec![
            DigestLog::PreRuntime(AURA_ENGINE_ID, Slot::from(slot).encode()),
            DigestLog::PreRuntime(
                BABE_ENGINE_ID,
                BabePreDigest::SecondaryPlain(SecondaryPlainPreDigest {
                    authority_index: 0,
                    slot: Slot::from(slot),
                })
                .encode(),
            ),
        ];
    }
}

#[test]
fn default_state_is_baseline_aura() {
    let rt = TestRuntime::new();
    assert_eq!(rt.state(), State::Aura);
    assert_eq!(rt.pallet.active_engine(), ActiveEngine::Aura);
}

#[test]
fn arm_babe_from_baseline() {
    let mut rt = TestRuntime::new();
    assert!(!rt.babe_armed);
    assert_eq!(rt.arm_babe(Origin::Root), Ok(()));
    assert_eq!(rt.state(), State::ArmedBabe);
    // Arming pre-seeds BABE so it does not self-initialize prematurely.
    assert!(rt.babe_armed);
    // `ArmedBabe` still authors with AURA.
    assert_eq!(rt.pallet.active_engine(), ActiveEngine::Aura);
}

#[test]
#[should_panic(expected = "BABE pre-runtime digest present while in state 'Aura'")]
fn baseline_rejects_blocks_with_babe_pre_digest() {
    let mut rt = TestRuntime::new();
    // Default state is `Aura`; a block carrying a BABE pre-digest is rejected.
    rt.start_block_with_babe_pre_digest(100);
    rt.on_initialize();
}

#[test]
fn babe_pre_digest_is_allowed_once_armed() {
    let mut rt = TestRuntime::new();
    rt.put_state(State::ArmedBabe);
    // Once armed the node is expected to emit BABE pre-digests; no rejection.
    rt.start_block_with_babe_pre_digest(100);
    rt.on_initialize();
    assert_eq!(rt.state(), State::ArmedBabe);
}

#[test]
fn arm_babe_requires_governance_origin() {
    let mut rt = TestRuntime::new();
    assert_eq!(rt.arm_babe(Origin::Signed(1)), Err(DispatchError::BadOrigin));
    assert!(!rt.babe_armed);
    assert_eq!(rt.arm_babe(Origin::Unsigned), Err(DispatchError::BadOrigin));
    assert!(!rt.babe_armed);
    assert_eq!(rt.state(), State::Aura);
}

#[test]
fn arm_babe_is_rejected_from_other_states() {
    for state in [State::ArmedBabe, State::ScheduledFlip, State::Babe] {
        let mut rt = TestRuntime::new();
        rt.put_state(state);
        assert_eq!(rt.arm_babe(Origin::Root), Ok(()));
        assert_eq!(rt.state(), state);
        // The arm hook only fires on the real Aura -> ArmedBabe transition.
        assert!(!rt.babe_armed);
    }
}

#[test]
fn schedule_flip_from_armed() {
    let mut rt = TestRuntime::new();
    rt.put_state(State::ArmedBabe);

    assert_eq!(rt.schedule_flip(Origin::Root), Ok(()));

    assert_eq!(rt.state(), State::ScheduledFlip);
    // A `ScheduledFlip` still authors with AURA until the flip commits.
    assert_eq!(rt.pallet.active_engine(), ActiveEngine::Aura);
}

#[test]
fn schedule_flip_requires_governance_origin() {
    let mut rt = TestRuntime::new();
    rt.put_state(State::ArmedBabe);
    assert_eq!(rt.schedule_flip(Origin::Signed(1)), Err(DispatchError::BadOrigin));
    assert_eq!(rt.schedule_flip(Origin::Unsigned), Err(DispatchError::BadOrigin));
    assert_eq!(rt.state(), State::ArmedBabe);
}

#[test]
fn schedule_flip_is_no_op_unless_armed() {
    for state in [State::Aura, State::ScheduledFlip, State::Babe] {
        let mut rt = TestRuntime::new();
        rt.put_state(state);
        assert_eq!(rt.schedule_flip(Origin::Root), Ok(()));
        assert_eq!(rt.state(), state);
    }
}

#[test]
fn flip_commits_at_the_last_slot_of_the_epoch() {
    let mut rt = TestRuntime::new();
    rt.put_state(State::ScheduledFlip);

    // A mid-epoch block does not trigger the flip.
    rt.start_block_at_slot(1400);
    rt.on_initialize();
    assert_eq!(rt.state(), State::ScheduledFlip);

    // The last slot of the epoch (1499 for a 300-slot epoch) commits the flip.
    rt.start_block_at_slot(1499);
    rt.on_initialize();
    assert_eq!(rt.state(), State::Babe);
    assert_eq!(rt.pallet.active_engine(), ActiveEngine::Babe);
}

#[test]
fn flip_migrates_with_the_next_epoch_genesis_slot() {
    let mut rt = TestRuntime::new();
    rt.put_state(State::ScheduledFlip);
    assert_eq!(rt.babe_migrate_genesis_slot, None);

    rt.start_block_at_slot(1499);
    rt.on_initialize();

    assert_eq!(rt.state(), State::Babe);
    // BABE genesis is the first slot of the next epoch (1500), keeping BABE
    // epochs aligned with the sidechain epochs.
    assert_eq!(rt.babe_migrate_genesis_slot, Some(Slot::from(1500)));
}

#[test]
fn flip_does_not_run_mid_epoch() {
    let mut rt = TestRuntime::new();
    rt.put_state(State::ScheduledFlip);
    rt.start_block_at_slot(1400);
    rt.on_initialize();

    assert_eq!(rt.state(), State::ScheduledFlip);
    assert_eq!(rt.babe_migrate_genesis_slot, None);
}

#[test]
fn flip_waits_for_next_epoch_when_the_last_slot_is_skipped() {
    let mut rt = TestRuntime::new();
    rt.put_state(State::ScheduledFlip);
    // Don't flip at the penultimate slot.
    rt.start_block_at_slot(1498);
    rt.on_initialize();
    assert_eq!(rt.state(), State::ScheduledFlip);
    assert_eq!(rt.babe_migrate_genesis_slot, None);

    // The last slot of the epoch (1499) produced no block; the first block of
    // the next epoch lands at 1500. The flip must not commit: it only commits
    // on a block seen exactly at an epoch's last slot.
    rt.start_block_at_slot(1500);
    rt.on_initialize();
    assert_eq!(rt.state(), State::ScheduledFlip);
    assert_eq!(rt.babe_migrate_genesis_slot, None);

    // It commits at the next epoch's last slot (1799), genesis slot 1800.
    rt.start_block_at_slot(1799);
    rt.on_initialize();
    assert_eq!(rt.state(), State::Babe);
    assert_eq!(rt.babe_migrate_genesis_slot, Some(Slot::from(1800)));
}

#[test]
fn on_initialize_is_a_no_op_in_stable_states() {
    for state in [State::Aura, State::ArmedBabe, State::Babe] {
        let mut rt = TestRuntime::new();
        rt.put_state(state);
        // Even at an epoch's last slot, non-scheduled states never flip.
        rt.start_block_at_slot(1499);
        rt.on_initialize();
        assert_eq!(rt.state(), state);
    }
}

#[test]
fn babe_pre_digest_is_rejected_only_in_aura() {
    let mut rt = TestRuntime::new();
    rt.start_block_with_babe_pre_digest(100);
    assert!(rt.pallet.rejects_block(&rt.logs));
    assert_eq!(rt.state(), State::Aura);
    for state in [State::ArmedBabe, State::ScheduledFlip, State::Babe] {
        rt.put_state(state);
        assert!(!rt.pallet.rejects_block(&rt.logs));
    }
}

#[test]
fn aura_block_without_babe_digest_is_accepted() {
    let mut rt = TestRuntime::new();
    rt.start_block_at_slot(1499);
    assert!(!rt.pallet.rejects_block(&rt.logs));
    assert_eq!(rt.pallet.on_initialize(&rt.logs), None);
    assert_eq!(rt.state(), State::Aura);
}

#[test]
fn babe_state_ignores_later_epoch_ends() {
    let mut rt = TestRuntime::new();
    rt.put_state(State::ScheduledFlip);
    rt.start_block_at_slot(1499);
    rt.on_initialize();
    assert_eq!(rt.babe_migrate_genesis_slot, Some(Slot::from(1500)));
    rt.start_block_at_slot(1799);
    rt.on_initialize();
    assert_eq!(rt.state(), State::Babe);
    // The migration ran once, at the first flip.
    assert_eq!(rt.babe_migrate_genesis_slot, Some(Slot::from(1500)));
}

#[test]
fn full_transition_only_moves_forward() {
    let mut rt = TestRuntime::new();
    let mut seen = vec![rt.state()];
    assert_eq!(rt.schedule_flip(Origin::Root), Ok(()));
    seen.push(rt.state());
    assert_eq!(rt.arm_babe(Origin::Root), Ok(()));
    seen.push(rt.state());
    assert_eq!(rt.arm_babe(Origin::Root), Ok(()));
    seen.push(rt.state());
    assert_eq!(rt.schedule_flip(Origin::Root), Ok(()));
    seen.push(rt.state());
    rt.start_block_at_slot(1799);
    rt.on_initialize();
    seen.push(rt.state());
    assert_eq!(rt.arm_babe(Origin::Root), Ok(()));
    seen.push(rt.state());
    assert_eq!(
        seen,
        vec![
            State::Aura,
            State::Aura,
            State::ArmedBabe,
            State::ArmedBabe,
            State::ScheduledFlip,
            State::Babe,
            State::Babe
        ]
    );
    assert_eq!(rt.babe_migrate_genesis_slot, Some(Slot::from(1800)));
}

#[test]
fn flip_without_aura_digest_stays_scheduled() {
    let mut rt = TestRuntime::new();
    rt.put_state(State::ScheduledFlip);
    rt.logs = Vec::new();
    rt.on_initialize();
    assert_eq!(rt.state(), State::ScheduledFlip);
    assert_eq!(rt.babe_migrate_genesis_slot, None);
}
