# consensus_engine

The decision logic of a pallet that moves a chain from AURA to BABE block
production, verified with Verus.

- `src/state.rs`: the transition states, the engine active in each, and the
  proof that runs of operations never go back.
- `src/epoch.rs`: epoch arithmetic over slots (epoch ends, next epoch start).
- `src/digest.rs`: reading the block header digest (BABE pre-runtime items,
  the slot of the AURA pre-runtime item).
- `src/pallet.rs`: the pallet's governance calls and block hook as functions
  from storage and inputs to new storage and the runtime hook to run.
- `src/migrator.rs`: the runtime's writes into `pallet-babe` storage.
- `app/`: the FRAME pallet and runtime binding that perform storage access,
  origin checks and hooks around the library.
