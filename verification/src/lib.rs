//! The consensus-engine transition of a chain that starts on AURA block
//! production and moves, through governance and the epoch schedule, to BABE.
//!
//! The pallet's storage and hooks are modelled as values: [`pallet::Pallet`]
//! holds the transition state and the epoch length, each operation returns the
//! side effect that the runtime must perform ([`pallet::Hook`]), and the block
//! header digest arrives as a slice of [`digest::DigestLog`]s.

pub mod digest;
pub mod epoch;
pub mod migrator;
pub mod pallet;
pub mod state;
