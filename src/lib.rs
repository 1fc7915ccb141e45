//! Deterministic consensus-layer state transition: a binary codec for the
//! state and block records, and the slot, epoch and block processing that
//! advances a state, all verified against models of the records.
pub mod bench;
pub mod codec;
pub mod fixture;
pub mod run;
pub mod transition;
pub mod types;
pub mod wire;
