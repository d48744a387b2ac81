//! Commitment-based escrow engine.
//!
//! A depositor locks funds under a 32-byte commitment, the hash of
//! (owner, amount, salt); whoever later reveals the same triple may
//! withdraw. The crate verifies the commitment lifecycle: derivation,
//! the escrow-entry state machine, and the invariants that rule out
//! double deposits and double spends.

use vstd::prelude::*;

pub mod codec;
pub mod engine;
pub mod errors;
pub mod events;
pub mod laws;
pub mod model;
pub mod store;
pub mod types;

verus! {

/// Length in bytes of a secret salt accepted by the codec.
pub const SALT_LEN: usize = 32;

/// Length in bytes of a commitment (a 256-bit digest).
pub const COMMITMENT_LEN: usize = 32;

} // verus!
