//! A minimal single-process ledger: proof-of-work block production and
//! account-balance transfers over two independently synchronized resources.
//!
//! The chain lock's invariant keeps the block sequence well formed (sequential
//! indexes, hash linkage, difficulty), and the state lock's invariant keeps
//! account addresses unique and the total supply bounded, so every
//! interleaving of mining and transfers preserves both.

pub mod chain;
pub mod hashing;
pub mod ledger;
pub mod state;

use vstd::prelude::*;

verus! {

} // verus!
