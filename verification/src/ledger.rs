//! The ledger: an append-only block chain and an address-to-account state,
//! each guarded by its own lock so that mining and transfers never contend
//! on each other's resource.
//!
//! Each lock carries an invariant — the chain lock admits only well-formed
//! chains whose genesis block is the fixed synthetic one, the state lock
//! only well-formed account states whose total supply is the seeded
//! 1,000,000 units — so every value a concurrent caller can ever observe or
//! store satisfies those invariants.  Reading the tail and appending the
//! mined block happen under one critical section of the chain lock, so
//! concurrent miners cannot append against a stale tail.

use vstd::prelude::*;
use vstd::rwlock::{RwLock, RwLockPredicate};
use vstd::string::StringExecFns;
use std::time::{SystemTime, UNIX_EPOCH};
use crate::chain::{
    find_nonce, genesis_fixed, genesis_prev_hash, lemma_wf_chain_push, mine_step, wf_chain, Block,
};
use crate::state::{
    spec_balance, spec_nonce, state_balance, state_nonce, state_transfer, total_balance,
    transfer_step, wf_state, Account,
};

verus! {

#[verifier::external_type_specification]
#[verifier::external_body]
pub struct ExSystemTime(SystemTime);

/// Relies on std::time::SystemTime::now: reads the system clock.  Never
/// panics; nothing is assumed of the value.
#[verifier::external_body]
fn system_now() -> SystemTime {
    SystemTime::now()
}

/// Relies on std::time::SystemTime::duration_since(UNIX_EPOCH): `Ok` with
/// the distance when the clock is at or after the Unix epoch, `Err` holding
/// the same distance when it is before.  Returns that distance in whole
/// seconds with a flag for the direction; never panics.
#[verifier::external_body]
fn seconds_from_epoch(t: &SystemTime) -> (r: (bool, u64)) {
    match t.duration_since(UNIX_EPOCH) {
        Ok(d) => (false, d.as_secs()),
        Err(e) => (true, e.duration().as_secs()),
    }
}

/// The current time as whole seconds since the Unix epoch, negative when
/// the system clock is set before it, clamped to the i64 range.  No clock
/// reading can make this call panic.
fn now_timestamp() -> i64 {
    let t = system_now();
    let (before_epoch, secs) = seconds_from_epoch(&t);
    if before_epoch {
        if secs <= i64::MAX as u64 {
            -(secs as i64)
        } else {
            i64::MIN
        }
    } else {
        if secs <= i64::MAX as u64 {
            secs as i64
        } else {
            i64::MAX
        }
    }
}

/// The chain lock's invariant: only well-formed chains anchored at the
/// fixed genesis block are stored.
pub struct ChainInv {}

impl RwLockPredicate<Vec<Block>> for ChainInv {
    open spec fn inv(self, v: Vec<Block>) -> bool {
        wf_chain(v@) && genesis_fixed(v@[0])
    }
}

/// The state lock's invariant: only well-formed account states whose total
/// supply is exactly `total` are stored.
pub struct StateInv {
    pub total: u64,
}

impl RwLockPredicate<Vec<Account>> for StateInv {
    open spec fn inv(self, v: Vec<Account>) -> bool {
        wf_state(v@) && total_balance(v@) == self.total
    }
}

/// The synchronized owner of the chain and the account state.  The two
/// resources are guarded independently and the locks are never nested.
pub struct Blockchain {
    chain: RwLock<Vec<Block>, ChainInv>,
    state: RwLock<Vec<Account>, StateInv>,
}

impl Blockchain {
    #[verifier::type_invariant]
    spec fn wf(self) -> bool {
        &&& self.chain.pred() == (ChainInv {  })
        &&& self.state.pred() == (StateInv { total: 1_000_000 })
    }

    /// The total supply this ledger was seeded with; every state the state
    /// lock ever stores sums to it.
    pub closed spec fn supply(self) -> u64 {
        self.state.pred().total
    }

    /// Creates a ledger seeded with the synthetic genesis block and the
    /// administrator account holding the initial supply of 1,000,000 units.
    pub fn new() -> (r: Blockchain)
        ensures
            r.supply() == 1_000_000,
    {
        let genesis = Block {
            index: 0,
            timestamp: now_timestamp(),
            data: String::from_str("Genesis Block"),
            prev_hash: String::from_str("0"),
            hash: String::from_str("0000000000000000"),
            nonce: 0,
        };
        let mut blocks: Vec<Block> = Vec::new();
        blocks.push(genesis);
        proof {
            assert(genesis_prev_hash() == "0"@);
            assert(wf_chain(blocks@));
            assert(genesis_fixed(blocks@[0]));
        }
        let admin = Account {
            address: String::from_str("0xAdmin"),
            balance: 1_000_000,
            nonce: 0,
        };
        let mut accounts: Vec<Account> = Vec::new();
        accounts.push(admin);
        proof {
            assert(total_balance(Seq::<Account>::empty()) == 0);
            assert(accounts@.drop_last() =~= Seq::<Account>::empty());
            assert(total_balance(accounts@) == 1_000_000);
            assert(wf_state(accounts@));
        }
        Blockchain {
            chain: RwLock::new(blocks, Ghost(ChainInv {  })),
            state: RwLock::new(accounts, Ghost(StateInv { total: 1_000_000 })),
        }
    }

    /// Mines and appends one block carrying `data`.
    ///
    /// The tail is read, the proof-of-work search run, and the new block
    /// appended under a single critical section of the chain lock, so the
    /// appended block always continues the tail it was computed against:
    /// the chain went from some well-formed `c0` to `c0` with exactly one
    /// block appended, carrying `data`, the least satisfying nonce, and a
    /// digest under the difficulty predicate ([`mine_step`]).  The search
    /// is linear from nonce 0 and has no worst-case time bound short of
    /// exhausting the 64-bit nonce space; in the (practically unreachable)
    /// case that no nonce satisfies the difficulty predicate, no block is
    /// appended.
    pub fn mine_block(&self, data: String)
        ensures
            exists|c0: Seq<Block>, c1: Seq<Block>|
                wf_chain(c0) && wf_chain(c1) && #[trigger] mine_step(c0, c1, data@),
    {
        proof {
            use_type_invariant(self);
        }
        let (mut blocks, write_handle) = self.chain.acquire_write();
        let ghost c0 = blocks@;
        let last = blocks.len() - 1;
        let index = blocks[last].index + 1;
        let prev_hash = blocks[last].hash.clone();
        let timestamp = now_timestamp();
        match find_nonce(index, timestamp, data.as_str(), prev_hash.as_str()) {
            Some(found) => {
                let (nonce, hash) = found;
                let block = Block { index, timestamp, data, prev_hash, hash, nonce };
                proof {
                    lemma_wf_chain_push(blocks@, block);
                }
                blocks.push(block);
                proof {
                    assert(blocks@[0] == c0[0]);
                }
            },
            None => {},
        }
        proof {
            assert(mine_step(c0, blocks@, data@));
        }
        write_handle.release_write(blocks);
    }

    /// Returns the account's balance if present, else 0; never creates an
    /// entry, never errors.  The value is read from one well-formed state
    /// whose total supply is the seeded one.
    pub fn get_balance(&self, address: &str) -> (r: u64)
        ensures
            exists|s: Seq<Account>|
                #[trigger] wf_state(s) && total_balance(s) == self.supply() && r == spec_balance(
                    s,
                    address@,
                ),
    {
        proof {
            use_type_invariant(self);
        }
        let read_handle = self.state.acquire_read();
        let balance = state_balance(read_handle.borrow(), address);
        read_handle.release_read();
        balance
    }

    /// Returns the account's outgoing-transfer counter if present, else 0;
    /// never creates an entry, never errors.
    pub fn get_nonce(&self, address: &str) -> (r: u64)
        ensures
            exists|s: Seq<Account>|
                #[trigger] wf_state(s) && total_balance(s) == self.supply() && r == spec_nonce(
                    s,
                    address@,
                ),
    {
        proof {
            use_type_invariant(self);
        }
        let read_handle = self.state.acquire_read();
        let nonce = state_nonce(read_handle.borrow(), address);
        read_handle.release_read();
        nonce
    }

    /// The number of accounts the state currently holds.
    pub fn account_count(&self) -> (r: usize)
        ensures
            exists|s: Seq<Account>|
                #[trigger] wf_state(s) && total_balance(s) == self.supply() && r == s.len(),
    {
        proof {
            use_type_invariant(self);
        }
        let read_handle = self.state.acquire_read();
        let count = read_handle.borrow().len();
        read_handle.release_read();
        count
    }

    /// Moves `amount` from `from` to `to` as a single critical section under
    /// the state lock; returns whether the transfer was applied.  The state
    /// went from some well-formed `s0` summing to the seeded supply to `s1`
    /// by exactly one transfer step ([`transfer_step`] — the exact contract
    /// of [`state_transfer`](crate::state::state_transfer), which runs under
    /// the lock here).
    pub fn transfer(&self, from: &str, to: &str, amount: u64) -> (r: bool)
        ensures
            exists|s0: Seq<Account>, s1: Seq<Account>|
                wf_state(s0) && wf_state(s1) && total_balance(s0) == self.supply()
                    && #[trigger] transfer_step(s0, s1, from@, to@, amount, r),
    {
        proof {
            use_type_invariant(self);
        }
        let (mut accounts, write_handle) = self.state.acquire_write();
        let ghost s0 = accounts@;
        let applied = state_transfer(&mut accounts, from, to, amount);
        proof {
            assert(transfer_step(s0, accounts@, from@, to@, amount, applied));
        }
        write_handle.release_write(accounts);
        applied
    }

    /// A read-only snapshot of the chain for display: a copy of every block,
    /// in chain order, well formed like the chain itself and anchored at the
    /// fixed genesis block.
    pub fn snapshot_chain(&self) -> (r: Vec<Block>)
        ensures
            wf_chain(r@),
            genesis_fixed(r@[0]),
    {
        proof {
            use_type_invariant(self);
        }
        let read_handle = self.chain.acquire_read();
        let blocks = read_handle.borrow();
        let mut out: Vec<Block> = Vec::new();
        let mut i: usize = 0;
        while i < blocks.len()
            invariant
                out@.len() == i,
                i <= blocks@.len(),
                forall|j: int| 0 <= j < i ==> out@[j] == blocks@[j],
            decreases blocks@.len() - i,
        {
            let b = &blocks[i];
            let copy = Block {
                index: b.index,
                timestamp: b.timestamp,
                data: b.data.clone(),
                prev_hash: b.prev_hash.clone(),
                hash: b.hash.clone(),
                nonce: b.nonce,
            };
            proof {
                assert(copy == blocks@[i as int]);
            }
            out.push(copy);
            i = i + 1;
        }
        proof {
            assert(out@ =~= blocks@);
        }
        read_handle.release_read();
        out
    }
}

} // verus!
