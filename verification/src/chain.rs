//! Blocks and the well-formedness of the chain: strictly sequential indexes,
//! a fixed genesis prev-hash, hash linkage between neighbours, and the
//! difficulty predicate on every mined block.  Includes the linear
//! proof-of-work nonce search.

use vstd::prelude::*;
use vstd::string::StrSliceExecFns;
use crate::hashing::{calculate_hash, spec_calculate_hash};

verus! {

/// The terminal character a hex digest must end in to satisfy the active
/// difficulty predicate.
pub const DIFFICULTY_SUFFIX: char = '0';

/// The active difficulty predicate: the hex digest ends in the fixed terminal
/// character.
pub open spec fn meets_difficulty(h: Seq<char>) -> bool {
    h.len() > 0 && h.last() == DIFFICULTY_SUFFIX
}

/// Decides the difficulty predicate on a digest.
pub fn check_difficulty(h: &str) -> (r: bool)
    ensures
        r == meets_difficulty(h@),
{
    let n: usize = h.unicode_len();
    if n == 0 {
        return false;
    }
    let c = h.get_char(n - 1);
    c == DIFFICULTY_SUFFIX
}

/// An immutable-once-created block record, linked to its predecessor by hash.
pub struct Block {
    pub index: u64,
    pub timestamp: i64,
    pub data: String,
    pub prev_hash: String,
    pub hash: String,
    pub nonce: u64,
}

/// The fixed prev-hash of the genesis block.
pub open spec fn genesis_prev_hash() -> Seq<char> {
    "0"@
}

/// The synthetic genesis block's fixed fields beyond those `wf_chain`
/// already pins (index 0 and the fixed prev-hash): its data, its hash (a
/// placeholder not required to satisfy the difficulty predicate), and a
/// zero nonce.
pub open spec fn genesis_fixed(b: Block) -> bool {
    &&& b.data@ == "Genesis Block"@
    &&& b.hash@ == "0000000000000000"@
    &&& b.nonce == 0
}

/// The block's stored hash is the hashing function applied to its own fields.
pub open spec fn block_hash_ok(b: Block) -> bool {
    b.hash@ == spec_calculate_hash(b.index, b.timestamp, b.data@, b.prev_hash@, b.nonce)
}

/// Every block carries its own position as its index.
pub open spec fn indexes_sequential(c: Seq<Block>) -> bool {
    forall|i: int| 0 <= i < c.len() ==> (#[trigger] c[i]).index == i
}

/// Every block after the genesis names its predecessor's hash as prev_hash.
pub open spec fn hashes_linked(c: Seq<Block>) -> bool {
    forall|i: int| 1 <= i < c.len() ==> (#[trigger] c[i]).prev_hash@ == c[i - 1].hash@
}

/// Every block after the genesis carries its own digest, and that digest
/// satisfies the difficulty predicate.
pub open spec fn blocks_mined(c: Seq<Block>) -> bool {
    forall|i: int|
        1 <= i < c.len() ==> block_hash_ok(#[trigger] c[i]) && meets_difficulty(c[i].hash@)
}

/// A well-formed chain: non-empty, sequential indexes starting at 0, the
/// genesis anchored at the fixed prev-hash, hash linkage throughout, and the
/// difficulty predicate on every mined block.
pub open spec fn wf_chain(c: Seq<Block>) -> bool {
    &&& c.len() >= 1
    &&& indexes_sequential(c)
    &&& c[0].prev_hash@ == genesis_prev_hash()
    &&& hashes_linked(c)
    &&& blocks_mined(c)
}

/// The relation one mining step for `data` establishes between the chain it
/// observed (`c0`) and the chain it stored (`c1`): either nothing was
/// appended (the whole nonce space held no satisfying digest), or exactly
/// one block was, and that block carries the given data and continues the
/// tail — next index, the predecessor's hash as prev_hash, its own digest as
/// hash, under the difficulty predicate, with the least satisfying nonce.
pub open spec fn mine_step(c0: Seq<Block>, c1: Seq<Block>, data: Seq<char>) -> bool {
    ||| c1 == c0
    ||| {
        &&& c1.len() == c0.len() + 1
        &&& c1 == c0.push(c1.last())
        &&& c1.last().index == c0.len()
        &&& c1.last().data@ == data
        &&& c1.last().prev_hash@ == c0.last().hash@
        &&& block_hash_ok(c1.last())
        &&& meets_difficulty(c1.last().hash@)
        &&& least_nonce(c1.last())
    }
}

/// The block's nonce is the least one whose digest (over the block's other
/// fields) satisfies the difficulty predicate.
pub open spec fn least_nonce(b: Block) -> bool {
    forall|n: u64|
        n < b.nonce ==> !meets_difficulty(
            #[trigger] spec_calculate_hash(b.index, b.timestamp, b.data@, b.prev_hash@, n),
        )
}

/// Appending a block that continues the tail (next index, predecessor's hash,
/// its own digest under the difficulty predicate) keeps the chain well formed.
pub proof fn lemma_wf_chain_push(c: Seq<Block>, b: Block)
    requires
        wf_chain(c),
        b.index == c.len(),
        b.prev_hash@ == c.last().hash@,
        block_hash_ok(b),
        meets_difficulty(b.hash@),
    ensures
        wf_chain(c.push(b)),
{
    let c2 = c.push(b);
    assert forall|i: int| 0 <= i < c2.len() implies (#[trigger] c2[i]).index == i by {
        if i < c.len() {
            assert(c2[i] == c[i]);
        }
    }
    assert forall|i: int| 1 <= i < c2.len() implies (#[trigger] c2[i]).prev_hash@ == c2[i
        - 1].hash@ by {
        if i < c.len() {
            assert(c2[i] == c[i]);
            assert(c2[i - 1] == c[i - 1]);
        } else {
            assert(c2[i - 1] == c[i - 1]);
        }
    }
    assert forall|i: int|
        1 <= i < c2.len() implies block_hash_ok(#[trigger] c2[i]) && meets_difficulty(
        c2[i].hash@,
    ) by {
        if i < c.len() {
            assert(c2[i] == c[i]);
        }
    }
}

/// The linear proof-of-work search: starting at nonce 0, recompute the digest
/// for increasing nonce values until one satisfies the difficulty predicate.
/// Returns the least such nonce with its digest, or `None` only if no nonce
/// in the whole 64-bit space yields a satisfying digest.
pub fn find_nonce(index: u64, timestamp: i64, data: &str, prev_hash: &str) -> (r: Option<
    (u64, String),
>)
    ensures
        match r {
            Some(p) => p.1@ == spec_calculate_hash(index, timestamp, data@, prev_hash@, p.0)
                && meets_difficulty(p.1@) && forall|n: u64|
                n < p.0 ==> !meets_difficulty(
                    #[trigger] spec_calculate_hash(index, timestamp, data@, prev_hash@, n),
                ),
            None => forall|n: u64|
                !meets_difficulty(
                    #[trigger] spec_calculate_hash(index, timestamp, data@, prev_hash@, n),
                ),
        },
{
    let mut nonce: u64 = 0;
    loop
        invariant
            forall|n: u64|
                n < nonce ==> !meets_difficulty(
                    #[trigger] spec_calculate_hash(index, timestamp, data@, prev_hash@, n),
                ),
        decreases u64::MAX - nonce,
    {
        let hash = calculate_hash(index, timestamp, data, prev_hash, nonce);
        if check_difficulty(hash.as_str()) {
            return Some((nonce, hash));
        }
        if nonce == u64::MAX {
            return None;
        }
        nonce = nonce + 1;
    }
}

} // verus!
