//! The block-hashing function: the five block fields are rendered as their
//! canonical decimal/string forms, concatenated in a fixed order with no
//! separators, digested with SHA-256 and hex-encoded with lowercase digits.

use vstd::prelude::*;
use vstd::string::StringExecFns;
use sha2::{Digest, Sha256};

verus! {

/// The hex digit characters in order of value, lowercase.
pub open spec fn hex_digit(d: nat) -> char {
    if d == 0 {
        '0'
    } else if d == 1 {
        '1'
    } else if d == 2 {
        '2'
    } else if d == 3 {
        '3'
    } else if d == 4 {
        '4'
    } else if d == 5 {
        '5'
    } else if d == 6 {
        '6'
    } else if d == 7 {
        '7'
    } else if d == 8 {
        '8'
    } else if d == 9 {
        '9'
    } else if d == 10 {
        'a'
    } else if d == 11 {
        'b'
    } else if d == 12 {
        'c'
    } else if d == 13 {
        'd'
    } else if d == 14 {
        'e'
    } else {
        'f'
    }
}

/// The decimal rendering of a natural number: no sign, no leading zeros
/// (except for the number zero itself).
pub open spec fn dec_digits(n: nat) -> Seq<char>
    decreases n,
{
    if n < 10 {
        seq![hex_digit(n)]
    } else {
        dec_digits(n / 10).push(hex_digit(n % 10))
    }
}

/// The decimal rendering of an integer: a leading '-' for negative values.
pub open spec fn dec_int(t: int) -> Seq<char> {
    if t < 0 {
        seq!['-'] + dec_digits((-t) as nat)
    } else {
        dec_digits(t as nat)
    }
}

fn digit_str(d: u64) -> (r: &'static str)
    requires
        d < 10,
    ensures
        r@ == seq![hex_digit(d as nat)],
{
    proof {
        reveal_strlit("0");
        reveal_strlit("1");
        reveal_strlit("2");
        reveal_strlit("3");
        reveal_strlit("4");
        reveal_strlit("5");
        reveal_strlit("6");
        reveal_strlit("7");
        reveal_strlit("8");
        reveal_strlit("9");
    }
    let r: &'static str = if d == 0 {
        "0"
    } else if d == 1 {
        "1"
    } else if d == 2 {
        "2"
    } else if d == 3 {
        "3"
    } else if d == 4 {
        "4"
    } else if d == 5 {
        "5"
    } else if d == 6 {
        "6"
    } else if d == 7 {
        "7"
    } else if d == 8 {
        "8"
    } else {
        "9"
    };
    proof {
        assert(r@ =~= seq![hex_digit(d as nat)]);
    }
    r
}

/// Appends the decimal rendering of `n` to `s`.
fn push_dec_u64(s: &mut String, n: u64)
    ensures
        final(s)@ == old(s)@ + dec_digits(n as nat),
    decreases n,
{
    if n < 10 {
        s.append(digit_str(n));
    } else {
        push_dec_u64(s, n / 10);
        s.append(digit_str(n % 10));
        proof {
            assert(s@ =~= old(s)@ + dec_digits(n as nat));
        }
    }
}

/// Appends the decimal rendering of `t` to `s`, with a '-' when negative.
fn push_dec_i64(s: &mut String, t: i64)
    ensures
        final(s)@ == old(s)@ + dec_int(t as int),
{
    if t >= 0 {
        push_dec_u64(s, t as u64);
    } else {
        proof {
            reveal_strlit("-");
        }
        s.append("-");
        let m: u64 = ((-(t + 1)) as u64) + 1;
        proof {
            assert(m == -(t as int));
        }
        push_dec_u64(s, m);
        proof {
            assert("-"@ =~= seq!['-']);
            assert(s@ =~= old(s)@ + dec_int(t as int));
        }
    }
}

/// What SHA-256 returns on a string's characters; the digest depends on the
/// characters alone.
pub uninterp spec fn sha256_of(s: Seq<char>) -> Seq<u8>;

/// Relies on sha2::Sha256 (the Digest::digest convenience method): the digest
/// is a pure function of the input bytes and is exactly 32 bytes long.
#[verifier::external_body]
fn sha256_digest(s: &str) -> (r: Vec<u8>)
    ensures
        r@ == sha256_of(s@),
        r@.len() == 32,
{
    Sha256::digest(s.as_bytes()).to_vec()
}

/// The lowercase hex encoding of a byte sequence: two digits per byte, high
/// nibble first.
pub open spec fn hex_of(b: Seq<u8>) -> Seq<char>
    decreases b.len(),
{
    if b.len() == 0 {
        Seq::empty()
    } else {
        hex_of(b.drop_last()).push(hex_digit((b.last() / 16) as nat)).push(
            hex_digit((b.last() % 16) as nat),
        )
    }
}

pub proof fn lemma_hex_of_len(b: Seq<u8>)
    ensures
        hex_of(b).len() == 2 * b.len(),
    decreases b.len(),
{
    if b.len() > 0 {
        lemma_hex_of_len(b.drop_last());
    }
}

/// Relies on hex::encode: each input byte becomes two lowercase hex digits,
/// high nibble first, in input order.
#[verifier::external_body]
fn hex_encode(b: &[u8]) -> (r: String)
    ensures
        r@ == hex_of(b@),
{
    hex::encode(b)
}

/// The digest the hashing function assigns to a tuple of block fields.
pub open spec fn spec_calculate_hash(
    index: u64,
    timestamp: i64,
    data: Seq<char>,
    prev_hash: Seq<char>,
    nonce: u64,
) -> Seq<char> {
    hex_of(sha256_of(hash_input(index, timestamp, data, prev_hash, nonce)))
}

/// The canonical text the five block fields are concatenated to, in the fixed
/// order index, timestamp, data, prev_hash, nonce, with no separators.
pub open spec fn hash_input(
    index: u64,
    timestamp: i64,
    data: Seq<char>,
    prev_hash: Seq<char>,
    nonce: u64,
) -> Seq<char> {
    dec_digits(index as nat) + dec_int(timestamp as int) + data + prev_hash + dec_digits(
        nonce as nat,
    )
}

/// Computes the block digest: deterministic, with no failure modes; identical
/// inputs always yield the identical 64-character lowercase hex string.
pub fn calculate_hash(
    index: u64,
    timestamp: i64,
    data: &str,
    prev_hash: &str,
    nonce: u64,
) -> (r: String)
    ensures
        r@ == spec_calculate_hash(index, timestamp, data@, prev_hash@, nonce),
        r@.len() == 64,
{
    let mut input = String::new();
    push_dec_u64(&mut input, index);
    push_dec_i64(&mut input, timestamp);
    input.append(data);
    input.append(prev_hash);
    push_dec_u64(&mut input, nonce);
    proof {
        assert(input@ =~= hash_input(index, timestamp, data@, prev_hash@, nonce));
    }
    let digest = sha256_digest(input.as_str());
    let r = hex_encode(digest.as_slice());
    proof {
        lemma_hex_of_len(digest@);
    }
    r
}

/// The hashing function is deterministic: any two digests of the same field
/// tuple are equal, across repeated calls.
pub proof fn lemma_hash_deterministic(
    h1: Seq<char>,
    h2: Seq<char>,
    index: u64,
    timestamp: i64,
    data: Seq<char>,
    prev_hash: Seq<char>,
    nonce: u64,
)
    requires
        h1 == spec_calculate_hash(index, timestamp, data, prev_hash, nonce),
        h2 == spec_calculate_hash(index, timestamp, data, prev_hash, nonce),
    ensures
        h1 == h2,
{
}

} // verus!
