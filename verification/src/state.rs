//! Accounts and the balance-transfer logic.  The account list is keyed by
//! address; well-formedness keeps addresses unique and the total supply
//! within the 64-bit range, which rules out overflow when a balance is
//! credited.

use vstd::prelude::*;

verus! {

/// A balance/nonce record keyed by address.  The nonce counts the outgoing
/// transfers made from the account.
pub struct Account {
    pub address: String,
    pub balance: u64,
    pub nonce: u64,
}

/// Some account carries this address.
pub open spec fn spec_has(s: Seq<Account>, a: Seq<char>) -> bool {
    exists|i: int| 0 <= i < s.len() && s[i].address@ == a
}

/// The position of the account carrying this address (unique when addresses
/// are unique).
pub open spec fn spec_idx(s: Seq<Account>, a: Seq<char>) -> int {
    choose|i: int| 0 <= i < s.len() && s[i].address@ == a
}

/// The balance recorded for an address, 0 when no account carries it.
pub open spec fn spec_balance(s: Seq<Account>, a: Seq<char>) -> u64 {
    if spec_has(s, a) {
        s[spec_idx(s, a)].balance
    } else {
        0
    }
}

/// The nonce recorded for an address, 0 when no account carries it.
pub open spec fn spec_nonce(s: Seq<Account>, a: Seq<char>) -> u64 {
    if spec_has(s, a) {
        s[spec_idx(s, a)].nonce
    } else {
        0
    }
}

/// No two accounts carry the same address.
pub open spec fn unique_addresses(s: Seq<Account>) -> bool {
    forall|i: int, j: int|
        0 <= i < j < s.len() ==> (#[trigger] s[i]).address@ != (#[trigger] s[j]).address@
}

/// The total supply: the sum of all balances.
pub open spec fn total_balance(s: Seq<Account>) -> int
    decreases s.len(),
{
    if s.len() == 0 {
        0
    } else {
        total_balance(s.drop_last()) + s.last().balance
    }
}

/// A well-formed account state: unique addresses, and a total supply that
/// fits in a 64-bit balance.
pub open spec fn wf_state(s: Seq<Account>) -> bool {
    unique_addresses(s) && total_balance(s) <= u64::MAX
}

pub proof fn lemma_total_nonneg(s: Seq<Account>)
    ensures
        total_balance(s) >= 0,
    decreases s.len(),
{
    if s.len() > 0 {
        lemma_total_nonneg(s.drop_last());
    }
}

/// Any single balance is at most the total supply.
pub proof fn lemma_total_elem(s: Seq<Account>, i: int)
    requires
        0 <= i < s.len(),
    ensures
        s[i].balance <= total_balance(s),
    decreases s.len(),
{
    if i == s.len() - 1 {
        lemma_total_nonneg(s.drop_last());
    } else {
        assert(s.drop_last()[i] == s[i]);
        lemma_total_elem(s.drop_last(), i);
    }
}

/// Replacing one account changes the total supply by the balance difference.
pub proof fn lemma_total_update(s: Seq<Account>, i: int, acc: Account)
    requires
        0 <= i < s.len(),
    ensures
        total_balance(s.update(i, acc)) == total_balance(s) - s[i].balance + acc.balance,
    decreases s.len(),
{
    let t = s.update(i, acc);
    if i == s.len() - 1 {
        assert(t.drop_last() =~= s.drop_last());
        assert(t.last() == acc);
    } else {
        assert(t.drop_last() =~= s.drop_last().update(i, acc));
        assert(t.last() == s.last());
        lemma_total_update(s.drop_last(), i, acc);
    }
}

/// Appending an account adds its balance to the total supply.
pub proof fn lemma_total_push(s: Seq<Account>, acc: Account)
    ensures
        total_balance(s.push(acc)) == total_balance(s) + acc.balance,
{
    let t = s.push(acc);
    assert(t.drop_last() =~= s);
    assert(t.last() == acc);
}

/// With unique addresses, a position whose account carries the address is
/// the position every lookup resolves to.
pub proof fn lemma_idx_unique(s: Seq<Account>, a: Seq<char>, i: int)
    requires
        unique_addresses(s),
        0 <= i < s.len(),
        s[i].address@ == a,
    ensures
        spec_has(s, a),
        spec_idx(s, a) == i,
{
    assert(spec_has(s, a));
    let j = spec_idx(s, a);
    assert(0 <= j < s.len() && s[j].address@ == a);
    if j < i {
        assert(s[j].address@ != s[i].address@);
    } else if i < j {
        assert(s[i].address@ != s[j].address@);
    }
}

/// How every lookup reads a state with one account replaced by another at
/// the same address: the lookups at that address see the new record, and
/// every other address is untouched.
pub proof fn lemma_update_lookup(s: Seq<Account>, i: int, acc: Account)
    requires
        unique_addresses(s),
        0 <= i < s.len(),
        acc.address@ == s[i].address@,
    ensures
        unique_addresses(s.update(i, acc)),
        forall|a: Seq<char>| #[trigger] spec_has(s.update(i, acc), a) == spec_has(s, a),
        spec_balance(s.update(i, acc), acc.address@) == acc.balance,
        spec_nonce(s.update(i, acc), acc.address@) == acc.nonce,
        forall|a: Seq<char>|
            a != acc.address@ ==> #[trigger] spec_balance(s.update(i, acc), a) == spec_balance(
                s,
                a,
            ),
        forall|a: Seq<char>|
            a != acc.address@ ==> #[trigger] spec_nonce(s.update(i, acc), a) == spec_nonce(s, a),
{
    let t = s.update(i, acc);
    assert forall|k: int| 0 <= k < t.len() implies (#[trigger] t[k]).address@
        == s[k].address@ by {
        if k != i {
            assert(t[k] == s[k]);
        }
    }
    assert forall|p: int, q: int| 0 <= p < q < t.len() implies (#[trigger] t[p]).address@ != (
    #[trigger] t[q]).address@ by {
        assert(s[p].address@ != s[q].address@);
    }
    assert forall|a: Seq<char>| #[trigger] spec_has(t, a) == spec_has(s, a) by {
        if spec_has(t, a) {
            let k = choose|k: int| 0 <= k < t.len() && t[k].address@ == a;
            assert(s[k].address@ == a);
        }
        if spec_has(s, a) {
            let k = choose|k: int| 0 <= k < s.len() && s[k].address@ == a;
            assert(t[k].address@ == a);
        }
    }
    lemma_idx_unique(t, acc.address@, i);
    assert(t[i] == acc);
    assert forall|a: Seq<char>| a != acc.address@ implies #[trigger] spec_balance(t, a)
        == spec_balance(s, a) by {
        if spec_has(s, a) {
            let j = spec_idx(s, a);
            assert(0 <= j < s.len() && s[j].address@ == a);
            assert(j != i);
            assert(t[j] == s[j]);
            lemma_idx_unique(t, a, j);
        }
    }
    assert forall|a: Seq<char>| a != acc.address@ implies #[trigger] spec_nonce(t, a)
        == spec_nonce(s, a) by {
        if spec_has(s, a) {
            let j = spec_idx(s, a);
            assert(0 <= j < s.len() && s[j].address@ == a);
            assert(j != i);
            assert(t[j] == s[j]);
            lemma_idx_unique(t, a, j);
        }
    }
}

/// How every lookup reads a state with a fresh account appended: the new
/// address resolves to the new record, and every other address is untouched.
pub proof fn lemma_push_lookup(s: Seq<Account>, acc: Account)
    requires
        unique_addresses(s),
        !spec_has(s, acc.address@),
    ensures
        unique_addresses(s.push(acc)),
        spec_has(s.push(acc), acc.address@),
        spec_balance(s.push(acc), acc.address@) == acc.balance,
        spec_nonce(s.push(acc), acc.address@) == acc.nonce,
        forall|a: Seq<char>|
            a != acc.address@ ==> #[trigger] spec_has(s.push(acc), a) == spec_has(s, a),
        forall|a: Seq<char>|
            a != acc.address@ ==> #[trigger] spec_balance(s.push(acc), a) == spec_balance(s, a),
        forall|a: Seq<char>|
            a != acc.address@ ==> #[trigger] spec_nonce(s.push(acc), a) == spec_nonce(s, a),
{
    let t = s.push(acc);
    let n = s.len() as int;
    assert(t[n] == acc);
    assert forall|p: int, q: int| 0 <= p < q < t.len() implies (#[trigger] t[p]).address@ != (
    #[trigger] t[q]).address@ by {
        if q < n {
            assert(t[p] == s[p]);
            assert(t[q] == s[q]);
        } else {
            assert(t[p] == s[p]);
            if s[p].address@ == acc.address@ {
                assert(spec_has(s, acc.address@));
            }
        }
    }
    lemma_idx_unique(t, acc.address@, n);
    assert forall|a: Seq<char>| a != acc.address@ implies #[trigger] spec_has(t, a) == spec_has(
        s,
        a,
    ) by {
        lemma_push_other(s, acc, a);
    }
    assert forall|a: Seq<char>| a != acc.address@ implies #[trigger] spec_balance(t, a)
        == spec_balance(s, a) by {
        lemma_push_other(s, acc, a);
    }
    assert forall|a: Seq<char>| a != acc.address@ implies #[trigger] spec_nonce(t, a)
        == spec_nonce(s, a) by {
        lemma_push_other(s, acc, a);
    }
}

/// An address other than the appended account's resolves after the append
/// exactly as it did before.
proof fn lemma_push_other(s: Seq<Account>, acc: Account, a: Seq<char>)
    requires
        unique_addresses(s),
        unique_addresses(s.push(acc)),
        !spec_has(s, acc.address@),
        a != acc.address@,
    ensures
        spec_has(s.push(acc), a) == spec_has(s, a),
        spec_balance(s.push(acc), a) == spec_balance(s, a),
        spec_nonce(s.push(acc), a) == spec_nonce(s, a),
{
    let t = s.push(acc);
    let n = s.len() as int;
    if spec_has(s, a) {
        let j = spec_idx(s, a);
        assert(0 <= j < s.len() && s[j].address@ == a);
        assert(t[j] == s[j]);
        lemma_idx_unique(t, a, j);
    } else {
        if spec_has(t, a) {
            let k = choose|k: int| 0 <= k < t.len() && t[k].address@ == a;
            if k < n {
                assert(s[k].address@ == a);
            }
        }
    }
}

/// Finds the position of the account carrying `addr`, if any.
fn find_account(accs: &Vec<Account>, addr: &str) -> (r: Option<usize>)
    ensures
        match r {
            Some(i) => i < accs@.len() && accs@[i as int].address@ == addr@,
            None => !spec_has(accs@, addr@),
        },
{
    let key = addr.to_owned();
    let mut i: usize = 0;
    while i < accs.len()
        invariant
            i <= accs@.len(),
            key@ == addr@,
            forall|j: int| 0 <= j < i ==> (#[trigger] accs@[j]).address@ != addr@,
        decreases accs@.len() - i,
    {
        if accs[i].address == key {
            return Some(i);
        }
        i = i + 1;
    }
    None
}

/// Returns the balance recorded for `address`, 0 when no account carries it;
/// reads only, never creates an entry, never fails.
pub fn state_balance(accs: &Vec<Account>, address: &str) -> (r: u64)
    requires
        unique_addresses(accs@),
    ensures
        r == spec_balance(accs@, address@),
{
    match find_account(accs, address) {
        Some(i) => {
            proof {
                lemma_idx_unique(accs@, address@, i as int);
            }
            accs[i].balance
        },
        None => 0,
    }
}

/// Returns the nonce recorded for `address`, 0 when no account carries it;
/// reads only, never creates an entry, never fails.
pub fn state_nonce(accs: &Vec<Account>, address: &str) -> (r: u64)
    requires
        unique_addresses(accs@),
    ensures
        r == spec_nonce(accs@, address@),
{
    match find_account(accs, address) {
        Some(i) => {
            proof {
                lemma_idx_unique(accs@, address@, i as int);
            }
            accs[i].nonce
        },
        None => 0,
    }
}

/// A transfer succeeds exactly when the sender exists, covers the amount,
/// and its outgoing-transfer counter can still advance.
pub open spec fn can_transfer(s: Seq<Account>, from: Seq<char>, amount: u64) -> bool {
    &&& spec_has(s, from)
    &&& spec_balance(s, from) >= amount
    &&& spec_nonce(s, from) < u64::MAX
}

/// The relation one transfer step establishes between the state it observed
/// (`s0`) and the state it stored (`s1`): it succeeds exactly on
/// [`can_transfer`]; on failure nothing changes; on success the sender is
/// debited and its nonce advanced once, the receiver (created when absent)
/// is credited, a self-transfer leaves the balance unchanged, every other
/// account is untouched, and the total supply never changes.
pub open spec fn transfer_step(
    s0: Seq<Account>,
    s1: Seq<Account>,
    from: Seq<char>,
    to: Seq<char>,
    amount: u64,
    r: bool,
) -> bool {
    &&& r == can_transfer(s0, from, amount)
    &&& (!r ==> s1 == s0)
    &&& total_balance(s1) == total_balance(s0)
    &&& (r && from != to ==> spec_balance(s1, from) == spec_balance(s0, from) - amount)
    &&& (r && from != to ==> spec_balance(s1, to) == spec_balance(s0, to) + amount)
    &&& (r && from != to ==> spec_nonce(s1, to) == spec_nonce(s0, to))
    &&& (r && from == to ==> spec_balance(s1, from) == spec_balance(s0, from))
    &&& (r ==> spec_nonce(s1, from) == spec_nonce(s0, from) + 1)
    &&& (r ==> spec_has(s1, to))
    &&& (forall|a: Seq<char>|
        a != from && a != to ==> #[trigger] spec_balance(s1, a) == spec_balance(s0, a))
    &&& (forall|a: Seq<char>|
        a != from && a != to ==> #[trigger] spec_nonce(s1, a) == spec_nonce(s0, a))
    &&& (forall|a: Seq<char>| #[trigger] spec_has(s1, a) == (spec_has(s0, a) || (r && a == to)))
}

/// Executes a transfer on an account state as one atomic step.
///
/// On success the sender's balance drops by `amount` and its nonce advances
/// by one; the receiver is created with balance 0 and nonce 0 when absent and
/// is credited with `amount`; a self-transfer leaves the balance unchanged
/// while still advancing the nonce once; the total supply never changes.  On
/// failure (absent sender, insufficient balance, or a sender nonce at the
/// 64-bit cap, which the counter could not record) the state is untouched.
pub fn state_transfer(accs: &mut Vec<Account>, from: &str, to: &str, amount: u64) -> (r: bool)
    requires
        wf_state(old(accs)@),
    ensures
        wf_state(final(accs)@),
        transfer_step(old(accs)@, final(accs)@, from@, to@, amount, r),
{
    let ghost s0 = accs@;
    let from_i: usize;
    match find_account(accs, from) {
        Some(i) => {
            from_i = i;
        },
        None => {
            return false;
        },
    }
    proof {
        lemma_idx_unique(s0, from@, from_i as int);
    }
    if accs[from_i].balance < amount {
        return false;
    }
    if accs[from_i].nonce == u64::MAX {
        return false;
    }
    let new_bal = accs[from_i].balance - amount;
    let new_nonce = accs[from_i].nonce + 1;
    let debited = Account {
        address: accs[from_i].address.clone(),
        balance: new_bal,
        nonce: new_nonce,
    };
    proof {
        lemma_update_lookup(s0, from_i as int, debited);
        lemma_total_update(s0, from_i as int, debited);
    }
    accs[from_i] = debited;
    let ghost s1 = accs@;
    match find_account(accs, to) {
        Some(to_i) => {
            proof {
                lemma_idx_unique(s1, to@, to_i as int);
            }
            if to_i == from_i {
                // Self-transfer: the amount was subtracted above and is added
                // back to the same account; the nonce stays advanced once.
                let restored = Account {
                    address: accs[from_i].address.clone(),
                    balance: new_bal + amount,
                    nonce: new_nonce,
                };
                proof {
                    lemma_update_lookup(s1, from_i as int, restored);
                    lemma_total_update(s1, from_i as int, restored);
                }
                accs[from_i] = restored;
            } else {
                proof {
                    lemma_total_nonneg(s1);
                    lemma_total_elem(s1, to_i as int);
                }
                let credited = Account {
                    address: accs[to_i].address.clone(),
                    balance: accs[to_i].balance + amount,
                    nonce: accs[to_i].nonce,
                };
                proof {
                    lemma_update_lookup(s1, to_i as int, credited);
                    lemma_total_update(s1, to_i as int, credited);
                }
                accs[to_i] = credited;
            }
        },
        None => {
            let fresh = Account { address: to.to_owned(), balance: amount, nonce: 0 };
            proof {
                lemma_push_lookup(s1, fresh);
                lemma_total_push(s1, fresh);
            }
            accs.push(fresh);
        },
    }
    true
}

} // verus!
