use pow_ledger::hashing::calculate_hash;
use pow_ledger::ledger::Blockchain;

#[test]
fn new_ledger_is_seeded() {
    let bc = Blockchain::new();
    assert_eq!(bc.get_balance("0xAdmin"), 1_000_000);
    assert_eq!(bc.get_nonce("0xAdmin"), 0);
    assert_eq!(bc.account_count(), 1);
    let chain = bc.snapshot_chain();
    assert_eq!(chain.len(), 1);
    assert_eq!(chain[0].index, 0);
    assert_eq!(chain[0].prev_hash, "0");
    assert_eq!(chain[0].hash, "0000000000000000");
    assert_eq!(chain[0].data, "Genesis Block");
    assert_eq!(chain[0].nonce, 0);
}

#[test]
fn transfer_moves_balance_and_advances_nonce() {
    let bc = Blockchain::new();
    assert!(bc.transfer("0xAdmin", "0xUser1", 500));
    assert_eq!(bc.get_balance("0xAdmin"), 999_500);
    assert_eq!(bc.get_balance("0xUser1"), 500);
    assert_eq!(bc.get_nonce("0xAdmin"), 1);
    assert_eq!(bc.get_nonce("0xUser1"), 0);
    // Total supply is unchanged.
    assert_eq!(bc.get_balance("0xAdmin") + bc.get_balance("0xUser1"), 1_000_000);
}

#[test]
fn transfer_insufficient_changes_nothing() {
    let bc = Blockchain::new();
    assert!(bc.transfer("0xAdmin", "0xUser1", 500));
    assert!(!bc.transfer("0xUser1", "0xUser2", 1000));
    assert_eq!(bc.get_balance("0xUser1"), 500);
    assert_eq!(bc.get_balance("0xUser2"), 0);
    assert_eq!(bc.get_nonce("0xUser1"), 0);
    assert_eq!(bc.account_count(), 2);
}

#[test]
fn transfer_from_unknown_sender_fails() {
    let bc = Blockchain::new();
    assert!(!bc.transfer("0xNobody", "0xUser1", 1));
    // Even a zero amount fails when the sender has no account.
    assert!(!bc.transfer("0xNobody", "0xUser1", 0));
    assert_eq!(bc.account_count(), 1);
    assert_eq!(bc.get_balance("0xUser1"), 0);
}

#[test]
fn transfer_whole_balance_is_valid() {
    let bc = Blockchain::new();
    assert!(bc.transfer("0xAdmin", "0xUser1", 1_000_000));
    assert_eq!(bc.get_balance("0xAdmin"), 0);
    assert_eq!(bc.get_balance("0xUser1"), 1_000_000);
}

#[test]
fn transfer_creates_receiver_with_exact_amount() {
    let bc = Blockchain::new();
    assert_eq!(bc.account_count(), 1);
    assert!(bc.transfer("0xAdmin", "0xFresh", 123));
    assert_eq!(bc.account_count(), 2);
    assert_eq!(bc.get_balance("0xFresh"), 123);
    assert_eq!(bc.get_nonce("0xFresh"), 0);
}

#[test]
fn self_transfer_keeps_balance_and_advances_nonce_once() {
    let bc = Blockchain::new();
    assert!(bc.transfer("0xAdmin", "0xAdmin", 600_000));
    assert_eq!(bc.get_balance("0xAdmin"), 1_000_000);
    assert_eq!(bc.get_nonce("0xAdmin"), 1);
    assert_eq!(bc.account_count(), 1);
}

#[test]
fn get_balance_of_unknown_creates_no_entry() {
    let bc = Blockchain::new();
    assert_eq!(bc.get_balance("0xUnknown"), 0);
    assert_eq!(bc.account_count(), 1);
    assert_eq!(bc.get_balance("0xUnknown"), 0);
    assert_eq!(bc.account_count(), 1);
}

#[test]
fn mined_block_continues_the_chain() {
    let bc = Blockchain::new();
    bc.mine_block(String::from("Tx Data Batch 0"));
    let chain = bc.snapshot_chain();
    assert_eq!(chain.len(), 2);
    assert_eq!(chain[1].index, 1);
    assert_eq!(chain[1].prev_hash, chain[0].hash);
    assert_eq!(chain[1].data, "Tx Data Batch 0");
    // The stored hash is the block's own digest and it satisfies the
    // difficulty predicate (it ends in the terminal character '0').
    let recomputed = calculate_hash(
        chain[1].index,
        chain[1].timestamp,
        &chain[1].data,
        &chain[1].prev_hash,
        chain[1].nonce,
    );
    assert_eq!(chain[1].hash, recomputed);
    assert!(chain[1].hash.ends_with('0'));
    // The stored nonce is the least satisfying one: every smaller nonce's
    // digest fails the difficulty predicate.
    for n in 0..chain[1].nonce {
        let h = calculate_hash(
            chain[1].index,
            chain[1].timestamp,
            &chain[1].data,
            &chain[1].prev_hash,
            n,
        );
        assert!(!h.ends_with('0'));
    }
}

#[test]
fn chain_invariants_hold_under_interleaved_use() {
    let bc = Blockchain::new();
    for i in 0..3u32 {
        bc.mine_block(format!("Tx Data Batch {}", i));
        bc.transfer("0xAdmin", "0xUser1", 500);
    }
    let chain = bc.snapshot_chain();
    assert_eq!(chain.len(), 4);
    for (i, block) in chain.iter().enumerate() {
        assert_eq!(block.index, i as u64);
        if i > 0 {
            assert_eq!(block.prev_hash, chain[i - 1].hash);
            let recomputed = calculate_hash(
                block.index,
                block.timestamp,
                &block.data,
                &block.prev_hash,
                block.nonce,
            );
            assert_eq!(block.hash, recomputed);
            assert!(block.hash.ends_with('0'));
        }
    }
    assert_eq!(bc.get_balance("0xAdmin"), 998_500);
    assert_eq!(bc.get_balance("0xUser1"), 1_500);
}

#[test]
fn end_to_end_example() {
    let bc = Blockchain::new();
    assert_eq!(bc.get_balance("0xAdmin"), 1_000_000);
    bc.mine_block(String::from("A"));
    let chain = bc.snapshot_chain();
    assert_eq!(chain.len(), 2);
    assert_eq!(chain[1].index, 1);
    assert!(bc.transfer("0xAdmin", "0xUser1", 500));
    assert_eq!(bc.get_balance("0xAdmin"), 999_500);
    assert_eq!(bc.get_balance("0xUser1"), 500);
    assert!(!bc.transfer("0xUser1", "0xUser2", 1000));
    assert_eq!(bc.get_balance("0xAdmin"), 999_500);
    assert_eq!(bc.get_balance("0xUser1"), 500);
    assert_eq!(bc.get_balance("0xUser2"), 0);
}
