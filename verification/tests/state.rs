use pow_ledger::state::{state_balance, state_nonce, state_transfer, Account};

fn account(address: &str, balance: u64, nonce: u64) -> Account {
    Account {
        address: address.to_string(),
        balance,
        nonce,
    }
}

#[test]
fn state_transfer_debits_and_credits() {
    let mut accs = vec![account("A", 100, 0), account("B", 7, 2)];
    assert!(state_transfer(&mut accs, "A", "B", 30));
    assert_eq!(state_balance(&accs, "A"), 70);
    assert_eq!(state_balance(&accs, "B"), 37);
    assert_eq!(state_nonce(&accs, "A"), 1);
    assert_eq!(state_nonce(&accs, "B"), 2);
    assert_eq!(accs.len(), 2);
}

#[test]
fn state_transfer_zero_amount_succeeds_for_existing_sender() {
    let mut accs = vec![account("A", 0, 0)];
    assert!(state_transfer(&mut accs, "A", "B", 0));
    assert_eq!(state_balance(&accs, "A"), 0);
    assert_eq!(state_balance(&accs, "B"), 0);
    assert_eq!(state_nonce(&accs, "A"), 1);
    assert_eq!(accs.len(), 2);
}

#[test]
fn state_transfer_refused_at_nonce_cap() {
    // The outgoing-transfer counter could not record one more transfer, so
    // the transfer is refused with no mutation.
    let mut accs = vec![account("A", 10, u64::MAX)];
    assert!(!state_transfer(&mut accs, "A", "B", 1));
    assert_eq!(accs.len(), 1);
    assert_eq!(state_balance(&accs, "A"), 10);
    assert_eq!(state_nonce(&accs, "A"), u64::MAX);
}

#[test]
fn state_lookup_of_unknown_address_is_zero() {
    let accs = vec![account("A", 10, 3)];
    assert_eq!(state_balance(&accs, "Z"), 0);
    assert_eq!(state_nonce(&accs, "Z"), 0);
}
