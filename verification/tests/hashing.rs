use pow_ledger::chain::check_difficulty;
use pow_ledger::hashing::calculate_hash;
use sha2::Digest;

#[test]
fn hash_is_deterministic() {
    let a = calculate_hash(42, 1_700_000_000, "payload", "deadbeef", 9);
    let b = calculate_hash(42, 1_700_000_000, "payload", "deadbeef", 9);
    assert_eq!(a, b);
}

#[test]
fn hash_known_value() {
    // The canonical input text is "10abc07": index 1, timestamp 0, data
    // "abc", prev hash "0", nonce 7, concatenated with no separators.
    let h = calculate_hash(1, 0, "abc", "0", 7);
    assert_eq!(
        h,
        "8816f18571a3722e23c83e1175db777a141957eaf96923de2a8ec774ed390b5b"
    );
}

#[test]
fn hash_negative_timestamp() {
    // The canonical input text is "0-5xff3": the timestamp keeps its sign.
    let h = calculate_hash(0, -5, "x", "ff", 3);
    assert_eq!(
        h,
        "2208cbe6c5a8b3adb24b64d5394399fc93114b67e46ce11855953ab14d50a5e1"
    );
}

#[test]
fn hash_matches_direct_digest() {
    let index: u64 = 3;
    let timestamp: i64 = -123_456_789;
    let data = "Tx Data Batch 1";
    let prev_hash = "00aa11bb";
    let nonce: u64 = 77;
    let input = format!("{}{}{}{}{}", index, timestamp, data, prev_hash, nonce);
    let expected = hex::encode(sha2::Sha256::digest(input.as_bytes()));
    assert_eq!(
        calculate_hash(index, timestamp, data, prev_hash, nonce),
        expected
    );
}

#[test]
fn hash_changes_with_each_field() {
    let base = calculate_hash(1, 2, "d", "p", 3);
    assert_ne!(base, calculate_hash(2, 2, "d", "p", 3));
    assert_ne!(base, calculate_hash(1, 3, "d", "p", 3));
    assert_ne!(base, calculate_hash(1, 2, "e", "p", 3));
    assert_ne!(base, calculate_hash(1, 2, "d", "q", 3));
    assert_ne!(base, calculate_hash(1, 2, "d", "p", 4));
}

#[test]
fn difficulty_checks_terminal_character() {
    assert!(check_difficulty("ab0"));
    assert!(check_difficulty("0"));
    assert!(!check_difficulty("0ab"));
    assert!(!check_difficulty("abc1"));
}
