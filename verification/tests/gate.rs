use wsl_ssh_askpass::gate::{
    is_hello_valid, update_hello_timestamp, verification_message, CACHE_PIN_TTL_SECS,
};
use wsl_ssh_askpass::store::Scope;

#[test]
fn time_to_live_is_five_minutes() {
    assert_eq!(CACHE_PIN_TTL_SECS, 300);
}

#[test]
fn refresh_writes_the_time_as_a_session_record() {
    let request = update_hello_timestamp("id_ed25519", 1_700_000_000);
    assert_eq!(request.name, "wsl-ssh-askpass:id_ed25519:temp");
    assert_eq!(request.blob, b"1700000000".to_vec());
    assert_eq!(request.username, "wsl-ssh-askpass");
    assert_eq!(request.scope, Scope::Session);
}

#[test]
fn refresh_at_time_zero_and_at_the_last_second() {
    assert_eq!(update_hello_timestamp("k", 0).blob, b"0".to_vec());
    assert_eq!(update_hello_timestamp("k", u64::MAX).blob, b"18446744073709551615".to_vec());
}

#[test]
fn fresh_right_after_a_refresh() {
    let request = update_hello_timestamp("k", 1_700_000_000);
    assert!(is_hello_valid(Some(&request.blob), 1_700_000_000));
}

#[test]
fn refreshing_twice_stays_fresh() {
    let first = update_hello_timestamp("k", 1_700_000_000);
    assert!(is_hello_valid(Some(&first.blob), 1_700_000_000));
    let second = update_hello_timestamp("k", 1_700_000_001);
    assert_eq!(second.name, first.name);
    assert!(is_hello_valid(Some(&second.blob), 1_700_000_001));
    assert!(is_hello_valid(Some(&second.blob), 1_700_000_001 + 299));
    assert!(!is_hello_valid(Some(&second.blob), 1_700_000_001 + 300));
}

#[test]
fn fresh_for_less_than_the_time_to_live() {
    let stored = b"1000";
    assert!(is_hello_valid(Some(stored), 1000));
    assert!(is_hello_valid(Some(stored), 1010));
    assert!(is_hello_valid(Some(stored), 1299));
}

#[test]
fn stale_once_the_time_to_live_has_passed() {
    let stored = b"1000";
    assert!(!is_hello_valid(Some(stored), 1300));
    assert!(!is_hello_valid(Some(stored), 1301));
    assert!(!is_hello_valid(Some(stored), 1400));
    assert!(!is_hello_valid(Some(stored), u64::MAX));
}

#[test]
fn a_time_in_the_future_is_not_fresh() {
    assert!(!is_hello_valid(Some(b"1001"), 1000));
    assert!(!is_hello_valid(Some(b"18446744073709551615"), 0));
    assert!(!is_hello_valid(Some(b"18446744073709551615"), 1000));
    assert!(is_hello_valid(Some(b"18446744073709551615"), u64::MAX));
}

#[test]
fn absent_record_is_not_fresh() {
    assert!(!is_hello_valid(None, 0));
    assert!(!is_hello_valid(None, 1_700_000_000));
    assert!(!is_hello_valid(None, u64::MAX));
}

#[test]
fn unreadable_record_is_not_fresh() {
    let now = 1_700_000_000u64;
    let records: [&[u8]; 12] = [
        b"",
        b"soon",
        b"-1700000000",
        b" 1700000000",
        b"1700000000 ",
        b"1700000000\n",
        b"1700000000.0",
        b"17e8",
        b"18446744073709551616",
        &[0xff, 0xfe],
        &[0x31, 0x37, 0x00],
        "١٧٠٠٠٠٠٠٠٠".as_bytes(),
    ];
    for record in records {
        assert!(!is_hello_valid(Some(record), now), "{:?}", record);
    }
}

#[test]
fn record_with_sign_or_leading_zeros_counts_as_its_value() {
    assert!(is_hello_valid(Some(b"+1000"), 1100));
    assert!(is_hello_valid(Some(b"0001000"), 1100));
    assert!(!is_hello_valid(Some(b"+1000"), 1300));
}

#[test]
fn message_names_the_key() {
    assert_eq!(verification_message("id_ed25519"), "Unlock SSH key: id_ed25519");
    assert_eq!(verification_message("default"), "Unlock SSH key: default");
}
