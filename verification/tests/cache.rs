use wsl_ssh_askpass::cache::{cache_passphrase, get_cached_passphrase};
use wsl_ssh_askpass::store::Scope;

#[test]
fn passphrase_is_cached_as_a_durable_record() {
    let request = cache_passphrase("id_ed25519", "s3cr3t");
    assert_eq!(request.name, "wsl-ssh-askpass:id_ed25519");
    assert_eq!(request.blob, b"s3cr3t".to_vec());
    assert_eq!(request.username, "wsl-ssh-askpass");
    assert_eq!(request.scope, Scope::Durable);
}

#[test]
fn absent_record_gives_no_passphrase() {
    assert_eq!(get_cached_passphrase(None), None);
}

#[test]
fn empty_record_gives_the_empty_passphrase() {
    assert_eq!(get_cached_passphrase(Some(b"")), Some(String::new()));
    assert_eq!(cache_passphrase("k", "").blob, Vec::<u8>::new());
}

#[test]
fn ascii_passphrase_comes_back_unchanged() {
    let passphrase = "correct horse battery staple";
    let request = cache_passphrase("k", passphrase);
    assert_eq!(request.blob, passphrase.as_bytes().to_vec());
    assert_eq!(get_cached_passphrase(Some(&request.blob)), Some(passphrase.to_string()));
}

#[test]
fn passphrase_outside_ascii_comes_back_unchanged() {
    for passphrase in ["pässwörd", "пароль", "密码", "🔑 key ✓", "a\u{0}b", "tab\tand\nnewline"] {
        let request = cache_passphrase("k", passphrase);
        assert_eq!(request.blob, passphrase.as_bytes().to_vec());
        let read = get_cached_passphrase(Some(&request.blob));
        assert_eq!(read, Some(passphrase.to_string()));
        assert_eq!(read.unwrap().into_bytes(), request.blob);
    }
}

#[test]
fn bytes_of_each_width_are_written_as_utf8() {
    assert_eq!(cache_passphrase("k", "é").blob, vec![0xc3, 0xa9]);
    assert_eq!(cache_passphrase("k", "€").blob, vec![0xe2, 0x82, 0xac]);
    assert_eq!(cache_passphrase("k", "🔑").blob, vec![0xf0, 0x9f, 0x94, 0x91]);
}

#[test]
fn invalid_bytes_are_replaced_not_refused() {
    assert_eq!(get_cached_passphrase(Some(&[0x61, 0xff, 0x62])), Some("a\u{fffd}b".to_string()));
    assert_eq!(get_cached_passphrase(Some(&[0xc3])), Some("\u{fffd}".to_string()));
    assert_eq!(
        get_cached_passphrase(Some(&[0xed, 0xa0, 0x80])),
        Some(String::from_utf8_lossy(&[0xed, 0xa0, 0x80]).into_owned())
    );
}

#[test]
fn later_passphrase_goes_under_the_same_name() {
    let earlier = cache_passphrase("k", "one");
    let later = cache_passphrase("k", "two");
    assert_eq!(earlier.name, later.name);
    assert_eq!(get_cached_passphrase(Some(&later.blob)), Some("two".to_string()));
}
