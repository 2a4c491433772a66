use wsl_ssh_askpass::names::{cred_name, hello_cred_name, CRED_PREFIX, GATE_SUFFIX};

#[test]
fn passphrase_name_is_prefix_and_key() {
    assert_eq!(cred_name("id_ed25519"), "wsl-ssh-askpass:id_ed25519");
    assert_eq!(cred_name("default"), "wsl-ssh-askpass:default");
    assert_eq!(cred_name(""), "wsl-ssh-askpass:");
}

#[test]
fn timestamp_name_is_prefix_key_and_suffix() {
    assert_eq!(hello_cred_name("id_ed25519"), "wsl-ssh-askpass:id_ed25519:temp");
    assert_eq!(hello_cred_name("default"), "wsl-ssh-askpass:default:temp");
    assert_eq!(hello_cred_name(""), "wsl-ssh-askpass::temp");
}

#[test]
fn names_are_built_from_the_constants() {
    assert_eq!(CRED_PREFIX, "wsl-ssh-askpass");
    assert_eq!(GATE_SUFFIX, "temp");
    assert_eq!(cred_name("k"), format!("{}:{}", CRED_PREFIX, "k"));
    assert_eq!(hello_cred_name("k"), format!("{}:{}:{}", CRED_PREFIX, "k", GATE_SUFFIX));
}

#[test]
fn two_names_of_one_key_differ() {
    for key in ["", "a", "id_rsa", "temp", ":temp", "ключ"] {
        assert_ne!(cred_name(key), hello_cred_name(key));
    }
}

#[test]
fn different_keys_have_different_names() {
    let keys = ["", "a", "b", "ab", "a:", "id_rsa", "id_rsa2"];
    for a in keys {
        for b in keys {
            if a != b {
                assert_ne!(cred_name(a), cred_name(b));
                assert_ne!(hello_cred_name(a), hello_cred_name(b));
            }
        }
    }
}

#[test]
fn names_keep_characters_outside_ascii() {
    assert_eq!(cred_name("größe_🔑"), "wsl-ssh-askpass:größe_🔑");
    assert_eq!(hello_cred_name("größe_🔑"), "wsl-ssh-askpass:größe_🔑:temp");
}
