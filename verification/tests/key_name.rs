use wsl_ssh_askpass::key_name::{extract_key_name, DEFAULT_KEY};

#[test]
fn unix_path_gives_its_file_name() {
    assert_eq!(
        extract_key_name("Enter passphrase for key '/home/u/.ssh/id_ed25519':"),
        "id_ed25519"
    );
}

#[test]
fn windows_path_gives_its_file_name() {
    assert_eq!(
        extract_key_name("Enter passphrase for key 'C:\\keys\\mykey':"),
        "mykey"
    );
}

#[test]
fn prompt_without_quotes_gives_default() {
    assert_eq!(extract_key_name("Enter SSH passphrase:"), "default");
    assert_eq!(extract_key_name(""), "default");
    assert_eq!(DEFAULT_KEY, "default");
}

#[test]
fn bare_name_is_returned_verbatim() {
    assert_eq!(extract_key_name("Enter passphrase for key 'id_rsa':"), "id_rsa");
    assert_eq!(extract_key_name("'k'"), "k");
}

#[test]
fn single_quote_gives_default() {
    assert_eq!(extract_key_name("Enter passphrase for key '/home/u/id_rsa"), "default");
    assert_eq!(extract_key_name("'"), "default");
    assert_eq!(extract_key_name("it's"), "default");
}

#[test]
fn only_the_first_quoted_text_counts() {
    assert_eq!(extract_key_name("key '/a/first' or '/b/second'"), "first");
    assert_eq!(extract_key_name("'one''two'"), "one");
}

#[test]
fn mixed_separators_are_both_honoured() {
    assert_eq!(extract_key_name("key 'C:\\Users\\u/.ssh/id_ecdsa'"), "id_ecdsa");
    assert_eq!(extract_key_name("key '/mnt/c\\keys\\work'"), "work");
}

#[test]
fn trailing_separators_are_skipped() {
    assert_eq!(extract_key_name("key '/home/u/.ssh/'"), ".ssh");
    assert_eq!(extract_key_name("key 'C:\\keys\\mykey\\\\'"), "mykey");
    assert_eq!(extract_key_name("key 'name/'"), "name");
}

#[test]
fn path_without_a_segment_gives_default() {
    assert_eq!(extract_key_name("key ''"), "default");
    assert_eq!(extract_key_name("key '/'"), "default");
    assert_eq!(extract_key_name("key '\\/\\'"), "default");
}

#[test]
fn characters_outside_ascii_are_kept() {
    assert_eq!(
        extract_key_name("Passphrase für 'C:\\Schlüssel\\größe_🔑':"),
        "größe_🔑"
    );
    assert_eq!(extract_key_name("ключ '/дом/ключ'"), "ключ");
}

#[test]
fn identifier_is_never_empty() {
    let prompts = [
        "",
        "'",
        "''",
        "'/'",
        "'a'",
        "'/a/'",
        "no quotes at all",
        "'\\\\'",
        "x'y",
        "'a/b\\c'",
    ];
    for prompt in prompts {
        let name = extract_key_name(prompt);
        assert!(!name.is_empty());
        if name != "default" {
            assert!(!name.contains('/'));
            assert!(!name.contains('\\'));
            assert!(!name.contains('\''));
        }
    }
}
