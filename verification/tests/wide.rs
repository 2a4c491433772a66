use wsl_ssh_askpass::wide::{from_wide, to_wide};

#[test]
fn empty_text_is_a_lone_zero() {
    assert_eq!(to_wide(""), vec![0u16]);
}

#[test]
fn ascii_text_is_one_unit_per_character() {
    assert_eq!(to_wide("ab"), vec![97u16, 98, 0]);
    assert_eq!(to_wide("SSH Passphrase").len(), 15);
}

#[test]
fn characters_of_the_basic_plane_are_one_unit() {
    assert_eq!(to_wide("é"), vec![0x00e9u16, 0]);
    assert_eq!(to_wide("€"), vec![0x20acu16, 0]);
    assert_eq!(to_wide("\u{d7ff}\u{e000}\u{ffff}"), vec![0xd7ffu16, 0xe000, 0xffff, 0]);
}

#[test]
fn characters_beyond_the_basic_plane_are_surrogate_pairs() {
    assert_eq!(to_wide("\u{10000}"), vec![0xd800u16, 0xdc00, 0]);
    assert_eq!(to_wide("🔑"), vec![0xd83du16, 0xdd11, 0]);
    assert_eq!(to_wide("\u{10ffff}"), vec![0xdbffu16, 0xdfff, 0]);
    assert_eq!(to_wide("a𝄞b"), vec![0x61u16, 0xd834, 0xdd1e, 0x62, 0]);
}

#[test]
fn encoding_agrees_with_the_standard_library() {
    let samples = [
        "",
        "Enter passphrase for key '/home/u/.ssh/id_ed25519':",
        "größe",
        "密码",
        "🔑🔒",
        "\u{ffff}\u{10000}\u{10ffff}",
        "a\u{0}b",
    ];
    for text in samples {
        let mut expected: Vec<u16> = text.encode_utf16().collect();
        expected.push(0);
        assert_eq!(to_wide(text), expected);
        assert_eq!(String::from_utf16(&expected[..expected.len() - 1]).unwrap(), text);
    }
}

#[test]
fn the_only_zero_is_the_last_unit() {
    for text in ["", "abc", "größe 🔑", "C:\\keys\\mykey"] {
        let units = to_wide(text);
        assert_eq!(units.iter().position(|&unit| unit == 0), Some(units.len() - 1));
    }
}

#[test]
fn text_is_read_back_without_its_final_zero() {
    let units = to_wide("s3cr3t");
    assert_eq!(from_wide(&units, 7), "s3cr3t");
    let units = to_wide("pässwörd 🔑");
    assert_eq!(from_wide(&units, units.len() as u32), "pässwörd 🔑");
}

#[test]
fn text_is_read_from_a_larger_buffer() {
    let mut buffer = vec![0u16; 256];
    for (place, unit) in "hunter2".encode_utf16().enumerate() {
        buffer[place] = unit;
    }
    assert_eq!(from_wide(&buffer, 8), "hunter2");
    assert_eq!(from_wide(&buffer, 4), "hun");
    assert_eq!(from_wide(&buffer, 1), "");
}

#[test]
fn nothing_reported_gives_the_empty_text() {
    assert_eq!(from_wide(&[0x61, 0x62, 0], 0), "");
    assert_eq!(from_wide(&[], 0), "");
    assert_eq!(from_wide(&[], 5), "");
}

#[test]
fn more_reported_than_held_gives_what_is_held() {
    assert_eq!(from_wide(&[0x61, 0x62], 3), "ab");
    assert_eq!(from_wide(&[0x61, 0x62], 4), "ab");
    assert_eq!(from_wide(&[0x61, 0x62], u32::MAX), "ab");
}

#[test]
fn lone_surrogates_are_replaced() {
    assert_eq!(from_wide(&[0xd800, 0x61, 0], 3), "\u{fffd}a");
    assert_eq!(from_wide(&[0x61, 0xdc00, 0], 3), "a\u{fffd}");
    assert_eq!(from_wide(&[0xd83d, 0xdd11, 0], 3), "🔑");
}
