use wsl_ssh_askpass::dispatch::{
    classify, classify_lowered, exit_code, prompt_yes_no, PromptKind, DEFAULT_PROMPT,
    FINGERPRINT_TOKEN, HOST_KEY_TITLE, YES_NO_TOKEN,
};

#[test]
fn host_key_prompt_of_openssh_is_a_confirmation() {
    let prompt = "The authenticity of host 'example.com (192.0.2.1)' can't be established.\n\
                  ED25519 key fingerprint is SHA256:abcdef.\n\
                  Are you sure you want to continue connecting (yes/no/[fingerprint])?";
    assert_eq!(classify(prompt), PromptKind::HostKeyConfirmation);
}

#[test]
fn yes_no_alone_is_a_confirmation() {
    assert_eq!(classify("Continue (yes/no)?"), PromptKind::HostKeyConfirmation);
    assert_eq!(classify("yes/no"), PromptKind::HostKeyConfirmation);
}

#[test]
fn fingerprint_alone_is_a_confirmation() {
    assert_eq!(classify("Please type the fingerprint:"), PromptKind::HostKeyConfirmation);
    assert_eq!(classify("fingerprint"), PromptKind::HostKeyConfirmation);
}

#[test]
fn case_does_not_matter() {
    assert_eq!(classify("Continue (YES/NO)?"), PromptKind::HostKeyConfirmation);
    assert_eq!(classify("Continue (Yes/No)?"), PromptKind::HostKeyConfirmation);
    assert_eq!(classify("continue (yEs/nO)?"), PromptKind::HostKeyConfirmation);
    assert_eq!(classify("Key FINGERPRINT is"), PromptKind::HostKeyConfirmation);
    assert_eq!(classify("Key FingerPrint is"), PromptKind::HostKeyConfirmation);
}

#[test]
fn passphrase_prompts_are_passphrase_requests() {
    assert_eq!(
        classify("Enter passphrase for key '/home/u/.ssh/id_ed25519':"),
        PromptKind::PassphraseRequest
    );
    assert_eq!(classify(DEFAULT_PROMPT), PromptKind::PassphraseRequest);
    assert_eq!(classify(""), PromptKind::PassphraseRequest);
    assert_eq!(classify("user@host's password:"), PromptKind::PassphraseRequest);
}

#[test]
fn near_misses_are_passphrase_requests() {
    assert_eq!(classify("yes / no"), PromptKind::PassphraseRequest);
    assert_eq!(classify("yes\\no"), PromptKind::PassphraseRequest);
    assert_eq!(classify("yes/n"), PromptKind::PassphraseRequest);
    assert_eq!(classify("es/no"), PromptKind::PassphraseRequest);
    assert_eq!(classify("finger print"), PromptKind::PassphraseRequest);
    assert_eq!(classify("fingerprin"), PromptKind::PassphraseRequest);
    assert_eq!(classify("yes"), PromptKind::PassphraseRequest);
    assert_eq!(classify("tnirpregnif"), PromptKind::PassphraseRequest);
}

#[test]
fn token_may_stand_anywhere() {
    assert_eq!(classify("yes/no at the start"), PromptKind::HostKeyConfirmation);
    assert_eq!(classify("in the yes/no middle"), PromptKind::HostKeyConfirmation);
    assert_eq!(classify("at the end yes/no"), PromptKind::HostKeyConfirmation);
    assert_eq!(classify("ééé fingerprint ééé"), PromptKind::HostKeyConfirmation);
    assert_eq!(classify("yes/nyes/no"), PromptKind::HostKeyConfirmation);
    assert_eq!(classify("fingerprinfingerprint"), PromptKind::HostKeyConfirmation);
}

#[test]
fn lowered_text_is_matched_as_it_stands() {
    assert_eq!(classify_lowered("continue (yes/no)?"), PromptKind::HostKeyConfirmation);
    assert_eq!(classify_lowered("key fingerprint is"), PromptKind::HostKeyConfirmation);
    assert_eq!(classify_lowered("enter passphrase:"), PromptKind::PassphraseRequest);
    assert_eq!(classify_lowered("Continue (YES/NO)?"), PromptKind::PassphraseRequest);
    assert_eq!(classify_lowered("Key FINGERPRINT is"), PromptKind::PassphraseRequest);
}

#[test]
fn classification_agrees_with_lowering_by_the_standard_library() {
    let prompts = [
        "Continue (YES/NO)?",
        "FINGERPRINT",
        "Enter passphrase",
        "ΣΊΣΥΦΟΣ yes/NO",
        "İstanbul fİngerprint",
        "ﬁngerprint",
        "YES/NO\u{307}",
    ];
    for prompt in prompts {
        let lowered = prompt.to_lowercase();
        let expected = if lowered.contains("yes/no") || lowered.contains("fingerprint") {
            PromptKind::HostKeyConfirmation
        } else {
            PromptKind::PassphraseRequest
        };
        assert_eq!(classify(prompt), expected, "{:?}", prompt);
        assert_eq!(classify_lowered(&lowered), expected, "{:?}", prompt);
    }
}

#[test]
fn tokens_and_titles() {
    assert_eq!(YES_NO_TOKEN, "yes/no");
    assert_eq!(FINGERPRINT_TOKEN, "fingerprint");
    assert_eq!(HOST_KEY_TITLE, "SSH Host Verification");
    assert_eq!(DEFAULT_PROMPT, "Enter SSH passphrase:");
}

#[test]
fn confirmation_answers() {
    assert_eq!(prompt_yes_no(true), "yes");
    assert_eq!(prompt_yes_no(false), "no");
}

#[test]
fn exit_codes() {
    assert_eq!(exit_code(true), 0);
    assert_eq!(exit_code(false), 1);
}
