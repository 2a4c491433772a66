//! The prompt dispatcher: which of the two kinds of prompt was asked.
//!
//! A prompt that holds `yes/no` or `fingerprint`, in any mix of upper and
//! lower case, asks to confirm a host key and is answered with `yes` or `no`.
//! Every other prompt asks for a passphrase.

use crate::text::{chars_of, contains, contains_chars};
use vstd::prelude::*;

verus! {

/// The prompt that is taken where the caller gave none.
pub const DEFAULT_PROMPT: &'static str = "Enter SSH passphrase:";

/// The title of the dialog that asks to confirm a host key.
pub const HOST_KEY_TITLE: &'static str = "SSH Host Verification";

/// Marks a prompt that offers the choice between yes and no.
pub const YES_NO_TOKEN: &'static str = "yes/no";

/// Marks a prompt that shows the fingerprint of a host key.
pub const FINGERPRINT_TOKEN: &'static str = "fingerprint";

/// The two kinds of prompt.
#[derive(Clone, Copy, Debug, PartialEq, Eq, Structural)]
pub enum PromptKind {
    /// The prompt asks to confirm a host key.
    HostKeyConfirmation,
    /// The prompt asks for the passphrase of a key.
    PassphraseRequest,
}

/// The lower-case form of a text: what `str::to_lowercase` returns for it,
/// by the Unicode rules for lower case that the standard library follows.
pub uninterp spec fn lowercase(text: Seq<char>) -> Seq<char>;

/// The kind of a prompt, told from its lower-case form: a host key
/// confirmation where that holds one of the two tokens, a passphrase request
/// where it holds neither.
pub open spec fn kind_of_lowered(lowered: Seq<char>) -> PromptKind {
    if contains(lowered, YES_NO_TOKEN@) || contains(lowered, FINGERPRINT_TOKEN@) {
        PromptKind::HostKeyConfirmation
    } else {
        PromptKind::PassphraseRequest
    }
}

/// The kind of a prompt.
pub open spec fn kind_of(prompt: Seq<char>) -> PromptKind {
    kind_of_lowered(lowercase(prompt))
}

/// The answer to a host key confirmation.
pub open spec fn answer_of(confirmed: bool) -> Seq<char> {
    if confirmed {
        "yes"@
    } else {
        "no"@
    }
}

/// Calls `str::to_lowercase`.
///
/// Trusted: the result is the lower-case form of the argument. It depends on
/// the argument alone, not on a locale, and is only named here, by
/// `lowercase`.
#[verifier::external_body]
fn to_lowercase(text: &str) -> (lowered: String)
    ensures
        lowered@ == lowercase(text@),
{
    text.to_lowercase()
}

/// Classifies a prompt that is already in lower case.
pub fn classify_lowered(lowered: &str) -> (kind: PromptKind)
    ensures
        kind == kind_of_lowered(lowered@),
{
    let text = chars_of(lowered);
    let yes_no = chars_of(YES_NO_TOKEN);
    let fingerprint = chars_of(FINGERPRINT_TOKEN);
    if contains_chars(text.as_slice(), yes_no.as_slice()) || contains_chars(
        text.as_slice(),
        fingerprint.as_slice(),
    ) {
        PromptKind::HostKeyConfirmation
    } else {
        PromptKind::PassphraseRequest
    }
}

/// Classifies a prompt, whatever its case: a host key confirmation exactly
/// where its lower-case form holds one of the two tokens, a passphrase
/// request exactly where it holds neither.
pub fn classify(prompt: &str) -> (kind: PromptKind)
    ensures
        kind == kind_of(prompt@),
        kind == PromptKind::HostKeyConfirmation <==> contains(lowercase(prompt@), YES_NO_TOKEN@)
            || contains(lowercase(prompt@), FINGERPRINT_TOKEN@),
        kind == PromptKind::PassphraseRequest <==> !contains(lowercase(prompt@), YES_NO_TOKEN@)
            && !contains(lowercase(prompt@), FINGERPRINT_TOKEN@),
{
    let lowered = to_lowercase(prompt);
    classify_lowered(lowered.as_str())
}

/// The text that answers a host key confirmation: `yes` where the user
/// confirmed, `no` where the user declined or closed the dialog.
pub fn prompt_yes_no(confirmed: bool) -> (answer: &'static str)
    ensures
        answer@ == answer_of(confirmed),
{
    if confirmed {
        "yes"
    } else {
        "no"
    }
}

/// The exit status of the helper: 0 where an answer was given, 1 where a
/// passphrase was asked for and none was obtained.
pub fn exit_code(answered: bool) -> (code: i32)
    ensures
        answered ==> code == 0,
        !answered ==> code == 1,
{
    if answered {
        0
    } else {
        1
    }
}

} // verus!
