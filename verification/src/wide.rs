//! Text as the system's dialogs take and give it: UTF-16 code units with a
//! zero at the end.

use vstd::prelude::*;
use vstd::slice::slice_subrange;
use vstd::std_specs::iter::IteratorSpec;

verus! {

/// The first code point that needs two UTF-16 code units.
pub const SUPPLEMENTARY: u32 = 0x10000;

/// The first high surrogate.
pub const HIGH_SURROGATE: u32 = 0xD800;

/// The first low surrogate.
pub const LOW_SURROGATE: u32 = 0xDC00;

/// The number of code points that share one high surrogate.
pub const SURROGATE_BLOCK: u32 = 0x400;

/// The UTF-16 code units of one character: the character itself below
/// `SUPPLEMENTARY`, and a high and a low surrogate from there on, which hold
/// the upper and the lower ten bits of its offset from `SUPPLEMENTARY`.
pub open spec fn utf16_units(c: char) -> Seq<u16> {
    let code = c as u32;
    if code < SUPPLEMENTARY {
        seq![code as u16]
    } else {
        let offset = (code - SUPPLEMENTARY) as u32;
        seq![
            (HIGH_SURROGATE + offset / SURROGATE_BLOCK) as u16,
            (LOW_SURROGATE + offset % SURROGATE_BLOCK) as u16,
        ]
    }
}

/// The UTF-16 encoding of a text: the code units of its characters, in
/// order.
pub open spec fn encode_utf16(text: Seq<char>) -> Seq<u16>
    decreases text.len(),
{
    if text.len() == 0 {
        Seq::empty()
    } else {
        encode_utf16(text.drop_last()) + utf16_units(text.last())
    }
}

/// A text as a zero-terminated wide string.
pub open spec fn wide(text: Seq<char>) -> Seq<u16> {
    encode_utf16(text).push(0u16)
}

/// Each character takes one or two code units, so a text of `n` characters
/// takes between `n` and `2 * n` of them.
pub proof fn lemma_encode_utf16_len(text: Seq<char>)
    ensures
        text.len() <= encode_utf16(text).len() <= 2 * text.len(),
    decreases text.len(),
{
    if text.len() > 0 {
        lemma_encode_utf16_len(text.drop_last());
    }
}

/// The wide string of a text that holds no null character has its only zero
/// at the end, so a reader that stops at the first zero reads all of it.
pub proof fn lemma_wide_ends_at_first_zero(text: Seq<char>)
    requires
        forall|k: int| 0 <= k < text.len() ==> #[trigger] text[k] != '\0',
    ensures
        forall|k: int| 0 <= k < encode_utf16(text).len() ==> #[trigger] wide(text)[k] != 0,
        wide(text).last() == 0,
    decreases text.len(),
{
    if text.len() > 0 {
        let c = text.last();
        let init = encode_utf16(text.drop_last());
        let units = utf16_units(c);
        lemma_wide_ends_at_first_zero(text.drop_last());
        assert(c as u32 != 0) by {
            vstd::utf8::char_u32_cast(c, c as u32);
        }
        vstd::utf8::char_is_scalar(c);
        assert forall|k: int| 0 <= k < encode_utf16(text).len() implies #[trigger] wide(text)[k]
            != 0 by {
            if k < init.len() {
                assert(wide(text)[k] == wide(text.drop_last())[k]);
            } else {
                assert(wide(text)[k] == units[k - init.len()]);
            }
        }
    }
}

/// Encodes `s` as a zero-terminated wide string.
pub fn to_wide(s: &str) -> (units: Vec<u16>)
    ensures
        units@ == wide(s@),
        units@.len() > 0,
        units@.last() == 0,
{
    let mut units: Vec<u16> = Vec::new();
    for c in it: s.chars()
        invariant
            it.seq() == s@,
            units@ == encode_utf16(it.seq().take(it.index())),
    {
        let ghost done = it.seq().take(it.index());
        let ghost next = it.seq().take(it.index() + 1);
        assert(next.drop_last() =~= done);
        assert(next.last() == c);
        let code: u32 = c as u32;
        if code < SUPPLEMENTARY {
            units.push(code as u16);
            assert(units@ =~= encode_utf16(done) + utf16_units(c));
        } else {
            let offset: u32 = code - SUPPLEMENTARY;
            units.push((HIGH_SURROGATE + offset / SURROGATE_BLOCK) as u16);
            units.push((LOW_SURROGATE + offset % SURROGATE_BLOCK) as u16);
            assert(units@ =~= encode_utf16(done) + utf16_units(c));
        }
    }
    assert(s@.take(s@.len() as int) =~= s@);
    units.push(0u16);
    units
}

/// The text that `String::from_utf16_lossy` makes of code units: what they
/// encode, with a replacement character in place of every surrogate that has
/// no partner.
pub uninterp spec fn utf16_lossy_text(units: Seq<u16>) -> Seq<char>;

/// The code units of the text in `buffer`, where the system reports
/// `reported` units and counts the final zero among them: one unit less than
/// reported, none where none is reported, and never more than the buffer
/// holds.
pub open spec fn text_units(buffer: Seq<u16>, reported: u32) -> Seq<u16> {
    let wanted: int = if reported == 0 {
        0
    } else {
        reported - 1
    };
    if wanted <= buffer.len() {
        buffer.take(wanted)
    } else {
        buffer
    }
}

/// Calls `String::from_utf16_lossy`.
///
/// Trusted: the result is the text that the code units decode to. It depends
/// on the units alone and is only named here, by `utf16_lossy_text`.
#[verifier::external_body]
fn from_utf16_lossy(units: &[u16]) -> (text: String)
    ensures
        text@ == utf16_lossy_text(units@),
{
    String::from_utf16_lossy(units)
}

/// Reads the text that the system left in `buffer`, given the number of code
/// units that it reports, the final zero included.
pub fn from_wide(buffer: &[u16], reported: u32) -> (text: String)
    ensures
        text@ == utf16_lossy_text(text_units(buffer@, reported)),
{
    let wanted: u32 = if reported == 0 {
        0
    } else {
        reported - 1
    };
    let length: usize = buffer.len();
    let end: usize = if (wanted as u64) <= (length as u64) {
        wanted as usize
    } else {
        length
    };
    let units = slice_subrange(buffer, 0, end);
    assert(length == end ==> buffer@.subrange(0, end as int) =~= buffer@);
    from_utf16_lossy(units)
}

} // verus!
