//! The passphrase cache: a passphrase as the bytes of a durable record.
//!
//! A passphrase is stored as its UTF-8 bytes under the key's passphrase name,
//! and only when the user asked for it. What is read back is turned into text
//! again. Bytes that this helper wrote come back as the passphrase that was
//! entered, character for character.

use crate::names::{cred_name, cred_name_spec, CRED_PREFIX};
use crate::store::{bytes_of, Scope, Store, WriteRequest, WriteRequestView};
use vstd::prelude::*;
use vstd::string::{StrSliceExecFns, StringExecFns};
use vstd::utf8::{decode_utf8, encode_utf8, encode_utf8_decode_utf8, encode_utf8_valid_utf8, valid_utf8};

verus! {

/// The text that `String::from_utf8_lossy` makes of bytes that are not valid
/// UTF-8: the valid stretches decoded, and a replacement character in place
/// of each stretch that is not.
pub uninterp spec fn replaced_text(bytes: Seq<u8>) -> Seq<char>;

/// The text of a record's bytes: what they decode to where they are valid
/// UTF-8, and the text with replacement characters where they are not.
pub open spec fn lossy_text(bytes: Seq<u8>) -> Seq<char> {
    if valid_utf8(bytes) {
        decode_utf8(bytes)
    } else {
        replaced_text(bytes)
    }
}

/// The cached passphrase that a read of the store yields: none for an absent
/// record, the text of its bytes otherwise.
pub open spec fn cached_passphrase(record: Option<Seq<u8>>) -> Option<Seq<char>> {
    match record {
        Some(blob) => Some(lossy_text(blob)),
        None => None,
    }
}

/// The request that caches `passphrase` for `key`: a durable record under
/// the key's passphrase name, holding the passphrase in UTF-8.
pub open spec fn cache_request(key: Seq<char>, passphrase: Seq<char>) -> WriteRequestView {
    WriteRequestView {
        name: cred_name_spec(key),
        blob: encode_utf8(passphrase),
        username: CRED_PREFIX@,
        scope: Scope::Durable,
    }
}

/// Calls `String::from_utf8_lossy` and owns the result.
///
/// Trusted: for valid UTF-8 the standard library documents that the text is
/// the decoded input, unchanged. For other input it inserts replacement
/// characters; that text is a function of the bytes alone and is only named
/// here, by `replaced_text`.
#[verifier::external_body]
fn from_utf8_lossy(bytes: &[u8]) -> (text: String)
    ensures
        text@ == (if valid_utf8(bytes@) {
            decode_utf8(bytes@)
        } else {
            replaced_text(bytes@)
        }),
{
    String::from_utf8_lossy(bytes).into_owned()
}

/// Turns what a read of the passphrase record gave into the cached
/// passphrase. `None` stands for a record that is absent or could not be
/// read, and gives no passphrase.
pub fn get_cached_passphrase(record: Option<&[u8]>) -> (passphrase: Option<String>)
    ensures
        passphrase is Some <==> record is Some,
        passphrase is Some ==> Some(passphrase->0@) == cached_passphrase(bytes_of(record)),
{
    match record {
        Some(blob) => Some(from_utf8_lossy(blob)),
        None => None,
    }
}

/// Builds the request that caches `passphrase` for `key`.
pub fn cache_passphrase(key: &str, passphrase: &str) -> (request: WriteRequest)
    ensures
        request@ == cache_request(key@, passphrase@),
{
    WriteRequest {
        name: cred_name(key),
        blob: passphrase.as_bytes_vec(),
        username: String::from_str(CRED_PREFIX),
        scope: Scope::Durable,
    }
}

/// The bytes of a passphrase read back as text are the passphrase: nothing
/// is lost or changed, whatever characters it holds.
pub proof fn lemma_text_of_encoded_passphrase(passphrase: Seq<char>)
    ensures
        valid_utf8(encode_utf8(passphrase)),
        lossy_text(encode_utf8(passphrase)) == passphrase,
{
    encode_utf8_valid_utf8(passphrase);
    encode_utf8_decode_utf8(passphrase);
}

/// A passphrase that was cached for a key is what the cache gives back for
/// that key: the store holds its exact UTF-8 bytes, and reading them yields
/// the passphrase itself.
pub proof fn lemma_cache_round_trip(store: Store, key: Seq<char>, passphrase: Seq<char>)
    ensures
        store.write(cache_request(key, passphrase)).read(cred_name_spec(key)) == Some(
            encode_utf8(passphrase),
        ),
        cached_passphrase(store.write(cache_request(key, passphrase)).read(cred_name_spec(key)))
            == Some(passphrase),
{
    lemma_text_of_encoded_passphrase(passphrase);
}

/// Caching a passphrase again for the same key replaces the earlier one.
pub proof fn lemma_cache_overwrites(
    store: Store,
    key: Seq<char>,
    earlier: Seq<char>,
    later: Seq<char>,
)
    ensures
        cached_passphrase(
            store.write(cache_request(key, earlier)).write(cache_request(key, later)).read(
                cred_name_spec(key),
            ),
        ) == Some(later),
{
    lemma_text_of_encoded_passphrase(later);
}

/// A cached passphrase outlasts the session: a logoff that drops the session
/// records leaves it in place.
pub proof fn lemma_cache_survives_logoff(store: Store, key: Seq<char>, passphrase: Seq<char>)
    ensures
        cached_passphrase(
            store.write(cache_request(key, passphrase)).end_session().read(cred_name_spec(key)),
        ) == Some(passphrase),
{
    lemma_text_of_encoded_passphrase(passphrase);
}

} // verus!
