//! The biometric gate: how long a verification is trusted.
//!
//! For each key the store holds the time, in seconds since the Unix epoch, at
//! which its passphrase was last released. A cached passphrase may be released
//! again without asking the user while that time is less than
//! `CACHE_PIN_TTL_SECS` old. Whatever cannot be read as such a time counts as
//! not fresh.

use crate::decimal::{decimal, format_u64, lemma_parse_decimal_round_trip, parse_decimal, parse_u64};
use crate::names::{hello_cred_name, hello_cred_name_spec, CRED_PREFIX};
use crate::store::{bytes_of, Scope, Store, WriteRequest, WriteRequestView};
use vstd::prelude::*;
use vstd::string::StringExecFns;

verus! {

/// Seconds for which a verification stays fresh: five minutes.
pub const CACHE_PIN_TTL_SECS: u64 = 300;

/// What the biometric service says when asked whether it can verify the
/// user at all.
#[derive(Clone, Copy, Debug, PartialEq, Eq, Structural)]
pub enum Availability {
    /// A verifier is there and set up for the user.
    Available,
    /// The machine has no biometric device.
    DeviceNotPresent,
    /// The user has not set up a biometric verifier.
    NotConfiguredForUser,
    /// A policy has switched the verifier off.
    DisabledByPolicy,
    /// The device is busy.
    DeviceBusy,
    /// The question could not be asked or its answer was not understood.
    Failed,
}

/// How a request to verify the user ended.
#[derive(Clone, Copy, Debug, PartialEq, Eq, Structural)]
pub enum Verification {
    /// The user was verified.
    Verified,
    /// The machine has no biometric device.
    DeviceNotPresent,
    /// The user has not set up a biometric verifier.
    NotConfiguredForUser,
    /// A policy has switched the verifier off.
    DisabledByPolicy,
    /// The device is busy.
    DeviceBusy,
    /// The user tried too often without success.
    RetriesExhausted,
    /// The user dismissed the request.
    Canceled,
    /// The request could not be made or its result was not understood.
    Failed,
}

/// The words that begin the message shown with a verification request.
pub const UNLOCK_MESSAGE: &'static str = "Unlock SSH key: ";

/// The message shown with a verification request for `key`.
pub open spec fn verification_message_spec(key: Seq<char>) -> Seq<char> {
    UNLOCK_MESSAGE@ + key
}

/// Whether a verification made at `stored` is still fresh at `now`: it is
/// not in the future, and less than the time to live has passed since.
pub open spec fn within_ttl(stored: u64, now: u64) -> bool {
    stored <= now && now - stored < CACHE_PIN_TTL_SECS
}

/// Whether the timestamp record `record`, as read from the store, lets a
/// cached passphrase through at time `now`.
///
/// An absent record is not fresh, and neither is one whose bytes are not the
/// text of an unsigned 64-bit integer.
pub open spec fn is_fresh(record: Option<Seq<u8>>, now: u64) -> bool {
    match record {
        Some(blob) => match parse_u64(blob) {
            Some(stored) => within_ttl(stored, now),
            None => false,
        },
        None => false,
    }
}

/// The request that records `now` as the time of the last release for `key`:
/// a session record under the key's timestamp name, holding `now` in decimal.
pub open spec fn refresh_request(key: Seq<char>, now: u64) -> WriteRequestView {
    WriteRequestView {
        name: hello_cred_name_spec(key),
        blob: decimal(now as nat),
        username: CRED_PREFIX@,
        scope: Scope::Session,
    }
}

/// Decides whether the timestamp record read from the store is fresh at
/// `now`. `None` stands for a record that is absent or could not be read.
pub fn is_hello_valid(record: Option<&[u8]>, now: u64) -> (fresh: bool)
    ensures
        fresh == is_fresh(bytes_of(record), now),
        record is None ==> !fresh,
{
    match record {
        Some(blob) => match parse_decimal(blob) {
            Some(stored) => stored <= now && now - stored < CACHE_PIN_TTL_SECS,
            None => false,
        },
        None => false,
    }
}

/// Builds the request that refreshes the biometric gate of `key` at `now`.
pub fn update_hello_timestamp(key: &str, now: u64) -> (request: WriteRequest)
    ensures
        request@ == refresh_request(key@, now),
{
    WriteRequest {
        name: hello_cred_name(key),
        blob: format_u64(now),
        username: String::from_str(CRED_PREFIX),
        scope: Scope::Session,
    }
}

/// Builds the message shown with a verification request for `key`.
pub fn verification_message(key: &str) -> (message: String)
    ensures
        message@ == verification_message_spec(key@),
{
    let mut message = String::from_str(UNLOCK_MESSAGE);
    message.append(key);
    message
}

/// A record written by a refresh at `refreshed` is fresh at `now` exactly
/// when `now` is not before the refresh and less than the time to live after
/// it. So it is fresh at the moment of the refresh and for the 299 seconds
/// that follow, and not fresh from the 300th second on.
pub proof fn lemma_fresh_after_refresh(store: Store, key: Seq<char>, refreshed: u64, now: u64)
    ensures
        is_fresh(
            store.write(refresh_request(key, refreshed)).read(hello_cred_name_spec(key)),
            now,
        ) <==> refreshed <= now < refreshed + CACHE_PIN_TTL_SECS,
{
    lemma_parse_decimal_round_trip(refreshed);
}

/// Refreshing twice leaves the biometric gate fresh after each refresh, and
/// what counts afterwards is the second refresh alone.
pub proof fn lemma_refresh_is_idempotent(
    store: Store,
    key: Seq<char>,
    first: u64,
    second: u64,
    now: u64,
)
    ensures
        ({
            let once = store.write(refresh_request(key, first));
            let twice = once.write(refresh_request(key, second));
            &&& is_fresh(once.read(hello_cred_name_spec(key)), first)
            &&& is_fresh(twice.read(hello_cred_name_spec(key)), second)
            &&& twice == store.write(refresh_request(key, second))
            &&& is_fresh(twice.read(hello_cred_name_spec(key)), now) <==> second <= now < second
                + CACHE_PIN_TTL_SECS
        }),
{
    lemma_parse_decimal_round_trip(first);
    lemma_parse_decimal_round_trip(second);
    crate::store::lemma_write_overwrites(
        store,
        refresh_request(key, first),
        refresh_request(key, second),
    );
}

/// Once the time to live has passed since the last refresh, the biometric
/// gate is closed, however much later it is asked.
pub proof fn lemma_stale_after_ttl(store: Store, key: Seq<char>, refreshed: u64, now: u64)
    requires
        now >= refreshed + CACHE_PIN_TTL_SECS,
    ensures
        !is_fresh(
            store.write(refresh_request(key, refreshed)).read(hello_cred_name_spec(key)),
            now,
        ),
{
    lemma_fresh_after_refresh(store, key, refreshed, now);
}

/// The biometric gate fails closed: with no record, or with a record that is
/// not the text of a number, nothing is fresh at any time.
pub proof fn lemma_fails_closed(record: Option<Seq<u8>>, now: u64)
    requires
        record is None || parse_u64(record->0) is None,
    ensures
        !is_fresh(record, now),
{
}

/// A refresh does not outlast the session: after a logoff that drops the
/// session records, the biometric gate is closed.
pub proof fn lemma_logoff_closes(store: Store, key: Seq<char>, refreshed: u64, now: u64)
    ensures
        !is_fresh(
            store.write(refresh_request(key, refreshed)).end_session().read(
                hello_cred_name_spec(key),
            ),
            now,
        ),
{
}

} // verus!
