//! What holds of every step and of whole runs of the passphrase flow.
//!
//! The first part states properties of single steps, for every state, event
//! and time. The second part follows the flow through its four typical runs,
//! from the prompt to the answer, and says what each of them leaves in the
//! credential store.

use crate::cache::{cache_request, cached_passphrase, lemma_text_of_encoded_passphrase, lossy_text};
use crate::decimal::lemma_parse_decimal_round_trip;
use crate::flow::{ask_user, step, ActionView, EntryView, EventView, FlowView, PASSPHRASE_CAPTION};
use crate::gate::{
    is_fresh, refresh_request, verification_message_spec, Availability, Verification,
};
use crate::key_name::{key_name, lemma_key_name_is_an_identifier};
use crate::names::{cred_name_spec, hello_cred_name_spec, lemma_names_of_one_key_differ};
use crate::store::{Scope, Store};
use vstd::prelude::*;

verus! {

/// The number of steps that a flow in this state can still take at most.
pub open spec fn steps_left(flow: FlowView) -> nat {
    match flow {
        FlowView::Start => 8,
        FlowView::CacheLookup { .. } => 7,
        FlowView::GateCheck { .. } => 6,
        FlowView::Availability { .. } => 5,
        FlowView::Verification { .. } => 4,
        FlowView::PromptUser { .. } => 3,
        FlowView::MaybeCache { .. } => 2,
        FlowView::Release { .. } => 1,
        FlowView::Done { .. } => 0,
    }
}

/// The key that a state of the flow is about, where it holds one.
pub open spec fn key_of(flow: FlowView) -> Option<Seq<char>> {
    match flow {
        FlowView::CacheLookup { key, .. } => Some(key),
        FlowView::GateCheck { key, .. } => Some(key),
        FlowView::Availability { key, .. } => Some(key),
        FlowView::Verification { key, .. } => Some(key),
        FlowView::PromptUser { key } => Some(key),
        FlowView::MaybeCache { key, .. } => Some(key),
        _ => None,
    }
}

/// Whether a state is one that the flow can be in: where it holds a prompt,
/// its key is the identifier of that prompt, and a key is never empty.
pub open spec fn consistent(flow: FlowView) -> bool {
    match flow {
        FlowView::CacheLookup { prompt, key } => key == key_name(prompt),
        FlowView::GateCheck { prompt, key, .. } => key == key_name(prompt),
        FlowView::Availability { prompt, key, .. } => key == key_name(prompt),
        FlowView::Verification { prompt, key, .. } => key == key_name(prompt),
        FlowView::PromptUser { key } => key.len() > 0,
        FlowView::MaybeCache { key, .. } => key.len() > 0,
        _ => true,
    }
}

/// The flow starts in a consistent state and every step keeps it so. It
/// stays with one key from the first step to the last: every record that it
/// asks to read or to write is the passphrase record or the timestamp record
/// of that key, and the key is shown as the hint when the user is asked.
pub proof fn lemma_flow_keeps_its_key(flow: FlowView, event: EventView, now: u64)
    requires
        consistent(flow),
    ensures
        consistent(FlowView::Start),
        ({
            let (next, action) = step(flow, event, now);
            &&& consistent(next)
            &&& (key_of(flow) is Some && key_of(next) is Some ==> key_of(next) == key_of(flow))
            &&& (flow is Start && key_of(next) is Some ==> event is Prompt && key_of(next)
                == Some(key_name(event->Prompt_0)))
            &&& (action is ReadCredential ==> key_of(next) is Some && (action->name
                == cred_name_spec(key_of(next)->0) || action->name == hello_cred_name_spec(
                key_of(next)->0,
            )))
            &&& (action is WriteCredential ==> key_of(flow) is Some && (action->WriteCredential_0.name
                == cred_name_spec(key_of(flow)->0) || action->WriteCredential_0.name
                == hello_cred_name_spec(key_of(flow)->0)))
            &&& (action is PromptPassword ==> key_of(next) == Some(action->hint))
        }),
{
    if flow is Start && event is Prompt {
        lemma_key_name_is_an_identifier(event->Prompt_0);
    }
    if let FlowView::CacheLookup { prompt, .. } = flow {
        lemma_key_name_is_an_identifier(prompt);
    }
    if let FlowView::Availability { prompt, .. } = flow {
        lemma_key_name_is_an_identifier(prompt);
    }
    if let FlowView::Verification { prompt, .. } = flow {
        lemma_key_name_is_an_identifier(prompt);
    }
}

/// Every step brings the flow nearer to its end, whatever is reported: no
/// state is entered twice, nothing is tried again, and the flow is done
/// after eight steps at most. A flow that is done stays done, with the same
/// answer.
pub proof fn lemma_flow_progresses(flow: FlowView, event: EventView, now: u64)
    ensures
        !(flow is Done) ==> steps_left(step(flow, event, now).0) < steps_left(flow),
        flow is Done ==> step(flow, event, now) == (flow, ActionView::Finish),
        step(flow, event, now).1 is Finish <==> step(flow, event, now).0 is Done,
{
}

/// The state that the flow reaches from `flow` when the events of `reports`
/// come in one after the other, each with the time at which it is reported.
pub open spec fn run(flow: FlowView, reports: Seq<(EventView, u64)>) -> FlowView
    decreases reports.len(),
{
    if reports.len() == 0 {
        flow
    } else {
        run(step(flow, reports[0].0, reports[0].1).0, reports.drop_first())
    }
}

/// The flow always ends: after as many reports as the state has steps left,
/// eight from the start, it is done, whatever was reported and when.
pub proof fn lemma_run_ends(flow: FlowView, reports: Seq<(EventView, u64)>)
    requires
        reports.len() >= steps_left(flow),
    ensures
        run(flow, reports) is Done,
    decreases reports.len(),
{
    if reports.len() > 0 {
        lemma_flow_progresses(flow, reports[0].0, reports[0].1);
        lemma_run_ends(step(flow, reports[0].0, reports[0].1).0, reports.drop_first());
    }
}

/// A passphrase is never handed out before the time of its release was sent
/// to the store. The flow ends with an answer only from the state `Release`,
/// with the passphrase held there, and every step into `Release` asks to
/// write the current time to the timestamp record of the key.
pub proof fn lemma_release_refreshes(flow: FlowView, event: EventView, now: u64)
    ensures
        ({
            let (next, action) = step(flow, event, now);
            &&& (next is Done && next->answer is Some && !(flow is Done) ==> flow
                == FlowView::Release { passphrase: next->answer->0 })
            &&& (next is Release ==> key_of(flow) is Some && action
                == ActionView::WriteCredential(refresh_request(key_of(flow)->0, now)))
        }),
{
}

/// A cached passphrase passes the biometric gate in two ways only: the
/// timestamp record read from the store is fresh, or the biometric service
/// reports that it has verified the user. The service is asked to verify only
/// after it has said that it is available. In every other case the user is
/// asked for the passphrase.
pub proof fn lemma_gate_decides(flow: FlowView, event: EventView, now: u64)
    ensures
        ({
            let (next, action) = step(flow, event, now);
            &&& (flow is GateCheck && next is Release ==> event is Credential && is_fresh(
                event->Credential_0,
                now,
            ))
            &&& (flow is GateCheck && event is Credential && !(next is Release) ==> next
                is Availability && action is CheckAvailability)
            &&& (flow is Availability ==> !(next is Release))
            &&& (action is RequestVerification ==> flow is Availability && event
                == EventView::Availability(Availability::Available))
            &&& (flow is Verification && next is Release ==> event == EventView::Verification(
                Verification::Verified,
            ))
            &&& (flow is Availability && event is Availability && event
                != EventView::Availability(Availability::Available) ==> (next, action)
                == ask_user(flow->Availability_prompt, flow->Availability_key))
            &&& (flow is Verification && event is Verification && event
                != EventView::Verification(Verification::Verified) ==> (next, action)
                == ask_user(flow->Verification_prompt, flow->Verification_key))
        }),
{
}

/// The flow writes two kinds of record and no other. It writes a durable
/// record only for a passphrase that the user has just entered with the wish
/// to have it remembered, under the passphrase name of the key. Every other
/// write is a session record under the timestamp name of the key. A failed
/// verification therefore changes nothing in the cache.
pub proof fn lemma_writes_are_asked_for(flow: FlowView, event: EventView, now: u64)
    ensures
        ({
            let (next, action) = step(flow, event, now);
            action matches ActionView::WriteCredential(request) ==> {
                &&& key_of(flow) matches Some(key)
                &&& if request.scope == Scope::Durable {
                    &&& flow is PromptUser
                    &&& event matches EventView::Entry(Some(entry))
                    &&& entry.remember
                    &&& request == cache_request(key, entry.passphrase)
                    &&& next == FlowView::MaybeCache { key, passphrase: entry.passphrase }
                } else {
                    &&& request == refresh_request(key, now)
                    &&& next is Release
                }
            }
        }),
{
}

/// A failed write does not hold the flow up: whether the store reports
/// success or failure, the step is the same.
pub proof fn lemma_write_failures_are_ignored(flow: FlowView, now: u64)
    ensures
        step(flow, EventView::Written(true), now) == step(flow, EventView::Written(false), now),
{
}

/// A user who dismisses the dialog ends the flow without an answer and
/// without any write.
pub proof fn lemma_cancel_gives_no_answer(key: Seq<char>, now: u64)
    ensures
        step(FlowView::PromptUser { key }, EventView::Entry(None), now) == (
            FlowView::Done { answer: None },
            ActionView::Finish,
        ),
{
}

/// The run of a first entry. Nothing is cached for the key; the user enters
/// a passphrase and asks to have it remembered. The flow reads the cache,
/// asks the user, writes the passphrase, writes the time and answers with
/// the passphrase. Once both writes are in the store, the cache gives the
/// passphrase back for that key and its biometric gate is fresh at the time
/// of the release. The times of the other steps do not matter.
pub proof fn lemma_run_first_entry(
    store: Store,
    prompt: Seq<char>,
    passphrase: Seq<char>,
    started: u64,
    looked_up: u64,
    entered: u64,
    now: u64,
    finished: u64,
    wrote_cache: bool,
    wrote_time: bool,
)
    ensures
        ({
            let key = key_name(prompt);
            let entry = EntryView { passphrase, remember: true };
            let s1 = step(FlowView::Start, EventView::Prompt(prompt), started);
            let s2 = step(s1.0, EventView::Credential(None), looked_up);
            let s3 = step(s2.0, EventView::Entry(Some(entry)), entered);
            let s4 = step(s3.0, EventView::Written(wrote_cache), now);
            let s5 = step(s4.0, EventView::Written(wrote_time), finished);
            let after = store.write(cache_request(key, passphrase)).write(
                refresh_request(key, now),
            );
            &&& s1.1 == ActionView::ReadCredential { name: cred_name_spec(key) }
            &&& s2.1 == ActionView::PromptPassword {
                message: prompt,
                caption: PASSPHRASE_CAPTION@,
                hint: key,
            }
            &&& s3.1 == ActionView::WriteCredential(cache_request(key, passphrase))
            &&& s4.1 == ActionView::WriteCredential(refresh_request(key, now))
            &&& s5 == (FlowView::Done { answer: Some(passphrase) }, ActionView::Finish)
            &&& cached_passphrase(after.read(cred_name_spec(key))) == Some(passphrase)
            &&& is_fresh(after.read(hello_cred_name_spec(key)), now)
        }),
{
    lemma_text_of_encoded_passphrase(passphrase);
    lemma_parse_decimal_round_trip(now);
    lemma_names_of_one_key_differ(key_name(prompt));
}

/// The run with a fresh timestamp. A passphrase is cached and the timestamp
/// record is fresh when it is read. The flow reads both records, writes the
/// time anew and answers with the cached passphrase. The biometric service
/// is not asked and neither is the user.
pub proof fn lemma_run_fresh(
    prompt: Seq<char>,
    cached: Seq<u8>,
    timestamp: Option<Seq<u8>>,
    started: u64,
    looked_up: u64,
    now: u64,
    finished: u64,
    wrote_time: bool,
)
    requires
        is_fresh(timestamp, now),
    ensures
        ({
            let key = key_name(prompt);
            let s1 = step(FlowView::Start, EventView::Prompt(prompt), started);
            let s2 = step(s1.0, EventView::Credential(Some(cached)), looked_up);
            let s3 = step(s2.0, EventView::Credential(timestamp), now);
            let s4 = step(s3.0, EventView::Written(wrote_time), finished);
            &&& s1.1 == ActionView::ReadCredential { name: cred_name_spec(key) }
            &&& s2.1 == ActionView::ReadCredential { name: hello_cred_name_spec(key) }
            &&& s3.1 == ActionView::WriteCredential(refresh_request(key, now))
            &&& s4 == (FlowView::Done { answer: Some(lossy_text(cached)) }, ActionView::Finish)
        }),
{
}

/// The run with a stale timestamp and a successful verification. A
/// passphrase is cached, the timestamp record is stale or missing when it is
/// read, the biometric service is available and verifies the user. The flow
/// writes the time at which the verification ended and answers with the
/// cached passphrase, and the biometric gate is fresh from then on.
pub proof fn lemma_run_verified(
    store: Store,
    prompt: Seq<char>,
    cached: Seq<u8>,
    timestamp: Option<Seq<u8>>,
    started: u64,
    looked_up: u64,
    checked: u64,
    asked: u64,
    now: u64,
    finished: u64,
    wrote_time: bool,
)
    requires
        !is_fresh(timestamp, checked),
    ensures
        ({
            let key = key_name(prompt);
            let s1 = step(FlowView::Start, EventView::Prompt(prompt), started);
            let s2 = step(s1.0, EventView::Credential(Some(cached)), looked_up);
            let s3 = step(s2.0, EventView::Credential(timestamp), checked);
            let s4 = step(s3.0, EventView::Availability(Availability::Available), asked);
            let s5 = step(s4.0, EventView::Verification(Verification::Verified), now);
            let s6 = step(s5.0, EventView::Written(wrote_time), finished);
            &&& s3.1 == ActionView::CheckAvailability
            &&& s4.1 == ActionView::RequestVerification { message: verification_message_spec(key) }
            &&& s5.1 == ActionView::WriteCredential(refresh_request(key, now))
            &&& s6 == (FlowView::Done { answer: Some(lossy_text(cached)) }, ActionView::Finish)
            &&& is_fresh(
                store.write(refresh_request(key, now)).read(hello_cred_name_spec(key)),
                now,
            )
        }),
{
    lemma_parse_decimal_round_trip(now);
}

/// The run with a stale timestamp and no verification. A passphrase is
/// cached and the timestamp record is stale or missing when it is read.
/// Where the biometric service is not available it is not asked to verify;
/// where it is asked and does not verify the user, that is the end of it.
/// Either way the flow goes on to ask the user for the passphrase, and up to
/// then it has asked for no write.
pub proof fn lemma_run_unverified(
    prompt: Seq<char>,
    cached: Seq<u8>,
    timestamp: Option<Seq<u8>>,
    availability: Availability,
    verification: Verification,
    started: u64,
    looked_up: u64,
    checked: u64,
    asked: u64,
    now: u64,
)
    requires
        !is_fresh(timestamp, checked),
        availability != Availability::Available || verification != Verification::Verified,
    ensures
        ({
            let key = key_name(prompt);
            let s1 = step(FlowView::Start, EventView::Prompt(prompt), started);
            let s2 = step(s1.0, EventView::Credential(Some(cached)), looked_up);
            let s3 = step(s2.0, EventView::Credential(timestamp), checked);
            let s4 = step(s3.0, EventView::Availability(availability), asked);
            let s5 = step(s4.0, EventView::Verification(verification), now);
            &&& s1.1 is ReadCredential
            &&& s2.1 is ReadCredential
            &&& s3.1 == ActionView::CheckAvailability
            &&& if availability == Availability::Available {
                &&& s4.1 == ActionView::RequestVerification {
                    message: verification_message_spec(key),
                }
                &&& s5 == ask_user(prompt, key)
            } else {
                s4 == ask_user(prompt, key)
            }
        }),
{
}

} // verus!
