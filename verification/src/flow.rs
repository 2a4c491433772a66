//! The passphrase retrieval flow.
//!
//! Answering a passphrase prompt takes reads and writes of the credential
//! store, a biometric check and a dialog, each of which is done outside this
//! library. The flow is therefore a state machine. `handle_passphrase` takes
//! the state, what the outside world last reported and the current time, and
//! returns the next state and the one thing to do next. Its caller does that
//! thing and reports back, until the flow is `Done`.
//!
//! The states run `Start`, `CacheLookup`, then either `GateCheck` (with
//! `Availability` and `Verification` where the timestamp is stale) or
//! `PromptUser` and `MaybeCache`, then `Release` and `Done`. No state is
//! entered twice, so nothing is ever tried again.

use crate::cache::{cache_passphrase, cache_request, cached_passphrase, get_cached_passphrase};
use crate::gate::{
    is_fresh, is_hello_valid, refresh_request, update_hello_timestamp, verification_message,
    verification_message_spec, Availability, Verification,
};
use crate::key_name::{extract_key_name, key_name};
use crate::names::{cred_name, cred_name_spec, hello_cred_name, hello_cred_name_spec};
use crate::store::{WriteRequest, WriteRequestView};
use vstd::prelude::*;
use vstd::string::StringExecFns;

verus! {

/// The caption of the dialog that asks for a passphrase.
pub const PASSPHRASE_CAPTION: &'static str = "SSH Passphrase";

/// What the user entered in the passphrase dialog.
#[derive(Clone, Debug, PartialEq, Eq)]
pub struct Entry {
    /// The passphrase as typed.
    pub passphrase: String,
    /// Whether the user asked to have it remembered.
    pub remember: bool,
}

/// An entry as plain mathematical values.
pub struct EntryView {
    pub passphrase: Seq<char>,
    pub remember: bool,
}

impl View for Entry {
    type V = EntryView;

    open spec fn view(&self) -> EntryView {
        EntryView { passphrase: self.passphrase@, remember: self.remember }
    }
}

/// What the outside world reports back to the flow.
#[derive(Clone, Debug, PartialEq, Eq)]
pub enum Event {
    /// The prompt to answer. It starts the flow.
    Prompt(String),
    /// The outcome of a read of the store: the bytes of the record, or
    /// `None` where it is absent or could not be read.
    Credential(Option<Vec<u8>>),
    /// What the biometric service said of its availability.
    Availability(Availability),
    /// How the request to verify the user ended.
    Verification(Verification),
    /// What the user entered, or `None` where the dialog was dismissed or
    /// could not be shown.
    Entry(Option<Entry>),
    /// A write to the store was tried; the flag tells whether it succeeded.
    Written(bool),
}

/// An event as plain mathematical values.
pub enum EventView {
    Prompt(Seq<char>),
    Credential(Option<Seq<u8>>),
    Availability(Availability),
    Verification(Verification),
    Entry(Option<EntryView>),
    Written(bool),
}

impl View for Event {
    type V = EventView;

    open spec fn view(&self) -> EventView {
        match self {
            Event::Prompt(prompt) => EventView::Prompt(prompt@),
            Event::Credential(record) => EventView::Credential(
                match record {
                    Some(blob) => Some(blob@),
                    None => None,
                },
            ),
            Event::Availability(availability) => EventView::Availability(*availability),
            Event::Verification(verification) => EventView::Verification(*verification),
            Event::Entry(entry) => EventView::Entry(
                match entry {
                    Some(entry) => Some(entry@),
                    None => None,
                },
            ),
            Event::Written(done) => EventView::Written(*done),
        }
    }
}

/// The one thing that the caller of the flow is to do next.
#[derive(Clone, Debug, PartialEq, Eq)]
pub enum Action {
    /// Read the record of this name from the store and report its bytes.
    ReadCredential { name: String },
    /// Ask the biometric service whether it is available.
    CheckAvailability,
    /// Ask the biometric service to verify the user, with this message.
    RequestVerification { message: String },
    /// Ask the user for the passphrase. The hint is shown as the name that
    /// the passphrase belongs to and cannot be edited.
    PromptPassword { message: String, caption: String, hint: String },
    /// Write this record to the store and report whether that worked.
    WriteCredential(WriteRequest),
    /// Nothing is left to do: the flow is done.
    Finish,
}

/// An action as plain mathematical values.
pub enum ActionView {
    ReadCredential { name: Seq<char> },
    CheckAvailability,
    RequestVerification { message: Seq<char> },
    PromptPassword { message: Seq<char>, caption: Seq<char>, hint: Seq<char> },
    WriteCredential(WriteRequestView),
    Finish,
}

impl View for Action {
    type V = ActionView;

    open spec fn view(&self) -> ActionView {
        match self {
            Action::ReadCredential { name } => ActionView::ReadCredential { name: name@ },
            Action::CheckAvailability => ActionView::CheckAvailability,
            Action::RequestVerification { message } => ActionView::RequestVerification {
                message: message@,
            },
            Action::PromptPassword { message, caption, hint } => ActionView::PromptPassword {
                message: message@,
                caption: caption@,
                hint: hint@,
            },
            Action::WriteCredential(request) => ActionView::WriteCredential(request@),
            Action::Finish => ActionView::Finish,
        }
    }
}

/// Where the flow stands, with what it has learned so far.
#[derive(Clone, Debug, PartialEq, Eq)]
pub enum Flow {
    /// Nothing has happened yet; the prompt is awaited.
    Start,
    /// The passphrase record of the key is being read.
    CacheLookup { prompt: String, key: String },
    /// A cached passphrase was found; the timestamp record is being read.
    GateCheck { prompt: String, key: String, passphrase: String },
    /// The timestamp was not fresh; the biometric service is being asked
    /// whether it is available.
    Availability { prompt: String, key: String, passphrase: String },
    /// The biometric service is verifying the user.
    Verification { prompt: String, key: String, passphrase: String },
    /// The user is being asked for the passphrase.
    PromptUser { key: String },
    /// The entered passphrase is being written to the cache.
    MaybeCache { key: String, passphrase: String },
    /// The passphrase is about to be released; the timestamp record is
    /// being written.
    Release { passphrase: String },
    /// The flow has ended, with the passphrase or with no answer.
    Done { answer: Option<String> },
}

/// A state of the flow as plain mathematical values.
pub enum FlowView {
    Start,
    CacheLookup { prompt: Seq<char>, key: Seq<char> },
    GateCheck { prompt: Seq<char>, key: Seq<char>, passphrase: Seq<char> },
    Availability { prompt: Seq<char>, key: Seq<char>, passphrase: Seq<char> },
    Verification { prompt: Seq<char>, key: Seq<char>, passphrase: Seq<char> },
    PromptUser { key: Seq<char> },
    MaybeCache { key: Seq<char>, passphrase: Seq<char> },
    Release { passphrase: Seq<char> },
    Done { answer: Option<Seq<char>> },
}

impl View for Flow {
    type V = FlowView;

    open spec fn view(&self) -> FlowView {
        match self {
            Flow::Start => FlowView::Start,
            Flow::CacheLookup { prompt, key } => FlowView::CacheLookup {
                prompt: prompt@,
                key: key@,
            },
            Flow::GateCheck { prompt, key, passphrase } => FlowView::GateCheck {
                prompt: prompt@,
                key: key@,
                passphrase: passphrase@,
            },
            Flow::Availability { prompt, key, passphrase } => FlowView::Availability {
                prompt: prompt@,
                key: key@,
                passphrase: passphrase@,
            },
            Flow::Verification { prompt, key, passphrase } => FlowView::Verification {
                prompt: prompt@,
                key: key@,
                passphrase: passphrase@,
            },
            Flow::PromptUser { key } => FlowView::PromptUser { key: key@ },
            Flow::MaybeCache { key, passphrase } => FlowView::MaybeCache {
                key: key@,
                passphrase: passphrase@,
            },
            Flow::Release { passphrase } => FlowView::Release { passphrase: passphrase@ },
            Flow::Done { answer } => FlowView::Done {
                answer: match answer {
                    Some(text) => Some(text@),
                    None => None,
                },
            },
        }
    }
}

/// The step that ends the flow without an answer.
pub open spec fn give_up() -> (FlowView, ActionView) {
    (FlowView::Done { answer: None }, ActionView::Finish)
}

/// The step that asks the user for the passphrase of `key`.
pub open spec fn ask_user(prompt: Seq<char>, key: Seq<char>) -> (FlowView, ActionView) {
    (
        FlowView::PromptUser { key },
        ActionView::PromptPassword { message: prompt, caption: PASSPHRASE_CAPTION@, hint: key },
    )
}

/// The step that releases `passphrase`: the time of the release is written
/// to the timestamp record of `key` first.
pub open spec fn release(key: Seq<char>, passphrase: Seq<char>, now: u64) -> (
    FlowView,
    ActionView,
) {
    (FlowView::Release { passphrase }, ActionView::WriteCredential(refresh_request(key, now)))
}

/// The transition function of the flow: the state that follows `flow` when
/// `event` is reported at time `now`, and the action to take then.
///
/// An event that the state does not await ends the flow without an answer.
/// A flow that is done stays as it is.
pub open spec fn step(flow: FlowView, event: EventView, now: u64) -> (FlowView, ActionView) {
    match flow {
        FlowView::Start => match event {
            EventView::Prompt(prompt) => (
                FlowView::CacheLookup { prompt, key: key_name(prompt) },
                ActionView::ReadCredential { name: cred_name_spec(key_name(prompt)) },
            ),
            _ => give_up(),
        },
        FlowView::CacheLookup { prompt, key } => match event {
            EventView::Credential(record) => match cached_passphrase(record) {
                Some(passphrase) => (
                    FlowView::GateCheck { prompt, key, passphrase },
                    ActionView::ReadCredential { name: hello_cred_name_spec(key) },
                ),
                None => ask_user(prompt, key),
            },
            _ => give_up(),
        },
        FlowView::GateCheck { prompt, key, passphrase } => match event {
            EventView::Credential(record) => if is_fresh(record, now) {
                release(key, passphrase, now)
            } else {
                (
                    FlowView::Availability { prompt, key, passphrase },
                    ActionView::CheckAvailability,
                )
            },
            _ => give_up(),
        },
        FlowView::Availability { prompt, key, passphrase } => match event {
            EventView::Availability(availability) => if availability == Availability::Available {
                (
                    FlowView::Verification { prompt, key, passphrase },
                    ActionView::RequestVerification { message: verification_message_spec(key) },
                )
            } else {
                ask_user(prompt, key)
            },
            _ => give_up(),
        },
        FlowView::Verification { prompt, key, passphrase } => match event {
            EventView::Verification(verification) => if verification == Verification::Verified {
                release(key, passphrase, now)
            } else {
                ask_user(prompt, key)
            },
            _ => give_up(),
        },
        FlowView::PromptUser { key } => match event {
            EventView::Entry(Some(entry)) => if entry.remember {
                (
                    FlowView::MaybeCache { key, passphrase: entry.passphrase },
                    ActionView::WriteCredential(cache_request(key, entry.passphrase)),
                )
            } else {
                release(key, entry.passphrase, now)
            },
            _ => give_up(),
        },
        FlowView::MaybeCache { key, passphrase } => match event {
            EventView::Written(_) => release(key, passphrase, now),
            _ => give_up(),
        },
        FlowView::Release { passphrase } => match event {
            EventView::Written(_) => (
                FlowView::Done { answer: Some(passphrase) },
                ActionView::Finish,
            ),
            _ => give_up(),
        },
        FlowView::Done { answer } => (FlowView::Done { answer }, ActionView::Finish),
    }
}

/// Ends the flow without an answer.
fn stop() -> (next: (Flow, Action))
    ensures
        (next.0@, next.1@) == give_up(),
{
    (Flow::Done { answer: None }, Action::Finish)
}

/// Goes on to ask the user for the passphrase of `key`.
fn prompt_user(prompt: String, key: String) -> (next: (Flow, Action))
    ensures
        (next.0@, next.1@) == ask_user(prompt@, key@),
{
    let hint = key.clone();
    (
        Flow::PromptUser { key },
        Action::PromptPassword {
            message: prompt,
            caption: String::from_str(PASSPHRASE_CAPTION),
            hint,
        },
    )
}

/// Goes on to release `passphrase`, refreshing the timestamp of `key`.
fn release_passphrase(key: &str, passphrase: String, now: u64) -> (next: (Flow, Action))
    ensures
        (next.0@, next.1@) == release(key@, passphrase@, now),
{
    let request = update_hello_timestamp(key, now);
    (Flow::Release { passphrase }, Action::WriteCredential(request))
}

/// Takes one step of the passphrase retrieval flow.
///
/// Start with `Flow::Start` and `Event::Prompt`. Carry out the action that
/// comes back, report its outcome as the next event together with the time
/// at which it is reported, in seconds since the Unix epoch, and go on until
/// the state is `Flow::Done`, which holds the passphrase or `None`.
pub fn handle_passphrase(flow: Flow, event: Event, now: u64) -> (next: (Flow, Action))
    ensures
        (next.0@, next.1@) == step(flow@, event@, now),
{
    match flow {
        Flow::Start => match event {
            Event::Prompt(prompt) => {
                let key = extract_key_name(prompt.as_str());
                let name = cred_name(key.as_str());
                (Flow::CacheLookup { prompt, key }, Action::ReadCredential { name })
            },
            _ => stop(),
        },
        Flow::CacheLookup { prompt, key } => match event {
            Event::Credential(record) => {
                let cached = match &record {
                    Some(blob) => get_cached_passphrase(Some(blob.as_slice())),
                    None => get_cached_passphrase(None),
                };
                match cached {
                    Some(passphrase) => {
                        let name = hello_cred_name(key.as_str());
                        (
                            Flow::GateCheck { prompt, key, passphrase },
                            Action::ReadCredential { name },
                        )
                    },
                    None => prompt_user(prompt, key),
                }
            },
            _ => stop(),
        },
        Flow::GateCheck { prompt, key, passphrase } => match event {
            Event::Credential(record) => {
                let fresh = match &record {
                    Some(blob) => is_hello_valid(Some(blob.as_slice()), now),
                    None => is_hello_valid(None, now),
                };
                if fresh {
                    release_passphrase(key.as_str(), passphrase, now)
                } else {
                    (Flow::Availability { prompt, key, passphrase }, Action::CheckAvailability)
                }
            },
            _ => stop(),
        },
        Flow::Availability { prompt, key, passphrase } => match event {
            Event::Availability(availability) => match availability {
                Availability::Available => {
                    let message = verification_message(key.as_str());
                    (
                        Flow::Verification { prompt, key, passphrase },
                        Action::RequestVerification { message },
                    )
                },
                _ => prompt_user(prompt, key),
            },
            _ => stop(),
        },
        Flow::Verification { prompt, key, passphrase } => match event {
            Event::Verification(verification) => match verification {
                Verification::Verified => release_passphrase(key.as_str(), passphrase, now),
                _ => prompt_user(prompt, key),
            },
            _ => stop(),
        },
        Flow::PromptUser { key } => match event {
            Event::Entry(Some(entry)) => {
                if entry.remember {
                    let request = cache_passphrase(key.as_str(), entry.passphrase.as_str());
                    (
                        Flow::MaybeCache { key, passphrase: entry.passphrase },
                        Action::WriteCredential(request),
                    )
                } else {
                    release_passphrase(key.as_str(), entry.passphrase, now)
                }
            },
            _ => stop(),
        },
        Flow::MaybeCache { key, passphrase } => match event {
            Event::Written(_) => release_passphrase(key.as_str(), passphrase, now),
            _ => stop(),
        },
        Flow::Release { passphrase } => match event {
            Event::Written(_) => (Flow::Done { answer: Some(passphrase) }, Action::Finish),
            _ => stop(),
        },
        Flow::Done { answer } => (Flow::Done { answer }, Action::Finish),
    }
}

} // verus!
