//! The credential store as this helper sees it.
//!
//! The store itself belongs to the operating system. The library only builds
//! the requests that are written to it and interprets what is read from it.
//! To say what those requests achieve, this module also holds a mathematical
//! model of the store: a map from record names to records, where writing
//! under a name replaces the record of that name and nothing else.

use vstd::prelude::*;

verus! {

/// How long a record is kept.
#[derive(Clone, Copy, Debug, PartialEq, Eq, Structural)]
pub enum Scope {
    /// The record survives the end of the process and a restart of the
    /// machine.
    Durable,
    /// The record survives the end of the process, but the system may drop
    /// it when the user logs off.
    Session,
}

/// A request to write one record to the credential store.
#[derive(Clone, Debug, PartialEq, Eq)]
pub struct WriteRequest {
    /// The name under which the record is kept.
    pub name: String,
    /// The secret bytes of the record.
    pub blob: Vec<u8>,
    /// The user name stored beside the secret.
    pub username: String,
    /// How long the record is to be kept.
    pub scope: Scope,
}

/// A write request as plain mathematical values.
pub struct WriteRequestView {
    pub name: Seq<char>,
    pub blob: Seq<u8>,
    pub username: Seq<char>,
    pub scope: Scope,
}

impl View for WriteRequest {
    type V = WriteRequestView;

    open spec fn view(&self) -> WriteRequestView {
        WriteRequestView {
            name: self.name@,
            blob: self.blob@,
            username: self.username@,
            scope: self.scope,
        }
    }
}

/// What a read of the store gave, as plain mathematical values: the bytes of
/// the record, or `None` where the record is absent or could not be read.
pub open spec fn bytes_of(record: Option<&[u8]>) -> Option<Seq<u8>> {
    match record {
        Some(blob) => Some(blob@),
        None => None,
    }
}

/// One record of the modelled store.
pub struct Record {
    pub blob: Seq<u8>,
    pub username: Seq<char>,
    pub scope: Scope,
}

/// The modelled store: at most one record under each name.
pub struct Store {
    pub records: Map<Seq<char>, Record>,
}

impl Store {
    /// The store that holds no record.
    pub open spec fn empty() -> Store {
        Store { records: Map::empty() }
    }

    /// The secret kept under `name`, or `None` where there is no such record.
    pub open spec fn read(self, name: Seq<char>) -> Option<Seq<u8>> {
        if self.records.dom().contains(name) {
            Some(self.records[name].blob)
        } else {
            None
        }
    }

    /// The store after `request` was carried out: the record of that name is
    /// replaced, or added where there was none.
    pub open spec fn write(self, request: WriteRequestView) -> Store {
        Store {
            records: self.records.insert(
                request.name,
                Record { blob: request.blob, username: request.username, scope: request.scope },
            ),
        }
    }

    /// The least that is left of the store after the user has logged off:
    /// the durable records.
    pub open spec fn end_session(self) -> Store {
        Store {
            records: Map::new(
                |name: Seq<char>|
                    self.records.dom().contains(name) && self.records[name].scope
                        == Scope::Durable,
                |name: Seq<char>| self.records[name],
            ),
        }
    }
}

/// Reading a name right after a write to it gives the bytes that were
/// written, whatever was there before.
pub proof fn lemma_read_after_write(store: Store, request: WriteRequestView)
    ensures
        store.write(request).read(request.name) == Some(request.blob),
{
}

/// A write leaves the records of all other names as they were.
pub proof fn lemma_write_keeps_other_names(
    store: Store,
    request: WriteRequestView,
    name: Seq<char>,
)
    requires
        name != request.name,
    ensures
        store.write(request).read(name) == store.read(name),
{
}

/// A second write under the same name replaces the first: the store holds
/// one record for a name, the one written last.
pub proof fn lemma_write_overwrites(
    store: Store,
    first: WriteRequestView,
    second: WriteRequestView,
)
    requires
        first.name == second.name,
    ensures
        store.write(first).write(second) == store.write(second),
{
    assert(store.write(first).write(second).records =~= store.write(second).records);
}

/// Logging off keeps every durable record and drops every session record.
pub proof fn lemma_end_session(store: Store, name: Seq<char>)
    ensures
        store.records.dom().contains(name) && store.records[name].scope == Scope::Durable
            ==> store.end_session().read(name) == store.read(name),
        !(store.records.dom().contains(name) && store.records[name].scope == Scope::Durable)
            ==> store.end_session().read(name) is None,
{
}

} // verus!
