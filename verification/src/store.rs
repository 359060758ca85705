//! Decision records, write descriptors for the external decision store, and
//! a mathematical model of the store's create-only / replace-only semantics.
//!
//! The store itself is an external service reached over RPC by the
//! surrounding binary; this module fixes the vocabulary the verified logic
//! and the proofs use to speak about it: which key a payment's record lives
//! under, what a write request looks like, and when such a write succeeds.

use vstd::prelude::*;
use vstd::string::*;
use crate::state::Hodlstate;

verus! {

/// One record as handed back by a decision-store lookup: the stored text, if
/// the entry carries one.
#[derive(Debug, Clone)]
pub struct StoredRecord {
    pub string: Option<String>,
}

/// What a decision-store lookup call produced: a transport-level failure, or
/// the list of records found under the key.
#[derive(Debug, Clone)]
pub enum LookupOutcome {
    Failed,
    Found(Vec<StoredRecord>),
}

/// Write discipline of the decision store.
#[derive(Debug, Clone, Copy, PartialEq, Eq, Structural)]
pub enum WriteMode {
    /// The write fails if the key already exists.
    MustCreate,
    /// The write fails if the key does not yet exist.
    MustReplace,
}

/// A write request for the decision store, ready to be carried out by the
/// surrounding binary.
#[derive(Debug, Clone)]
pub struct DatastoreWrite {
    pub key: Vec<String>,
    pub string: String,
    pub mode: WriteMode,
}

/// The namespace tag under which this plugin keys its records.
pub open spec fn plugin_tag() -> Seq<char> {
    "hodlvoice"@
}

/// The store key of the record managing the payment identified by `id`
/// (a payment hash or a label, depending on the hook variant).
pub open spec fn spec_record_key(id: Seq<char>) -> Seq<Seq<char>> {
    seq![plugin_tag(), id]
}

/// View of an executable key as a sequence of texts.
pub open spec fn key_view(key: Seq<String>) -> Seq<Seq<char>> {
    key.map_values(|s: String| s@)
}

/// Build the store key for a managed payment.
pub fn record_key(id: &str) -> (key: Vec<String>)
    ensures
        key_view(key@) == spec_record_key(id@),
{
    let mut key: Vec<String> = Vec::new();
    key.push(String::from_str(crate::PLUGIN_NAME));
    key.push(id.to_owned());
    proof {
        assert(key_view(key@) =~= spec_record_key(id@));
    }
    key
}

/// Mathematical model of the decision store: the stored text under each key.
pub type StoreView = Map<Seq<Seq<char>>, Seq<char>>;

/// Whether a write request goes through, by the store's own discipline:
/// create-only writes demand an absent key, replace-only writes a present one.
pub open spec fn write_succeeds(store: StoreView, w: DatastoreWrite) -> bool {
    match w.mode {
        WriteMode::MustCreate => !store.contains_key(key_view(w.key@)),
        WriteMode::MustReplace => store.contains_key(key_view(w.key@)),
    }
}

/// The store after a successful write: the key now holds the written text.
pub open spec fn store_after(store: StoreView, w: DatastoreWrite) -> StoreView {
    store.insert(key_view(w.key@), w.string@)
}

/// Whether a lookup outcome reports exactly what the store holds under the
/// key: one record carrying the stored text when the key is present, no
/// record at all when it is absent. This is the read contract of the store.
pub open spec fn reflects_store(lookup: LookupOutcome, store: StoreView, key: Seq<Seq<char>>) -> bool {
    &&& lookup matches LookupOutcome::Found(records)
    &&& if store.contains_key(key) {
            &&& records@.len() == 1
            &&& records@[0].string matches Some(s) && s@ == store[key]
        } else {
            records@.len() == 0
        }
}

/// The write that registers a fresh hold: create-only, initial state `Hodl`,
/// keyed by the payment hash of the minted invoice.
pub fn hodl_record_write(payment_hash: &str) -> (w: DatastoreWrite)
    ensures
        key_view(w.key@) == spec_record_key(payment_hash@),
        w.string@ == Hodlstate::Hodl.wire_text(),
        w.mode == WriteMode::MustCreate,
{
    DatastoreWrite {
        key: record_key(payment_hash),
        string: Hodlstate::Hodl.to_string(),
        mode: WriteMode::MustCreate,
    }
}

/// The write that resolves a held payment: replace-only, recording the given
/// decision under the payment's key.
pub fn resolve_record_write(id: &str, state: Hodlstate) -> (w: DatastoreWrite)
    ensures
        key_view(w.key@) == spec_record_key(id@),
        w.string@ == state.wire_text(),
        w.mode == WriteMode::MustReplace,
{
    DatastoreWrite {
        key: record_key(id),
        string: state.to_string(),
        mode: WriteMode::MustReplace,
    }
}

} // verus!
