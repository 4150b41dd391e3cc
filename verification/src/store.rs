//! The store of played games: a keyed map of immutable records, each
//! scoped to the service that owns it. A record is retrievable only under
//! its owner's identity; to every other caller the store answers as if
//! the record were absent.

use vstd::prelude::*;
use std::collections::HashMap;
use crate::game::PlayedGame;

verus! {

broadcast use vstd::std_specs::hash::group_hash_axioms;

/// What a lookup answers over the store's contents: the record under
/// `id`, but only when it is owned by `service_id`.
pub open spec fn spec_lookup(
    m: Map<u128, PlayedGame>,
    id: u128,
    service_id: Seq<char>,
) -> Option<PlayedGame> {
    if m.contains_key(id) && m[id].service_id@ == service_id {
        Some(m[id])
    } else {
        None
    }
}

/// Relies on `str`'s `==`: two string slices are equal exactly when their
/// characters are.
#[verifier::external_body]
fn str_eq(a: &str, b: &str) -> (r: bool)
    ensures
        r == (a@ == b@),
{
    a == b
}

/// A keyed store of played games. Records are write-once: they are added
/// by `insert` under their fresh identifier and never changed or removed.
pub struct RecordStore {
    records: HashMap<u128, PlayedGame>,
}

impl View for RecordStore {
    type V = Map<u128, PlayedGame>;

    closed spec fn view(&self) -> Map<u128, PlayedGame> {
        self.records@
    }
}

impl RecordStore {
    /// An empty store.
    pub fn new() -> (r: RecordStore)
        ensures
            r@ == Map::<u128, PlayedGame>::empty(),
    {
        RecordStore { records: HashMap::new() }
    }

    /// Adds a record under its identifier, leaving every other entry as
    /// it was.
    pub fn insert(&mut self, record: PlayedGame)
        ensures
            final(self)@ == old(self)@.insert(record.uuid, record),
    {
        let id = record.uuid;
        self.records.insert(id, record);
    }

    /// Looks a record up by identifier on behalf of `service_id`. A record
    /// that is absent and one that is owned by another service answer the
    /// same way, so a caller cannot observe the existence of a record it
    /// does not own.
    pub fn get(&self, id: u128, service_id: &str) -> (r: Option<&PlayedGame>)
        ensures
            match r {
                Some(p) => spec_lookup(self@, id, service_id@) == Some(*p),
                None => spec_lookup(self@, id, service_id@) is None,
            },
    {
        match self.records.get(&id) {
            None => None,
            Some(p) => {
                if str_eq(p.service_id.as_str(), service_id) {
                    Some(p)
                } else {
                    None
                }
            },
        }
    }

    /// How many records the store holds.
    pub fn len(&self) -> (r: usize)
        ensures
            r == self@.dom().len(),
    {
        self.records.len()
    }
}

/// After a record is inserted, its owner retrieves exactly it.
pub proof fn lemma_insert_then_get_owner(m: Map<u128, PlayedGame>, r: PlayedGame)
    ensures
        spec_lookup(m.insert(r.uuid, r), r.uuid, r.service_id@) == Some(r),
{
}

/// A caller other than the owner cannot retrieve an inserted record, nor
/// observe that it exists.
pub proof fn lemma_insert_then_get_other(m: Map<u128, PlayedGame>, r: PlayedGame, other: Seq<char>)
    requires
        other != r.service_id@,
    ensures
        spec_lookup(m.insert(r.uuid, r), r.uuid, other) is None,
{
}

/// An identifier the store does not hold answers as absent to every
/// caller.
pub proof fn lemma_get_unknown(m: Map<u128, PlayedGame>, id: u128, service_id: Seq<char>)
    requires
        !m.contains_key(id),
    ensures
        spec_lookup(m, id, service_id) is None,
{
}

/// Inserting a record does not disturb any other entry: records stored
/// under distinct identifiers stay independently retrievable.
pub proof fn lemma_insert_preserves_others(
    m: Map<u128, PlayedGame>,
    r: PlayedGame,
    id: u128,
    service_id: Seq<char>,
)
    requires
        id != r.uuid,
    ensures
        spec_lookup(m.insert(r.uuid, r), id, service_id) == spec_lookup(m, id, service_id),
{
}

} // verus!
