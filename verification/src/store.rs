//! What the repository asks of the store, and what the store is taken to do
//! with it.
//!
//! The store itself is reached by the caller. This module fixes the requests
//! that can be put to it, and a model of a collection, a map from identifiers
//! to records, that says what each request does and answers.

use crate::object_id::StoreId;
use vstd::prelude::*;

verus! {

/// A text field by which a record can be looked up.
#[derive(Clone, Copy, Debug, PartialEq, Eq, Structural)]
pub enum Field {
    Username,
    Email,
}

impl Field {
    /// The name of the field in a stored record.
    pub fn name(self) -> (name: &'static str)
        ensures
            name@ == (match self {
                Field::Username => "username"@,
                Field::Email => "email"@,
            }),
    {
        match self {
            Field::Username => "username",
            Field::Email => "email",
        }
    }
}

/// A request to the store, for one collection of records of type `E`.
#[derive(Clone, Debug, PartialEq, Eq)]
pub enum Request<E> {
    /// Insert the record; the store gives it an identifier.
    Insert(E),
    /// Find the record with the identifier.
    FindById(StoreId),
    /// Find a record whose field holds the text.
    FindByField(Field, String),
    /// Find every record.
    List,
    /// Write the fields that are present in the second part over the record
    /// with the identifier.
    Update(StoreId, E),
    /// Put the second part in place of the record with the identifier.
    Replace(StoreId, E),
    /// Delete the record with the identifier.
    Delete(StoreId),
    /// Delete every record.
    Clear,
}

/// The mathematical value of a `Request`.
pub enum Query<V> {
    Insert(V),
    FindById(Seq<u8>),
    FindByField(Field, Seq<char>),
    List,
    Update(Seq<u8>, V),
    Replace(Seq<u8>, V),
    Delete(Seq<u8>),
    Clear,
}

impl<E: View> View for Request<E> {
    type V = Query<E::V>;

    open spec fn view(&self) -> Query<E::V> {
        match *self {
            Request::Insert(record) => Query::Insert(record@),
            Request::FindById(id) => Query::FindById(id@),
            Request::FindByField(field, text) => Query::FindByField(field, text@),
            Request::List => Query::List,
            Request::Update(id, set) => Query::Update(id@, set@),
            Request::Replace(id, record) => Query::Replace(id@, record@),
            Request::Delete(id) => Query::Delete(id@),
            Request::Clear => Query::Clear,
        }
    }
}

/// The value of a decision that ends in a request or in a failure.
pub open spec fn planned<E: View, X>(r: Result<Request<E>, X>) -> Result<Query<E::V>, X> {
    match r {
        Ok(request) => Ok(request@),
        Err(e) => Err(e),
    }
}

/// What the model needs to know of a kind of record.
pub trait Record: View + Sized {
    /// The identifier of a record, if it has one.
    spec fn key(record: Self::V) -> Option<Seq<u8>>;

    /// The record with the given identifier in place of its own.
    spec fn with_key(record: Self::V, key: Option<Seq<u8>>) -> Self::V;

    /// The text that a record holds in a field, if any.
    spec fn text(record: Self::V, field: Field) -> Option<Seq<char>>;

    /// The stored record after the fields that are present in `set` were
    /// written over it.
    spec fn overlay(stored: Self::V, set: Self::V) -> Self::V;

    /// Writing fields over a record leaves its identifier alone.
    proof fn overlay_keeps_key(stored: Self::V, set: Self::V)
        ensures
            Self::key(Self::overlay(stored, set)) == Self::key(stored),
    ;

    /// A record has the identifier that it was given.
    proof fn with_key_has_key(record: Self::V, key: Option<Seq<u8>>)
        ensures
            Self::key(Self::with_key(record, key)) == key,
    ;
}

/// A collection: the records by their identifiers.
pub type Collection<V> = Map<Seq<u8>, V>;

/// Whether every record of the collection stands under its own identifier.
pub open spec fn well_keyed<E: Record>(records: Collection<E::V>) -> bool {
    forall|id: Seq<u8>| #[trigger]
        records.dom().contains(id) ==> E::key(records[id]) == Some(id)
}

/// The record with the identifier, if the collection holds one.
pub open spec fn lookup<V>(records: Collection<V>, id: Seq<u8>) -> Option<V> {
    if records.dom().contains(id) {
        Some(records[id])
    } else {
        None
    }
}

/// How many records have the identifier: one or none.
pub open spec fn count<V>(records: Collection<V>, id: Seq<u8>) -> u64 {
    if records.dom().contains(id) {
        1
    } else {
        0
    }
}

/// Whether the record under `id` holds `text` in `field`.
pub open spec fn holds_text<E: Record>(
    records: Collection<E::V>,
    id: Seq<u8>,
    field: Field,
    text: Seq<char>,
) -> bool {
    records.dom().contains(id) && E::text(records[id], field) == Some(text)
}

/// Whether `reply` is an answer that the store may give to a lookup in
/// `records`. By identifier there is one answer. By a field the store may
/// answer with any record that holds the text, and with none only where no
/// record holds it.
pub open spec fn answers<E: Record>(
    records: Collection<E::V>,
    query: Query<E::V>,
    reply: Option<E::V>,
) -> bool {
    match query {
        Query::FindById(id) => reply == lookup(records, id),
        Query::FindByField(field, text) => match reply {
            Some(record) => exists|id: Seq<u8>|
                #[trigger] holds_text::<E>(records, id, field, text) && records[id] == record,
            None => forall|id: Seq<u8>| !#[trigger] holds_text::<E>(records, id, field, text),
        },
        _ => false,
    }
}

/// Whether `record` has an identifier and is what the collection holds under
/// it.
pub open spec fn is_record_of<E: Record>(records: Collection<E::V>, record: E::V) -> bool {
    E::key(record) is Some && lookup(records, E::key(record)->0) == Some(record)
}

/// The identifiers of the records of a listing, in the order of the listing.
pub open spec fn keys_of<E: Record>(reply: Seq<E::V>) -> Seq<Option<Seq<u8>>> {
    Seq::new(reply.len(), |i: int| E::key(reply[i]))
}

/// Whether `reply` is an answer that the store may give to a listing of
/// `records`: every record of the collection, each once, and nothing else.
/// The order is the store's.
pub open spec fn lists<E: Record>(records: Collection<E::V>, reply: Seq<E::V>) -> bool {
    &&& keys_of::<E>(reply).no_duplicates()
    &&& forall|i: int|
        0 <= i < reply.len() ==> is_record_of::<E>(records, #[trigger] reply[i])
    &&& forall|id: Seq<u8>| #[trigger] records.dom().contains(id) ==> reply.contains(records[id])
}

/// The collection after the store has served a request. `fresh` is the
/// identifier that the store gives a record that is inserted.
pub open spec fn after<E: Record>(
    records: Collection<E::V>,
    query: Query<E::V>,
    fresh: Seq<u8>,
) -> Collection<E::V> {
    match query {
        Query::Insert(record) => records.insert(fresh, E::with_key(record, Some(fresh))),
        Query::Update(id, set) => if records.dom().contains(id) {
            records.insert(id, E::overlay(records[id], set))
        } else {
            records
        },
        Query::Replace(id, record) => if records.dom().contains(id) {
            records.insert(id, E::with_key(record, Some(id)))
        } else {
            records
        },
        Query::Delete(id) => records.remove(id),
        Query::Clear => Map::empty(),
        _ => records,
    }
}

/// Serving a request keeps every record under its own identifier.
pub proof fn lemma_after_well_keyed<E: Record>(
    records: Collection<E::V>,
    query: Query<E::V>,
    fresh: Seq<u8>,
)
    requires
        well_keyed::<E>(records),
    ensures
        well_keyed::<E>(after::<E>(records, query, fresh)),
{
    let next = after::<E>(records, query, fresh);
    assert forall|id: Seq<u8>| #[trigger] next.dom().contains(id) implies E::key(next[id])
        == Some(id) by {
        match query {
            Query::Insert(record) => {
                E::with_key_has_key(record, Some(fresh));
            },
            Query::Update(target, set) => {
                if records.dom().contains(target) {
                    E::overlay_keeps_key(records[target], set);
                }
            },
            Query::Replace(target, record) => {
                E::with_key_has_key(record, Some(target));
            },
            _ => {},
        }
    }
}

/// A listing holds every record of the collection once: it is as long as
/// the collection has records, no record stands at two places, every place
/// holds a record of the collection, and every record of the collection
/// stands at some place. A listing leaves the collection as it was.
pub proof fn lemma_listing_is_every_record_once<E: Record>(
    records: Collection<E::V>,
    reply: Seq<E::V>,
    fresh: Seq<u8>,
)
    requires
        well_keyed::<E>(records),
        lists::<E>(records, reply),
    ensures
        records.dom().finite(),
        reply.len() == records.dom().len(),
        reply.no_duplicates(),
        forall|i: int| 0 <= i < reply.len() ==> is_record_of::<E>(records, #[trigger] reply[i]),
        forall|id: Seq<u8>| #[trigger] records.dom().contains(id) ==> reply.contains(records[id]),
        after::<E>(records, Query::List, fresh) == records,
{
    let keys = Seq::new(reply.len(), |i: int| E::key(reply[i])->0);
    assert forall|i: int, j: int|
        0 <= i < keys.len() && 0 <= j < keys.len() && i != j implies #[trigger] keys[i]
        != #[trigger] keys[j] by {
        assert(keys_of::<E>(reply)[i] != keys_of::<E>(reply)[j]);
        assert(E::key(reply[i]) is Some && E::key(reply[j]) is Some);
    }
    assert forall|i: int, j: int|
        0 <= i < reply.len() && 0 <= j < reply.len() && i != j implies #[trigger] reply[i]
        != #[trigger] reply[j] by {
        assert(keys_of::<E>(reply)[i] != keys_of::<E>(reply)[j]);
    }
    assert forall|id: Seq<u8>| #[trigger]
        keys.to_set().contains(id) <==> records.dom().contains(id) by {
        if keys.to_set().contains(id) {
            let i = choose|i: int| 0 <= i < keys.len() && keys[i] == id;
            assert(E::key(reply[i]) == Some(id));
        }
        if records.dom().contains(id) {
            let i = choose|i: int| 0 <= i < reply.len() && reply[i] == records[id];
            assert(E::key(reply[i]) == Some(id));
            assert(keys[i] == id);
        }
    }
    assert(keys.to_set() =~= records.dom());
    keys.unique_seq_to_set();
    vstd::seq_lib::seq_to_set_is_finite(keys);
}

/// A record that was deleted is not found under its identifier.
pub proof fn lemma_deleted_is_gone<E: Record>(
    records: Collection<E::V>,
    id: Seq<u8>,
    fresh: Seq<u8>,
)
    ensures
        lookup(after::<E>(records, Query::Delete(id), fresh), id) is None,
        count(after::<E>(records, Query::Delete(id), fresh), id) == 0,
        forall|other: Seq<u8>|
            other != id ==> #[trigger] lookup(
                after::<E>(records, Query::Delete(id), fresh),
                other,
            ) == lookup(records, other),
{
}

/// An update touches the record with the identifier and no other: that one
/// becomes the overlay of what was stored and what was set, and every other
/// record stays as it was.
pub proof fn lemma_update_is_overlay<E: Record>(
    records: Collection<E::V>,
    id: Seq<u8>,
    set: E::V,
    fresh: Seq<u8>,
)
    ensures
        lookup(after::<E>(records, Query::Update(id, set), fresh), id) == (match lookup(
            records,
            id,
        ) {
            Some(stored) => Some(E::overlay(stored, set)),
            None => None,
        }),
        forall|other: Seq<u8>|
            other != id ==> #[trigger] lookup(
                after::<E>(records, Query::Update(id, set), fresh),
                other,
            ) == lookup(records, other),
{
}

} // verus!
