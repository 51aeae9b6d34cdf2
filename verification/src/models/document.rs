//! Documents.

use crate::models::user_model::{id_view, pick, present_or};
use crate::object_id::StoreId;
use crate::store::{Field, Record};
use crate::text::{lowered, to_lower_case_optional};
use vstd::prelude::*;

verus! {

/// A document as the store keeps it, or a part of one: a field that is `None`
/// is absent. The owner is the account that created the document; a document
/// without owner belongs to nobody. Times are in seconds since the epoch.
#[derive(Clone, Debug, PartialEq, Eq)]
pub struct Document {
    pub id: Option<StoreId>,
    pub owner_id: Option<StoreId>,
    pub title: Option<String>,
    pub content: Option<String>,
    pub date_created: Option<i64>,
    pub last_modified: Option<i64>,
}

/// The mathematical value of a `Document`.
pub struct DocumentView {
    pub id: Option<Seq<u8>>,
    pub owner_id: Option<Seq<u8>>,
    pub title: Option<Seq<char>>,
    pub content: Option<Seq<char>>,
    pub date_created: Option<i64>,
    pub last_modified: Option<i64>,
}

impl View for Document {
    type V = DocumentView;

    open spec fn view(&self) -> DocumentView {
        DocumentView {
            id: id_view(self.id),
            owner_id: id_view(self.owner_id),
            title: self.title.deep_view(),
            content: self.content.deep_view(),
            date_created: self.date_created,
            last_modified: self.last_modified,
        }
    }
}

impl DocumentView {
    /// The document with every field absent.
    pub open spec fn empty() -> DocumentView {
        DocumentView {
            id: None,
            owner_id: None,
            title: None,
            content: None,
            date_created: None,
            last_modified: None,
        }
    }

    /// The same document with no identifier.
    pub open spec fn without_id(self) -> DocumentView {
        DocumentView { id: None, ..self }
    }

    /// The same document with neither identifier nor owner: what a client may
    /// set.
    pub open spec fn client_fields(self) -> DocumentView {
        DocumentView { id: None, owner_id: None, ..self }
    }

    /// The stored document `self` after the fields that are present in `set`
    /// were written over it, the owner among them. The identifier is never
    /// written.
    pub open spec fn overlaid(self, set: DocumentView) -> DocumentView {
        DocumentView {
            id: self.id,
            owner_id: present_or(set.owner_id, self.owner_id),
            title: present_or(set.title, self.title),
            content: present_or(set.content, self.content),
            date_created: present_or(set.date_created, self.date_created),
            last_modified: present_or(set.last_modified, self.last_modified),
        }
    }
}

impl Record for Document {
    open spec fn key(record: DocumentView) -> Option<Seq<u8>> {
        record.id
    }

    open spec fn with_key(record: DocumentView, key: Option<Seq<u8>>) -> DocumentView {
        DocumentView { id: key, ..record }
    }

    /// A document has no field that it is looked up by.
    open spec fn text(record: DocumentView, field: Field) -> Option<Seq<char>> {
        None
    }

    open spec fn overlay(stored: DocumentView, set: DocumentView) -> DocumentView {
        stored.overlaid(set)
    }

    proof fn overlay_keeps_key(stored: DocumentView, set: DocumentView) {
    }

    proof fn with_key_has_key(record: DocumentView, key: Option<Seq<u8>>) {
    }
}

impl Default for Document {
    /// The document with every field absent.
    fn default() -> (document: Document)
        ensures
            document@ == DocumentView::empty(),
    {
        Document {
            id: None,
            owner_id: None,
            title: None,
            content: None,
            date_created: None,
            last_modified: None,
        }
    }
}

impl Document {
    /// The document as it is taken in: the title in lower case, all else as
    /// it was sent.
    pub fn lower_cased(self) -> (document: Document)
        ensures
            document@ == (DocumentView { title: lowered(self@.title), ..self@ }),
    {
        Document {
            id: self.id,
            owner_id: self.owner_id,
            title: to_lower_case_optional(self.title),
            content: self.content,
            date_created: self.date_created,
            last_modified: self.last_modified,
        }
    }

    /// Takes the identifier off.
    pub fn remove_id(&mut self)
        ensures
            final(self)@ == old(self)@.without_id(),
    {
        self.id = None;
    }

    /// The stored document `self` after the fields that are present in `set`
    /// were written over it.
    pub fn with_update(self, set: Document) -> (updated: Document)
        ensures
            updated@ == self@.overlaid(set@),
    {
        Document {
            id: self.id,
            owner_id: pick(set.owner_id, self.owner_id),
            title: pick(set.title, self.title),
            content: pick(set.content, self.content),
            date_created: pick(set.date_created, self.date_created),
            last_modified: pick(set.last_modified, self.last_modified),
        }
    }
}

} // verus!
