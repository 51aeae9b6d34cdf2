//! The handlers of documents.

use crate::api::user::{check_one, touched_one, with_status};
use crate::error::{RepoError, Status, StoreFault};
use crate::models::document::{Document, DocumentView};
use crate::models::user_model::{id_view, User, UserView};
use crate::object_id::StoreId;
use crate::repository::{delete_query, find_query, update_query, MongoRepo};
use crate::store::{after, lookup, planned, Collection, Field, Query, Request};
use crate::token::AuthObject;
use vstd::prelude::*;

verus! {

/// What a client gives of a document that it creates.
#[derive(Clone, Debug, Default, PartialEq, Eq)]
pub struct NewDocument {
    pub title: Option<String>,
    pub content: Option<String>,
}

/// What is stored of a new document besides identifier and owner. Times
/// are in seconds since the epoch.
#[derive(Clone, Debug, Default, PartialEq, Eq)]
pub struct DocumentCreateObject {
    pub title: Option<String>,
    pub content: Option<String>,
    pub date_created: i64,
    pub last_modified: i64,
}

impl NewDocument {
    /// What of a document that a client sent is taken at creation: title and
    /// content, and nothing else.
    pub fn of(document: Document) -> (new: NewDocument)
        ensures
            new.title.deep_view() == document@.title,
            new.content.deep_view() == document@.content,
    {
        NewDocument { title: document.title, content: document.content }
    }
}

impl DocumentCreateObject {
    /// A new document at the time `now`: created and last changed then.
    pub fn stamp(new: NewDocument, now: i64) -> (stamped: DocumentCreateObject)
        ensures
            stamped.title.deep_view() == new.title.deep_view(),
            stamped.content.deep_view() == new.content.deep_view(),
            stamped.date_created == now,
            stamped.last_modified == now,
    {
        DocumentCreateObject {
            title: new.title,
            content: new.content,
            date_created: now,
            last_modified: now,
        }
    }

    /// The document as it goes to the store for the account `owner`: without
    /// identifier.
    pub fn owned_by(self, owner: Option<StoreId>) -> (document: Document)
        ensures
            document@ == (DocumentView {
                id: None,
                owner_id: id_view(owner),
                title: self.title.deep_view(),
                content: self.content.deep_view(),
                date_created: Some(self.date_created),
                last_modified: Some(self.last_modified),
            }),
    {
        Document {
            id: None,
            owner_id: owner,
            title: self.title,
            content: self.content,
            date_created: Some(self.date_created),
            last_modified: Some(self.last_modified),
        }
    }
}

/// The document that is stored for a request to create one: title and
/// content as the client gave them, the owner as it was resolved, both times
/// set to `now`, and no identifier.
pub open spec fn created(data: DocumentView, owner: Option<Seq<u8>>, now: i64) -> DocumentView {
    DocumentView {
        id: None,
        owner_id: owner,
        title: data.title,
        content: data.content,
        date_created: Some(now),
        last_modified: Some(now),
    }
}

/// What the lookup of the creating account comes to: its identifier. A
/// subject that no account answers to fails the request.
pub open spec fn owner_spec(reply: Result<Option<UserView>, StoreFault>) -> Result<
    Option<Seq<u8>>,
    Status,
> {
    match reply {
        Ok(Some(owner)) => Ok(owner.id),
        Ok(None) => Err(Status::InternalServerError),
        Err(fault) => Err(RepoError::spec_from_fault(fault).spec_status()),
    }
}

/// Asks for the account of an authenticated subject, to find the owner of a
/// document that the subject creates.
pub fn get_owner_id(db: &MongoRepo, auth: &AuthObject) -> (request: Request<User>)
    ensures
        request@ == Query::<UserView>::FindByField(Field::Email, auth.user@),
{
    db.get_user_by_email(auth.user.clone())
}

/// The identifier of the account that the lookup of the subject found.
pub fn owner_id(reply: Result<Option<User>, StoreFault>) -> (r: Result<Option<StoreId>, Status>)
    ensures
        match r {
            Ok(id) => crate::repository::reply_view(reply) matches Ok(Some(owner)) && owner.id
                == id_view(id),
            Err(status) => owner_spec(crate::repository::reply_view(reply)) == Err::<
                Option<Seq<u8>>,
                Status,
            >(status),
        },
{
    match reply {
        Ok(Some(owner)) => Ok(owner.id),
        Ok(None) => Err(Status::InternalServerError),
        Err(fault) => Err(RepoError::from_fault(fault).status()),
    }
}

/// Asks for the document with the identifier that `id` is the text of.
pub fn get_document(db: &MongoRepo, id: &str) -> (r: Result<Request<Document>, Status>)
    ensures
        planned(r) == with_status(find_query::<DocumentView>(id@)),
{
    match db.get_document(id) {
        Ok(request) => Ok(request),
        Err(e) => Err(e.status()),
    }
}

/// Creates a document for the account `owner` at the time `now`, in seconds
/// since the epoch. Of what the client sent, only title and content are
/// taken: the owner is the creating account and nothing else.
pub fn create_document(
    db: &MongoRepo,
    new_document: Document,
    owner: Option<StoreId>,
    now: i64,
) -> (request: Request<Document>)
    ensures
        request@ == Query::Insert(created(new_document@, id_view(owner), now)),
{
    let new_doc = DocumentCreateObject::stamp(NewDocument::of(new_document), now).owned_by(owner);
    db.create_document(new_doc)
}

/// Asks to write the fields that are present in `new_document` over the
/// document with the identifier that `id` is the text of. Identifier and
/// owner are not among them, whatever the client sent.
pub fn update_document(db: &MongoRepo, id: &str, new_document: Document) -> (r: Result<
    Request<Document>,
    Status,
>)
    ensures
        planned(r) == with_status(update_query(id@, new_document@.client_fields())),
{
    let mut data = new_document;
    data.remove_id();
    match db.update_document(id, data) {
        Ok(request) => Ok(request),
        Err(e) => Err(e.status()),
    }
}

/// After an update: where one document was matched, asks for it again, so
/// that the document as it now stands can be returned; where none was, the
/// document is not found.
pub fn updated_document(db: &MongoRepo, id: &str, matched: Result<u64, StoreFault>) -> (r: Result<
    Request<Document>,
    Status,
>)
    ensures
        planned(r) == (match touched_one(matched) {
            Ok(_) => with_status(find_query::<DocumentView>(id@)),
            Err(status) => Err(status),
        }),
{
    check_one(matched)?;
    get_document(db, id)
}

/// Asks to delete the document with the identifier that `id` is the text of.
pub fn delete_document(db: &MongoRepo, id: &str) -> (r: Result<Request<Document>, Status>)
    ensures
        planned(r) == with_status(delete_query::<DocumentView>(id@)),
{
    match db.delete_document(id) {
        Ok(request) => Ok(request),
        Err(e) => Err(e.status()),
    }
}

/// After a deletion: where one document was removed, the words that say so;
/// where none was, the document is not found.
pub fn deleted_document(deleted: Result<u64, StoreFault>) -> (r: Result<&'static str, Status>)
    ensures
        match r {
            Ok(words) => touched_one(deleted) is Ok && words@ == "Document successfully deleted!"@,
            Err(status) => touched_one(deleted) == Err::<(), Status>(status),
        },
{
    check_one(deleted)?;
    Ok("Document successfully deleted!")
}

/// A document that was created for an account is stored with that account as
/// its owner, whatever owner or identifier the client sent, and under the
/// identifier that the store gave it.
pub proof fn lemma_created_document_is_owned(
    records: Collection<DocumentView>,
    sent: DocumentView,
    owner: Option<Seq<u8>>,
    now: i64,
    fresh: Seq<u8>,
)
    ensures
        lookup(
            after::<Document>(records, Query::Insert(created(sent, owner, now).without_id()), fresh),
            fresh,
        ) == Some(
            DocumentView {
                id: Some(fresh),
                owner_id: owner,
                title: sent.title,
                content: sent.content,
                date_created: Some(now),
                last_modified: Some(now),
            },
        ),
{
}

} // verus!
