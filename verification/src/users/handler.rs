//! The handlers of the plain user records: what each asks of the store for a
//! request, and the status of a failure.

use crate::error::Status;
use crate::object_id::{bytes_of_hex, is_id_text, StoreId};
use crate::store::{planned, Query, Request};
use crate::users::{repository, InsertableUser, InsertableUserView, User, UserView, UsersError};
use vstd::prelude::*;

verus! {

/// The status of a failure: a lost cursor is reported as not found, all else
/// as a failure of the server.
pub open spec fn error_status_spec(error: UsersError) -> Status {
    match error {
        UsersError::CursorNotFound => Status::NotFound,
        _ => Status::InternalServerError,
    }
}

/// The status of a failure.
#[verifier::when_used_as_spec(error_status_spec)]
pub fn error_status(error: UsersError) -> (status: Status)
    ensures
        status == error_status_spec(error),
{
    match error {
        UsersError::CursorNotFound => Status::NotFound,
        _ => Status::InternalServerError,
    }
}

/// Reads the identifier of a request. A text that is none fails the request
/// with the status of any other error.
fn read_id(id: &str) -> (r: Result<StoreId, Status>)
    ensures
        match r {
            Ok(parsed) => is_id_text(id@) && parsed@ == bytes_of_hex(id@),
            Err(status) => !is_id_text(id@) && status == Status::InternalServerError,
        },
{
    match StoreId::parse_str(id) {
        Ok(parsed) => Ok(parsed),
        Err(_) => Err(error_status(UsersError::UnreadableId)),
    }
}

/// Lists every record.
pub fn all() -> (request: Request<User>)
    ensures
        request@ == Query::<UserView>::List,
{
    repository::all()
}

/// Gets the record with the identifier that `id` is the text of.
pub fn get(id: &str) -> (r: Result<Request<User>, Status>)
    ensures
        planned(r) == (if is_id_text(id@) {
            Ok::<Query<UserView>, Status>(Query::FindById(bytes_of_hex(id@)))
        } else {
            Err(Status::InternalServerError)
        }),
{
    let parsed = read_id(id)?;
    Ok(repository::get(parsed))
}

/// Inserts a record.
pub fn post(users: User) -> (request: Request<InsertableUser>)
    ensures
        request@ == Query::<InsertableUserView>::Insert(users@.insertable()),
{
    repository::insert(users)
}

/// Puts `users` in place of the record with the identifier that `id` is the
/// text of.
pub fn put(id: &str, users: User) -> (r: Result<Request<User>, Status>)
    ensures
        planned(r) == (if is_id_text(id@) {
            Ok::<Query<UserView>, Status>(
                Query::Replace(
                    bytes_of_hex(id@),
                    UserView { id: Some(bytes_of_hex(id@)), ..users@ },
                ),
            )
        } else {
            Err(Status::InternalServerError)
        }),
{
    let parsed = read_id(id)?;
    Ok(repository::update(parsed, users))
}

/// Deletes the record with the identifier that `id` is the text of.
pub fn delete(id: &str) -> (r: Result<Request<User>, Status>)
    ensures
        planned(r) == (if is_id_text(id@) {
            Ok::<Query<UserView>, Status>(Query::Delete(bytes_of_hex(id@)))
        } else {
            Err(Status::InternalServerError)
        }),
{
    let parsed = read_id(id)?;
    Ok(repository::delete(parsed))
}

/// Deletes every record.
pub fn delete_all() -> (request: Request<User>)
    ensures
        request@ == Query::<UserView>::Clear,
{
    repository::delete_all()
}

/// What the answer to a request for one record comes to: the record, or the
/// status of the failure. That there is no such record is reported as not
/// found, apart from an identifier that could not be read.
pub fn got(reply: Result<Option<User>, UsersError>) -> (r: Result<User, Status>)
    ensures
        r == (match reply {
            Ok(Some(user)) => Ok::<User, Status>(user),
            Ok(None) => Err(Status::NotFound),
            Err(error) => Err(error_status_spec(error)),
        }),
{
    match reply {
        Ok(Some(user)) => Ok(user),
        Ok(None) => Err(Status::NotFound),
        Err(error) => Err(error_status(error)),
    }
}

/// What the answer to the request of `delete` comes to: the text of the
/// identifier that was given, whether or not a record was there, or the
/// status of the failure.
pub fn deleted(id: &str, reply: Result<u64, UsersError>) -> (r: Result<String, Status>)
    ensures
        match r {
            Ok(text) => reply is Ok && text@ == id@,
            Err(status) => reply matches Err(error) && status == error_status_spec(error),
        },
{
    match reply {
        Ok(_) => Ok(id.to_owned()),
        Err(error) => Err(error_status(error)),
    }
}

/// What the answer to the request of `delete_all` comes to: `true` where the
/// store has cleared the collection, or the status of the failure.
pub fn cleared(reply: Result<(), UsersError>) -> (r: Result<bool, Status>)
    ensures
        r == (match reply {
            Ok(_) => Ok::<bool, Status>(true),
            Err(error) => Err(error_status_spec(error)),
        }),
{
    match reply {
        Ok(_) => Ok(true),
        Err(error) => Err(error_status(error)),
    }
}

/// What the store's answer to a handler's request comes to: the answer, or
/// the status of the failure.
pub fn answered<T>(reply: Result<T, UsersError>) -> (r: Result<T, Status>)
    ensures
        r == (match reply {
            Ok(value) => Ok::<T, Status>(value),
            Err(error) => Err(error_status_spec(error)),
        }),
{
    match reply {
        Ok(value) => Ok(value),
        Err(error) => Err(error_status(error)),
    }
}

} // verus!
