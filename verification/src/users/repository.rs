//! What is asked of the store for the plain user records.

use crate::object_id::StoreId;
use crate::store::{Query, Request};
use crate::users::{InsertableUser, InsertableUserView, User, UserView, UsersError};
use vstd::prelude::*;

verus! {

/// Asks the store for every record.
pub fn all() -> (request: Request<User>)
    ensures
        request@ == Query::<UserView>::List,
{
    Request::List
}

/// Asks the store for the record with an identifier.
pub fn get(id: StoreId) -> (request: Request<User>)
    ensures
        request@ == Query::<UserView>::FindById(id@),
{
    Request::FindById(id)
}

/// Asks the store to insert a record. Its identifier, if it has one, is left
/// out: the store gives the new one.
pub fn insert(users: User) -> (request: Request<InsertableUser>)
    ensures
        request@ == Query::<InsertableUserView>::Insert(users@.insertable()),
{
    Request::Insert(InsertableUser::from_user(users))
}

/// What the answer to an insertion comes to: the identifier that the store
/// gave, or the failure. An answer without identifier is a failure.
pub fn inserted(reply: Result<Option<StoreId>, UsersError>) -> (r: Result<StoreId, UsersError>)
    ensures
        r == (match reply {
            Ok(Some(id)) => Ok::<StoreId, UsersError>(id),
            Ok(None) => Err(UsersError::Conversion),
            Err(error) => Err(error),
        }),
{
    match reply {
        Ok(Some(id)) => Ok(id),
        Ok(None) => Err(UsersError::Conversion),
        Err(error) => Err(error),
    }
}

/// Asks the store to put `users`, under the identifier `id`, in place of the
/// record with that identifier.
pub fn update(id: StoreId, users: User) -> (request: Request<User>)
    ensures
        request@ == Query::<UserView>::Replace(id@, UserView { id: Some(id@), ..users@ }),
{
    let mut new_user = users;
    new_user.id = Some(id);
    Request::Replace(id, new_user)
}

/// What the answer to the request that `update` made comes to: the record
/// that the request put in place, whether or not one was there before, or
/// the failure.
pub fn replaced(request: Request<User>, reply: Result<u64, UsersError>) -> (r: Result<
    User,
    UsersError,
>)
    ensures
        r == (match reply {
            Err(error) => Err::<User, UsersError>(error),
            Ok(_) => match request {
                Request::Replace(_, new_user) => Ok(new_user),
                _ => Err(UsersError::Conversion),
            },
        }),
{
    match reply {
        Err(error) => Err(error),
        Ok(_) => match request {
            Request::Replace(_, new_user) => Ok(new_user),
            _ => Err(UsersError::Conversion),
        },
    }
}

/// Asks the store to delete the record with an identifier.
pub fn delete(id: StoreId) -> (request: Request<User>)
    ensures
        request@ == Query::<UserView>::Delete(id@),
{
    Request::Delete(id)
}

/// Asks the store to delete every record.
pub fn delete_all() -> (request: Request<User>)
    ensures
        request@ == Query::<UserView>::Clear,
{
    Request::Clear
}

} // verus!
