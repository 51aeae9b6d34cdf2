//! The handlers of accounts.

use crate::error::{RepoError, Status, StoreFault};
use crate::hasher::{
    argon2_accepts, argon2_encoding, hash, hash_view, hash_with_salt, hashing, is_hash_of,
    starts_as_hash, HashError,
};
use crate::models::user_model::{User, UserView};
use crate::repository::{
    delete_query, find_query, update_query, AuthError, LoginObject, MongoRepo,
};
use crate::store::{planned, Field, Query, Request};
use vstd::prelude::*;

verus! {

/// The status of the failure, in place of the failure.
pub open spec fn with_status<T>(r: Result<T, RepoError>) -> Result<T, Status> {
    match r {
        Ok(value) => Ok(value),
        Err(e) => Err(e.spec_status()),
    }
}

/// Whether a count of matched or deleted records says that the one record
/// was there.
pub open spec fn touched_one(reply: Result<u64, StoreFault>) -> Result<(), Status> {
    match reply {
        Ok(count) => if count == 1 {
            Ok(())
        } else {
            Err(Status::NotFound)
        },
        Err(fault) => Err(RepoError::spec_from_fault(fault).spec_status()),
    }
}

/// The registration of an account under a given salt: the password is
/// replaced with its hash, and the account goes to the store without
/// identifier. An account without password is refused.
pub open spec fn registration(data: UserView, salt: Seq<char>) -> Result<Query<UserView>, Status> {
    match data.password {
        None => Err(Status::BadRequest),
        Some(password) => match argon2_encoding(password, salt) {
            Some(hash) => Ok(Query::Insert(UserView { id: None, password: Some(hash), ..data })),
            None => Err(Status::InternalServerError),
        },
    }
}

/// The credentials that a login request carries, where it carries both.
pub open spec fn credentials_of(data: UserView) -> Option<(Seq<char>, Seq<char>)> {
    if data.username is Some && data.password is Some {
        Some((data.username->0, data.password->0))
    } else {
        None
    }
}

/// Whether a count of matched or deleted records says that the one record
/// was there; if not, the status of the failure.
pub fn check_one(reply: Result<u64, StoreFault>) -> (r: Result<(), Status>)
    ensures
        r == touched_one(reply),
{
    match reply {
        Ok(count) => if count == 1 {
            Ok(())
        } else {
            Err(Status::NotFound)
        },
        Err(fault) => Err(RepoError::from_fault(fault).status()),
    }
}

/// Asks for the account with the identifier that `id` is the text of.
pub fn get_user(db: &MongoRepo, id: &str) -> (r: Result<Request<User>, Status>)
    ensures
        planned(r) == with_status(find_query::<UserView>(id@)),
{
    match db.get_user(id) {
        Ok(request) => Ok(request),
        Err(e) => Err(e.status()),
    }
}

/// The registration of an account whose password was hashed: the account
/// goes to the store with the hash in the password's place and without
/// identifier; where the hashing failed, the registration fails.
pub open spec fn registered(data: UserView, hashed: Result<Seq<char>, HashError>) -> Result<
    Query<UserView>,
    Status,
> {
    match hashed {
        Ok(hash) => Ok(Query::Insert(UserView { id: None, password: Some(hash), ..data })),
        Err(_) => Err(Status::InternalServerError),
    }
}

/// Completes a registration with the outcome of the hashing of the
/// account's password.
pub fn create_user_hashed(db: &MongoRepo, new_user: User, hashed: Result<String, HashError>) -> (r:
    Result<Request<User>, Status>)
    ensures
        planned(r) == registered(new_user@, hash_view(hashed)),
{
    match hashed {
        Ok(encoded) => {
            let usr = User {
                id: None,
                firstname: new_user.firstname,
                lastname: new_user.lastname,
                username: new_user.username,
                email: new_user.email,
                password: Some(encoded),
                role: new_user.role,
            };
            Ok(db.create_user(usr))
        },
        Err(_) => Err(Status::InternalServerError),
    }
}

/// Registers an account under the given salt. The password that is stored is
/// a hash that accepts the password that was sent.
pub fn create_user_with_salt(db: &MongoRepo, new_user: User, salt: &str) -> (r: Result<
    Request<User>,
    Status,
>)
    ensures
        planned(r) == registration(new_user@, salt@),
        planned(r) matches Ok(Query::Insert(stored)) ==> {
            &&& new_user@.password matches Some(password)
            &&& stored.password matches Some(hash)
            &&& argon2_accepts(password, hash)
            &&& starts_as_hash(hash)
        },
{
    let hashed = match &new_user.password {
        None => {
            return Err(Status::BadRequest);
        },
        Some(password) => hash_with_salt(password.as_str(), salt),
    };
    create_user_hashed(db, new_user, hashed)
}

/// Registers an account: the password is hashed under a fresh salt, and the
/// account goes to the store with the hash in the password's place and
/// without identifier. This is the one place where a password becomes a hash.
/// The outcome is what registration under some salt comes to. What is stored
/// as the password accepts the password that was sent, and is not that
/// password unless it starts as a hash does.
pub fn create_user(db: &MongoRepo, new_user: User) -> (r: Result<Request<User>, Status>)
    ensures
        new_user@.password is None ==> r == Err::<Request<User>, Status>(Status::BadRequest),
        new_user@.password is Some ==> exists|salt: Seq<char>| #[trigger]
            registration(new_user@, salt) == planned(r),
        match planned(r) {
            Ok(query) => {
                &&& new_user@.password matches Some(password)
                &&& query matches Query::Insert(stored)
                &&& stored.password matches Some(hash)
                &&& is_hash_of(password, hash)
                &&& argon2_accepts(password, hash)
                &&& starts_as_hash(hash)
                &&& !starts_as_hash(password) ==> hash != password
                &&& stored == UserView { id: None, password: Some(hash), ..new_user@ }
            },
            Err(status) => if new_user@.password is None {
                status == Status::BadRequest
            } else {
                status == Status::InternalServerError
            },
        },
{
    let hashed = match &new_user.password {
        None => {
            return Err(Status::BadRequest);
        },
        Some(password) => hash(password.as_str()),
    };
    proof {
        let password = new_user@.password->0;
        let salt = choose|salt: Seq<char>| #[trigger] hashing(password, salt) == hash_view(hashed);
        assert(registration(new_user@, salt) == registered(new_user@, hash_view(hashed)));
    }
    create_user_hashed(db, new_user, hashed)
}

/// Starts a login: the credentials of the request, and the lookup of the
/// account by its username. A request without username or without password
/// is refused.
pub fn login(db: &MongoRepo, new_user: User) -> (r: Result<(LoginObject, Request<User>), Status>)
    ensures
        match r {
            Ok((credentials, request)) => {
                &&& credentials_of(new_user@) == Some((credentials.username@, credentials.password@))
                &&& request@ == Query::<UserView>::FindByField(
                    Field::Username,
                    credentials.username@,
                )
            },
            Err(status) => credentials_of(new_user@) is None && status == Status::BadRequest,
        },
{
    match (new_user.username, new_user.password) {
        (Some(username), Some(password)) => {
            let login_object = LoginObject { username, password };
            let request = db.login(&login_object);
            Ok((login_object, request))
        },
        _ => Err(Status::BadRequest),
    }
}

/// The status of a failed login. An unknown username and a wrong password
/// have the same status.
pub fn login_status(error: AuthError) -> (status: Status)
    ensures
        status == error.spec_surface().spec_status(),
        error == AuthError::NoSuchUser || error == AuthError::BadCredentials ==> status
            == Status::Unauthorized,
{
    error.surface().status()
}

/// Asks to write the fields that are present in `new_user` over the account
/// with the identifier that `id` is the text of.
pub fn update_user(db: &MongoRepo, id: &str, new_user: User) -> (r: Result<Request<User>, Status>)
    ensures
        planned(r) == with_status(update_query(id@, new_user@.without_id())),
{
    let mut data = new_user;
    data.remove_id();
    match db.update_user(id, data) {
        Ok(request) => Ok(request),
        Err(e) => Err(e.status()),
    }
}

/// After an update: where one account was matched, asks for it again, so that
/// the account as it now stands can be returned; where none was, the account
/// is not found.
pub fn updated_user(db: &MongoRepo, id: &str, matched: Result<u64, StoreFault>) -> (r: Result<
    Request<User>,
    Status,
>)
    ensures
        planned(r) == (match touched_one(matched) {
            Ok(_) => with_status(find_query::<UserView>(id@)),
            Err(status) => Err(status),
        }),
{
    check_one(matched)?;
    get_user(db, id)
}

/// Asks to delete the account with the identifier that `id` is the text of.
pub fn delete_user(db: &MongoRepo, id: &str) -> (r: Result<Request<User>, Status>)
    ensures
        planned(r) == with_status(delete_query::<UserView>(id@)),
{
    match db.delete_user(id) {
        Ok(request) => Ok(request),
        Err(e) => Err(e.status()),
    }
}

/// After a deletion: where one account was removed, the words that say so;
/// where none was, the account is not found.
pub fn deleted_user(deleted: Result<u64, StoreFault>) -> (r: Result<&'static str, Status>)
    ensures
        match r {
            Ok(words) => touched_one(deleted) is Ok && words@ == "User successfully deleted!"@,
            Err(status) => touched_one(deleted) == Err::<(), Status>(status),
        },
{
    check_one(deleted)?;
    Ok("User successfully deleted!")
}

/// Asks for every account.
pub fn get_all_users(db: &MongoRepo) -> (request: Request<User>)
    ensures
        request@ == Query::<UserView>::List,
{
    db.get_all_users()
}

} // verus!
