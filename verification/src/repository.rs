//! The repository: the single way to the stored accounts and documents.
//!
//! Every operation is one request to the store. The repository decides what
//! is asked and what the answer means; the caller carries the request to the
//! store and brings the answer back.

use crate::error::{RepoError, StoreFault};
use crate::hasher::{argon2_accepts, starts_as_hash, verify};
use crate::models::document::{Document, DocumentView};
use crate::models::user_model::{User, UserView};
use crate::object_id::{bytes_of_hex, is_id_text, StoreId};
use crate::models::user_model::present_or;
use crate::store::{
    after, answers, holds_text, lookup, planned, Collection, Field, Query, Record, Request,
};
use crate::token::{
    clock_now, hs256_token, validation, TokenError, TokenService, VALIDITY_SECONDS,
};
use vstd::prelude::*;

verus! {

/// The credentials of a login.
#[derive(Clone, Debug, PartialEq, Eq)]
pub struct LoginObject {
    pub username: String,
    pub password: String,
}

/// An account as it is shown to its holder: without identifier, password
/// hash and role.
#[derive(Clone, Debug, PartialEq, Eq)]
pub struct UserResponse {
    pub username: String,
    pub firstname: String,
    pub lastname: String,
    pub email: String,
}

/// The answer to a login: the account and a token for it.
#[derive(Clone, Debug, PartialEq, Eq)]
pub struct AuthResponse {
    pub user: UserResponse,
    pub token: String,
}

/// The mathematical value of a `UserResponse`.
pub struct UserResponseView {
    pub username: Seq<char>,
    pub firstname: Seq<char>,
    pub lastname: Seq<char>,
    pub email: Seq<char>,
}

/// The mathematical value of an `AuthResponse`.
pub struct AuthResponseView {
    pub user: UserResponseView,
    pub token: Seq<char>,
}

impl View for UserResponse {
    type V = UserResponseView;

    open spec fn view(&self) -> UserResponseView {
        UserResponseView {
            username: self.username@,
            firstname: self.firstname@,
            lastname: self.lastname@,
            email: self.email@,
        }
    }
}

impl View for AuthResponse {
    type V = AuthResponseView;

    open spec fn view(&self) -> AuthResponseView {
        AuthResponseView { user: self.user@, token: self.token@ }
    }
}

/// Why a login failed.
#[derive(Clone, Copy, Debug, PartialEq, Eq, Structural)]
pub enum AuthError {
    /// No account has the username.
    NoSuchUser,
    /// The password does not match the account's hash.
    BadCredentials,
    /// The account lacks a name or an address, so it cannot be shown.
    IncompleteAccount,
    /// No token could be issued.
    Token(TokenError),
    /// The store gave no answer.
    Store(StoreFault),
}

impl AuthError {
    /// The kind of failure that the caller is told. A username that is not
    /// known and a password that does not match are told alike.
    pub open spec fn spec_surface(self) -> RepoError {
        match self {
            AuthError::NoSuchUser => RepoError::Unauthorized,
            AuthError::BadCredentials => RepoError::Unauthorized,
            AuthError::IncompleteAccount => RepoError::StoreUnavailable,
            AuthError::Token(_) => RepoError::StoreUnavailable,
            AuthError::Store(fault) => RepoError::spec_from_fault(fault),
        }
    }

    /// The kind of failure that the caller is told.
    #[verifier::when_used_as_spec(spec_surface)]
    pub fn surface(self) -> (e: RepoError)
        ensures
            e == self.spec_surface(),
    {
        match self {
            AuthError::NoSuchUser => RepoError::Unauthorized,
            AuthError::BadCredentials => RepoError::Unauthorized,
            AuthError::IncompleteAccount => RepoError::StoreUnavailable,
            AuthError::Token(_) => RepoError::StoreUnavailable,
            AuthError::Store(fault) => RepoError::from_fault(fault),
        }
    }
}

/// The request for the record with the identifier that `id` is the text of.
pub open spec fn find_query<V>(id: Seq<char>) -> Result<Query<V>, RepoError> {
    if is_id_text(id) {
        Ok(Query::FindById(bytes_of_hex(id)))
    } else {
        Err(RepoError::Validation)
    }
}

/// The request to delete the record with the identifier that `id` is the text
/// of.
pub open spec fn delete_query<V>(id: Seq<char>) -> Result<Query<V>, RepoError> {
    if is_id_text(id) {
        Ok(Query::Delete(bytes_of_hex(id)))
    } else {
        Err(RepoError::Validation)
    }
}

/// The request to write `set` over the record with the identifier that `id`
/// is the text of.
pub open spec fn update_query<V>(id: Seq<char>, set: V) -> Result<Query<V>, RepoError> {
    if is_id_text(id) {
        Ok(Query::Update(bytes_of_hex(id), set))
    } else {
        Err(RepoError::Validation)
    }
}

/// What the answer to a request for one record means.
pub open spec fn found_spec<E>(reply: Result<Option<E>, StoreFault>) -> Result<E, RepoError> {
    match reply {
        Ok(Some(record)) => Ok(record),
        Ok(None) => Err(RepoError::NotFound),
        Err(fault) => Err(RepoError::spec_from_fault(fault)),
    }
}

/// What an answer of the store means where there is nothing to find.
pub open spec fn served_spec<T>(reply: Result<T, StoreFault>) -> Result<T, RepoError> {
    match reply {
        Ok(value) => Ok(value),
        Err(fault) => Err(RepoError::spec_from_fault(fault)),
    }
}

/// The account as it is shown, where it has a username, both names and an
/// address.
pub open spec fn profile_of(user: UserView) -> Option<UserResponseView> {
    if user.username is Some && user.firstname is Some && user.lastname is Some && user.email
        is Some {
        Some(
            UserResponseView {
                username: user.username->0,
                firstname: user.firstname->0,
                lastname: user.lastname->0,
                email: user.email->0,
            },
        )
    } else {
        None
    }
}

/// What a login comes to at the time `now`, given the store's answer to the
/// lookup of the username: the account must exist, its hash must accept the
/// password, and the token is issued for the account's address.
pub open spec fn login_spec(
    secret: Seq<u8>,
    password: Seq<char>,
    reply: Result<Option<UserView>, StoreFault>,
    now: u64,
) -> Result<AuthResponseView, AuthError> {
    match reply {
        Err(fault) => Err(AuthError::Store(fault)),
        Ok(None) => Err(AuthError::NoSuchUser),
        Ok(Some(user)) => if !(user.password matches Some(hash) && argon2_accepts(
            password,
            hash,
        )) {
            Err(AuthError::BadCredentials)
        } else {
            match profile_of(user) {
                None => Err(AuthError::IncompleteAccount),
                Some(profile) => if now + VALIDITY_SECONDS > u64::MAX {
                    Err(AuthError::Token(TokenError::ClockOutOfRange))
                } else {
                    match hs256_token(secret, profile.email, (now + VALIDITY_SECONDS) as u64) {
                        Some(token) => Ok(AuthResponseView { user: profile, token }),
                        None => Err(AuthError::Token(TokenError::NotSigned)),
                    }
                },
            }
        },
    }
}

/// Whether the store answered with an account whose password starts as a
/// hash does.
pub open spec fn found_with_hash(reply: Result<Option<UserView>, StoreFault>) -> bool {
    match reply {
        Ok(Some(account)) => account.password is Some && starts_as_hash(account.password->0),
        _ => false,
    }
}

/// The value of the store's answer to a lookup.
pub open spec fn reply_view<E: View>(reply: Result<Option<E>, StoreFault>) -> Result<
    Option<E::V>,
    StoreFault,
> {
    match reply {
        Ok(Some(record)) => Ok(Some(record@)),
        Ok(None) => Ok(None),
        Err(fault) => Err(fault),
    }
}

/// The value of the outcome of a login.
pub open spec fn login_view(r: Result<AuthResponse, AuthError>) -> Result<
    AuthResponseView,
    AuthError,
> {
    match r {
        Ok(response) => Ok(response@),
        Err(e) => Err(e),
    }
}

/// Reads an identifier for a request; a text that is none is a validation
/// failure.
fn parse_id(id: &str) -> (r: Result<StoreId, RepoError>)
    ensures
        match r {
            Ok(parsed) => is_id_text(id@) && parsed@ == bytes_of_hex(id@),
            Err(e) => !is_id_text(id@) && e == RepoError::Validation,
        },
{
    match StoreId::parse_str(id) {
        Ok(parsed) => Ok(parsed),
        Err(_) => Err(RepoError::Validation),
    }
}

/// What the answer to a request for one record means: the record, or that
/// there is none, or that the store failed.
pub fn found<E>(reply: Result<Option<E>, StoreFault>) -> (r: Result<E, RepoError>)
    ensures
        r == found_spec(reply),
{
    match reply {
        Ok(Some(record)) => Ok(record),
        Ok(None) => Err(RepoError::NotFound),
        Err(fault) => Err(RepoError::from_fault(fault)),
    }
}

/// What an answer of the store means where there is nothing to find: the
/// identifier of an inserted record, the number of records that an update
/// matched or a deletion removed, or the records of a listing.
pub fn served<T>(reply: Result<T, StoreFault>) -> (r: Result<T, RepoError>)
    ensures
        r == served_spec(reply),
{
    match reply {
        Ok(value) => Ok(value),
        Err(fault) => Err(RepoError::from_fault(fault)),
    }
}

/// The account as it is shown to its holder.
pub fn profile(user: User) -> (r: Option<UserResponse>)
    ensures
        r.is_some() == profile_of(user@).is_some(),
        r matches Some(p) ==> Some(p@) == profile_of(user@),
{
    match (user.username, user.firstname, user.lastname, user.email) {
        (Some(username), Some(firstname), Some(lastname), Some(email)) => Some(
            UserResponse { username, firstname, lastname, email },
        ),
        _ => None,
    }
}

/// The deciding half of the repository. It holds the token service, whose
/// secret is fixed when the repository is made.
pub struct MongoRepo {
    tokens: TokenService,
}

impl MongoRepo {
    /// The secret of the repository's token service.
    pub closed spec fn secret(&self) -> Seq<u8> {
        self.tokens.secret()
    }

    /// A repository that issues tokens under `secret`.
    pub fn init(secret: Vec<u8>) -> (repo: MongoRepo)
        ensures
            repo.secret() == secret@,
    {
        MongoRepo { tokens: TokenService::new(secret) }
    }

    /// The token service of the repository.
    pub fn tokens(&self) -> (tokens: &TokenService)
        ensures
            tokens.secret() == self.secret(),
    {
        &self.tokens
    }

    /// Asks the store to insert an account. The identifier is left to the
    /// store; the password field is stored as it is given, so it must hold a
    /// hash already.
    pub fn create_user(&self, new_user: User) -> (request: Request<User>)
        ensures
            request@ == Query::Insert(new_user@.without_id()),
    {
        let mut record = new_user;
        record.remove_id();
        Request::Insert(record)
    }

    /// Asks the store for the account with a username, for a login.
    pub fn login(&self, credentials: &LoginObject) -> (request: Request<User>)
        ensures
            request@ == Query::<UserView>::FindByField(Field::Username, credentials.username@),
    {
        Request::FindByField(Field::Username, credentials.username.clone())
    }

    /// Completes a login at the time `now`, given the store's answer to the
    /// request that `login` made.
    pub fn login_outcome_at(
        &self,
        credentials: &LoginObject,
        reply: Result<Option<User>, StoreFault>,
        now: u64,
    ) -> (r: Result<AuthResponse, AuthError>)
        ensures
            login_view(r) == login_spec(self.secret(), credentials.password@, reply_view(reply), now),
            r matches Ok(response) ==> validation(self.secret(), response.token@, now) == Ok::<
                Seq<char>,
                TokenError,
            >(response.user.email@),
            r is Ok ==> found_with_hash(reply_view(reply)),
    {
        let user = match reply {
            Err(fault) => {
                return Err(AuthError::Store(fault));
            },
            Ok(None) => {
                return Err(AuthError::NoSuchUser);
            },
            Ok(Some(user)) => user,
        };
        let accepted = match &user.password {
            Some(hash) => verify(credentials.password.as_str(), hash.as_str()),
            None => false,
        };
        if !accepted {
            return Err(AuthError::BadCredentials);
        }
        let shown = match profile(user) {
            Some(shown) => shown,
            None => {
                return Err(AuthError::IncompleteAccount);
            },
        };
        match self.tokens.issue_at(shown.email.as_str(), now) {
            Ok(token) => Ok(AuthResponse { user: shown, token }),
            Err(e) => Err(AuthError::Token(e)),
        }
    }

    /// Completes a login at the time the clock shows, given the store's
    /// answer to the request that `login` made. Where the clock stands before
    /// the epoch no token is issued.
    pub fn login_outcome(
        &self,
        credentials: &LoginObject,
        reply: Result<Option<User>, StoreFault>,
    ) -> (r: Result<AuthResponse, AuthError>)
        ensures
            exists|now: u64| #[trigger]
                login_spec(self.secret(), credentials.password@, reply_view(reply), now)
                    == login_view(r),
            r matches Ok(response) ==> exists|now: u64| #[trigger]
                validation(self.secret(), response.token@, now) == Ok::<Seq<char>, TokenError>(
                    response.user.email@,
                ),
            r is Ok ==> found_with_hash(reply_view(reply)),
    {
        let now: u64 = match clock_now() {
            Some(now) => now,
            None => u64::MAX,
        };
        self.login_outcome_at(credentials, reply, now)
    }

    /// Asks the store for the account with an identifier.
    pub fn get_user(&self, id: &str) -> (r: Result<Request<User>, RepoError>)
        ensures
            planned(r) == find_query::<UserView>(id@),
    {
        let parsed = parse_id(id)?;
        Ok(Request::FindById(parsed))
    }

    /// Asks the store for the account with an address.
    pub fn get_user_by_email(&self, email: String) -> (request: Request<User>)
        ensures
            request@ == Query::<UserView>::FindByField(Field::Email, email@),
    {
        Request::FindByField(Field::Email, email)
    }

    /// Asks the store to write the fields that are present in `new_user` over
    /// the account with an identifier. An identifier in `new_user` is
    /// dropped: no update moves a record.
    pub fn update_user(&self, id: &str, new_user: User) -> (r: Result<Request<User>, RepoError>)
        ensures
            planned(r) == update_query(id@, new_user@.without_id()),
    {
        let parsed = parse_id(id)?;
        let mut set = new_user;
        set.remove_id();
        Ok(Request::Update(parsed, set))
    }

    /// Asks the store to delete the account with an identifier.
    pub fn delete_user(&self, id: &str) -> (r: Result<Request<User>, RepoError>)
        ensures
            planned(r) == delete_query::<UserView>(id@),
    {
        let parsed = parse_id(id)?;
        Ok(Request::Delete(parsed))
    }

    /// Asks the store for every account.
    pub fn get_all_users(&self) -> (request: Request<User>)
        ensures
            request@ == Query::<UserView>::List,
    {
        Request::List
    }

    /// Asks the store to insert a document. The identifier is left to the
    /// store.
    pub fn create_document(&self, new_document: Document) -> (request: Request<Document>)
        ensures
            request@ == Query::Insert(new_document@.without_id()),
    {
        let mut record = new_document;
        record.remove_id();
        Request::Insert(record)
    }

    /// Asks the store for the document with an identifier.
    pub fn get_document(&self, id: &str) -> (r: Result<Request<Document>, RepoError>)
        ensures
            planned(r) == find_query::<DocumentView>(id@),
    {
        let parsed = parse_id(id)?;
        Ok(Request::FindById(parsed))
    }

    /// Asks the store to write the fields that are present in `new_document`
    /// over the document with an identifier. An identifier or an owner in
    /// `new_document` is dropped: no update moves a document or gives it
    /// away.
    pub fn update_document(&self, id: &str, new_document: Document) -> (r: Result<
        Request<Document>,
        RepoError,
    >)
        ensures
            planned(r) == update_query(id@, new_document@.client_fields()),
    {
        let parsed = parse_id(id)?;
        let mut set = new_document;
        set.remove_id();
        set.owner_id = None;
        Ok(Request::Update(parsed, set))
    }

    /// Asks the store to delete the document with an identifier.
    pub fn delete_document(&self, id: &str) -> (r: Result<Request<Document>, RepoError>)
        ensures
            planned(r) == delete_query::<DocumentView>(id@),
    {
        let parsed = parse_id(id)?;
        Ok(Request::Delete(parsed))
    }
}

/// Deleting a record and then asking for it under the same identifier text
/// finds nothing: the second request is answered with no record, which the
/// repository reports as `NotFound`. Every other record is found as before.
pub proof fn lemma_delete_then_get_is_not_found<E: Record>(
    records: Collection<E::V>,
    id: Seq<char>,
    fresh: Seq<u8>,
)
    requires
        is_id_text(id),
    ensures
        delete_query::<E::V>(id) == Ok::<Query<E::V>, RepoError>(Query::Delete(bytes_of_hex(id))),
        find_query::<E::V>(id) == Ok::<Query<E::V>, RepoError>(Query::FindById(bytes_of_hex(id))),
        found_spec(
            Ok(lookup(after::<E>(records, Query::Delete(bytes_of_hex(id)), fresh), bytes_of_hex(id))),
        ) == Err::<E::V, RepoError>(RepoError::NotFound),
        forall|other: Seq<u8>|
            other != bytes_of_hex(id) ==> #[trigger] lookup(
                after::<E>(records, Query::Delete(bytes_of_hex(id)), fresh),
                other,
            ) == lookup(records, other),
{
}

/// A login turns on the hash of the account that was found. Where the hash
/// accepts the password, the login is not refused for its credentials: it
/// succeeds as soon as the account can be shown and a token is issued, and
/// the token is then the one for the account's address. Where the hash does
/// not accept the password, or the account has none, the login fails with
/// `BadCredentials` and no token is given.
pub proof fn lemma_login_turns_on_the_hash(
    secret: Seq<u8>,
    password: Seq<char>,
    account: UserView,
    now: u64,
)
    ensures
        ({
            let outcome = login_spec(secret, password, Ok(Some(account)), now);
            let accepted = account.password matches Some(hash) && argon2_accepts(password, hash);
            &&& !accepted ==> outcome == Err::<AuthResponseView, AuthError>(
                AuthError::BadCredentials,
            )
            &&& accepted ==> outcome != Err::<AuthResponseView, AuthError>(
                AuthError::BadCredentials,
            ) && outcome != Err::<AuthResponseView, AuthError>(AuthError::NoSuchUser)
            &&& accepted && profile_of(account) is Some && now + VALIDITY_SECONDS <= u64::MAX
                && hs256_token(secret, account.email->0, (now + VALIDITY_SECONDS) as u64)
                is Some ==> outcome == Ok::<AuthResponseView, AuthError>(
                AuthResponseView {
                    user: profile_of(account)->0,
                    token: hs256_token(
                        secret,
                        account.email->0,
                        (now + VALIDITY_SECONDS) as u64,
                    )->0,
                },
            )
        }),
{
}

/// A login succeeds only with the password of an account that the store
/// holds under the username: the response then shows that account, and its
/// token is the one issued at `now` for the account's address. Where the
/// store holds no account under the username, the login fails with
/// `NoSuchUser`; that failure and the failure of a wrong password are told
/// to the caller alike.
pub proof fn lemma_login_needs_the_password(
    records: Collection<UserView>,
    secret: Seq<u8>,
    username: Seq<char>,
    password: Seq<char>,
    reply: Option<UserView>,
    now: u64,
)
    requires
        answers::<User>(records, Query::FindByField(Field::Username, username), reply),
    ensures
        login_spec(secret, password, Ok(reply), now) matches Ok(response) ==> exists|id: Seq<u8>|
            {
                &&& #[trigger] holds_text::<User>(records, id, Field::Username, username)
                &&& records[id].password matches Some(hash) && argon2_accepts(password, hash)
                &&& profile_of(records[id]) == Some(response.user)
                &&& hs256_token(secret, response.user.email, (now + VALIDITY_SECONDS) as u64)
                    == Some(response.token)
            },
        (forall|id: Seq<u8>| !#[trigger] holds_text::<User>(records, id, Field::Username, username))
            ==> login_spec(secret, password, Ok(reply), now) == Err::<AuthResponseView, AuthError>(
            AuthError::NoSuchUser,
        ),
        AuthError::NoSuchUser.spec_surface() == AuthError::BadCredentials.spec_surface(),
{
    if login_spec(secret, password, Ok(reply), now) is Ok {
        let record = reply->0;
        let id = choose|id: Seq<u8>|
            #[trigger] holds_text::<User>(records, id, Field::Username, username) && records[id]
                == record;
        assert(holds_text::<User>(records, id, Field::Username, username));
    }
}

/// An update of an account writes the fields that are present in what was
/// sent and no others. The identifier stays, whether or not one was sent;
/// every other account stays as it was; and where no account has the
/// identifier, nothing changes.
pub proof fn lemma_update_user_writes_present_fields(
    records: Collection<UserView>,
    id: Seq<char>,
    sent: UserView,
    fresh: Seq<u8>,
)
    requires
        is_id_text(id),
    ensures
        update_query(id, sent.without_id()) == Ok::<Query<UserView>, RepoError>(
            Query::Update(bytes_of_hex(id), sent.without_id()),
        ),
        ({
            let key = bytes_of_hex(id);
            let next = after::<User>(records, Query::Update(key, sent.without_id()), fresh);
            &&& forall|other: Seq<u8>|
                other != key ==> #[trigger] lookup(next, other) == lookup(records, other)
            &&& lookup(records, key) is None ==> next == records
            &&& lookup(records, key) matches Some(stored) ==> lookup(next, key) == Some(
                UserView {
                    id: stored.id,
                    firstname: present_or(sent.firstname, stored.firstname),
                    lastname: present_or(sent.lastname, stored.lastname),
                    username: present_or(sent.username, stored.username),
                    email: present_or(sent.email, stored.email),
                    password: present_or(sent.password, stored.password),
                    role: present_or(sent.role, stored.role),
                },
            )
        }),
{
}

/// An update of a document writes the fields that are present in what was
/// sent and no others. Identifier and owner stay, whether or not the client
/// sent others; every other document stays as it was; and where no document
/// has the identifier, nothing changes.
pub proof fn lemma_update_document_writes_present_fields(
    records: Collection<DocumentView>,
    id: Seq<char>,
    sent: DocumentView,
    fresh: Seq<u8>,
)
    requires
        is_id_text(id),
    ensures
        update_query(id, sent.client_fields()) == Ok::<Query<DocumentView>, RepoError>(
            Query::Update(bytes_of_hex(id), sent.client_fields()),
        ),
        ({
            let key = bytes_of_hex(id);
            let next = after::<Document>(records, Query::Update(key, sent.client_fields()), fresh);
            &&& forall|other: Seq<u8>|
                other != key ==> #[trigger] lookup(next, other) == lookup(records, other)
            &&& lookup(records, key) is None ==> next == records
            &&& lookup(records, key) matches Some(stored) ==> lookup(next, key) == Some(
                DocumentView {
                    id: stored.id,
                    owner_id: stored.owner_id,
                    title: present_or(sent.title, stored.title),
                    content: present_or(sent.content, stored.content),
                    date_created: present_or(sent.date_created, stored.date_created),
                    last_modified: present_or(sent.last_modified, stored.last_modified),
                },
            )
        }),
{
}

/// An update that sends a title, and besides it at most an identifier and an
/// owner, changes the title of the document and nothing else.
pub proof fn lemma_title_update_changes_title_alone(
    records: Collection<DocumentView>,
    id: Seq<char>,
    sent: DocumentView,
    fresh: Seq<u8>,
)
    requires
        is_id_text(id),
        sent.title is Some,
        sent.content is None,
        sent.date_created is None,
        sent.last_modified is None,
    ensures
        lookup(records, bytes_of_hex(id)) matches Some(stored) ==> lookup(
            after::<Document>(
                records,
                Query::Update(bytes_of_hex(id), sent.client_fields()),
                fresh,
            ),
            bytes_of_hex(id),
        ) == Some(DocumentView { title: sent.title, ..stored }),
{
}

} // verus!
