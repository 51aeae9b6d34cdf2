//! Accounts.

use crate::object_id::StoreId;
use crate::store::{Field, Record};
use crate::text::{lowercase_of, lowered, to_lower_case, to_lower_case_optional};
use vstd::prelude::*;

verus! {

/// What an account may do.
#[derive(Clone, Copy, Debug, PartialEq, Eq, Structural)]
pub enum RoleEnum {
    User,
    Administrator,
}

/// An account as the store keeps it, or a part of one: a field that is `None`
/// is absent. Once stored, `password` holds a hash, never the password.
#[derive(Clone, Debug, PartialEq, Eq)]
pub struct User {
    pub id: Option<StoreId>,
    pub firstname: Option<String>,
    pub lastname: Option<String>,
    pub username: Option<String>,
    pub email: Option<String>,
    pub password: Option<String>,
    pub role: Option<RoleEnum>,
}

/// A username alone.
#[derive(Clone, Debug, PartialEq, Eq)]
pub struct UserName {
    pub username: String,
}

/// The mathematical value of a `User`.
pub struct UserView {
    pub id: Option<Seq<u8>>,
    pub firstname: Option<Seq<char>>,
    pub lastname: Option<Seq<char>>,
    pub username: Option<Seq<char>>,
    pub email: Option<Seq<char>>,
    pub password: Option<Seq<char>>,
    pub role: Option<RoleEnum>,
}

/// The value of an identifier that may be absent.
pub open spec fn id_view(id: Option<StoreId>) -> Option<Seq<u8>> {
    match id {
        Some(id) => Some(id@),
        None => None,
    }
}

/// `set` where it is present, else `stored`.
pub open spec fn present_or<T>(set: Option<T>, stored: Option<T>) -> Option<T> {
    if set is Some {
        set
    } else {
        stored
    }
}

impl View for User {
    type V = UserView;

    open spec fn view(&self) -> UserView {
        UserView {
            id: id_view(self.id),
            firstname: self.firstname.deep_view(),
            lastname: self.lastname.deep_view(),
            username: self.username.deep_view(),
            email: self.email.deep_view(),
            password: self.password.deep_view(),
            role: self.role,
        }
    }
}

impl UserView {
    /// The account with every field absent.
    pub open spec fn empty() -> UserView {
        UserView {
            id: None,
            firstname: None,
            lastname: None,
            username: None,
            email: None,
            password: None,
            role: None,
        }
    }

    /// The same account with no identifier.
    pub open spec fn without_id(self) -> UserView {
        UserView { id: None, ..self }
    }

    /// The stored account `self` after the fields that are present in `set`
    /// were written over it. The identifier is never written.
    pub open spec fn overlaid(self, set: UserView) -> UserView {
        UserView {
            id: self.id,
            firstname: present_or(set.firstname, self.firstname),
            lastname: present_or(set.lastname, self.lastname),
            username: present_or(set.username, self.username),
            email: present_or(set.email, self.email),
            password: present_or(set.password, self.password),
            role: present_or(set.role, self.role),
        }
    }
}

impl Record for User {
    open spec fn key(record: UserView) -> Option<Seq<u8>> {
        record.id
    }

    open spec fn with_key(record: UserView, key: Option<Seq<u8>>) -> UserView {
        UserView { id: key, ..record }
    }

    open spec fn text(record: UserView, field: Field) -> Option<Seq<char>> {
        match field {
            Field::Username => record.username,
            Field::Email => record.email,
        }
    }

    open spec fn overlay(stored: UserView, set: UserView) -> UserView {
        stored.overlaid(set)
    }

    proof fn overlay_keeps_key(stored: UserView, set: UserView) {
    }

    proof fn with_key_has_key(record: UserView, key: Option<Seq<u8>>) {
    }
}

impl Default for User {
    /// The account with every field absent.
    fn default() -> (user: User)
        ensures
            user@ == UserView::empty(),
    {
        User {
            id: None,
            firstname: None,
            lastname: None,
            username: None,
            email: None,
            password: None,
            role: None,
        }
    }
}

impl UserName {
    /// The username as it is taken in: in lower case.
    pub fn lower_cased(self) -> (name: UserName)
        ensures
            name.username@ == lowercase_of(self.username@),
    {
        UserName { username: to_lower_case(self.username.as_str()) }
    }
}

impl User {
    /// The account as it is taken in: the first name in lower case, all else
    /// as it was sent.
    pub fn lower_cased(self) -> (user: User)
        ensures
            user@ == (UserView { firstname: lowered(self@.firstname), ..self@ }),
    {
        User {
            id: self.id,
            firstname: to_lower_case_optional(self.firstname),
            lastname: self.lastname,
            username: self.username,
            email: self.email,
            password: self.password,
            role: self.role,
        }
    }

    /// Takes the identifier off.
    pub fn remove_id(&mut self)
        ensures
            final(self)@ == old(self)@.without_id(),
    {
        self.id = None;
    }

    /// The stored account `self` after the fields that are present in `set`
    /// were written over it.
    pub fn with_update(self, set: User) -> (updated: User)
        ensures
            updated@ == self@.overlaid(set@),
    {
        User {
            id: self.id,
            firstname: pick(set.firstname, self.firstname),
            lastname: pick(set.lastname, self.lastname),
            username: pick(set.username, self.username),
            email: pick(set.email, self.email),
            password: pick(set.password, self.password),
            role: pick(set.role, self.role),
        }
    }

}

impl From<UserName> for User {
    /// An account of which only the username is known.
    fn from(u: UserName) -> (user: User) {
        User {
            id: None,
            firstname: None,
            lastname: None,
            username: Some(u.username),
            email: None,
            password: None,
            role: None,
        }
    }
}

impl vstd::std_specs::convert::FromSpecImpl<UserName> for User {
    open spec fn obeys_from_spec() -> bool {
        true
    }

    open spec fn from_spec(u: UserName) -> User {
        User {
            id: None,
            firstname: None,
            lastname: None,
            username: Some(u.username),
            email: None,
            password: None,
            role: None,
        }
    }
}

/// `set` where it is present, else `stored`.
pub fn pick<T>(set: Option<T>, stored: Option<T>) -> (r: Option<T>)
    ensures
        r == present_or(set, stored),
{
    match set {
        Some(value) => Some(value),
        None => stored,
    }
}

} // verus!
