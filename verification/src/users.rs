//! The first, plain user records, with name, colour and age, in a collection
//! of their own.

pub mod handler;
pub mod repository;

use crate::models::user_model::{id_view, present_or};
use crate::object_id::StoreId;
use crate::store::{Field, Record};
use vstd::prelude::*;

verus! {

/// The name of the collection that holds these records.
pub const COLLECTION: &'static str = "users";

/// Why a request for the plain user records failed.
#[derive(Clone, Copy, Debug, PartialEq, Eq, Structural)]
pub enum UsersError {
    /// The store has lost the cursor of a listing.
    CursorNotFound,
    /// The text of an identifier could not be read.
    UnreadableId,
    /// A record could not be written for the store, or read from its answer.
    Conversion,
    /// Any other failure of the store.
    Store,
}

/// A user record as the store keeps it.
#[derive(Clone, Debug, PartialEq, Eq)]
pub struct User {
    pub id: Option<StoreId>,
    pub name: Option<String>,
    pub color: Option<String>,
    pub age: Option<i32>,
}

/// A user record as it is handed to the store for insertion: without
/// identifier, which the store gives.
#[derive(Clone, Debug, PartialEq, Eq)]
pub struct InsertableUser {
    pub name: Option<String>,
    pub color: Option<String>,
    pub age: Option<i32>,
}

/// The mathematical value of a `User`.
pub struct UserView {
    pub id: Option<Seq<u8>>,
    pub name: Option<Seq<char>>,
    pub color: Option<Seq<char>>,
    pub age: Option<i32>,
}

/// The mathematical value of an `InsertableUser`.
pub struct InsertableUserView {
    pub name: Option<Seq<char>>,
    pub color: Option<Seq<char>>,
    pub age: Option<i32>,
}

impl View for User {
    type V = UserView;

    open spec fn view(&self) -> UserView {
        UserView {
            id: id_view(self.id),
            name: self.name.deep_view(),
            color: self.color.deep_view(),
            age: self.age,
        }
    }
}

impl View for InsertableUser {
    type V = InsertableUserView;

    open spec fn view(&self) -> InsertableUserView {
        InsertableUserView {
            name: self.name.deep_view(),
            color: self.color.deep_view(),
            age: self.age,
        }
    }
}

impl UserView {
    /// What of the record is handed to the store for insertion.
    pub open spec fn insertable(self) -> InsertableUserView {
        InsertableUserView { name: self.name, color: self.color, age: self.age }
    }
}

impl Record for User {
    open spec fn key(record: UserView) -> Option<Seq<u8>> {
        record.id
    }

    open spec fn with_key(record: UserView, key: Option<Seq<u8>>) -> UserView {
        UserView { id: key, ..record }
    }

    /// These records have no field that they are looked up by.
    open spec fn text(record: UserView, field: Field) -> Option<Seq<char>> {
        None
    }

    open spec fn overlay(stored: UserView, set: UserView) -> UserView {
        UserView {
            id: stored.id,
            name: present_or(set.name, stored.name),
            color: present_or(set.color, stored.color),
            age: present_or(set.age, stored.age),
        }
    }

    proof fn overlay_keeps_key(stored: UserView, set: UserView) {
    }

    proof fn with_key_has_key(record: UserView, key: Option<Seq<u8>>) {
    }
}

impl InsertableUser {
    /// What of a record is handed to the store for insertion.
    pub fn from_user(users: User) -> (insertable: InsertableUser)
        ensures
            insertable@ == users@.insertable(),
    {
        InsertableUser { name: users.name, color: users.color, age: users.age }
    }
}

} // verus!
