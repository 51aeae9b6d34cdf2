//! Authentication and persistence rules of a small REST backend.

pub mod api;
pub mod error;
pub mod guard;
pub mod hasher;
pub mod models;
pub mod object_id;
pub mod repository;
pub mod store;
pub mod text;
pub mod token;
pub mod users;
