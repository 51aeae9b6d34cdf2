//! The records that the store keeps.

pub mod document;
pub mod user_model;
