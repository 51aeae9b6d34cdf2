//! What the handlers of accounts and documents decide: what is asked of the
//! store for a request, what is done with the answer, and the status of a
//! failure.

pub mod document;
pub mod user;
