//! A bilateral commitment record that two parties sign independently,
//! with an optional expiry after which no signature is accepted.

pub mod cx;
pub mod ident;
pub mod laws;
pub mod timestamp;
