//! The decisions of the HTTP handlers, apart from the store and the transport.

pub mod user;
