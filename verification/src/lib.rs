//! The client side of a WiredTiger database, without the database.
//!
//! A program talks to the storage engine through three kinds of handle: a
//! [`Connection`] to an opened database, a [`Session`] in which work is done,
//! and a [`Cursor`] over one table. This crate holds the rules of their
//! lives: which engine call each operation asks for, with which arguments,
//! when a handle gives its native resource back, and what the engine's
//! status codes mean. It never calls the engine itself. Each operation hands
//! out a [`Call`]; the caller performs it and brings the engine's answer
//! back.

pub mod connection;
pub mod cursor;
pub mod decimal;
pub mod engine;
pub mod error;
pub mod lifecycle;
pub mod session;

pub use connection::Connection;
pub use cursor::Cursor;
pub use engine::Call;
pub use error::Error;
pub use session::Session;
