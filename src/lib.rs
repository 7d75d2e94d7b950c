//! A credential-and-ledger store: users with bcrypt-hashed passwords and
//! append-only point-to-point transfers, kept in a single-file SQL database.
//!
//! The library decides what is written and how failures are reported; the
//! application layer runs the statements it produces against the database.
pub mod error;
pub mod password;
pub mod schema;
pub mod store;

pub use error::UBaseErr;
pub use store::{NewTransfer, NewUser, UserBase};
