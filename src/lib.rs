//! A small note store kept in an SQLite table, with the editing session
//! that drives it.

pub mod stamp;
pub mod store;
pub mod session;
pub mod laws;
