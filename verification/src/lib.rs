//! A key-value store of JSON documents behind HTTP: keys composed of an
//! environment and an application, one table in SQLite, and the routes
//! that lead to it.

pub mod gateway;
pub mod json;
pub mod key;
pub mod sqlite;
pub mod store;
pub mod table;
