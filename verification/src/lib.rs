//! The core of a small HTTP service that keeps a list of todos in a SQLite
//! table: the records and their JSON form, the statements the repository
//! issues and the order in which it issues them, the decoding of result rows,
//! the route table and the mapping of outcomes to HTTP responses.
//!
//! Nothing here performs I/O. A host executes each [`statement::Statement`]
//! against its database and hands the reply back; [`store::TodoStore`] is an
//! engine that does so in memory.

pub mod commands;
pub mod error;
pub mod handlers;
pub mod http;
pub mod json;
pub mod laws;
pub mod models;
pub mod protocol;
pub mod queries;
pub mod repository;
pub mod request;
pub mod router;
pub mod service;
pub mod sqlite;
pub mod statement;
pub mod store;
pub mod text;

