//! Request handling logic of a small axum course: each lesson's handlers,
//! extractors and error mappings as plain functions from request values to
//! response values, with the shared text helpers they are built from.

pub mod text;
pub mod library;
pub mod errors;
pub mod ids;
pub mod auth;
pub mod books_db;
pub mod realtime;
pub mod users;
pub mod inventory;
pub mod intro;
pub mod routing;
pub mod extractors;
pub mod responses;
