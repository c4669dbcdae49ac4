//! The logic of a Medium-like blogging API ("RealWorld"/Conduit): users and sessions,
//! articles with slugs and tags, favorites, and the errors the API answers with.
//! Storage and HTTP stand outside this crate; the functions here take what was read
//! and return what is to be written or answered.
pub mod app_error;
pub mod dto;
pub mod handlers;
pub mod middleware;
pub mod models;
pub mod utils;
