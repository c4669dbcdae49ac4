pub mod article;
pub mod auth;
pub mod favorite;
pub mod tag;
