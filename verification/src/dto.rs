pub mod article;
pub mod auth;
pub mod favorite;
pub mod profile;
pub mod tag;
