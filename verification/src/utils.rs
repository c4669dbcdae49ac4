pub mod article;
pub mod jwt;
pub mod password;
pub mod text;
