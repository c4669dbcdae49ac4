pub mod article_tags;
pub mod articles;
pub mod favorites;
pub mod follows;
pub mod tags;
pub mod users;
