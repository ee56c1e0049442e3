pub mod book;
pub mod error;
pub mod query;
pub mod reply;
pub mod vector;
