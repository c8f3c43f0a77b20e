pub mod auth;
pub mod config;
pub mod error;
pub mod jwt;
pub mod password;
pub mod response;
pub mod sql;
pub mod text;
pub mod time;
pub mod todo;
pub mod validation;
