pub mod filter_pagination;
pub mod repository;
pub mod service;
