pub mod extractor;
pub mod repository;
pub mod service;
