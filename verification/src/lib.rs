pub mod domain;
pub mod repo;
