//! A user directory: the `User` entity, the repository contract with an
//! in-memory backend, and the services and use cases built on top of it.
pub mod config;
pub mod dto;
pub mod error;
pub mod laws;
pub mod memory;
pub mod repository;
pub mod service;
pub mod status;
pub mod use_cases;
pub mod user;
