//! User records behind a transaction-scoped repository: validated value
//! objects, the `User` aggregate, and use cases that run inside one
//! transaction which is then committed or rolled back by their outcome.

pub mod domain;
pub mod factory;
pub mod transaction;
pub mod repository;
pub mod service;
pub mod use_case;
pub mod controller;
pub mod config;
