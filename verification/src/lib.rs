//! Gift card lifecycle: a domain kernel with typed state transitions, a
//! repository contract built on version-stamped compare-and-set updates, and a
//! service that composes both under one error taxonomy.

pub mod config;
pub mod db;
pub mod messages;
pub mod models;
pub mod services;
pub mod trusted;

pub use config::{Config, DatabaseConfig};
