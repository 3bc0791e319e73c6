//! Persistence: what a repository makes of a store's answers, and a store
//! that lives in memory.

pub mod gift_card;
pub mod memory;

pub use gift_card::{find_outcome, save_outcome, update_outcome};
pub use memory::InMemoryRepository;
