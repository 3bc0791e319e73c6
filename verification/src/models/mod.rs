//! The domain model: amounts, gift cards, what can go wrong with them, and
//! what a store of them owes its callers.

pub mod amount;
pub mod gift_card;
pub mod repository;

pub use amount::Amount;
pub use gift_card::{GiftCard, GiftCardError, GiftCardStatus, GiftCardView};
pub use repository::{GiftCardRepository, RepositoryError};
