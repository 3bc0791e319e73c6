//! Use-case orchestration over the domain model and a repository.

pub mod gift_card;

pub use gift_card::{concluded, for_redemption, for_sale, GiftCardService, ServiceError};
