//! The operations of the exchange, grouped as their requests are.

pub mod card_management;
pub mod marketplace;
pub mod mint_card;
