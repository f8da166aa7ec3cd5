//! The rules of an exchange for collectible cards: who owns a card, how a
//! card is listed, bought and auctioned while its token rests in escrow, how
//! the fee of a sale is split, and how cards and accounts gain experience and
//! levels.
//!
//! Every operation works on the records it is handed and on the time it is
//! told, and either carries out all of its changes or none. Where the token
//! ledger or the metadata registry of the host has to act, the operation
//! names what it asks of the host, submits it, and concludes according to the
//! answer.

pub mod error;
pub mod escrow;
pub mod identity;
pub mod instructions;
pub mod laws;
pub mod publishing;
pub mod state;

pub use error::{ErrorCode, Failure};
pub use identity::Identity;
pub use instructions::card_management::{
    add_experience, create_collection, get_required_experience, get_user_required_experience,
    level_up_card, transfer_card, update_card_stats, AddExperience, CreateCollection,
    LevelUpCard, TransferCard, UpdateCardStats,
};
pub use instructions::marketplace::{
    buy_card, cancel_listing, create_auction, end_auction, initialize_marketplace, list_card,
    place_bid, split_price, BuyCard, CancelListing, CreateAuction, EndAuction,
    InitializeMarketplace, ListCard, PlaceBid,
};
pub use instructions::mint_card::{
    handler, initialize_user_stats, InitializeUserStats, MintCard,
};
pub use state::{
    Auction, CardCollection, CardElement, CardRarity, Listing, Marketplace, PookieCard, UserStats,
};
