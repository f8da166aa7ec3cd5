//! Why an operation can leave the records as they are.

use anchor_lang::error::Error;
use vstd::prelude::*;

verus! {

/// The reasons for which the exchange turns a request down.
#[derive(Clone, Copy, Debug, PartialEq, Eq, Structural)]
pub enum ErrorCode {
    InvalidRarity,
    InvalidElement,
    CardNotFound,
    NotCardOwner,
    AlreadyListed,
    NotListed,
    InsufficientFunds,
    InvalidPrice,
    AuctionNotActive,
    AuctionExpired,
    BidTooLow,
    CannotBidOnOwnAuction,
    CollectionNotFound,
    MaxSupplyReached,
    InvalidLevel,
    MaxLevelReached,
    InsufficientExperience,
    Unauthorized,
    MarketplaceNotInitialized,
}

impl ErrorCode {
    /// The text shown to a user for this reason.
    pub open spec fn spec_message(self) -> Seq<char> {
        match self {
            ErrorCode::InvalidRarity => "Invalid card rarity"@,
            ErrorCode::InvalidElement => "Invalid card element"@,
            ErrorCode::CardNotFound => "Card not found"@,
            ErrorCode::NotCardOwner => "Not the card owner"@,
            ErrorCode::AlreadyListed => "Card already listed"@,
            ErrorCode::NotListed => "Card not listed"@,
            ErrorCode::InsufficientFunds => "Insufficient funds"@,
            ErrorCode::InvalidPrice => "Invalid price"@,
            ErrorCode::AuctionNotActive => "Auction not active"@,
            ErrorCode::AuctionExpired => "Auction expired"@,
            ErrorCode::BidTooLow => "Bid too low"@,
            ErrorCode::CannotBidOnOwnAuction => "Cannot bid on own auction"@,
            ErrorCode::CollectionNotFound => "Collection not found"@,
            ErrorCode::MaxSupplyReached => "Max supply reached"@,
            ErrorCode::InvalidLevel => "Invalid level"@,
            ErrorCode::MaxLevelReached => "Max level reached"@,
            ErrorCode::InsufficientExperience => "Insufficient experience"@,
            ErrorCode::Unauthorized => "Unauthorized access"@,
            ErrorCode::MarketplaceNotInitialized => "Marketplace not initialized"@,
        }
    }

    /// The text shown to a user for this reason.
    pub fn message(&self) -> (text: &'static str)
        ensures
            text@ == self.spec_message(),
    {
        match self {
            ErrorCode::InvalidRarity => "Invalid card rarity",
            ErrorCode::InvalidElement => "Invalid card element",
            ErrorCode::CardNotFound => "Card not found",
            ErrorCode::NotCardOwner => "Not the card owner",
            ErrorCode::AlreadyListed => "Card already listed",
            ErrorCode::NotListed => "Card not listed",
            ErrorCode::InsufficientFunds => "Insufficient funds",
            ErrorCode::InvalidPrice => "Invalid price",
            ErrorCode::AuctionNotActive => "Auction not active",
            ErrorCode::AuctionExpired => "Auction expired",
            ErrorCode::BidTooLow => "Bid too low",
            ErrorCode::CannotBidOnOwnAuction => "Cannot bid on own auction",
            ErrorCode::CollectionNotFound => "Collection not found",
            ErrorCode::MaxSupplyReached => "Max supply reached",
            ErrorCode::InvalidLevel => "Invalid level",
            ErrorCode::MaxLevelReached => "Max level reached",
            ErrorCode::InsufficientExperience => "Insufficient experience",
            ErrorCode::Unauthorized => "Unauthorized access",
            ErrorCode::MarketplaceNotInitialized => "Marketplace not initialized",
        }
    }
}

/// The error that the host's programs report. Nothing here looks inside it:
/// it is only handed on to the caller.
#[verifier::external_type_specification]
#[verifier::external_body]
pub struct ExError(Error);

/// Why an operation left every record as it found it.
#[derive(Debug, PartialEq, Eq)]
pub enum Failure {
    /// A rule of the exchange turned the request down.
    Rejected(ErrorCode),
    /// A counter, a statistic or a timestamp would leave the range of its
    /// integer type.
    Overflow,
    /// A program of the host on which the operation relies, such as the
    /// token ledger, answered with an error.
    Host(Error),
}

} // verus!
