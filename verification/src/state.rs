//! The records of the exchange and the tables that belong to them.

use crate::identity::Identity;
use vstd::prelude::*;
use vstd::utf8::encode_utf8;

verus! {

/// How rare a card is, from the most common tier to the rarest.
#[derive(Clone, Copy, Debug, PartialEq, Eq, Structural)]
pub enum CardRarity {
    Common,
    Uncommon,
    Rare,
    Epic,
    Legendary,
    Mythic,
}

/// The element a card belongs to.
#[derive(Clone, Copy, Debug, PartialEq, Eq, Structural)]
pub enum CardElement {
    Fire,
    Water,
    Earth,
    Air,
    Light,
    Dark,
    Neutral,
}

impl CardRarity {
    /// The position of the tier, counted from `Common` at zero.
    pub open spec fn rank(&self) -> nat {
        match self {
            CardRarity::Common => 0,
            CardRarity::Uncommon => 1,
            CardRarity::Rare => 2,
            CardRarity::Epic => 3,
            CardRarity::Legendary => 4,
            CardRarity::Mythic => 5,
        }
    }

    /// The highest level a card of this tier can reach.
    pub open spec fn spec_max_level(&self) -> u8 {
        match self {
            CardRarity::Common => 10,
            CardRarity::Uncommon => 15,
            CardRarity::Rare => 20,
            CardRarity::Epic => 25,
            CardRarity::Legendary => 30,
            CardRarity::Mythic => 40,
        }
    }

    /// The highest level a card of this tier can reach.
    #[verifier::when_used_as_spec(spec_max_level)]
    pub fn max_level(&self) -> (cap: u8)
        ensures
            cap == self.spec_max_level(),
            10 <= cap <= 40,
    {
        match self {
            CardRarity::Common => 10,
            CardRarity::Uncommon => 15,
            CardRarity::Rare => 20,
            CardRarity::Epic => 25,
            CardRarity::Legendary => 30,
            CardRarity::Mythic => 40,
        }
    }

    /// Attack, defense and health of a freshly minted card of this tier.
    pub open spec fn spec_base_stats(&self) -> (u8, u8, u8) {
        match self {
            CardRarity::Common => (3, 3, 10),
            CardRarity::Uncommon => (5, 5, 15),
            CardRarity::Rare => (8, 8, 20),
            CardRarity::Epic => (12, 12, 25),
            CardRarity::Legendary => (18, 18, 30),
            CardRarity::Mythic => (25, 25, 40),
        }
    }

    /// Attack, defense and health of a freshly minted card of this tier.
    #[verifier::when_used_as_spec(spec_base_stats)]
    pub fn base_stats(&self) -> (stats: (u8, u8, u8))
        ensures
            stats == self.spec_base_stats(),
    {
        match self {
            CardRarity::Common => (3, 3, 10),
            CardRarity::Uncommon => (5, 5, 15),
            CardRarity::Rare => (8, 8, 20),
            CardRarity::Epic => (12, 12, 25),
            CardRarity::Legendary => (18, 18, 30),
            CardRarity::Mythic => (25, 25, 40),
        }
    }

    /// What one level adds to attack and to defense; health grows by twice
    /// as much.
    pub open spec fn spec_stat_increase(&self) -> u8 {
        match self {
            CardRarity::Common => 1,
            CardRarity::Uncommon => 2,
            CardRarity::Rare => 3,
            CardRarity::Epic => 4,
            CardRarity::Legendary => 5,
            CardRarity::Mythic => 7,
        }
    }

    /// What one level adds to attack and to defense; health grows by twice
    /// as much.
    #[verifier::when_used_as_spec(spec_stat_increase)]
    pub fn stat_increase(&self) -> (step: u8)
        ensures
            step == self.spec_stat_increase(),
            1 <= step <= 7,
    {
        match self {
            CardRarity::Common => 1,
            CardRarity::Uncommon => 2,
            CardRarity::Rare => 3,
            CardRarity::Epic => 4,
            CardRarity::Legendary => 5,
            CardRarity::Mythic => 7,
        }
    }
}

impl CardElement {
    /// The element that this one beats, if there is one.
    pub open spec fn spec_advantage_against(&self) -> Option<CardElement> {
        match self {
            CardElement::Fire => Some(CardElement::Earth),
            CardElement::Water => Some(CardElement::Fire),
            CardElement::Earth => Some(CardElement::Air),
            CardElement::Air => Some(CardElement::Water),
            CardElement::Light => Some(CardElement::Dark),
            CardElement::Dark => Some(CardElement::Light),
            CardElement::Neutral => None,
        }
    }

    /// The element that this one beats, if there is one.
    #[verifier::when_used_as_spec(spec_advantage_against)]
    pub fn advantage_against(&self) -> (beaten: Option<CardElement>)
        ensures
            beaten == self.spec_advantage_against(),
    {
        match self {
            CardElement::Fire => Some(CardElement::Earth),
            CardElement::Water => Some(CardElement::Fire),
            CardElement::Earth => Some(CardElement::Air),
            CardElement::Air => Some(CardElement::Water),
            CardElement::Light => Some(CardElement::Dark),
            CardElement::Dark => Some(CardElement::Light),
            CardElement::Neutral => None,
        }
    }

    /// The element that beats this one, if there is one.
    pub open spec fn spec_disadvantage_against(&self) -> Option<CardElement> {
        match self {
            CardElement::Fire => Some(CardElement::Water),
            CardElement::Water => Some(CardElement::Air),
            CardElement::Earth => Some(CardElement::Fire),
            CardElement::Air => Some(CardElement::Earth),
            CardElement::Light => Some(CardElement::Dark),
            CardElement::Dark => Some(CardElement::Light),
            CardElement::Neutral => None,
        }
    }

    /// The element that beats this one, if there is one.
    #[verifier::when_used_as_spec(spec_disadvantage_against)]
    pub fn disadvantage_against(&self) -> (beating: Option<CardElement>)
        ensures
            beating == self.spec_disadvantage_against(),
    {
        match self {
            CardElement::Fire => Some(CardElement::Water),
            CardElement::Water => Some(CardElement::Air),
            CardElement::Earth => Some(CardElement::Fire),
            CardElement::Air => Some(CardElement::Earth),
            CardElement::Light => Some(CardElement::Dark),
            CardElement::Dark => Some(CardElement::Light),
            CardElement::Neutral => None,
        }
    }
}

/// A collectible card: its identity, its combat statistics, how far it has
/// progressed and whether it is for sale.
#[derive(Clone, Debug, PartialEq, Eq)]
pub struct PookieCard {
    /// The card's token, by which listings and auctions refer to the card.
    pub mint: Identity,
    pub owner: Identity,
    pub card_id: u64,
    pub name: String,
    pub rarity: CardRarity,
    pub element: CardElement,
    pub attack: u8,
    pub defense: u8,
    pub health: u8,
    pub special_ability: Option<String>,
    pub level: u8,
    pub experience: u32,
    pub created_at: i64,
    pub last_updated: i64,
    pub is_listed: bool,
    pub listing_price: Option<u64>,
}

impl PookieCard {
    /// A card's level lies between one and the cap of its tier, and a card
    /// that is for sale has an asking price.
    pub open spec fn wf(&self) -> bool {
        &&& 1 <= self.level <= self.rarity.spec_max_level()
        &&& self.is_listed ==> self.listing_price is Some
    }
}

/// The one record of the whole exchange: who runs it, what it charges and
/// what has been traded so far.
#[derive(Clone, Copy, Debug, PartialEq, Eq)]
pub struct Marketplace {
    pub authority: Identity,
    /// The fee in basis points: 100 is one percent.
    pub fee_percentage: u16,
    pub total_volume: u64,
    pub total_sales: u64,
    pub created_at: i64,
}

/// The highest fee an exchange may charge, in basis points: ten percent.
pub const MAX_FEE_PERCENTAGE: u16 = 1000;

impl Marketplace {
    /// The fee is at most ten percent.
    pub open spec fn wf(&self) -> bool {
        self.fee_percentage <= MAX_FEE_PERCENTAGE
    }
}

/// A card offered at a fixed price. The record exists exactly as long as the
/// offer stands.
#[derive(Clone, Copy, Debug, PartialEq, Eq)]
pub struct Listing {
    pub seller: Identity,
    pub mint: Identity,
    pub price: u64,
    pub created_at: i64,
    pub is_active: bool,
}

impl Listing {
    /// A listing asks a positive price.
    pub open spec fn wf(&self) -> bool {
        self.price > 0
    }
}

/// A card offered to the highest bidder until a fixed time. The record exists
/// until the auction is settled.
#[derive(Clone, Copy, Debug, PartialEq, Eq)]
pub struct Auction {
    pub seller: Identity,
    pub mint: Identity,
    pub starting_price: u64,
    pub current_bid: Option<u64>,
    pub current_bidder: Option<Identity>,
    pub end_time: i64,
    pub created_at: i64,
    pub is_active: bool,
}

impl Auction {
    /// An auction starts at a positive price, and it records a highest bid
    /// exactly when it records who made it.
    pub open spec fn wf(&self) -> bool {
        &&& self.starting_price > 0
        &&& self.current_bid is Some <==> self.current_bidder is Some
    }
}

/// A named group of cards with an optional limit on how many it may hold.
#[derive(Clone, Debug, PartialEq, Eq)]
pub struct CardCollection {
    pub authority: Identity,
    pub name: String,
    pub description: String,
    pub total_cards: u64,
    pub max_supply: Option<u64>,
    pub created_at: i64,
    pub is_active: bool,
}

/// The longest name of a collection, in bytes.
pub const MAX_COLLECTION_NAME_LEN: usize = 50;

/// The longest description of a collection, in bytes.
pub const MAX_COLLECTION_DESCRIPTION_LEN: usize = 200;

impl CardCollection {
    /// A collection has a name of one to fifty bytes and a description of at
    /// most two hundred.
    pub open spec fn wf(&self) -> bool {
        &&& self.name@.len() > 0
        &&& encode_utf8(self.name@).len() <= MAX_COLLECTION_NAME_LEN
        &&& encode_utf8(self.description@).len() <= MAX_COLLECTION_DESCRIPTION_LEN
    }
}

/// What one participant has done on the exchange.
#[derive(Clone, Copy, Debug, PartialEq, Eq)]
pub struct UserStats {
    pub owner: Identity,
    pub cards_owned: u64,
    pub cards_minted: u64,
    pub total_spent: u64,
    pub total_earned: u64,
    pub battles_won: u32,
    pub battles_lost: u32,
    pub experience: u64,
    pub level: u8,
    pub created_at: i64,
    pub last_activity: i64,
}

/// The highest level an account can reach.
pub const MAX_USER_LEVEL: u8 = 100;

impl UserStats {
    /// An account's level lies between one and one hundred.
    pub open spec fn wf(&self) -> bool {
        1 <= self.level <= MAX_USER_LEVEL
    }
}

} // verus!
