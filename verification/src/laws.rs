//! What holds of the operations taken together: the invariants of the
//! records and the laws that relate one operation to another.

use crate::error::{ErrorCode, Failure};
use crate::identity::Identity;
use crate::instructions::card_management::{
    add_experience_done, card_with_stats, level_up_card_done, level_up_card_rejection,
    required_experience, transfer_card_done, transfer_card_rejection, user_required_experience,
    AddExperience, LevelUpCard, TransferCard,
};
use crate::instructions::marketplace::{
    auction_after_bid, buy_card_done, buy_card_rejection, cancel_listing_done,
    cancel_listing_rejection, cancel_listing_transfer, create_auction_done,
    create_auction_rejection, delisted_card, end_auction_done, end_auction_rejection,
    list_card_done, list_card_rejection, list_card_transfer, min_bid, place_bid_done,
    place_bid_rejection, sale_fee, sale_overflows, seller_proceeds, BuyCard, CancelListing,
    CreateAuction, EndAuction, ListCard, PlaceBid, BASIS_POINTS,
};
use crate::instructions::mint_card::{handler_done, handler_rejection, MintCard};
use crate::state::{Auction, CardElement, CardRarity, Listing, PookieCard};
use vstd::prelude::*;

verus! {

/// Whether the three records that the store keeps for one card agree: the
/// card's listing and its auction never exist together, the card is marked
/// as listed exactly when one of them exists, and the one that exists is
/// active, refers to the card, was made by the card's owner and asks the
/// price that the card shows.
pub open spec fn sale_records_agree(
    card: PookieCard,
    listing: Option<Listing>,
    auction: Option<Auction>,
) -> bool {
    &&& !(listing is Some && auction is Some)
    &&& card.is_listed <==> (listing is Some || auction is Some)
    &&& listing matches Some(offer) ==> {
        &&& offer.mint == card.mint
        &&& offer.seller == card.owner
        &&& offer.is_active
        &&& offer.wf()
        &&& card.listing_price == Some(offer.price)
    }
    &&& auction matches Some(offer) ==> {
        &&& offer.mint == card.mint
        &&& offer.seller == card.owner
        &&& offer.is_active
        &&& offer.wf()
        &&& card.listing_price == Some(offer.starting_price)
    }
}

/// Where a card's records agree, the card is marked as listed if and only if
/// exactly one of the two, a listing or an auction, exists for it; and
/// whichever exists refers to the card.
pub proof fn lemma_listed_iff_one_sale_record(
    card: PookieCard,
    listing: Option<Listing>,
    auction: Option<Auction>,
)
    requires
        sale_records_agree(card, listing, auction),
    ensures
        card.is_listed <==> (listing is Some) != (auction is Some),
        listing matches Some(offer) ==> offer.mint == card.mint,
        auction matches Some(offer) ==> offer.mint == card.mint,
        card.is_listed ==> card.listing_price is Some,
{
}

/// A card without a listing and without an auction, not marked as listed,
/// has records that agree: this is the state in which a card is minted.
pub proof fn lemma_unlisted_card_agrees(card: PookieCard)
    requires
        !card.is_listed,
    ensures
        sale_records_agree(card, None, None),
{
}

/// Listing a card keeps its records in agreement.
pub proof fn lemma_list_card_keeps_agreement<'info>(
    ctx: ListCard<'info>,
    auction: Option<Auction>,
    price: u64,
    now: i64,
)
    requires
        sale_records_agree(ctx.pookie_card, ctx.listing, auction),
        list_card_rejection(ctx, price) is None,
    ensures
        ({
            let after = list_card_done(ctx, price, now);
            sale_records_agree(after.pookie_card, after.listing, auction)
        }),
{
}

/// Buying a listed card keeps its records in agreement.
pub proof fn lemma_buy_card_keeps_agreement<'info>(
    ctx: BuyCard<'info>,
    auction: Option<Auction>,
    now: i64,
)
    requires
        sale_records_agree(ctx.pookie_card, ctx.listing, auction),
        buy_card_rejection(ctx) is None,
    ensures
        ({
            let after = buy_card_done(ctx, now);
            sale_records_agree(after.pookie_card, after.listing, auction)
        }),
{
}

/// Withdrawing a listing keeps the card's records in agreement.
pub proof fn lemma_cancel_listing_keeps_agreement<'info>(
    ctx: CancelListing<'info>,
    auction: Option<Auction>,
)
    requires
        sale_records_agree(ctx.pookie_card, ctx.listing, auction),
        cancel_listing_rejection(ctx) is None,
    ensures
        ({
            let after = cancel_listing_done(ctx);
            sale_records_agree(after.pookie_card, after.listing, auction)
        }),
{
}

/// Opening an auction keeps the card's records in agreement.
pub proof fn lemma_create_auction_keeps_agreement<'info>(
    ctx: CreateAuction<'info>,
    listing: Option<Listing>,
    starting_price: u64,
    duration: i64,
    now: i64,
)
    requires
        sale_records_agree(ctx.pookie_card, listing, ctx.auction),
        create_auction_rejection(ctx, starting_price, duration, now) is None,
    ensures
        ({
            let after = create_auction_done(ctx, starting_price, duration, now);
            sale_records_agree(after.pookie_card, listing, after.auction)
        }),
{
}

/// An accepted bid keeps the card's records in agreement.
pub proof fn lemma_place_bid_keeps_agreement(
    ctx: PlaceBid,
    card: PookieCard,
    listing: Option<Listing>,
    bid_amount: u64,
    now: i64,
)
    requires
        sale_records_agree(card, listing, Some(ctx.auction)),
        place_bid_rejection(ctx, bid_amount, now) is None,
    ensures
        sale_records_agree(card, listing, Some(place_bid_done(ctx, bid_amount).auction)),
{
}

/// Settling an auction keeps the card's records in agreement, whether the
/// card was bid for or not.
pub proof fn lemma_end_auction_keeps_agreement<'info>(
    ctx: EndAuction<'info>,
    listing: Option<Listing>,
    now: i64,
)
    requires
        sale_records_agree(ctx.pookie_card, listing, ctx.auction),
        end_auction_rejection(ctx, now) is None,
    ensures
        ({
            let after = end_auction_done(ctx, now);
            sale_records_agree(after.pookie_card, listing, after.auction)
        }),
{
}

/// Handing a card over keeps its records in agreement: only a card that is
/// not on sale can be handed over, so no record names the former owner.
pub proof fn lemma_transfer_card_keeps_agreement<'info>(
    ctx: TransferCard<'info>,
    listing: Option<Listing>,
    auction: Option<Auction>,
    now: i64,
)
    requires
        sale_records_agree(ctx.pookie_card, listing, auction),
        transfer_card_rejection(ctx) is None,
    ensures
        sale_records_agree(transfer_card_done(ctx, now).pookie_card, listing, auction),
{
}

/// Leveling a card up, granting it experience and overwriting its statistics
/// keep its records in agreement.
pub proof fn lemma_progression_keeps_agreement(
    card: PookieCard,
    listing: Option<Listing>,
    auction: Option<Auction>,
    level_up: LevelUpCard,
    grant: AddExperience,
    amount: u32,
    new_attack: Option<u8>,
    new_defense: Option<u8>,
    new_health: Option<u8>,
    new_special_ability: Option<Option<String>>,
    now: i64,
)
    requires
        sale_records_agree(card, listing, auction),
        level_up.pookie_card == card,
        grant.pookie_card == card,
    ensures
        sale_records_agree(level_up_card_done(level_up, now).pookie_card, listing, auction),
        sale_records_agree(add_experience_done(grant, amount, now).pookie_card, listing, auction),
        sale_records_agree(
            card_with_stats(card, new_attack, new_defense, new_health, new_special_ability, now),
            listing,
            auction,
        ),
{
}

/// A card at or above the cap of its tier is never leveled up: whoever owns
/// it is told that the highest level is reached, however much experience the
/// card has.
pub proof fn lemma_level_cap_holds(ctx: LevelUpCard)
    requires
        ctx.pookie_card.owner == ctx.owner,
        ctx.pookie_card.level >= ctx.pookie_card.rarity.spec_max_level(),
    ensures
        level_up_card_rejection(ctx) == Some(Failure::Rejected(ErrorCode::MaxLevelReached)),
{
}

/// Leveling up keeps a card between the first level and the cap of its tier,
/// and raises its level by exactly one.
pub proof fn lemma_level_up_stays_within_cap(ctx: LevelUpCard, now: i64)
    requires
        ctx.pookie_card.wf(),
        level_up_card_rejection(ctx) is None,
    ensures
        level_up_card_done(ctx, now).pookie_card.wf(),
        level_up_card_done(ctx, now).pookie_card.level == ctx.pookie_card.level + 1,
{
}

/// Nothing goes into escrow twice: a card that is on sale is neither listed
/// nor put up for auction, nor handed over.
pub proof fn lemma_escrow_takes_unlisted_cards_only<'info>(
    listed: ListCard<'info>,
    opened: CreateAuction<'info>,
    handed: TransferCard<'info>,
    price: u64,
    duration: i64,
    now: i64,
)
    ensures
        listed.pookie_card.is_listed ==> list_card_rejection(listed, price) is Some,
        opened.pookie_card.is_listed ==> create_auction_rejection(opened, price, duration, now)
            is Some,
        handed.pookie_card.is_listed ==> transfer_card_rejection(handed) is Some,
{
}

/// A collection never holds more cards than it may: where minting is
/// accepted, the collection afterwards holds one card more and still no more
/// than its limit, if it has one.
pub proof fn lemma_minting_respects_the_supply<'info>(
    ctx: MintCard<'info>,
    name: Seq<char>,
    now: i64,
)
    requires
        handler_rejection(ctx, name) is None,
    ensures
        ctx.collection.is_active,
        handler_done(ctx, now).collection.total_cards == ctx.collection.total_cards + 1,
        ctx.collection.max_supply matches Some(max_supply) ==> handler_done(
            ctx,
            now,
        ).collection.total_cards <= max_supply,
        ctx.collection.wf() ==> handler_done(ctx, now).collection.wf(),
{
}

/// Whether two records show the same card: what makes up a card's identity,
/// its token, its number, its name, its tier, its element and the time of its
/// creation, is the same in both.
pub open spec fn same_card(before: PookieCard, after: PookieCard) -> bool {
    &&& after.mint == before.mint
    &&& after.card_id == before.card_id
    &&& after.name == before.name
    &&& after.rarity == before.rarity
    &&& after.element == before.element
    &&& after.created_at == before.created_at
}

/// No operation changes what makes up a card's identity, and a card changes
/// hands only when it is handed over, bought, or won at auction: listing,
/// withdrawing, opening an auction, settling one without a bid, leveling up,
/// granting experience and overwriting statistics leave the owner alone.
pub proof fn lemma_card_identity_is_permanent<'info>(
    listed: ListCard<'info>,
    bought: BuyCard<'info>,
    canceled: CancelListing<'info>,
    opened: CreateAuction<'info>,
    settled: EndAuction<'info>,
    handed: TransferCard<'info>,
    leveled: LevelUpCard,
    granted: AddExperience,
    price: u64,
    duration: i64,
    amount: u32,
    new_attack: Option<u8>,
    new_defense: Option<u8>,
    new_health: Option<u8>,
    new_special_ability: Option<Option<String>>,
    now: i64,
)
    ensures
        same_card(listed.pookie_card, list_card_done(listed, price, now).pookie_card),
        same_card(bought.pookie_card, buy_card_done(bought, now).pookie_card),
        same_card(canceled.pookie_card, cancel_listing_done(canceled).pookie_card),
        same_card(
            opened.pookie_card,
            create_auction_done(opened, price, duration, now).pookie_card,
        ),
        same_card(settled.pookie_card, end_auction_done(settled, now).pookie_card),
        same_card(handed.pookie_card, transfer_card_done(handed, now).pookie_card),
        same_card(leveled.pookie_card, level_up_card_done(leveled, now).pookie_card),
        same_card(granted.pookie_card, add_experience_done(granted, amount, now).pookie_card),
        same_card(
            leveled.pookie_card,
            card_with_stats(
                leveled.pookie_card,
                new_attack,
                new_defense,
                new_health,
                new_special_ability,
                now,
            ),
        ),
        list_card_done(listed, price, now).pookie_card.owner == listed.pookie_card.owner,
        cancel_listing_done(canceled).pookie_card.owner == canceled.pookie_card.owner,
        create_auction_done(opened, price, duration, now).pookie_card.owner
            == opened.pookie_card.owner,
        settled.auction->0.current_bid is None ==> end_auction_done(settled, now).pookie_card.owner
            == settled.pookie_card.owner,
        level_up_card_done(leveled, now).pookie_card.owner == leveled.pookie_card.owner,
        add_experience_done(granted, amount, now).pookie_card.owner == granted.pookie_card.owner,
        card_with_stats(
            leveled.pookie_card,
            new_attack,
            new_defense,
            new_health,
            new_special_ability,
            now,
        ).owner == leveled.pookie_card.owner,
{
}

/// An account never loses a level and never holds fewer than no cards:
/// whatever is done, the level of each account concerned stays or rises, and
/// a count of cards only falls where the request was accepted, which it is
/// not when the count stands at zero.
pub proof fn lemma_accounts_keep_their_level<'info>(
    bought: BuyCard<'info>,
    settled: EndAuction<'info>,
    handed: TransferCard<'info>,
    minted: MintCard<'info>,
    leveled: LevelUpCard,
    granted: AddExperience,
    name: Seq<char>,
    amount: u32,
    now: i64,
)
    ensures
        buy_card_done(bought, now).seller_stats.level == bought.seller_stats.level,
        buy_card_done(bought, now).buyer_stats.level == bought.buyer_stats.level,
        end_auction_done(settled, now).seller_stats.level == settled.seller_stats.level,
        end_auction_done(settled, now).winner_stats.level == settled.winner_stats.level,
        transfer_card_done(handed, now).from_stats.level == handed.from_stats.level,
        transfer_card_done(handed, now).to_stats.level == handed.to_stats.level,
        handler_done(minted, now).user_stats.level == minted.user_stats.level,
        add_experience_done(granted, amount, now).user_stats.level == granted.user_stats.level,
        level_up_card_done(leveled, now).user_stats.level >= leveled.user_stats.level,
        level_up_card_done(leveled, now).user_stats.level <= leveled.user_stats.level + 1,
        buy_card_rejection(bought) is None ==> bought.seller_stats.cards_owned >= 1,
        end_auction_rejection(settled, now) is None && settled.auction->0.current_bid is Some
            ==> settled.seller_stats.cards_owned >= 1,
        transfer_card_rejection(handed) is None ==> handed.from_stats.cards_owned >= 1,
        handler_rejection(minted, name) is None ==> handler_done(minted, now).user_stats.cards_owned
            == minted.user_stats.cards_owned + 1,
{
}

/// The experience that a level asks for grows strictly from level to level,
/// for cards and for accounts.
pub proof fn lemma_required_experience_increases(lower: u8, higher: u8)
    requires
        1 <= lower < higher,
    ensures
        required_experience(lower) < required_experience(higher),
        user_required_experience(lower) < user_required_experience(higher),
{
}

/// A rarer tier allows a higher level, starts with higher statistics and
/// grows faster.
pub proof fn lemma_rarer_is_stronger(lower: CardRarity, higher: CardRarity)
    requires
        lower.rank() < higher.rank(),
    ensures
        lower.spec_max_level() < higher.spec_max_level(),
        lower.spec_base_stats().0 < higher.spec_base_stats().0,
        lower.spec_base_stats().1 < higher.spec_base_stats().1,
        lower.spec_base_stats().2 < higher.spec_base_stats().2,
        lower.spec_stat_increase() < higher.spec_stat_increase(),
{
}

/// One element beats another exactly when the other names it as the element
/// that beats it.
pub proof fn lemma_advantage_mirrors_disadvantage(strong: CardElement, weak: CardElement)
    ensures
        strong.spec_advantage_against() == Some(weak) <==> weak.spec_disadvantage_against()
            == Some(strong),
{
}

/// Listing a card and then withdrawing the listing puts everything back: the
/// withdrawal is accepted, the card has its owner and all else as before and
/// is off sale without an asking price, no listing is left, and the token
/// travels back the way it came. Neither step has the exchange's record or
/// anyone's statistics among the records it works on, so those cannot change.
pub proof fn lemma_list_then_cancel_restores<'info>(
    listed: ListCard<'info>,
    canceled: CancelListing<'info>,
    price: u64,
    now: i64,
)
    requires
        list_card_rejection(listed, price) is None,
        canceled.seller == listed.seller.key,
        canceled.pookie_card == list_card_done(listed, price, now).pookie_card,
        canceled.listing == list_card_done(listed, price, now).listing,
        canceled.seller_token_account == listed.seller_token_account,
        canceled.escrow_token_account == listed.escrow_token_account,
        canceled.token_program == listed.token_program,
    ensures
        cancel_listing_rejection(canceled) is None,
        cancel_listing_done(canceled).pookie_card == delisted_card(listed.pookie_card),
        cancel_listing_done(canceled).pookie_card.owner == listed.pookie_card.owner,
        !cancel_listing_done(canceled).pookie_card.is_listed,
        cancel_listing_done(canceled).pookie_card.listing_price is None,
        listed.pookie_card.listing_price is None ==> cancel_listing_done(canceled).pookie_card
            == listed.pookie_card,
        cancel_listing_done(canceled).listing == listed.listing,
        cancel_listing_transfer(&canceled).returns_what_was_taken_by(list_card_transfer(&listed)),
{
}

/// One bid: who makes it, how much it offers and when it arrives.
pub struct Bid {
    pub bidder: Identity,
    pub amount: u64,
    pub at: i64,
}

/// Whether the auction accepts the bid.
pub open spec fn bid_accepted(auction: Auction, bid: Bid) -> bool {
    place_bid_rejection(PlaceBid { bidder: bid.bidder, auction }, bid.amount, bid.at) is None
}

/// The auction after one bid arrived: changed if the bid was accepted, and
/// untouched if it was turned down.
pub open spec fn after_bid(auction: Auction, bid: Bid) -> Auction {
    if bid_accepted(auction, bid) {
        auction_after_bid(auction, bid.bidder, bid.amount)
    } else {
        auction
    }
}

/// The auction after the bids arrived one after the other.
pub open spec fn after_bids(auction: Auction, bids: Seq<Bid>) -> Auction
    decreases bids.len(),
{
    if bids.len() == 0 {
        auction
    } else {
        after_bid(after_bids(auction, bids.drop_last()), bids.last())
    }
}

/// The amounts of those bids that the auction accepted, in the order in which
/// they arrived.
pub open spec fn accepted_amounts(auction: Auction, bids: Seq<Bid>) -> Seq<u64>
    decreases bids.len(),
{
    if bids.len() == 0 {
        Seq::<u64>::empty()
    } else {
        let earlier = accepted_amounts(auction, bids.drop_last());
        if bid_accepted(after_bids(auction, bids.drop_last()), bids.last()) {
            earlier.push(bids.last().amount)
        } else {
            earlier
        }
    }
}

/// A bid that is turned down leaves the highest bid and its bidder as they
/// were, and an accepted bid is at least the lowest bid that the auction
/// accepted at that moment.
pub proof fn lemma_bid_step(auction: Auction, bid: Bid)
    ensures
        !bid_accepted(auction, bid) ==> after_bid(auction, bid) == auction,
        bid_accepted(auction, bid) ==> {
            &&& bid.amount >= min_bid(auction)
            &&& after_bid(auction, bid).current_bid == Some(bid.amount)
            &&& after_bid(auction, bid).current_bidder == Some(bid.bidder)
        },
{
}

/// Whatever bids arrive, the accepted ones rise: each accepted bid is at
/// least the one accepted before it raised by a tenth of itself, rounded
/// down, and the first accepted bid is at least the lowest bid that the
/// auction accepted at the outset, which for an auction without a bid is the
/// starting price. The auction always shows the last accepted bid as its
/// highest.
pub proof fn lemma_accepted_bids_rise(auction: Auction, bids: Seq<Bid>)
    ensures
        ({
            let accepted = accepted_amounts(auction, bids);
            &&& accepted.len() > 0 ==> accepted[0] >= min_bid(auction)
            &&& accepted.len() > 0 && auction.current_bid is None ==> accepted[0]
                >= auction.starting_price
            &&& forall|i: int|
                0 < i < accepted.len() ==> #[trigger] accepted[i] >= accepted[i - 1] + accepted[i
                    - 1] / 10
            &&& after_bids(auction, bids).current_bid == if accepted.len() == 0 {
                auction.current_bid
            } else {
                Some(accepted.last())
            }
            &&& after_bids(auction, bids).starting_price == auction.starting_price
        }),
    decreases bids.len(),
{
    if bids.len() > 0 {
        lemma_accepted_bids_rise(auction, bids.drop_last());
        lemma_bid_step(after_bids(auction, bids.drop_last()), bids.last());
    }
}

/// A sale splits its price without loss: the fee is the price times the rate
/// in basis points, divided by ten thousand and rounded down, and the fee and
/// what the seller earns add up to the price exactly. Under a rate of at most
/// the whole neither part is negative.
pub proof fn lemma_sale_conserves_price(price: u64, fee_percentage: u16)
    ensures
        sale_fee(price, fee_percentage) == (price * fee_percentage) / 10000,
        seller_proceeds(price, fee_percentage) + sale_fee(price, fee_percentage) == price,
        fee_percentage <= BASIS_POINTS ==> 0 <= sale_fee(price, fee_percentage) <= price,
        fee_percentage <= BASIS_POINTS ==> 0 <= seller_proceeds(price, fee_percentage) <= price,
{
    crate::instructions::marketplace::lemma_fee_at_most_price(price, fee_percentage);
}

/// A purchase books exactly the split of the price: the exchange's volume
/// grows by the price and its sales by one, the buyer has spent the price
/// and owns one card more, and the seller has earned the price less the fee
/// and owns one card less.
pub proof fn lemma_buy_card_books_the_split<'info>(ctx: BuyCard<'info>, now: i64)
    requires
        buy_card_rejection(ctx) is None,
    ensures
        ({
            let price = ctx.listing->0.price;
            let after = buy_card_done(ctx, now);
            &&& after.marketplace.total_volume == ctx.marketplace.total_volume + price
            &&& after.marketplace.total_sales == ctx.marketplace.total_sales + 1
            &&& after.buyer_stats.total_spent == ctx.buyer_stats.total_spent + price
            &&& after.buyer_stats.cards_owned == ctx.buyer_stats.cards_owned + 1
            &&& after.seller_stats.cards_owned == ctx.seller_stats.cards_owned - 1
            &&& after.seller_stats.total_earned + sale_fee(price, ctx.marketplace.fee_percentage)
                == ctx.seller_stats.total_earned + price
        }),
{
    let price = ctx.listing->0.price;
    lemma_sale_conserves_price(price, ctx.marketplace.fee_percentage);
    assert(!sale_overflows(price, ctx.marketplace, ctx.seller_stats, ctx.buyer_stats));
}

/// Settling an auction that was bid for books exactly the split of the
/// highest bid, as a purchase books the split of the price; settling one
/// that was not bid for books nothing.
pub proof fn lemma_end_auction_books_the_split<'info>(ctx: EndAuction<'info>, now: i64)
    requires
        end_auction_rejection(ctx, now) is None,
    ensures
        ({
            let after = end_auction_done(ctx, now);
            match ctx.auction->0.current_bid {
                Some(final_bid) => {
                    &&& after.marketplace.total_volume == ctx.marketplace.total_volume + final_bid
                    &&& after.marketplace.total_sales == ctx.marketplace.total_sales + 1
                    &&& after.winner_stats.total_spent == ctx.winner_stats.total_spent + final_bid
                    &&& after.winner_stats.cards_owned == ctx.winner_stats.cards_owned + 1
                    &&& after.seller_stats.cards_owned == ctx.seller_stats.cards_owned - 1
                    &&& after.seller_stats.total_earned + sale_fee(
                        final_bid,
                        ctx.marketplace.fee_percentage,
                    ) == ctx.seller_stats.total_earned + final_bid
                },
                None => {
                    &&& after.marketplace == ctx.marketplace
                    &&& after.seller_stats == ctx.seller_stats
                    &&& after.winner_stats == ctx.winner_stats
                    &&& after.pookie_card == delisted_card(ctx.pookie_card)
                },
            }
        }),
{
    if let Some(final_bid) = ctx.auction->0.current_bid {
        lemma_sale_conserves_price(final_bid, ctx.marketplace.fee_percentage);
        assert(!sale_overflows(final_bid, ctx.marketplace, ctx.seller_stats, ctx.winner_stats));
    }
}

} // verus!
