//! Sales: the fee of a sale, listings at a fixed price, and auctions.

use crate::error::{ErrorCode, Failure};
use crate::escrow::{carry_out, escrow_in, escrow_out, KeyedAccount, TokenTransfer};
use crate::identity::Identity;
use crate::state::{Auction, Listing, Marketplace, PookieCard, UserStats, MAX_FEE_PERCENTAGE};
use anchor_lang::error::Error;
use anchor_lang::prelude::AccountInfo;
use vstd::prelude::*;

verus! {

/// How many basis points make up the whole price.
pub const BASIS_POINTS: u64 = 10000;

/// The part of a price that the exchange keeps: the price times the fee rate
/// in basis points, divided by ten thousand and rounded down.
pub open spec fn sale_fee(price: u64, fee_percentage: u16) -> int {
    (price as int * fee_percentage as int) / (BASIS_POINTS as int)
}

/// The part of a price that the seller earns: the price less the fee.
pub open spec fn seller_proceeds(price: u64, fee_percentage: u16) -> int {
    price as int - sale_fee(price, fee_percentage)
}

/// Splits a price into the fee and what the seller earns. There is no split
/// when the rate is so far above the whole that the fee exceeds the price.
pub fn split_price(price: u64, fee_percentage: u16) -> (parts: Option<(u64, u64)>)
    ensures
        parts matches Some((fee, seller_amount)) ==> {
            &&& fee == sale_fee(price, fee_percentage)
            &&& seller_amount == seller_proceeds(price, fee_percentage)
            &&& fee + seller_amount == price
        },
        parts is None <==> sale_fee(price, fee_percentage) > price,
        fee_percentage <= BASIS_POINTS ==> parts is Some,
{
    proof {
        lemma_fee_at_most_price(price, fee_percentage);
        assert(price as int * fee_percentage as int <= 0xffff_ffff_ffff_ffff * 0xffff)
            by (nonlinear_arith)
            requires
                0 <= price as int <= 0xffff_ffff_ffff_ffff,
                0 <= fee_percentage as int <= 0xffff,
        ;
    }
    let product: u128 = (price as u128) * (fee_percentage as u128);
    let fee: u128 = product / (BASIS_POINTS as u128);
    if fee > price as u128 {
        None
    } else {
        let fee: u64 = fee as u64;
        Some((fee, price - fee))
    }
}

/// A rate of at most the whole takes at most the whole price.
pub proof fn lemma_fee_at_most_price(price: u64, fee_percentage: u16)
    ensures
        0 <= sale_fee(price, fee_percentage),
        fee_percentage <= BASIS_POINTS ==> sale_fee(price, fee_percentage) <= price,
        fee_percentage <= MAX_FEE_PERCENTAGE ==> 10 * sale_fee(price, fee_percentage) <= price,
{
    let p = price as int;
    let f = fee_percentage as int;
    assert(0 <= p * f) by (nonlinear_arith)
        requires
            0 <= p,
            0 <= f,
    ;
    if fee_percentage <= BASIS_POINTS {
        assert(p * f <= p * 10000) by (nonlinear_arith)
            requires
                0 <= p,
                0 <= f <= 10000,
        ;
    }
    if fee_percentage <= MAX_FEE_PERCENTAGE {
        assert(p * f <= p * 1000) by (nonlinear_arith)
            requires
                0 <= p,
                0 <= f <= 1000,
        ;
    }
}

/// Whether a sale at `price` would push one of the counters it touches out
/// of the range of its integer type, or ask the seller to give up a card
/// that the seller's statistics do not show.
pub open spec fn sale_overflows(
    price: u64,
    marketplace: Marketplace,
    seller_stats: UserStats,
    buyer_stats: UserStats,
) -> bool {
    ||| sale_fee(price, marketplace.fee_percentage) > price
    ||| marketplace.total_volume + price > u64::MAX
    ||| marketplace.total_sales + 1 > u64::MAX
    ||| seller_stats.cards_owned < 1
    ||| seller_stats.total_earned + seller_proceeds(price, marketplace.fee_percentage) > u64::MAX
    ||| buyer_stats.cards_owned + 1 > u64::MAX
    ||| buyer_stats.total_spent + price > u64::MAX
}

/// The exchange's record after a sale at `price`.
pub open spec fn marketplace_after_sale(marketplace: Marketplace, price: u64) -> Marketplace {
    Marketplace {
        total_volume: (marketplace.total_volume + price) as u64,
        total_sales: (marketplace.total_sales + 1) as u64,
        ..marketplace
    }
}

/// The seller's statistics after a sale at `price` under the fee rate
/// `fee_percentage`.
pub open spec fn seller_after_sale(
    stats: UserStats,
    price: u64,
    fee_percentage: u16,
    now: i64,
) -> UserStats {
    UserStats {
        cards_owned: (stats.cards_owned - 1) as u64,
        total_earned: (stats.total_earned + seller_proceeds(price, fee_percentage)) as u64,
        last_activity: now,
        ..stats
    }
}

/// The buyer's statistics after a sale at `price`.
pub open spec fn buyer_after_sale(stats: UserStats, price: u64, now: i64) -> UserStats {
    UserStats {
        cards_owned: (stats.cards_owned + 1) as u64,
        total_spent: (stats.total_spent + price) as u64,
        last_activity: now,
        ..stats
    }
}

/// The card after it was sold to `buyer`.
pub open spec fn sold_card(card: PookieCard, buyer: Identity, now: i64) -> PookieCard {
    PookieCard { owner: buyer, is_listed: false, listing_price: None, last_updated: now, ..card }
}

/// The card after it was put up for sale at `price`.
pub open spec fn listed_card(card: PookieCard, price: u64) -> PookieCard {
    PookieCard { is_listed: true, listing_price: Some(price), ..card }
}

/// The card after it was taken off sale unsold.
pub open spec fn delisted_card(card: PookieCard) -> PookieCard {
    PookieCard { is_listed: false, listing_price: None, ..card }
}

/// Tells whether a sale at `price` can be booked on the three records.
fn sale_fits(
    price: u64,
    marketplace: &Marketplace,
    seller_stats: &UserStats,
    buyer_stats: &UserStats,
) -> (fits: bool)
    ensures
        fits == !sale_overflows(price, *marketplace, *seller_stats, *buyer_stats),
{
    match split_price(price, marketplace.fee_percentage) {
        None => false,
        Some((_, seller_amount)) => {
            marketplace.total_volume <= u64::MAX - price && marketplace.total_sales < u64::MAX
                && seller_stats.cards_owned >= 1 && seller_stats.total_earned <= u64::MAX
                - seller_amount && buyer_stats.cards_owned < u64::MAX && buyer_stats.total_spent
                <= u64::MAX - price
        },
    }
}

/// Books a sale at `price` on the exchange's record and on the statistics of
/// both parties.
fn book_sale(
    price: u64,
    marketplace: &mut Marketplace,
    seller_stats: &mut UserStats,
    buyer_stats: &mut UserStats,
    now: i64,
)
    requires
        !sale_overflows(price, *old(marketplace), *old(seller_stats), *old(buyer_stats)),
    ensures
        *final(marketplace) == marketplace_after_sale(*old(marketplace), price),
        *final(seller_stats) == seller_after_sale(
            *old(seller_stats),
            price,
            old(marketplace).fee_percentage,
            now,
        ),
        *final(buyer_stats) == buyer_after_sale(*old(buyer_stats), price, now),
{
    let seller_amount: u64 = match split_price(price, marketplace.fee_percentage) {
        Some((_, seller_amount)) => seller_amount,
        None => 0,
    };
    marketplace.total_volume = marketplace.total_volume + price;
    marketplace.total_sales = marketplace.total_sales + 1;
    seller_stats.cards_owned = seller_stats.cards_owned - 1;
    seller_stats.total_earned = seller_stats.total_earned + seller_amount;
    seller_stats.last_activity = now;
    buyer_stats.cards_owned = buyer_stats.cards_owned + 1;
    buyer_stats.total_spent = buyer_stats.total_spent + price;
    buyer_stats.last_activity = now;
}

/// What a purchase works on: the buyer, the card and the listing that offers
/// it, the exchange's record, the statistics of both parties, and the token
/// accounts between which the card's token moves.
pub struct BuyCard<'info> {
    pub buyer: Identity,
    pub pookie_card: PookieCard,
    /// The listing that offers the card, if the store holds one.
    pub listing: Option<Listing>,
    pub buyer_token_account: AccountInfo<'info>,
    pub escrow_token_account: AccountInfo<'info>,
    pub marketplace: Marketplace,
    /// The exchange's own account, which has authority over the escrow.
    pub marketplace_info: AccountInfo<'info>,
    pub seller_stats: UserStats,
    pub buyer_stats: UserStats,
    pub token_program: AccountInfo<'info>,
}

/// Why a purchase is turned down, if it is: there is no active listing, the
/// card no longer belongs to the listing's seller, or the sale cannot be
/// booked.
pub open spec fn buy_card_rejection<'info>(ctx: BuyCard<'info>) -> Option<Failure> {
    match ctx.listing {
        None => Some(Failure::Rejected(ErrorCode::NotListed)),
        Some(listing) => if !listing.is_active {
            Some(Failure::Rejected(ErrorCode::NotListed))
        } else if ctx.pookie_card.owner != listing.seller {
            Some(Failure::Rejected(ErrorCode::NotCardOwner))
        } else if sale_overflows(
            listing.price,
            ctx.marketplace,
            ctx.seller_stats,
            ctx.buyer_stats,
        ) {
            Some(Failure::Overflow)
        } else {
            None
        },
    }
}

/// The movement of the card's token that a purchase calls for: out of escrow
/// into the buyer's wallet.
pub open spec fn buy_card_transfer<'a, 'info>(ctx: &'a BuyCard<'info>) -> TokenTransfer<'a, 'info> {
    escrow_out(
        &ctx.token_program,
        &ctx.escrow_token_account,
        &ctx.buyer_token_account,
        &ctx.marketplace_info,
    )
}

/// The records after the purchase: the card belongs to the buyer and is off
/// sale, the listing is gone, and the sale is booked.
pub open spec fn buy_card_done<'info>(ctx: BuyCard<'info>, now: i64) -> BuyCard<'info> {
    let price = ctx.listing->0.price;
    BuyCard {
        pookie_card: sold_card(ctx.pookie_card, ctx.buyer, now),
        listing: None,
        marketplace: marketplace_after_sale(ctx.marketplace, price),
        seller_stats: seller_after_sale(
            ctx.seller_stats,
            price,
            ctx.marketplace.fee_percentage,
            now,
        ),
        buyer_stats: buyer_after_sale(ctx.buyer_stats, price, now),
        ..ctx
    }
}

/// Checks a purchase and names the token movement it calls for.
pub fn plan_buy_card<'a, 'info>(ctx: &'a BuyCard<'info>) -> (plan: Result<
    TokenTransfer<'a, 'info>,
    Failure,
>)
    ensures
        match buy_card_rejection(*ctx) {
            Some(why) => plan == Err::<TokenTransfer<'a, 'info>, Failure>(why),
            None => plan == Ok::<TokenTransfer<'a, 'info>, Failure>(buy_card_transfer(ctx)),
        },
{
    match ctx.listing {
        None => Err(Failure::Rejected(ErrorCode::NotListed)),
        Some(listing) => {
            if !listing.is_active {
                Err(Failure::Rejected(ErrorCode::NotListed))
            } else if !ctx.pookie_card.owner.same_as(&listing.seller) {
                Err(Failure::Rejected(ErrorCode::NotCardOwner))
            } else if !sale_fits(
                listing.price,
                &ctx.marketplace,
                &ctx.seller_stats,
                &ctx.buyer_stats,
            ) {
                Err(Failure::Overflow)
            } else {
                Ok(
                    escrow_out(
                        &ctx.token_program,
                        &ctx.escrow_token_account,
                        &ctx.buyer_token_account,
                        &ctx.marketplace_info,
                    ),
                )
            }
        },
    }
}

/// Writes down the outcome of a purchase whose request was accepted: books the
/// sale if the host did its part, and otherwise leaves every record alone.
fn record_purchase<'info>(ctx: &mut BuyCard<'info>, now: i64, moved: Result<(), Error>) -> (done:
    Result<(), Failure>)
    requires
        buy_card_rejection(*old(ctx)) is None,
    ensures
        match moved {
            Ok(_) => done is Ok && *final(ctx) == buy_card_done(*old(ctx), now),
            Err(refusal) => done == Err::<(), Failure>(Failure::Host(refusal)) && *final(ctx)
                == *old(ctx),
        },
{
    match moved {
        Err(refusal) => Err(Failure::Host(refusal)),
        Ok(_) => {
            let price: u64 = match ctx.listing {
                Some(listing) => listing.price,
                None => 0,
            };
            ctx.pookie_card.owner = ctx.buyer;
            ctx.pookie_card.is_listed = false;
            ctx.pookie_card.listing_price = None;
            ctx.pookie_card.last_updated = now;
            book_sale(
                price,
                &mut ctx.marketplace,
                &mut ctx.seller_stats,
                &mut ctx.buyer_stats,
                now,
            );
            ctx.listing = None;
            Ok(())
        },
    }
}

/// Concludes a purchase, given what the token ledger answered to the movement
/// that `plan_buy_card` named: books the sale if the request is in order and
/// the token moved, and otherwise leaves every record alone.
pub fn finish_buy_card<'info>(
    ctx: &mut BuyCard<'info>,
    now: i64,
    moved: Result<(), Error>,
) -> (done: Result<(), Failure>)
    ensures
        match buy_card_rejection(*old(ctx)) {
            Some(why) => done == Err::<(), Failure>(why) && *final(ctx) == *old(ctx),
            None => match moved {
                Ok(_) => done is Ok && *final(ctx) == buy_card_done(*old(ctx), now),
                Err(refusal) => done == Err::<(), Failure>(Failure::Host(refusal))
                    && *final(ctx) == *old(ctx),
            },
        },
{
    match plan_buy_card(ctx) {
        Err(why) => {
            return Err(why);
        },
        Ok(_) => {},
    }
    record_purchase(ctx, now, moved)
}

/// Buys the listed card: checks the request, has the token moved out of
/// escrow to the buyer, and books the sale. Whatever the reason for a
/// failure, every record is left as it was.
pub fn buy_card<'info>(ctx: &mut BuyCard<'info>, now: i64) -> (done: Result<(), Failure>)
    ensures
        match buy_card_rejection(*old(ctx)) {
            Some(why) => done == Err::<(), Failure>(why) && *final(ctx) == *old(ctx),
            None => {
                ||| done is Ok && *final(ctx) == buy_card_done(*old(ctx), now)
                ||| done matches Err(Failure::Host(_)) && *final(ctx) == *old(ctx)
            },
        },
        old(ctx).pookie_card.wf() ==> final(ctx).pookie_card.wf(),
        old(ctx).marketplace.wf() ==> final(ctx).marketplace.wf(),
        old(ctx).seller_stats.wf() ==> final(ctx).seller_stats.wf(),
        old(ctx).buyer_stats.wf() ==> final(ctx).buyer_stats.wf(),
{
    let moved = match plan_buy_card(ctx) {
        Err(why) => {
            return Err(why);
        },
        Ok(order) => carry_out(&order),
    };
    record_purchase(ctx, now, moved)
}

/// What settling an auction works on: who asks for the card, the auction and
/// the card, the exchange's record, the statistics of the seller and of the
/// winner, and the token accounts between which the card's token moves.
pub struct EndAuction<'info> {
    pub winner: Identity,
    /// The auction that offers the card, if the store holds one.
    pub auction: Option<Auction>,
    pub pookie_card: PookieCard,
    pub winner_token_account: AccountInfo<'info>,
    pub seller_token_account: AccountInfo<'info>,
    pub escrow_token_account: AccountInfo<'info>,
    pub marketplace: Marketplace,
    /// The exchange's own account, which has authority over the escrow.
    pub marketplace_info: AccountInfo<'info>,
    pub seller_stats: UserStats,
    pub winner_stats: UserStats,
    pub token_program: AccountInfo<'info>,
}

/// Why a settlement is turned down, if it is: there is no auction, its time
/// is not over, the card was bid for and the one who asks is not the
/// recorded highest bidder, or the sale cannot be booked.
pub open spec fn end_auction_rejection<'info>(ctx: EndAuction<'info>, now: i64) -> Option<Failure> {
    match ctx.auction {
        None => Some(Failure::Rejected(ErrorCode::AuctionNotActive)),
        Some(auction) => if now < auction.end_time {
            Some(Failure::Rejected(ErrorCode::AuctionExpired))
        } else {
            match auction.current_bid {
                None => None,
                Some(final_bid) => if auction.current_bidder != Some(ctx.winner) {
                    Some(Failure::Rejected(ErrorCode::Unauthorized))
                } else if sale_overflows(
                    final_bid,
                    ctx.marketplace,
                    ctx.seller_stats,
                    ctx.winner_stats,
                ) {
                    Some(Failure::Overflow)
                } else {
                    None
                },
            }
        },
    }
}

/// The movement of the card's token that a settlement calls for: out of
/// escrow into the winner's wallet if the card was bid for, and back into
/// the seller's wallet if it was not.
pub open spec fn end_auction_transfer<'a, 'info>(ctx: &'a EndAuction<'info>) -> TokenTransfer<
    'a,
    'info,
> {
    if ctx.auction->0.current_bid is Some {
        escrow_out(
            &ctx.token_program,
            &ctx.escrow_token_account,
            &ctx.winner_token_account,
            &ctx.marketplace_info,
        )
    } else {
        escrow_out(
            &ctx.token_program,
            &ctx.escrow_token_account,
            &ctx.seller_token_account,
            &ctx.marketplace_info,
        )
    }
}

/// The records after the settlement. The auction is gone. If the card was
/// bid for, it belongs to the winner and the sale at the highest bid is
/// booked; if it was not, the card is merely off sale again.
pub open spec fn end_auction_done<'info>(ctx: EndAuction<'info>, now: i64) -> EndAuction<'info> {
    match ctx.auction->0.current_bid {
        Some(final_bid) => EndAuction {
            auction: None,
            pookie_card: sold_card(ctx.pookie_card, ctx.winner, now),
            marketplace: marketplace_after_sale(ctx.marketplace, final_bid),
            seller_stats: seller_after_sale(
                ctx.seller_stats,
                final_bid,
                ctx.marketplace.fee_percentage,
                now,
            ),
            winner_stats: buyer_after_sale(ctx.winner_stats, final_bid, now),
            ..ctx
        },
        None => EndAuction { auction: None, pookie_card: delisted_card(ctx.pookie_card), ..ctx },
    }
}

/// Checks a settlement and names the token movement it calls for.
pub fn plan_end_auction<'a, 'info>(ctx: &'a EndAuction<'info>, now: i64) -> (plan: Result<
    TokenTransfer<'a, 'info>,
    Failure,
>)
    ensures
        match end_auction_rejection(*ctx, now) {
            Some(why) => plan == Err::<TokenTransfer<'a, 'info>, Failure>(why),
            None => plan == Ok::<TokenTransfer<'a, 'info>, Failure>(end_auction_transfer(ctx)),
        },
{
    let auction = match ctx.auction {
        None => {
            return Err(Failure::Rejected(ErrorCode::AuctionNotActive));
        },
        Some(auction) => auction,
    };
    if now < auction.end_time {
        return Err(Failure::Rejected(ErrorCode::AuctionExpired));
    }
    match auction.current_bid {
        None => Ok(
            escrow_out(
                &ctx.token_program,
                &ctx.escrow_token_account,
                &ctx.seller_token_account,
                &ctx.marketplace_info,
            ),
        ),
        Some(final_bid) => {
            let authorized = match auction.current_bidder {
                Some(bidder) => bidder.same_as(&ctx.winner),
                None => false,
            };
            if !authorized {
                Err(Failure::Rejected(ErrorCode::Unauthorized))
            } else if !sale_fits(
                final_bid,
                &ctx.marketplace,
                &ctx.seller_stats,
                &ctx.winner_stats,
            ) {
                Err(Failure::Overflow)
            } else {
                Ok(
                    escrow_out(
                        &ctx.token_program,
                        &ctx.escrow_token_account,
                        &ctx.winner_token_account,
                        &ctx.marketplace_info,
                    ),
                )
            }
        },
    }
}

/// Writes down the outcome of a settlement whose request was accepted: updates
/// the records if the host did its part, and otherwise leaves every record
/// alone.
fn record_settlement<'info>(
    ctx: &mut EndAuction<'info>,
    now: i64,
    moved: Result<(), Error>,
) -> (done: Result<(), Failure>)
    requires
        end_auction_rejection(*old(ctx), now) is None,
    ensures
        match moved {
            Ok(_) => done is Ok && *final(ctx) == end_auction_done(*old(ctx), now),
            Err(refusal) => done == Err::<(), Failure>(Failure::Host(refusal)) && *final(ctx)
                == *old(ctx),
        },
{
    match moved {
        Err(refusal) => Err(Failure::Host(refusal)),
        Ok(_) => {
            let current_bid: Option<u64> = match ctx.auction {
                Some(auction) => auction.current_bid,
                None => None,
            };
            match current_bid {
                Some(final_bid) => {
                    ctx.pookie_card.owner = ctx.winner;
                    ctx.pookie_card.is_listed = false;
                    ctx.pookie_card.listing_price = None;
                    ctx.pookie_card.last_updated = now;
                    book_sale(
                        final_bid,
                        &mut ctx.marketplace,
                        &mut ctx.seller_stats,
                        &mut ctx.winner_stats,
                        now,
                    );
                },
                None => {
                    ctx.pookie_card.is_listed = false;
                    ctx.pookie_card.listing_price = None;
                },
            }
            ctx.auction = None;
            Ok(())
        },
    }
}

/// Concludes a settlement, given what the token ledger answered to the movement
/// that `plan_end_auction` named: updates the records if the request is in
/// order and the token moved, and otherwise leaves every record alone.
pub fn finish_end_auction<'info>(
    ctx: &mut EndAuction<'info>,
    now: i64,
    moved: Result<(), Error>,
) -> (done: Result<(), Failure>)
    ensures
        match end_auction_rejection(*old(ctx), now) {
            Some(why) => done == Err::<(), Failure>(why) && *final(ctx) == *old(ctx),
            None => match moved {
                Ok(_) => done is Ok && *final(ctx) == end_auction_done(*old(ctx), now),
                Err(refusal) => done == Err::<(), Failure>(Failure::Host(refusal))
                    && *final(ctx) == *old(ctx),
            },
        },
{
    match plan_end_auction(ctx, now) {
        Err(why) => {
            return Err(why);
        },
        Ok(_) => {},
    }
    record_settlement(ctx, now, moved)
}

/// Settles an auction whose time is over: checks the request, has the token
/// moved out of escrow, to the highest bidder or back to the seller, and
/// updates the records. Whatever the reason for a failure, every record is
/// left as it was.
pub fn end_auction<'info>(ctx: &mut EndAuction<'info>, now: i64) -> (done: Result<(), Failure>)
    ensures
        match end_auction_rejection(*old(ctx), now) {
            Some(why) => done == Err::<(), Failure>(why) && *final(ctx) == *old(ctx),
            None => {
                ||| done is Ok && *final(ctx) == end_auction_done(*old(ctx), now)
                ||| done matches Err(Failure::Host(_)) && *final(ctx) == *old(ctx)
            },
        },
        old(ctx).pookie_card.wf() ==> final(ctx).pookie_card.wf(),
        old(ctx).marketplace.wf() ==> final(ctx).marketplace.wf(),
        old(ctx).seller_stats.wf() ==> final(ctx).seller_stats.wf(),
        old(ctx).winner_stats.wf() ==> final(ctx).winner_stats.wf(),
{
    let moved = match plan_end_auction(ctx, now) {
        Err(why) => {
            return Err(why);
        },
        Ok(order) => carry_out(&order),
    };
    record_settlement(ctx, now, moved)
}

/// What opening an auction works on: the seller, the card, the place where
/// the store keeps the card's auction, and the token accounts between which
/// the card's token moves.
pub struct CreateAuction<'info> {
    pub seller: KeyedAccount<'info>,
    pub pookie_card: PookieCard,
    /// The auction that offers the card, if the store holds one.
    pub auction: Option<Auction>,
    pub seller_token_account: AccountInfo<'info>,
    pub escrow_token_account: AccountInfo<'info>,
    pub token_program: AccountInfo<'info>,
}

/// Why an auction is not opened, if it is not: the starting price or the
/// duration is not positive, the one who asks does not own the card, the card
/// is on sale already, or the auction would end after the last moment that
/// a timestamp can name.
pub open spec fn create_auction_rejection<'info>(
    ctx: CreateAuction<'info>,
    starting_price: u64,
    duration: i64,
    now: i64,
) -> Option<Failure> {
    if starting_price == 0 {
        Some(Failure::Rejected(ErrorCode::InvalidPrice))
    } else if duration <= 0 {
        Some(Failure::Rejected(ErrorCode::InvalidPrice))
    } else if ctx.pookie_card.owner != ctx.seller.key {
        Some(Failure::Rejected(ErrorCode::NotCardOwner))
    } else if ctx.pookie_card.is_listed || ctx.auction is Some {
        Some(Failure::Rejected(ErrorCode::AlreadyListed))
    } else if now + duration > i64::MAX {
        Some(Failure::Overflow)
    } else {
        None
    }
}

/// The movement of the card's token that opening an auction calls for: out
/// of the seller's wallet into escrow.
pub open spec fn create_auction_transfer<'a, 'info>(ctx: &'a CreateAuction<'info>) -> TokenTransfer<
    'a,
    'info,
> {
    escrow_in(
        &ctx.token_program,
        &ctx.seller_token_account,
        &ctx.escrow_token_account,
        &ctx.seller.info,
    )
}

/// The auction as it is opened: no bid yet, and its end `duration` after
/// `now`.
pub open spec fn opened_auction(
    seller: Identity,
    mint: Identity,
    starting_price: u64,
    duration: i64,
    now: i64,
) -> Auction {
    Auction {
        seller,
        mint,
        starting_price,
        current_bid: None,
        current_bidder: None,
        end_time: (now + duration) as i64,
        created_at: now,
        is_active: true,
    }
}

/// The records after the auction was opened: the auction exists, and the
/// card is on sale at the starting price. Its owner stays the same.
pub open spec fn create_auction_done<'info>(
    ctx: CreateAuction<'info>,
    starting_price: u64,
    duration: i64,
    now: i64,
) -> CreateAuction<'info> {
    CreateAuction {
        pookie_card: listed_card(ctx.pookie_card, starting_price),
        auction: Some(
            opened_auction(ctx.seller.key, ctx.pookie_card.mint, starting_price, duration, now),
        ),
        ..ctx
    }
}

/// Checks a request to open an auction and names the token movement it
/// calls for.
pub fn plan_create_auction<'a, 'info>(
    ctx: &'a CreateAuction<'info>,
    starting_price: u64,
    duration: i64,
    now: i64,
) -> (plan: Result<TokenTransfer<'a, 'info>, Failure>)
    ensures
        match create_auction_rejection(*ctx, starting_price, duration, now) {
            Some(why) => plan == Err::<TokenTransfer<'a, 'info>, Failure>(why),
            None => plan == Ok::<TokenTransfer<'a, 'info>, Failure>(create_auction_transfer(ctx)),
        },
{
    if starting_price == 0 || duration <= 0 {
        Err(Failure::Rejected(ErrorCode::InvalidPrice))
    } else if !ctx.pookie_card.owner.same_as(&ctx.seller.key) {
        Err(Failure::Rejected(ErrorCode::NotCardOwner))
    } else if ctx.pookie_card.is_listed || ctx.auction.is_some() {
        Err(Failure::Rejected(ErrorCode::AlreadyListed))
    } else if now > i64::MAX - duration {
        Err(Failure::Overflow)
    } else {
        Ok(
            escrow_in(
                &ctx.token_program,
                &ctx.seller_token_account,
                &ctx.escrow_token_account,
                &ctx.seller.info,
            ),
        )
    }
}

/// Writes down the outcome of the opening of an auction whose request was
/// accepted: creates the auction if the host did its part, and otherwise leaves
/// every record alone.
fn record_auction<'info>(
    ctx: &mut CreateAuction<'info>,
    starting_price: u64,
    duration: i64,
    now: i64,
    moved: Result<(), Error>,
) -> (done: Result<(), Failure>)
    requires
        create_auction_rejection(*old(ctx), starting_price, duration, now) is None,
    ensures
        match moved {
            Ok(_) => done is Ok && *final(ctx) == create_auction_done(
                *old(ctx),
                starting_price,
                duration,
                now,
            ),
            Err(refusal) => done == Err::<(), Failure>(Failure::Host(refusal)) && *final(ctx)
                == *old(ctx),
        },
{
    match moved {
        Err(refusal) => Err(Failure::Host(refusal)),
        Ok(_) => {
            ctx.auction = Some(
                Auction {
                    seller: ctx.seller.key,
                    mint: ctx.pookie_card.mint,
                    starting_price,
                    current_bid: None,
                    current_bidder: None,
                    end_time: now + duration,
                    created_at: now,
                    is_active: true,
                },
            );
            ctx.pookie_card.is_listed = true;
            ctx.pookie_card.listing_price = Some(starting_price);
            Ok(())
        },
    }
}

/// Concludes the opening of an auction, given what the token ledger answered to
/// the movement that `plan_create_auction` named: creates the auction if the
/// request is in order and the token moved, and otherwise leaves every record
/// alone.
pub fn finish_create_auction<'info>(
    ctx: &mut CreateAuction<'info>,
    starting_price: u64,
    duration: i64,
    now: i64,
    moved: Result<(), Error>,
) -> (done: Result<(), Failure>)
    ensures
        match create_auction_rejection(*old(ctx), starting_price, duration, now) {
            Some(why) => done == Err::<(), Failure>(why) && *final(ctx) == *old(ctx),
            None => match moved {
                Ok(_) => done is Ok && *final(ctx) == create_auction_done(
                    *old(ctx),
                    starting_price,
                    duration,
                    now,
                ),
                Err(refusal) => done == Err::<(), Failure>(Failure::Host(refusal))
                    && *final(ctx) == *old(ctx),
            },
        },
{
    match plan_create_auction(ctx, starting_price, duration, now) {
        Err(why) => {
            return Err(why);
        },
        Ok(_) => {},
    }
    record_auction(ctx, starting_price, duration, now, moved)
}

/// Opens an auction for a card: checks the request, has the token moved into
/// escrow, and creates the auction. Whatever the reason for a failure, every
/// record is left as it was.
pub fn create_auction<'info>(
    ctx: &mut CreateAuction<'info>,
    starting_price: u64,
    duration: i64,
    now: i64,
) -> (done: Result<(), Failure>)
    ensures
        match create_auction_rejection(*old(ctx), starting_price, duration, now) {
            Some(why) => done == Err::<(), Failure>(why) && *final(ctx) == *old(ctx),
            None => {
                ||| done is Ok && *final(ctx) == create_auction_done(
                    *old(ctx),
                    starting_price,
                    duration,
                    now,
                )
                ||| done matches Err(Failure::Host(_)) && *final(ctx) == *old(ctx)
            },
        },
        old(ctx).pookie_card.wf() ==> final(ctx).pookie_card.wf(),
        done is Ok ==> (final(ctx).auction matches Some(auction) && auction.wf()),
{
    let moved = match plan_create_auction(ctx, starting_price, duration, now) {
        Err(why) => {
            return Err(why);
        },
        Ok(order) => carry_out(&order),
    };
    record_auction(ctx, starting_price, duration, now, moved)
}

/// What listing a card works on: the seller, the card, the place where the
/// store keeps the card's listing, and the token accounts between which the
/// card's token moves.
pub struct ListCard<'info> {
    pub seller: KeyedAccount<'info>,
    pub pookie_card: PookieCard,
    /// The listing that offers the card, if the store holds one.
    pub listing: Option<Listing>,
    pub seller_token_account: AccountInfo<'info>,
    pub escrow_token_account: AccountInfo<'info>,
    pub token_program: AccountInfo<'info>,
}

/// Why a card is not listed, if it is not: the price is zero, the one who
/// asks does not own the card, or the card is on sale already.
pub open spec fn list_card_rejection<'info>(ctx: ListCard<'info>, price: u64) -> Option<Failure> {
    if price == 0 {
        Some(Failure::Rejected(ErrorCode::InvalidPrice))
    } else if ctx.pookie_card.owner != ctx.seller.key {
        Some(Failure::Rejected(ErrorCode::NotCardOwner))
    } else if ctx.pookie_card.is_listed || ctx.listing is Some {
        Some(Failure::Rejected(ErrorCode::AlreadyListed))
    } else {
        None
    }
}

/// The movement of the card's token that listing calls for: out of the
/// seller's wallet into escrow.
pub open spec fn list_card_transfer<'a, 'info>(ctx: &'a ListCard<'info>) -> TokenTransfer<
    'a,
    'info,
> {
    escrow_in(
        &ctx.token_program,
        &ctx.seller_token_account,
        &ctx.escrow_token_account,
        &ctx.seller.info,
    )
}

/// The listing as it is created.
pub open spec fn opened_listing(seller: Identity, mint: Identity, price: u64, now: i64) -> Listing {
    Listing { seller, mint, price, created_at: now, is_active: true }
}

/// The records after the card was listed: the listing exists, and the card
/// is on sale at the asking price. Its owner stays the same.
pub open spec fn list_card_done<'info>(ctx: ListCard<'info>, price: u64, now: i64) -> ListCard<
    'info,
> {
    ListCard {
        pookie_card: listed_card(ctx.pookie_card, price),
        listing: Some(opened_listing(ctx.seller.key, ctx.pookie_card.mint, price, now)),
        ..ctx
    }
}

/// Checks a request to list a card and names the token movement it calls
/// for.
pub fn plan_list_card<'a, 'info>(ctx: &'a ListCard<'info>, price: u64) -> (plan: Result<
    TokenTransfer<'a, 'info>,
    Failure,
>)
    ensures
        match list_card_rejection(*ctx, price) {
            Some(why) => plan == Err::<TokenTransfer<'a, 'info>, Failure>(why),
            None => plan == Ok::<TokenTransfer<'a, 'info>, Failure>(list_card_transfer(ctx)),
        },
{
    if price == 0 {
        Err(Failure::Rejected(ErrorCode::InvalidPrice))
    } else if !ctx.pookie_card.owner.same_as(&ctx.seller.key) {
        Err(Failure::Rejected(ErrorCode::NotCardOwner))
    } else if ctx.pookie_card.is_listed || ctx.listing.is_some() {
        Err(Failure::Rejected(ErrorCode::AlreadyListed))
    } else {
        Ok(
            escrow_in(
                &ctx.token_program,
                &ctx.seller_token_account,
                &ctx.escrow_token_account,
                &ctx.seller.info,
            ),
        )
    }
}

/// Writes down the outcome of a listing whose request was accepted: creates the
/// listing if the host did its part, and otherwise leaves every record alone.
fn record_listing<'info>(
    ctx: &mut ListCard<'info>,
    price: u64,
    now: i64,
    moved: Result<(), Error>,
) -> (done: Result<(), Failure>)
    requires
        list_card_rejection(*old(ctx), price) is None,
    ensures
        match moved {
            Ok(_) => done is Ok && *final(ctx) == list_card_done(*old(ctx), price, now),
            Err(refusal) => done == Err::<(), Failure>(Failure::Host(refusal)) && *final(ctx)
                == *old(ctx),
        },
{
    match moved {
        Err(refusal) => Err(Failure::Host(refusal)),
        Ok(_) => {
            ctx.listing = Some(
                Listing {
                    seller: ctx.seller.key,
                    mint: ctx.pookie_card.mint,
                    price,
                    created_at: now,
                    is_active: true,
                },
            );
            ctx.pookie_card.is_listed = true;
            ctx.pookie_card.listing_price = Some(price);
            Ok(())
        },
    }
}

/// Concludes a listing, given what the token ledger answered to the movement
/// that `plan_list_card` named: creates the listing if the request is in order
/// and the token moved, and otherwise leaves every record alone.
pub fn finish_list_card<'info>(
    ctx: &mut ListCard<'info>,
    price: u64,
    now: i64,
    moved: Result<(), Error>,
) -> (done: Result<(), Failure>)
    ensures
        match list_card_rejection(*old(ctx), price) {
            Some(why) => done == Err::<(), Failure>(why) && *final(ctx) == *old(ctx),
            None => match moved {
                Ok(_) => done is Ok && *final(ctx) == list_card_done(*old(ctx), price, now),
                Err(refusal) => done == Err::<(), Failure>(Failure::Host(refusal))
                    && *final(ctx) == *old(ctx),
            },
        },
{
    match plan_list_card(ctx, price) {
        Err(why) => {
            return Err(why);
        },
        Ok(_) => {},
    }
    record_listing(ctx, price, now, moved)
}

/// Lists a card at a fixed price: checks the request, has the token moved
/// into escrow, and creates the listing. Whatever the reason for a failure,
/// every record is left as it was.
pub fn list_card<'info>(ctx: &mut ListCard<'info>, price: u64, now: i64) -> (done: Result<
    (),
    Failure,
>)
    ensures
        match list_card_rejection(*old(ctx), price) {
            Some(why) => done == Err::<(), Failure>(why) && *final(ctx) == *old(ctx),
            None => {
                ||| done is Ok && *final(ctx) == list_card_done(*old(ctx), price, now)
                ||| done matches Err(Failure::Host(_)) && *final(ctx) == *old(ctx)
            },
        },
        old(ctx).pookie_card.wf() ==> final(ctx).pookie_card.wf(),
        done is Ok ==> (final(ctx).listing matches Some(listing) && listing.wf()),
{
    let moved = match plan_list_card(ctx, price) {
        Err(why) => {
            return Err(why);
        },
        Ok(order) => carry_out(&order),
    };
    record_listing(ctx, price, now, moved)
}

/// What withdrawing a listing works on: the seller, the card and the listing
/// that offers it, and the token accounts between which the card's token
/// moves.
pub struct CancelListing<'info> {
    pub seller: Identity,
    pub pookie_card: PookieCard,
    /// The listing that offers the card, if the store holds one.
    pub listing: Option<Listing>,
    pub seller_token_account: AccountInfo<'info>,
    pub escrow_token_account: AccountInfo<'info>,
    /// The exchange's own account, which has authority over the escrow.
    pub marketplace_info: AccountInfo<'info>,
    pub token_program: AccountInfo<'info>,
}

/// Why a listing is not withdrawn, if it is not: the one who asks does not
/// own the card, there is no active listing, or the listing was made by
/// someone else.
pub open spec fn cancel_listing_rejection<'info>(ctx: CancelListing<'info>) -> Option<Failure> {
    if ctx.pookie_card.owner != ctx.seller {
        Some(Failure::Rejected(ErrorCode::NotCardOwner))
    } else {
        match ctx.listing {
            None => Some(Failure::Rejected(ErrorCode::NotListed)),
            Some(listing) => if !listing.is_active {
                Some(Failure::Rejected(ErrorCode::NotListed))
            } else if listing.seller != ctx.seller {
                Some(Failure::Rejected(ErrorCode::NotCardOwner))
            } else {
                None
            },
        }
    }
}

/// The movement of the card's token that withdrawing a listing calls for:
/// out of escrow back into the seller's wallet.
pub open spec fn cancel_listing_transfer<'a, 'info>(ctx: &'a CancelListing<'info>) -> TokenTransfer<
    'a,
    'info,
> {
    escrow_out(
        &ctx.token_program,
        &ctx.escrow_token_account,
        &ctx.seller_token_account,
        &ctx.marketplace_info,
    )
}

/// The records after the listing was withdrawn: the listing is gone and the
/// card is off sale.
pub open spec fn cancel_listing_done<'info>(ctx: CancelListing<'info>) -> CancelListing<'info> {
    CancelListing { pookie_card: delisted_card(ctx.pookie_card), listing: None, ..ctx }
}

/// Checks a request to withdraw a listing and names the token movement it
/// calls for.
pub fn plan_cancel_listing<'a, 'info>(ctx: &'a CancelListing<'info>) -> (plan: Result<
    TokenTransfer<'a, 'info>,
    Failure,
>)
    ensures
        match cancel_listing_rejection(*ctx) {
            Some(why) => plan == Err::<TokenTransfer<'a, 'info>, Failure>(why),
            None => plan == Ok::<TokenTransfer<'a, 'info>, Failure>(cancel_listing_transfer(ctx)),
        },
{
    if !ctx.pookie_card.owner.same_as(&ctx.seller) {
        return Err(Failure::Rejected(ErrorCode::NotCardOwner));
    }
    match ctx.listing {
        None => Err(Failure::Rejected(ErrorCode::NotListed)),
        Some(listing) => {
            if !listing.is_active {
                Err(Failure::Rejected(ErrorCode::NotListed))
            } else if !listing.seller.same_as(&ctx.seller) {
                Err(Failure::Rejected(ErrorCode::NotCardOwner))
            } else {
                Ok(
                    escrow_out(
                        &ctx.token_program,
                        &ctx.escrow_token_account,
                        &ctx.seller_token_account,
                        &ctx.marketplace_info,
                    ),
                )
            }
        },
    }
}

/// Writes down the outcome of a withdrawal whose request was accepted: removes
/// the listing if the host did its part, and otherwise leaves every record
/// alone.
fn record_withdrawal<'info>(ctx: &mut CancelListing<'info>, moved: Result<(), Error>) -> (done:
    Result<(), Failure>)
    requires
        cancel_listing_rejection(*old(ctx)) is None,
    ensures
        match moved {
            Ok(_) => done is Ok && *final(ctx) == cancel_listing_done(*old(ctx)),
            Err(refusal) => done == Err::<(), Failure>(Failure::Host(refusal)) && *final(ctx)
                == *old(ctx),
        },
{
    match moved {
        Err(refusal) => Err(Failure::Host(refusal)),
        Ok(_) => {
            ctx.pookie_card.is_listed = false;
            ctx.pookie_card.listing_price = None;
            ctx.listing = None;
            Ok(())
        },
    }
}

/// Concludes a withdrawal, given what the token ledger answered to the movement
/// that `plan_cancel_listing` named: removes the listing if the request is in
/// order and the token moved, and otherwise leaves every record alone.
pub fn finish_cancel_listing<'info>(
    ctx: &mut CancelListing<'info>,
    moved: Result<(), Error>,
) -> (done: Result<(), Failure>)
    ensures
        match cancel_listing_rejection(*old(ctx)) {
            Some(why) => done == Err::<(), Failure>(why) && *final(ctx) == *old(ctx),
            None => match moved {
                Ok(_) => done is Ok && *final(ctx) == cancel_listing_done(*old(ctx)),
                Err(refusal) => done == Err::<(), Failure>(Failure::Host(refusal))
                    && *final(ctx) == *old(ctx),
            },
        },
{
    match plan_cancel_listing(ctx) {
        Err(why) => {
            return Err(why);
        },
        Ok(_) => {},
    }
    record_withdrawal(ctx, moved)
}

/// Withdraws a listing: checks the request, has the token moved out of
/// escrow back to the seller, and removes the listing. Whatever the reason
/// for a failure, every record is left as it was.
pub fn cancel_listing<'info>(ctx: &mut CancelListing<'info>) -> (done: Result<(), Failure>)
    ensures
        match cancel_listing_rejection(*old(ctx)) {
            Some(why) => done == Err::<(), Failure>(why) && *final(ctx) == *old(ctx),
            None => {
                ||| done is Ok && *final(ctx) == cancel_listing_done(*old(ctx))
                ||| done matches Err(Failure::Host(_)) && *final(ctx) == *old(ctx)
            },
        },
        old(ctx).pookie_card.wf() ==> final(ctx).pookie_card.wf(),
{
    let moved = match plan_cancel_listing(ctx) {
        Err(why) => {
            return Err(why);
        },
        Ok(order) => carry_out(&order),
    };
    record_withdrawal(ctx, moved)
}

/// What a bid works on: who bids, and the auction.
pub struct PlaceBid {
    pub bidder: Identity,
    pub auction: Auction,
}

/// The lowest bid that an auction accepts next: the starting price while
/// nobody has bid, and after that the highest bid raised by a tenth of
/// itself, rounded down.
pub open spec fn min_bid(auction: Auction) -> int {
    match auction.current_bid {
        Some(current_bid) => current_bid + current_bid / 10,
        None => auction.starting_price as int,
    }
}

/// Why a bid is turned down, if it is: the auction is not active, its time
/// is over, or the bid is below the lowest that the auction accepts.
pub open spec fn place_bid_rejection(ctx: PlaceBid, bid_amount: u64, now: i64) -> Option<
    ErrorCode,
> {
    if !ctx.auction.is_active {
        Some(ErrorCode::AuctionNotActive)
    } else if now >= ctx.auction.end_time {
        Some(ErrorCode::AuctionExpired)
    } else if bid_amount < min_bid(ctx.auction) {
        Some(ErrorCode::BidTooLow)
    } else {
        None
    }
}

/// The auction after it took a bid: the bid and its bidder replace whatever
/// was recorded before, and nothing else changes.
pub open spec fn auction_after_bid(auction: Auction, bidder: Identity, bid_amount: u64) -> Auction {
    Auction { current_bid: Some(bid_amount), current_bidder: Some(bidder), ..auction }
}

/// The records after the bid was accepted.
pub open spec fn place_bid_done(ctx: PlaceBid, bid_amount: u64) -> PlaceBid {
    PlaceBid { auction: auction_after_bid(ctx.auction, ctx.bidder, bid_amount), ..ctx }
}

/// Places a bid. An accepted bid becomes the auction's highest bid; a bid
/// that is turned down changes nothing.
pub fn place_bid(ctx: &mut PlaceBid, bid_amount: u64, now: i64) -> (done: Result<(), ErrorCode>)
    ensures
        match place_bid_rejection(*old(ctx), bid_amount, now) {
            Some(why) => done == Err::<(), ErrorCode>(why) && *final(ctx) == *old(ctx),
            None => done is Ok && *final(ctx) == place_bid_done(*old(ctx), bid_amount),
        },
        old(ctx).auction.wf() ==> final(ctx).auction.wf(),
{
    if !ctx.auction.is_active {
        return Err(ErrorCode::AuctionNotActive);
    }
    if now >= ctx.auction.end_time {
        return Err(ErrorCode::AuctionExpired);
    }
    let high_enough: bool = match ctx.auction.current_bid {
        Some(current_bid) => match current_bid.checked_add(current_bid / 10) {
            Some(lowest) => bid_amount >= lowest,
            None => false,
        },
        None => bid_amount >= ctx.auction.starting_price,
    };
    if !high_enough {
        return Err(ErrorCode::BidTooLow);
    }
    ctx.auction.current_bid = Some(bid_amount);
    ctx.auction.current_bidder = Some(ctx.bidder);
    Ok(())
}

/// What setting up the exchange works on: who will run it.
pub struct InitializeMarketplace {
    pub authority: Identity,
}

/// The exchange's record as it is set up: nothing traded yet.
pub open spec fn opened_marketplace(
    authority: Identity,
    fee_percentage: u16,
    now: i64,
) -> Marketplace {
    Marketplace { authority, fee_percentage, total_volume: 0, total_sales: 0, created_at: now }
}

/// Sets up the exchange with a fee rate in basis points. A rate above ten
/// percent is turned down as an invalid price.
pub fn initialize_marketplace(ctx: &InitializeMarketplace, fee_percentage: u16, now: i64) -> (done:
    Result<Marketplace, ErrorCode>)
    ensures
        fee_percentage > MAX_FEE_PERCENTAGE ==> done == Err::<Marketplace, ErrorCode>(
            ErrorCode::InvalidPrice,
        ),
        fee_percentage <= MAX_FEE_PERCENTAGE ==> done == Ok::<Marketplace, ErrorCode>(
            opened_marketplace(ctx.authority, fee_percentage, now),
        ),
        done matches Ok(marketplace) ==> marketplace.wf(),
{
    if fee_percentage > MAX_FEE_PERCENTAGE {
        return Err(ErrorCode::InvalidPrice);
    }
    Ok(
        Marketplace {
            authority: ctx.authority,
            fee_percentage,
            total_volume: 0,
            total_sales: 0,
            created_at: now,
        },
    )
}

} // verus!
