//! Minting a card into a collection, and opening an account.

use crate::error::{ErrorCode, Failure};
use crate::escrow::{KeyedAccount, ONE_CARD};
use crate::identity::Identity;
use crate::publishing::{
    card_metadata, frame_limit, publish, MasterEditionOrder, MetadataOrder, MintOrder, MintPlan,
};
use crate::state::{CardCollection, CardElement, CardRarity, PookieCard, UserStats};
use anchor_lang::error::Error;
use anchor_lang::prelude::AccountInfo;
use vstd::prelude::*;
use vstd::utf8::encode_utf8;

verus! {

/// What minting a card works on: who pays for it and will own it, the
/// card's token and the accounts that describe it, the owner's statistics,
/// and the collection that the card joins.
pub struct MintCard<'info> {
    pub payer: KeyedAccount<'info>,
    pub mint: KeyedAccount<'info>,
    pub token_account: AccountInfo<'info>,
    pub metadata: AccountInfo<'info>,
    pub master_edition: AccountInfo<'info>,
    pub user_stats: UserStats,
    pub collection: CardCollection,
    /// The identity under which the store keeps the collection.
    pub collection_key: Identity,
    pub collection_authority: Identity,
    pub token_program: AccountInfo<'info>,
    pub token_metadata_program: AccountInfo<'info>,
    pub system_program: AccountInfo<'info>,
    pub rent: AccountInfo<'info>,
}

/// The ability with which every card starts.
pub open spec fn first_ability() -> Seq<char> {
    "Basic Attack"@
}

/// Why a collection takes no further card, if it does not: it is not active,
/// or it holds as many cards as it may.
pub open spec fn collection_closed(collection: CardCollection) -> Option<ErrorCode> {
    if !collection.is_active {
        Some(ErrorCode::CollectionNotFound)
    } else if collection.max_supply matches Some(max_supply) && collection.total_cards
        >= max_supply {
        Some(ErrorCode::MaxSupplyReached)
    } else {
        None
    }
}

impl<'info> MintCard<'info> {
    /// Checks that the collection takes a further card. Every tier and every
    /// element is fit for a card, so neither plays a part.
    pub fn validate(ctx: &MintCard<'info>, rarity: &CardRarity, element: &CardElement) -> (done:
        Result<(), ErrorCode>)
        ensures
            match collection_closed(ctx.collection) {
                Some(why) => done == Err::<(), ErrorCode>(why),
                None => done is Ok,
            },
    {
        if !ctx.collection.is_active {
            return Err(ErrorCode::CollectionNotFound);
        }
        if let Some(max_supply) = ctx.collection.max_supply {
            if ctx.collection.total_cards >= max_supply {
                return Err(ErrorCode::MaxSupplyReached);
            }
        }
        Ok(())
    }
}

/// Why a card is not minted, if it is not: the collection takes no further
/// card, the card's name is too long to be published, or one of the counters
/// that minting raises would leave the range of its integer type.
pub open spec fn handler_rejection<'info>(ctx: MintCard<'info>, name: Seq<char>) -> Option<
    Failure,
> {
    match collection_closed(ctx.collection) {
        Some(why) => Some(Failure::Rejected(why)),
        None => if encode_utf8(name).len() > frame_limit() || ctx.user_stats.cards_owned + 1
            > u64::MAX || ctx.user_stats.cards_minted + 1 > u64::MAX || ctx.collection.total_cards
            + 1 > u64::MAX {
            Some(Failure::Overflow)
        } else {
            None
        },
    }
}

/// Whether `plan` is what minting the card asks of the host: the card's
/// metadata, published by the payer, who may change it later; a master
/// edition that allows no further prints; and one token, minted by the payer
/// into the payer's token account.
pub open spec fn is_mint_plan<'a, 'info>(
    plan: MintPlan<'a, 'info>,
    ctx: &'a MintCard<'info>,
    card_id: u64,
    name: Seq<char>,
) -> bool {
    &&& plan.metadata.token_metadata_program == &ctx.token_metadata_program
    &&& plan.metadata.metadata == &ctx.metadata
    &&& plan.metadata.mint == &ctx.mint.info
    &&& plan.metadata.mint_authority == &ctx.payer.info
    &&& plan.metadata.payer == &ctx.payer.info
    &&& plan.metadata.update_authority == &ctx.payer.info
    &&& plan.metadata.system_program == &ctx.system_program
    &&& plan.metadata.rent == &ctx.rent
    &&& plan.metadata.data.describes(card_id, name, ctx.collection_authority, ctx.collection_key)
    &&& plan.metadata.data.fits()
    &&& plan.metadata.is_mutable
    &&& plan.metadata.update_authority_is_signer
    &&& plan.master_edition == (MasterEditionOrder {
        token_metadata_program: &ctx.token_metadata_program,
        edition: &ctx.master_edition,
        mint: &ctx.mint.info,
        update_authority: &ctx.payer.info,
        mint_authority: &ctx.payer.info,
        payer: &ctx.payer.info,
        metadata: &ctx.metadata,
        token_program: &ctx.token_program,
        system_program: &ctx.system_program,
        rent: &ctx.rent,
        max_supply: Some(0u64),
    })
    &&& plan.tokens == (MintOrder {
        token_program: &ctx.token_program,
        mint: &ctx.mint.info,
        to: &ctx.token_account,
        authority: &ctx.payer.info,
        amount: ONE_CARD,
    })
}

/// Whether `card` is the card as it is minted: it belongs to the payer,
/// has the statistics with which its tier starts and the first ability,
/// stands at the first level without experience, and is not on sale.
pub open spec fn is_minted_card<'info>(
    card: PookieCard,
    ctx: MintCard<'info>,
    card_id: u64,
    name: String,
    rarity: CardRarity,
    element: CardElement,
    now: i64,
) -> bool {
    &&& card.mint == ctx.mint.key
    &&& card.owner == ctx.payer.key
    &&& card.card_id == card_id
    &&& card.name == name
    &&& card.rarity == rarity
    &&& card.element == element
    &&& (card.attack, card.defense, card.health) == rarity.spec_base_stats()
    &&& card.special_ability matches Some(ability) && ability@ == first_ability()
    &&& card.level == 1
    &&& card.experience == 0
    &&& card.created_at == now
    &&& card.last_updated == now
    &&& !card.is_listed
    &&& card.listing_price is None
}

/// The records after the card was minted: its owner owns and has minted one
/// card more, and the collection holds one card more.
pub open spec fn handler_done<'info>(ctx: MintCard<'info>, now: i64) -> MintCard<'info> {
    MintCard {
        user_stats: UserStats {
            cards_owned: (ctx.user_stats.cards_owned + 1) as u64,
            cards_minted: (ctx.user_stats.cards_minted + 1) as u64,
            last_activity: now,
            ..ctx.user_stats
        },
        collection: CardCollection {
            total_cards: (ctx.collection.total_cards + 1) as u64,
            ..ctx.collection
        },
        ..ctx
    }
}

/// Checks a request to mint a card and names what it asks of the host.
pub fn plan_handler<'a, 'info>(
    ctx: &'a MintCard<'info>,
    card_id: u64,
    name: &String,
    rarity: &CardRarity,
    element: &CardElement,
) -> (plan: Result<MintPlan<'a, 'info>, Failure>)
    ensures
        match handler_rejection(*ctx, name@) {
            Some(why) => plan == Err::<MintPlan<'a, 'info>, Failure>(why),
            None => plan matches Ok(orders) && is_mint_plan(orders, ctx, card_id, name@),
        },
{
    match MintCard::validate(ctx, rarity, element) {
        Err(why) => {
            return Err(Failure::Rejected(why));
        },
        Ok(_) => {},
    }
    if name.as_str().as_bytes().len() > u32::MAX as usize || ctx.user_stats.cards_owned
        == u64::MAX || ctx.user_stats.cards_minted == u64::MAX || ctx.collection.total_cards
        == u64::MAX {
        return Err(Failure::Overflow);
    }
    Ok(
        MintPlan {
            metadata: MetadataOrder {
                token_metadata_program: &ctx.token_metadata_program,
                metadata: &ctx.metadata,
                mint: &ctx.mint.info,
                mint_authority: &ctx.payer.info,
                payer: &ctx.payer.info,
                update_authority: &ctx.payer.info,
                system_program: &ctx.system_program,
                rent: &ctx.rent,
                data: card_metadata(card_id, name, ctx.collection_authority, ctx.collection_key),
                is_mutable: true,
                update_authority_is_signer: true,
            },
            master_edition: MasterEditionOrder {
                token_metadata_program: &ctx.token_metadata_program,
                edition: &ctx.master_edition,
                mint: &ctx.mint.info,
                update_authority: &ctx.payer.info,
                mint_authority: &ctx.payer.info,
                payer: &ctx.payer.info,
                metadata: &ctx.metadata,
                token_program: &ctx.token_program,
                system_program: &ctx.system_program,
                rent: &ctx.rent,
                max_supply: Some(0),
            },
            tokens: MintOrder {
                token_program: &ctx.token_program,
                mint: &ctx.mint.info,
                to: &ctx.token_account,
                authority: &ctx.payer.info,
                amount: ONE_CARD,
            },
        },
    )
}

/// Writes down the outcome of a minting whose request was accepted: hands
/// out the new card and counts it if the host did its part, and otherwise
/// leaves every record alone.
fn record_minting<'info>(
    ctx: &mut MintCard<'info>,
    card_id: u64,
    name: String,
    rarity: CardRarity,
    element: CardElement,
    now: i64,
    published: Result<(), Error>,
) -> (done: Result<PookieCard, Failure>)
    requires
        handler_rejection(*old(ctx), name@) is None,
    ensures
        match published {
            Ok(_) => {
                &&& done matches Ok(card) && is_minted_card(
                    card,
                    *old(ctx),
                    card_id,
                    name,
                    rarity,
                    element,
                    now,
                ) && card.wf()
                &&& *final(ctx) == handler_done(*old(ctx), now)
            },
            Err(refusal) => done == Err::<PookieCard, Failure>(Failure::Host(refusal))
                && *final(ctx) == *old(ctx),
        },
{
    match published {
        Err(refusal) => Err(Failure::Host(refusal)),
        Ok(_) => {
            let (base_attack, base_defense, base_health): (u8, u8, u8) = rarity.base_stats();
            let card = PookieCard {
                mint: ctx.mint.key,
                owner: ctx.payer.key,
                card_id,
                name,
                rarity,
                element,
                attack: base_attack,
                defense: base_defense,
                health: base_health,
                special_ability: Some("Basic Attack".to_owned()),
                level: 1,
                experience: 0,
                created_at: now,
                last_updated: now,
                is_listed: false,
                listing_price: None,
            };
            ctx.user_stats.cards_owned = ctx.user_stats.cards_owned + 1;
            ctx.user_stats.cards_minted = ctx.user_stats.cards_minted + 1;
            ctx.user_stats.last_activity = now;
            ctx.collection.total_cards = ctx.collection.total_cards + 1;
            Ok(card)
        },
    }
}

/// Concludes the minting of a card, given what the host answered to what
/// `plan_handler` named: hands out the new card and counts it if the request
/// is in order and the host did its part, and otherwise leaves every record
/// alone.
pub fn finish_handler<'info>(
    ctx: &mut MintCard<'info>,
    card_id: u64,
    name: String,
    rarity: CardRarity,
    element: CardElement,
    now: i64,
    published: Result<(), Error>,
) -> (done: Result<PookieCard, Failure>)
    ensures
        match handler_rejection(*old(ctx), name@) {
            Some(why) => done == Err::<PookieCard, Failure>(why) && *final(ctx) == *old(ctx),
            None => match published {
                Ok(_) => {
                    &&& done matches Ok(card) && is_minted_card(
                        card,
                        *old(ctx),
                        card_id,
                        name,
                        rarity,
                        element,
                        now,
                    ) && card.wf()
                    &&& *final(ctx) == handler_done(*old(ctx), now)
                },
                Err(refusal) => done == Err::<PookieCard, Failure>(Failure::Host(refusal))
                    && *final(ctx) == *old(ctx),
            },
        },
{
    match plan_handler(ctx, card_id, &name, &rarity, &element) {
        Err(why) => {
            return Err(why);
        },
        Ok(_) => {},
    }
    record_minting(ctx, card_id, name, rarity, element, now, published)
}

/// Mints a card: checks the request, has the host publish the card's
/// metadata and mint its token, and hands out the new card. Whatever the
/// reason for a failure, every record is left as it was.
pub fn handler<'info>(
    ctx: &mut MintCard<'info>,
    card_id: u64,
    name: String,
    rarity: CardRarity,
    element: CardElement,
    now: i64,
) -> (done: Result<PookieCard, Failure>)
    ensures
        match handler_rejection(*old(ctx), name@) {
            Some(why) => done == Err::<PookieCard, Failure>(why) && *final(ctx) == *old(ctx),
            None => {
                ||| {
                    &&& done matches Ok(card) && is_minted_card(
                        card,
                        *old(ctx),
                        card_id,
                        name,
                        rarity,
                        element,
                        now,
                    ) && card.wf()
                    &&& *final(ctx) == handler_done(*old(ctx), now)
                }
                ||| done matches Err(Failure::Host(_)) && *final(ctx) == *old(ctx)
            },
        },
{
    let published = match plan_handler(ctx, card_id, &name, &rarity, &element) {
        Err(why) => {
            return Err(why);
        },
        Ok(plan) => publish(&plan),
    };
    record_minting(ctx, card_id, name, rarity, element, now, published)
}

/// What opening an account works on: whose account it is.
pub struct InitializeUserStats {
    pub payer: Identity,
}

/// The statistics of an account as it is opened: nothing owned, minted,
/// spent, earned, won or lost, and the first level.
pub open spec fn opened_user_stats(owner: Identity, now: i64) -> UserStats {
    UserStats {
        owner,
        cards_owned: 0,
        cards_minted: 0,
        total_spent: 0,
        total_earned: 0,
        battles_won: 0,
        battles_lost: 0,
        experience: 0,
        level: 1,
        created_at: now,
        last_activity: now,
    }
}

/// Opens the account of a participant. This never fails.
pub fn initialize_user_stats(ctx: &InitializeUserStats, now: i64) -> (done: Result<
    UserStats,
    ErrorCode,
>)
    ensures
        done == Ok::<UserStats, ErrorCode>(opened_user_stats(ctx.payer, now)),
        opened_user_stats(ctx.payer, now).wf(),
{
    Ok(
        UserStats {
            owner: ctx.payer,
            cards_owned: 0,
            cards_minted: 0,
            total_spent: 0,
            total_earned: 0,
            battles_won: 0,
            battles_lost: 0,
            experience: 0,
            level: 1,
            created_at: now,
            last_activity: now,
        },
    )
}

} // verus!
