//! Progression and ownership outside of sales: experience, levels,
//! statistics, collections, and handing a card over.

use crate::error::{ErrorCode, Failure};
use crate::escrow::{carry_out, hand_over, KeyedAccount, TokenTransfer};
use crate::identity::Identity;
use crate::state::{
    CardCollection, PookieCard, UserStats, MAX_COLLECTION_DESCRIPTION_LEN,
    MAX_COLLECTION_NAME_LEN, MAX_USER_LEVEL,
};
use anchor_lang::error::Error;
use anchor_lang::prelude::AccountInfo;
use vstd::prelude::*;
use vstd::utf8::encode_utf8;

verus! {

/// The experience that the first ten levels of a card ask for, one entry for
/// each level from the first on.
pub open spec fn card_experience_table() -> Seq<int> {
    seq![100, 250, 450, 700, 1000, 1400, 1900, 2500, 3200, 4000]
}

/// The experience a card at `level` needs to reach the next level: the
/// table's entry up to the tenth level, and 800 more for each level beyond it.
pub open spec fn required_experience(level: u8) -> int
    recommends
        level >= 1,
{
    if level <= 10 {
        card_experience_table()[level - 1]
    } else {
        4000 + (level - 10) * 800
    }
}

/// The experience a card at `level` needs to reach the next level.
pub fn get_required_experience(level: u8) -> (needed: u32)
    requires
        level >= 1,
    ensures
        needed == required_experience(level),
{
    match level {
        1 => 100,
        2 => 250,
        3 => 450,
        4 => 700,
        5 => 1000,
        6 => 1400,
        7 => 1900,
        8 => 2500,
        9 => 3200,
        10 => 4000,
        _ => 4000 + ((level as u32 - 10) * 800),
    }
}

/// The experience that the first ten levels of an account ask for, one entry
/// for each level from the first on.
pub open spec fn user_experience_table() -> Seq<int> {
    seq![0, 1000, 2500, 5000, 8500, 13000, 18500, 25000, 32500, 41000]
}

/// The experience an account at `level` needs to reach the next level: the
/// table's entry up to the tenth level, and 10000 more for each level beyond
/// it.
pub open spec fn user_required_experience(level: u8) -> int
    recommends
        level >= 1,
{
    if level <= 10 {
        user_experience_table()[level - 1]
    } else {
        41000 + (level - 10) * 10000
    }
}

/// The experience an account at `level` needs to reach the next level.
pub fn get_user_required_experience(level: u8) -> (needed: u64)
    requires
        level >= 1,
    ensures
        needed == user_required_experience(level),
{
    match level {
        1 => 0,
        2 => 1000,
        3 => 2500,
        4 => 5000,
        5 => 8500,
        6 => 13000,
        7 => 18500,
        8 => 25000,
        9 => 32500,
        10 => 41000,
        _ => 41000 + ((level as u64 - 10) * 10000),
    }
}

/// What an account earns when one of its cards reaches `new_level`.
pub open spec fn level_up_reward(new_level: int) -> int {
    100 * new_level
}

/// What leveling a card up works on: who asks, the card, and the statistics
/// of the card's owner.
pub struct LevelUpCard {
    pub owner: Identity,
    pub pookie_card: PookieCard,
    pub user_stats: UserStats,
}

/// Why a card is not leveled up, if it is not: the one who asks does not own
/// it, it has reached the cap of its tier, it lacks the experience, or one
/// of its statistics or the account's experience would leave the range of its
/// integer type. Levels are counted from one, so a card or an account that
/// shows a level below the first is turned down as having no valid level.
pub open spec fn level_up_card_rejection(ctx: LevelUpCard) -> Option<Failure> {
    let card = ctx.pookie_card;
    let step = card.rarity.spec_stat_increase();
    if card.owner != ctx.owner {
        Some(Failure::Rejected(ErrorCode::NotCardOwner))
    } else if card.level >= card.rarity.spec_max_level() {
        Some(Failure::Rejected(ErrorCode::MaxLevelReached))
    } else if card.level < 1 {
        Some(Failure::Rejected(ErrorCode::InvalidLevel))
    } else if card.experience < required_experience(card.level) {
        Some(Failure::Rejected(ErrorCode::InsufficientExperience))
    } else if ctx.user_stats.level < 1 {
        Some(Failure::Rejected(ErrorCode::InvalidLevel))
    } else if card.attack + step > u8::MAX || card.defense + step > u8::MAX || card.health + 2
        * step > u8::MAX || ctx.user_stats.experience + level_up_reward(card.level + 1)
        > u64::MAX {
        Some(Failure::Overflow)
    } else {
        None
    }
}

/// The card one level up: the experience that the level asked for is used
/// up and the rest is kept, attack and defense grow by the step of the card's
/// tier, and health by twice the step.
pub open spec fn leveled_up_card(card: PookieCard, now: i64) -> PookieCard {
    let step = card.rarity.spec_stat_increase();
    PookieCard {
        level: (card.level + 1) as u8,
        experience: (card.experience - required_experience(card.level)) as u32,
        last_updated: now,
        attack: (card.attack + step) as u8,
        defense: (card.defense + step) as u8,
        health: (card.health + 2 * step) as u8,
        ..card
    }
}

/// The owner's statistics after one of the owner's cards reached
/// `new_level`: the reward is added to the account's experience, and if the
/// account then has what its own level asks for and has not reached the
/// highest level, it rises by one level, never by more.
pub open spec fn stats_after_level_up(stats: UserStats, new_level: int, now: i64) -> UserStats {
    let experience = (stats.experience + level_up_reward(new_level)) as u64;
    UserStats {
        last_activity: now,
        experience,
        level: if experience >= user_required_experience(stats.level) && stats.level
            < MAX_USER_LEVEL {
            (stats.level + 1) as u8
        } else {
            stats.level
        },
        ..stats
    }
}

/// The records after the card was leveled up.
pub open spec fn level_up_card_done(ctx: LevelUpCard, now: i64) -> LevelUpCard {
    LevelUpCard {
        pookie_card: leveled_up_card(ctx.pookie_card, now),
        user_stats: stats_after_level_up(ctx.user_stats, ctx.pookie_card.level + 1, now),
        ..ctx
    }
}

/// Levels a card up by one level and rewards its owner's account. A request
/// that is turned down changes nothing. A card at the cap of its tier is
/// turned down as such however much experience it has.
pub fn level_up_card(ctx: &mut LevelUpCard, now: i64) -> (done: Result<(), Failure>)
    ensures
        match level_up_card_rejection(*old(ctx)) {
            Some(why) => done == Err::<(), Failure>(why) && *final(ctx) == *old(ctx),
            None => done is Ok && *final(ctx) == level_up_card_done(*old(ctx), now),
        },
        old(ctx).pookie_card.wf() ==> final(ctx).pookie_card.wf(),
        old(ctx).user_stats.wf() ==> final(ctx).user_stats.wf(),
        final(ctx).user_stats.level >= old(ctx).user_stats.level,
{
    if !ctx.pookie_card.owner.same_as(&ctx.owner) {
        return Err(Failure::Rejected(ErrorCode::NotCardOwner));
    }
    let max_level: u8 = ctx.pookie_card.rarity.max_level();
    if ctx.pookie_card.level >= max_level {
        return Err(Failure::Rejected(ErrorCode::MaxLevelReached));
    }
    if ctx.pookie_card.level < 1 {
        return Err(Failure::Rejected(ErrorCode::InvalidLevel));
    }
    let required_exp: u32 = get_required_experience(ctx.pookie_card.level);
    if ctx.pookie_card.experience < required_exp {
        return Err(Failure::Rejected(ErrorCode::InsufficientExperience));
    }
    if ctx.user_stats.level < 1 {
        return Err(Failure::Rejected(ErrorCode::InvalidLevel));
    }
    let stat_increase: u8 = ctx.pookie_card.rarity.stat_increase();
    let new_level: u8 = ctx.pookie_card.level + 1;
    let reward: u64 = 100 * (new_level as u64);
    if ctx.pookie_card.attack > u8::MAX - stat_increase || ctx.pookie_card.defense > u8::MAX
        - stat_increase || ctx.pookie_card.health > u8::MAX - 2 * stat_increase
        || ctx.user_stats.experience > u64::MAX - reward {
        return Err(Failure::Overflow);
    }
    ctx.pookie_card.level = new_level;
    ctx.pookie_card.experience = ctx.pookie_card.experience - required_exp;
    ctx.pookie_card.last_updated = now;
    ctx.pookie_card.attack = ctx.pookie_card.attack + stat_increase;
    ctx.pookie_card.defense = ctx.pookie_card.defense + stat_increase;
    ctx.pookie_card.health = ctx.pookie_card.health + 2 * stat_increase;

    ctx.user_stats.last_activity = now;
    ctx.user_stats.experience = ctx.user_stats.experience + reward;
    let user_required_exp: u64 = get_user_required_experience(ctx.user_stats.level);
    if ctx.user_stats.experience >= user_required_exp && ctx.user_stats.level < MAX_USER_LEVEL {
        ctx.user_stats.level = ctx.user_stats.level + 1;
    }
    Ok(())
}

/// What granting experience works on: who grants it, the card, and the
/// statistics of the card's owner.
pub struct AddExperience {
    pub authority: Identity,
    pub pookie_card: PookieCard,
    pub user_stats: UserStats,
}

/// Why experience is not granted, if it is not: the amount is zero, or the
/// card's experience would leave the range of its integer type.
pub open spec fn add_experience_rejection(ctx: AddExperience, amount: u32) -> Option<Failure> {
    if amount == 0 {
        Some(Failure::Rejected(ErrorCode::InvalidLevel))
    } else if ctx.pookie_card.experience + amount > u32::MAX {
        Some(Failure::Overflow)
    } else {
        None
    }
}

/// The records after the experience was granted. The card's level plays no
/// part: a card at the cap of its tier gathers experience like any other.
pub open spec fn add_experience_done(ctx: AddExperience, amount: u32, now: i64) -> AddExperience {
    AddExperience {
        pookie_card: PookieCard {
            experience: (ctx.pookie_card.experience + amount) as u32,
            last_updated: now,
            ..ctx.pookie_card
        },
        user_stats: UserStats { last_activity: now, ..ctx.user_stats },
        ..ctx
    }
}

/// Grants a card experience. A request that is turned down changes nothing.
pub fn add_experience(ctx: &mut AddExperience, amount: u32, now: i64) -> (done: Result<
    (),
    Failure,
>)
    ensures
        match add_experience_rejection(*old(ctx), amount) {
            Some(why) => done == Err::<(), Failure>(why) && *final(ctx) == *old(ctx),
            None => done is Ok && *final(ctx) == add_experience_done(*old(ctx), amount, now),
        },
        old(ctx).pookie_card.wf() ==> final(ctx).pookie_card.wf(),
{
    if amount == 0 {
        return Err(Failure::Rejected(ErrorCode::InvalidLevel));
    }
    if ctx.pookie_card.experience > u32::MAX - amount {
        return Err(Failure::Overflow);
    }
    ctx.pookie_card.experience = ctx.pookie_card.experience + amount;
    ctx.pookie_card.last_updated = now;
    ctx.user_stats.last_activity = now;
    Ok(())
}

/// What overwriting a card's statistics works on: who does it, and the card.
pub struct UpdateCardStats {
    pub authority: Identity,
    pub pookie_card: PookieCard,
}

/// The card after its statistics were overwritten: each statistic for which a
/// new value is given takes that value, and the others stay.
pub open spec fn card_with_stats(
    card: PookieCard,
    new_attack: Option<u8>,
    new_defense: Option<u8>,
    new_health: Option<u8>,
    new_special_ability: Option<Option<String>>,
    now: i64,
) -> PookieCard {
    PookieCard {
        attack: match new_attack {
            Some(attack) => attack,
            None => card.attack,
        },
        defense: match new_defense {
            Some(defense) => defense,
            None => card.defense,
        },
        health: match new_health {
            Some(health) => health,
            None => card.health,
        },
        special_ability: match new_special_ability {
            Some(special_ability) => special_ability,
            None => card.special_ability,
        },
        last_updated: now,
        ..card
    }
}

/// Overwrites the statistics of a card for which new values are given. This
/// never fails.
pub fn update_card_stats(
    ctx: &mut UpdateCardStats,
    new_attack: Option<u8>,
    new_defense: Option<u8>,
    new_health: Option<u8>,
    new_special_ability: Option<Option<String>>,
    now: i64,
) -> (done: Result<(), ErrorCode>)
    ensures
        done is Ok,
        final(ctx).authority == old(ctx).authority,
        final(ctx).pookie_card == card_with_stats(
            old(ctx).pookie_card,
            new_attack,
            new_defense,
            new_health,
            new_special_ability,
            now,
        ),
        old(ctx).pookie_card.wf() ==> final(ctx).pookie_card.wf(),
{
    if let Some(attack) = new_attack {
        ctx.pookie_card.attack = attack;
    }
    if let Some(defense) = new_defense {
        ctx.pookie_card.defense = defense;
    }
    if let Some(health) = new_health {
        ctx.pookie_card.health = health;
    }
    if let Some(special_ability) = new_special_ability {
        ctx.pookie_card.special_ability = special_ability;
    }
    ctx.pookie_card.last_updated = now;
    Ok(())
}

/// What founding a collection works on: who will run it.
pub struct CreateCollection {
    pub authority: Identity,
}

/// Whether a name and a description are fit for a collection: the name is
/// not empty and takes at most fifty bytes, the description at most two
/// hundred.
pub open spec fn collection_texts_fit(name: Seq<char>, description: Seq<char>) -> bool {
    &&& name.len() > 0
    &&& encode_utf8(name).len() <= MAX_COLLECTION_NAME_LEN
    &&& encode_utf8(description).len() <= MAX_COLLECTION_DESCRIPTION_LEN
}

/// Founds a collection: active, and without cards so far. A name or a
/// description that does not fit is turned down as an invalid level.
pub fn create_collection(
    ctx: &CreateCollection,
    name: String,
    description: String,
    max_supply: Option<u64>,
    now: i64,
) -> (done: Result<CardCollection, ErrorCode>)
    ensures
        !collection_texts_fit(name@, description@) ==> done == Err::<CardCollection, ErrorCode>(
            ErrorCode::InvalidLevel,
        ),
        collection_texts_fit(name@, description@) ==> done == Ok::<CardCollection, ErrorCode>(
            CardCollection {
                authority: ctx.authority,
                name,
                description,
                total_cards: 0,
                max_supply,
                created_at: now,
                is_active: true,
            },
        ),
        done matches Ok(collection) ==> collection.wf(),
{
    if name.as_str().is_empty() {
        return Err(ErrorCode::InvalidLevel);
    }
    if name.as_str().as_bytes().len() > MAX_COLLECTION_NAME_LEN {
        return Err(ErrorCode::InvalidLevel);
    }
    if description.as_str().as_bytes().len() > MAX_COLLECTION_DESCRIPTION_LEN {
        return Err(ErrorCode::InvalidLevel);
    }
    Ok(
        CardCollection {
            authority: ctx.authority,
            name,
            description,
            total_cards: 0,
            max_supply,
            created_at: now,
            is_active: true,
        },
    )
}

/// What handing a card over works on: who gives it and who receives it, the
/// card, the statistics of both, and the token accounts between which the
/// card's token moves.
pub struct TransferCard<'info> {
    pub from: KeyedAccount<'info>,
    pub to: Identity,
    pub pookie_card: PookieCard,
    pub from_token_account: AccountInfo<'info>,
    pub to_token_account: AccountInfo<'info>,
    pub from_stats: UserStats,
    pub to_stats: UserStats,
    pub token_program: AccountInfo<'info>,
}

/// Why a card is not handed over, if it is not: the one who gives does not
/// own it, it is on sale, or the count of cards of one of the two would
/// leave the range of its integer type.
pub open spec fn transfer_card_rejection<'info>(ctx: TransferCard<'info>) -> Option<Failure> {
    if ctx.pookie_card.owner != ctx.from.key {
        Some(Failure::Rejected(ErrorCode::NotCardOwner))
    } else if ctx.pookie_card.is_listed {
        Some(Failure::Rejected(ErrorCode::AlreadyListed))
    } else if ctx.from_stats.cards_owned < 1 || ctx.to_stats.cards_owned + 1 > u64::MAX {
        Some(Failure::Overflow)
    } else {
        None
    }
}

/// The movement of the card's token that handing the card over calls for:
/// from the giver's wallet to the receiver's.
pub open spec fn transfer_card_transfer<'a, 'info>(ctx: &'a TransferCard<'info>) -> TokenTransfer<
    'a,
    'info,
> {
    hand_over(&ctx.token_program, &ctx.from_token_account, &ctx.to_token_account, &ctx.from.info)
}

/// The records after the card was handed over: it belongs to the receiver,
/// who owns one card more, and the giver one less.
pub open spec fn transfer_card_done<'info>(ctx: TransferCard<'info>, now: i64) -> TransferCard<
    'info,
> {
    TransferCard {
        pookie_card: PookieCard { owner: ctx.to, last_updated: now, ..ctx.pookie_card },
        from_stats: UserStats {
            cards_owned: (ctx.from_stats.cards_owned - 1) as u64,
            last_activity: now,
            ..ctx.from_stats
        },
        to_stats: UserStats {
            cards_owned: (ctx.to_stats.cards_owned + 1) as u64,
            last_activity: now,
            ..ctx.to_stats
        },
        ..ctx
    }
}

/// Checks a request to hand a card over and names the token movement it
/// calls for.
pub fn plan_transfer_card<'a, 'info>(ctx: &'a TransferCard<'info>) -> (plan: Result<
    TokenTransfer<'a, 'info>,
    Failure,
>)
    ensures
        match transfer_card_rejection(*ctx) {
            Some(why) => plan == Err::<TokenTransfer<'a, 'info>, Failure>(why),
            None => plan == Ok::<TokenTransfer<'a, 'info>, Failure>(transfer_card_transfer(ctx)),
        },
{
    if !ctx.pookie_card.owner.same_as(&ctx.from.key) {
        Err(Failure::Rejected(ErrorCode::NotCardOwner))
    } else if ctx.pookie_card.is_listed {
        Err(Failure::Rejected(ErrorCode::AlreadyListed))
    } else if ctx.from_stats.cards_owned < 1 || ctx.to_stats.cards_owned == u64::MAX {
        Err(Failure::Overflow)
    } else {
        Ok(
            hand_over(
                &ctx.token_program,
                &ctx.from_token_account,
                &ctx.to_token_account,
                &ctx.from.info,
            ),
        )
    }
}

/// Writes down the outcome of a handover whose request was accepted: updates
/// the records if the host did its part, and otherwise leaves every record
/// alone.
fn record_handover<'info>(
    ctx: &mut TransferCard<'info>,
    now: i64,
    moved: Result<(), Error>,
) -> (done: Result<(), Failure>)
    requires
        transfer_card_rejection(*old(ctx)) is None,
    ensures
        match moved {
            Ok(_) => done is Ok && *final(ctx) == transfer_card_done(*old(ctx), now),
            Err(refusal) => done == Err::<(), Failure>(Failure::Host(refusal)) && *final(ctx)
                == *old(ctx),
        },
{
    match moved {
        Err(refusal) => Err(Failure::Host(refusal)),
        Ok(_) => {
            ctx.pookie_card.owner = ctx.to;
            ctx.pookie_card.last_updated = now;
            ctx.from_stats.cards_owned = ctx.from_stats.cards_owned - 1;
            ctx.from_stats.last_activity = now;
            ctx.to_stats.cards_owned = ctx.to_stats.cards_owned + 1;
            ctx.to_stats.last_activity = now;
            Ok(())
        },
    }
}

/// Concludes a handover, given what the token ledger answered to the movement
/// that `plan_transfer_card` named: updates the records if the request is in
/// order and the token moved, and otherwise leaves every record alone.
pub fn finish_transfer_card<'info>(
    ctx: &mut TransferCard<'info>,
    now: i64,
    moved: Result<(), Error>,
) -> (done: Result<(), Failure>)
    ensures
        match transfer_card_rejection(*old(ctx)) {
            Some(why) => done == Err::<(), Failure>(why) && *final(ctx) == *old(ctx),
            None => match moved {
                Ok(_) => done is Ok && *final(ctx) == transfer_card_done(*old(ctx), now),
                Err(refusal) => done == Err::<(), Failure>(Failure::Host(refusal))
                    && *final(ctx) == *old(ctx),
            },
        },
{
    match plan_transfer_card(ctx) {
        Err(why) => {
            return Err(why);
        },
        Ok(_) => {},
    }
    record_handover(ctx, now, moved)
}

/// Hands a card over to another participant outside any sale: checks the
/// request, has the token moved, and updates the records. Whatever the
/// reason for a failure, every record is left as it was.
pub fn transfer_card<'info>(ctx: &mut TransferCard<'info>, now: i64) -> (done: Result<(), Failure>)
    ensures
        match transfer_card_rejection(*old(ctx)) {
            Some(why) => done == Err::<(), Failure>(why) && *final(ctx) == *old(ctx),
            None => {
                ||| done is Ok && *final(ctx) == transfer_card_done(*old(ctx), now)
                ||| done matches Err(Failure::Host(_)) && *final(ctx) == *old(ctx)
            },
        },
        old(ctx).pookie_card.wf() ==> final(ctx).pookie_card.wf(),
        old(ctx).from_stats.wf() ==> final(ctx).from_stats.wf(),
        old(ctx).to_stats.wf() ==> final(ctx).to_stats.wf(),
{
    let moved = match plan_transfer_card(ctx) {
        Err(why) => {
            return Err(why);
        },
        Ok(order) => carry_out(&order),
    };
    record_handover(ctx, now, moved)
}

} // verus!
