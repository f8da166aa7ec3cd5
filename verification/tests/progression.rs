use anchor_lang::error::Error;
use anchor_lang::prelude::{AccountInfo, ProgramError, Pubkey};
use pookie_cards::escrow::KeyedAccount;
use pookie_cards::instructions::card_management::{finish_transfer_card, plan_transfer_card};
use pookie_cards::{
    add_experience, create_collection, get_required_experience, get_user_required_experience,
    level_up_card, transfer_card, update_card_stats, AddExperience, CardElement, CardRarity,
    CreateCollection, ErrorCode, Failure, Identity, LevelUpCard, PookieCard, TransferCard,
    UpdateCardStats, UserStats,
};

struct Backing {
    key: Pubkey,
    owner: Pubkey,
    lamports: u64,
    data: Vec<u8>,
}

fn backing(tag: u8) -> Backing {
    Backing {
        key: Pubkey::new_from_array([tag; 32]),
        owner: Pubkey::new_from_array([0; 32]),
        lamports: 0,
        data: vec![0u8; 8],
    }
}

fn account(backing: &mut Backing) -> AccountInfo<'_> {
    AccountInfo::new(
        &backing.key,
        false,
        true,
        &mut backing.lamports,
        &mut backing.data,
        &backing.owner,
        false,
    )
}

fn id(tag: u8) -> Identity {
    Identity::new([tag; 32])
}

fn card(owner: Identity, rarity: CardRarity) -> PookieCard {
    let (attack, defense, health) = rarity.base_stats();
    PookieCard {
        mint: id(200),
        owner,
        card_id: 7,
        name: String::from("Pookie"),
        rarity,
        element: CardElement::Fire,
        attack,
        defense,
        health,
        special_ability: Some(String::from("Basic Attack")),
        level: 1,
        experience: 0,
        created_at: 10,
        last_updated: 10,
        is_listed: false,
        listing_price: None,
    }
}

fn stats(owner: Identity, cards_owned: u64) -> UserStats {
    UserStats {
        owner,
        cards_owned,
        cards_minted: 0,
        total_spent: 0,
        total_earned: 0,
        battles_won: 0,
        battles_lost: 0,
        experience: 0,
        level: 1,
        created_at: 10,
        last_activity: 10,
    }
}

#[test]
fn required_experience_follows_the_table() {
    let table: [u32; 10] = [100, 250, 450, 700, 1000, 1400, 1900, 2500, 3200, 4000];
    for level in 1..=10u8 {
        assert_eq!(get_required_experience(level), table[(level - 1) as usize]);
    }
    assert_eq!(get_required_experience(11), 4800);
    assert_eq!(get_required_experience(12), 5600);
    assert_eq!(get_required_experience(39), 27200);
    assert_eq!(get_required_experience(255), 200000);
}

#[test]
fn user_required_experience_follows_the_table() {
    let table: [u64; 10] = [0, 1000, 2500, 5000, 8500, 13000, 18500, 25000, 32500, 41000];
    for level in 1..=10u8 {
        assert_eq!(get_user_required_experience(level), table[(level - 1) as usize]);
    }
    assert_eq!(get_user_required_experience(11), 51000);
    assert_eq!(get_user_required_experience(99), 931000);
    assert_eq!(get_user_required_experience(255), 2491000);
}

#[test]
fn required_experience_grows_strictly() {
    for level in 1..255u8 {
        assert!(get_required_experience(level) < get_required_experience(level + 1));
        assert!(get_user_required_experience(level) < get_user_required_experience(level + 1));
    }
}

#[test]
fn add_experience_adds_and_stamps() {
    let owner = id(1);
    let mut ctx = AddExperience {
        authority: id(9),
        pookie_card: card(owner, CardRarity::Common),
        user_stats: stats(owner, 1),
    };
    assert_eq!(add_experience(&mut ctx, 50, 77), Ok(()));
    assert_eq!(ctx.pookie_card.experience, 50);
    assert_eq!(ctx.pookie_card.last_updated, 77);
    assert_eq!(ctx.user_stats.last_activity, 77);
    assert_eq!(ctx.pookie_card.level, 1);
    assert_eq!(ctx.authority, id(9));
}

#[test]
fn add_experience_rejects_zero() {
    let owner = id(1);
    let mut ctx = AddExperience {
        authority: id(9),
        pookie_card: card(owner, CardRarity::Common),
        user_stats: stats(owner, 1),
    };
    let before = (ctx.pookie_card.clone(), ctx.user_stats);
    assert_eq!(add_experience(&mut ctx, 0, 77), Err(Failure::Rejected(ErrorCode::InvalidLevel)));
    assert_eq!((ctx.pookie_card, ctx.user_stats), before);
}

#[test]
fn add_experience_is_not_capped_at_the_highest_level() {
    let owner = id(1);
    let mut at_cap = card(owner, CardRarity::Common);
    at_cap.level = 10;
    at_cap.experience = 1_000_000;
    let mut ctx = AddExperience { authority: owner, pookie_card: at_cap, user_stats: stats(owner, 1) };
    assert_eq!(add_experience(&mut ctx, 5, 1), Ok(()));
    assert_eq!(ctx.pookie_card.experience, 1_000_005);
    assert_eq!(ctx.pookie_card.level, 10);
}

#[test]
fn add_experience_fails_rather_than_wraps() {
    let owner = id(1);
    let mut full = card(owner, CardRarity::Common);
    full.experience = u32::MAX - 1;
    let mut ctx = AddExperience { authority: owner, pookie_card: full, user_stats: stats(owner, 1) };
    assert_eq!(add_experience(&mut ctx, 2, 5), Err(Failure::Overflow));
    assert_eq!(ctx.pookie_card.experience, u32::MAX - 1);
    assert_eq!(ctx.pookie_card.last_updated, 10);
    assert_eq!(add_experience(&mut ctx, 1, 5), Ok(()));
    assert_eq!(ctx.pookie_card.experience, u32::MAX);
}

#[test]
fn level_up_needs_the_owner() {
    let owner = id(1);
    let mut ready = card(owner, CardRarity::Common);
    ready.experience = 100;
    let mut ctx = LevelUpCard { owner: id(2), pookie_card: ready, user_stats: stats(owner, 1) };
    let before = (ctx.pookie_card.clone(), ctx.user_stats);
    assert_eq!(level_up_card(&mut ctx, 50), Err(Failure::Rejected(ErrorCode::NotCardOwner)));
    assert_eq!((ctx.pookie_card, ctx.user_stats), before);
}

#[test]
fn level_up_needs_the_experience() {
    let owner = id(1);
    let mut short = card(owner, CardRarity::Common);
    short.experience = 99;
    let mut ctx = LevelUpCard { owner, pookie_card: short, user_stats: stats(owner, 1) };
    let before = (ctx.pookie_card.clone(), ctx.user_stats);
    assert_eq!(
        level_up_card(&mut ctx, 50),
        Err(Failure::Rejected(ErrorCode::InsufficientExperience))
    );
    assert_eq!((ctx.pookie_card, ctx.user_stats), before);
}

#[test]
fn level_up_keeps_the_rest_of_the_experience() {
    let owner = id(1);
    let mut rich = card(owner, CardRarity::Rare);
    rich.level = 3;
    rich.experience = 1000;
    let mut ctx = LevelUpCard { owner, pookie_card: rich, user_stats: stats(owner, 1) };
    assert_eq!(level_up_card(&mut ctx, 50), Ok(()));
    assert_eq!(ctx.pookie_card.level, 4);
    assert_eq!(ctx.pookie_card.experience, 550);
    assert_eq!(ctx.pookie_card.attack, 11);
    assert_eq!(ctx.pookie_card.defense, 11);
    assert_eq!(ctx.pookie_card.health, 26);
    assert_eq!(ctx.pookie_card.last_updated, 50);
    assert_eq!(ctx.user_stats.experience, 400);
    assert_eq!(ctx.user_stats.last_activity, 50);
}

#[test]
fn level_up_stops_at_the_cap_whatever_the_experience() {
    let caps = [
        (CardRarity::Common, 10u8),
        (CardRarity::Uncommon, 15),
        (CardRarity::Rare, 20),
        (CardRarity::Epic, 25),
        (CardRarity::Legendary, 30),
        (CardRarity::Mythic, 40),
    ];
    for (rarity, cap) in caps {
        for experience in [0u32, 100, u32::MAX] {
            let owner = id(1);
            let mut at_cap = card(owner, rarity);
            at_cap.level = cap;
            at_cap.experience = experience;
            let mut ctx = LevelUpCard { owner, pookie_card: at_cap, user_stats: stats(owner, 1) };
            assert_eq!(
                level_up_card(&mut ctx, 50),
                Err(Failure::Rejected(ErrorCode::MaxLevelReached))
            );
            assert_eq!(ctx.pookie_card.level, cap);
            assert_eq!(ctx.pookie_card.experience, experience);
        }
    }
}

#[test]
fn level_up_reaches_the_cap_and_not_beyond() {
    let owner = id(1);
    let mut card_at_nine = card(owner, CardRarity::Common);
    card_at_nine.level = 9;
    card_at_nine.experience = 3200;
    let mut ctx = LevelUpCard { owner, pookie_card: card_at_nine, user_stats: stats(owner, 1) };
    assert_eq!(level_up_card(&mut ctx, 50), Ok(()));
    assert_eq!(ctx.pookie_card.level, 10);
    assert_eq!(ctx.pookie_card.experience, 0);
    ctx.pookie_card.experience = 4000;
    assert_eq!(level_up_card(&mut ctx, 51), Err(Failure::Rejected(ErrorCode::MaxLevelReached)));
    assert_eq!(ctx.pookie_card.level, 10);
}

#[test]
fn level_up_fails_rather_than_wraps_a_statistic() {
    let owner = id(1);
    let mut strong = card(owner, CardRarity::Mythic);
    strong.attack = 249;
    strong.experience = 100;
    let mut ctx = LevelUpCard { owner, pookie_card: strong, user_stats: stats(owner, 1) };
    let before = (ctx.pookie_card.clone(), ctx.user_stats);
    assert_eq!(level_up_card(&mut ctx, 50), Err(Failure::Overflow));
    assert_eq!((ctx.pookie_card.clone(), ctx.user_stats), before);
    ctx.pookie_card.attack = 248;
    assert_eq!(level_up_card(&mut ctx, 50), Ok(()));
    assert_eq!(ctx.pookie_card.attack, 255);
    assert_eq!(ctx.pookie_card.defense, 32);
    assert_eq!(ctx.pookie_card.health, 54);
}

#[test]
fn level_up_fails_rather_than_wraps_health() {
    let owner = id(1);
    let mut hardy = card(owner, CardRarity::Legendary);
    hardy.health = 246;
    hardy.experience = 100;
    let mut ctx = LevelUpCard { owner, pookie_card: hardy, user_stats: stats(owner, 1) };
    assert_eq!(level_up_card(&mut ctx, 50), Err(Failure::Overflow));
    ctx.pookie_card.health = 245;
    assert_eq!(level_up_card(&mut ctx, 50), Ok(()));
    assert_eq!(ctx.pookie_card.health, 255);
}

#[test]
fn level_up_fails_rather_than_wraps_the_account() {
    let owner = id(1);
    let mut ready = card(owner, CardRarity::Common);
    ready.experience = 100;
    let mut veteran = stats(owner, 1);
    veteran.experience = u64::MAX - 199;
    let mut ctx = LevelUpCard { owner, pookie_card: ready, user_stats: veteran };
    assert_eq!(level_up_card(&mut ctx, 50), Err(Failure::Overflow));
    assert_eq!(ctx.pookie_card.level, 1);
    ctx.user_stats.experience = u64::MAX - 200;
    assert_eq!(level_up_card(&mut ctx, 50), Ok(()));
    assert_eq!(ctx.user_stats.experience, u64::MAX);
}

#[test]
fn account_rises_one_level_at_a_time() {
    let owner = id(1);
    let mut ready = card(owner, CardRarity::Common);
    ready.experience = 100;
    let mut wealthy = stats(owner, 1);
    wealthy.experience = 1_000_000;
    let mut ctx = LevelUpCard { owner, pookie_card: ready, user_stats: wealthy };
    assert_eq!(level_up_card(&mut ctx, 50), Ok(()));
    assert_eq!(ctx.user_stats.level, 2);
    assert_eq!(ctx.user_stats.experience, 1_000_200);
}

#[test]
fn account_rises_only_with_the_experience_of_its_level() {
    let owner = id(1);
    let mut ready = card(owner, CardRarity::Common);
    ready.experience = 100;
    let mut second = stats(owner, 1);
    second.level = 2;
    second.experience = 799;
    let mut ctx = LevelUpCard { owner, pookie_card: ready, user_stats: second };
    assert_eq!(level_up_card(&mut ctx, 50), Ok(()));
    assert_eq!(ctx.user_stats.experience, 999);
    assert_eq!(ctx.user_stats.level, 2);

    let mut ready = card(owner, CardRarity::Common);
    ready.experience = 100;
    second.experience = 800;
    let mut ctx = LevelUpCard { owner, pookie_card: ready, user_stats: second };
    assert_eq!(level_up_card(&mut ctx, 50), Ok(()));
    assert_eq!(ctx.user_stats.experience, 1000);
    assert_eq!(ctx.user_stats.level, 3);
}

#[test]
fn account_stops_at_level_one_hundred() {
    let owner = id(1);
    let mut ready = card(owner, CardRarity::Common);
    ready.experience = 100;
    let mut top = stats(owner, 1);
    top.level = 100;
    top.experience = 5_000_000;
    let mut ctx = LevelUpCard { owner, pookie_card: ready, user_stats: top };
    assert_eq!(level_up_card(&mut ctx, 50), Ok(()));
    assert_eq!(ctx.user_stats.level, 100);

    let mut ready = card(owner, CardRarity::Common);
    ready.experience = 100;
    top.level = 99;
    let mut ctx = LevelUpCard { owner, pookie_card: ready, user_stats: top };
    assert_eq!(level_up_card(&mut ctx, 50), Ok(()));
    assert_eq!(ctx.user_stats.level, 100);
}

#[test]
fn update_card_stats_overwrites_what_is_given() {
    let owner = id(1);
    let mut ctx = UpdateCardStats { authority: id(9), pookie_card: card(owner, CardRarity::Epic) };
    assert_eq!(update_card_stats(&mut ctx, Some(200), None, Some(1), None, 99), Ok(()));
    assert_eq!(ctx.pookie_card.attack, 200);
    assert_eq!(ctx.pookie_card.defense, 12);
    assert_eq!(ctx.pookie_card.health, 1);
    assert_eq!(ctx.pookie_card.special_ability, Some(String::from("Basic Attack")));
    assert_eq!(ctx.pookie_card.last_updated, 99);
    assert_eq!(ctx.pookie_card.owner, owner);

    assert_eq!(
        update_card_stats(&mut ctx, None, Some(0), None, Some(Some(String::from("Roar"))), 100),
        Ok(())
    );
    assert_eq!(ctx.pookie_card.attack, 200);
    assert_eq!(ctx.pookie_card.defense, 0);
    assert_eq!(ctx.pookie_card.special_ability, Some(String::from("Roar")));

    assert_eq!(update_card_stats(&mut ctx, None, None, None, Some(None), 101), Ok(()));
    assert_eq!(ctx.pookie_card.special_ability, None);
    assert_eq!(ctx.pookie_card.last_updated, 101);
}

#[test]
fn update_card_stats_with_nothing_given_only_stamps() {
    let owner = id(1);
    let mut ctx = UpdateCardStats { authority: id(9), pookie_card: card(owner, CardRarity::Epic) };
    let mut expected = ctx.pookie_card.clone();
    expected.last_updated = 42;
    assert_eq!(update_card_stats(&mut ctx, None, None, None, None, 42), Ok(()));
    assert_eq!(ctx.pookie_card, expected);
}

#[test]
fn create_collection_builds_an_active_empty_collection() {
    let ctx = CreateCollection { authority: id(3) };
    let made = create_collection(
        &ctx,
        String::from("Starters"),
        String::from("The first cards"),
        Some(500),
        1234,
    )
    .unwrap();
    assert_eq!(made.authority, id(3));
    assert_eq!(made.name, "Starters");
    assert_eq!(made.description, "The first cards");
    assert_eq!(made.total_cards, 0);
    assert_eq!(made.max_supply, Some(500));
    assert_eq!(made.created_at, 1234);
    assert!(made.is_active);
}

#[test]
fn create_collection_checks_the_texts() {
    let ctx = CreateCollection { authority: id(3) };
    assert_eq!(
        create_collection(&ctx, String::new(), String::from("d"), None, 1),
        Err(ErrorCode::InvalidLevel)
    );
    assert!(create_collection(&ctx, "n".repeat(50), String::new(), None, 1).is_ok());
    assert_eq!(
        create_collection(&ctx, "n".repeat(51), String::new(), None, 1),
        Err(ErrorCode::InvalidLevel)
    );
    assert!(create_collection(&ctx, String::from("n"), "d".repeat(200), None, 1).is_ok());
    assert_eq!(
        create_collection(&ctx, String::from("n"), "d".repeat(201), None, 1),
        Err(ErrorCode::InvalidLevel)
    );
}

#[test]
fn create_collection_counts_bytes_not_characters() {
    let ctx = CreateCollection { authority: id(3) };
    assert!(create_collection(&ctx, "é".repeat(25), String::new(), None, 1).is_ok());
    assert_eq!(
        create_collection(&ctx, "é".repeat(26), String::new(), None, 1),
        Err(ErrorCode::InvalidLevel)
    );
    assert_eq!(
        create_collection(&ctx, String::from("n"), "é".repeat(101), None, 1),
        Err(ErrorCode::InvalidLevel)
    );
}

#[test]
fn transfer_card_hands_the_card_over() {
    let (from, to) = (id(1), id(2));
    let (mut signer, mut wallet, mut target, mut program) =
        (backing(1), backing(11), backing(12), backing(100));
    let mut ctx = TransferCard {
        from: KeyedAccount { key: from, info: account(&mut signer) },
        to,
        pookie_card: card(from, CardRarity::Rare),
        from_token_account: account(&mut wallet),
        to_token_account: account(&mut target),
        from_stats: stats(from, 3),
        to_stats: stats(to, 0),
        token_program: account(&mut program),
    };
    assert_eq!(transfer_card(&mut ctx, 500), Ok(()));
    assert_eq!(ctx.pookie_card.owner, to);
    assert_eq!(ctx.pookie_card.last_updated, 500);
    assert!(!ctx.pookie_card.is_listed);
    assert_eq!(ctx.from_stats.cards_owned, 2);
    assert_eq!(ctx.from_stats.last_activity, 500);
    assert_eq!(ctx.to_stats.cards_owned, 1);
    assert_eq!(ctx.to_stats.last_activity, 500);
}

#[test]
fn transfer_card_checks_owner_and_listing() {
    let (from, to) = (id(1), id(2));
    let (mut signer, mut wallet, mut target, mut program) =
        (backing(1), backing(11), backing(12), backing(100));
    let mut ctx = TransferCard {
        from: KeyedAccount { key: from, info: account(&mut signer) },
        to,
        pookie_card: card(to, CardRarity::Rare),
        from_token_account: account(&mut wallet),
        to_token_account: account(&mut target),
        from_stats: stats(from, 3),
        to_stats: stats(to, 0),
        token_program: account(&mut program),
    };
    assert_eq!(transfer_card(&mut ctx, 500), Err(Failure::Rejected(ErrorCode::NotCardOwner)));
    ctx.pookie_card.owner = from;
    ctx.pookie_card.is_listed = true;
    ctx.pookie_card.listing_price = Some(5);
    assert_eq!(transfer_card(&mut ctx, 500), Err(Failure::Rejected(ErrorCode::AlreadyListed)));
    assert_eq!(ctx.pookie_card.owner, from);
    assert_eq!(ctx.pookie_card.last_updated, 10);
    assert_eq!(ctx.from_stats, stats(from, 3));
    assert_eq!(ctx.to_stats, stats(to, 0));
}

#[test]
fn transfer_card_fails_rather_than_wraps() {
    let (from, to) = (id(1), id(2));
    let (mut signer, mut wallet, mut target, mut program) =
        (backing(1), backing(11), backing(12), backing(100));
    let mut ctx = TransferCard {
        from: KeyedAccount { key: from, info: account(&mut signer) },
        to,
        pookie_card: card(from, CardRarity::Rare),
        from_token_account: account(&mut wallet),
        to_token_account: account(&mut target),
        from_stats: stats(from, 0),
        to_stats: stats(to, 0),
        token_program: account(&mut program),
    };
    assert_eq!(transfer_card(&mut ctx, 500), Err(Failure::Overflow));
    ctx.from_stats.cards_owned = 1;
    ctx.to_stats.cards_owned = u64::MAX;
    assert_eq!(transfer_card(&mut ctx, 500), Err(Failure::Overflow));
    assert_eq!(ctx.pookie_card.owner, from);
    assert_eq!(ctx.from_stats.cards_owned, 1);
    assert_eq!(ctx.to_stats.cards_owned, u64::MAX);
}

#[test]
fn transfer_card_changes_nothing_when_the_ledger_refuses() {
    let (from, to) = (id(1), id(2));
    let (mut signer, mut wallet, mut target, mut program) =
        (backing(1), backing(11), backing(12), backing(100));
    let wallet_info = account(&mut wallet);
    let held = wallet_info.clone();
    let mut ctx = TransferCard {
        from: KeyedAccount { key: from, info: account(&mut signer) },
        to,
        pookie_card: card(from, CardRarity::Rare),
        from_token_account: wallet_info,
        to_token_account: account(&mut target),
        from_stats: stats(from, 3),
        to_stats: stats(to, 0),
        token_program: account(&mut program),
    };
    let in_use = held.try_borrow_mut_data().unwrap();
    let outcome = transfer_card(&mut ctx, 500);
    drop(in_use);
    assert!(matches!(outcome, Err(Failure::Host(_))));
    assert_eq!(ctx.pookie_card, card(from, CardRarity::Rare));
    assert_eq!(ctx.from_stats, stats(from, 3));
    assert_eq!(ctx.to_stats, stats(to, 0));
    assert_eq!(transfer_card(&mut ctx, 500), Ok(()));
    assert_eq!(ctx.pookie_card.owner, to);
}

#[test]
fn transfer_card_plans_the_way_from_wallet_to_wallet() {
    let (from, to) = (id(1), id(2));
    let (mut signer, mut wallet, mut target, mut program) =
        (backing(1), backing(11), backing(12), backing(100));
    let ctx = TransferCard {
        from: KeyedAccount { key: from, info: account(&mut signer) },
        to,
        pookie_card: card(from, CardRarity::Rare),
        from_token_account: account(&mut wallet),
        to_token_account: account(&mut target),
        from_stats: stats(from, 3),
        to_stats: stats(to, 0),
        token_program: account(&mut program),
    };
    let order = plan_transfer_card(&ctx).unwrap();
    assert_eq!(order.from.key, ctx.from_token_account.key);
    assert_eq!(order.to.key, ctx.to_token_account.key);
    assert_eq!(order.authority.key, ctx.from.info.key);
    assert_eq!(order.token_program.key, ctx.token_program.key);
    assert_eq!(order.amount, 1);
}

#[test]
fn finish_transfer_card_follows_the_ledger() {
    let (from, to) = (id(1), id(2));
    let (mut signer, mut wallet, mut target, mut program) =
        (backing(1), backing(11), backing(12), backing(100));
    let mut ctx = TransferCard {
        from: KeyedAccount { key: from, info: account(&mut signer) },
        to,
        pookie_card: card(from, CardRarity::Rare),
        from_token_account: account(&mut wallet),
        to_token_account: account(&mut target),
        from_stats: stats(from, 3),
        to_stats: stats(to, 0),
        token_program: account(&mut program),
    };
    assert!(plan_transfer_card(&ctx).is_ok());
    let refusal = Error::from(ProgramError::InsufficientFunds);
    assert_eq!(
        finish_transfer_card(&mut ctx, 500, Err(refusal)),
        Err(Failure::Host(Error::from(ProgramError::InsufficientFunds)))
    );
    assert_eq!(ctx.pookie_card.owner, from);
    assert_eq!(ctx.from_stats.cards_owned, 3);
    assert_eq!(finish_transfer_card(&mut ctx, 500, Ok(())), Ok(()));
    assert_eq!(ctx.pookie_card.owner, to);
    assert_eq!(ctx.from_stats.cards_owned, 2);
    assert_eq!(ctx.to_stats.cards_owned, 1);
}

#[test]
fn finish_transfer_card_checks_the_request_itself() {
    let (from, to) = (id(1), id(2));
    let (mut signer, mut wallet, mut target, mut program) =
        (backing(1), backing(11), backing(12), backing(100));
    let mut ctx = TransferCard {
        from: KeyedAccount { key: from, info: account(&mut signer) },
        to,
        pookie_card: card(to, CardRarity::Rare),
        from_token_account: account(&mut wallet),
        to_token_account: account(&mut target),
        from_stats: stats(from, 3),
        to_stats: stats(to, 0),
        token_program: account(&mut program),
    };
    assert_eq!(
        finish_transfer_card(&mut ctx, 500, Ok(())),
        Err(Failure::Rejected(ErrorCode::NotCardOwner))
    );
    assert_eq!(ctx.pookie_card, card(to, CardRarity::Rare));
    assert_eq!(ctx.from_stats, stats(from, 3));
}

#[test]
fn operations_on_a_card_keep_its_level_within_the_cap() {
    let owner = id(1);
    let mut ctx = LevelUpCard {
        owner,
        pookie_card: card(owner, CardRarity::Common),
        user_stats: stats(owner, 1),
    };
    let mut levels_gained = 0;
    for round in 0..40 {
        ctx.pookie_card.experience = u32::MAX;
        let before = ctx.pookie_card.level;
        match level_up_card(&mut ctx, round) {
            Ok(()) => {
                levels_gained += 1;
                assert_eq!(ctx.pookie_card.level, before + 1);
            }
            Err(why) => {
                assert_eq!(why, Failure::Rejected(ErrorCode::MaxLevelReached));
                assert_eq!(ctx.pookie_card.level, before);
            }
        }
        assert!(ctx.pookie_card.level >= 1);
        assert!(ctx.pookie_card.level <= CardRarity::Common.max_level());
    }
    assert_eq!(levels_gained, 9);
    assert_eq!(ctx.pookie_card.level, 10);
    assert_eq!(ctx.pookie_card.attack, 12);
    assert_eq!(ctx.pookie_card.health, 28);
}

#[test]
fn level_up_knows_no_level_below_the_first() {
    let owner = id(1);
    let mut odd = card(owner, CardRarity::Common);
    odd.level = 0;
    odd.experience = u32::MAX;
    let mut ctx = LevelUpCard { owner, pookie_card: odd.clone(), user_stats: stats(owner, 1) };
    assert_eq!(level_up_card(&mut ctx, 50), Err(Failure::Rejected(ErrorCode::InvalidLevel)));
    assert_eq!(ctx.pookie_card, odd);
    ctx.owner = id(2);
    assert_eq!(level_up_card(&mut ctx, 50), Err(Failure::Rejected(ErrorCode::NotCardOwner)));

    let mut ready = card(owner, CardRarity::Common);
    ready.experience = 100;
    let mut nobody = stats(owner, 1);
    nobody.level = 0;
    let mut ctx = LevelUpCard { owner, pookie_card: ready.clone(), user_stats: nobody };
    assert_eq!(level_up_card(&mut ctx, 50), Err(Failure::Rejected(ErrorCode::InvalidLevel)));
    assert_eq!(ctx.pookie_card, ready);
    assert_eq!(ctx.user_stats, nobody);
}
