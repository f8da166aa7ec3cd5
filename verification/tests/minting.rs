use anchor_lang::error::Error;
use anchor_lang::prelude::{AccountInfo, ProgramError, Pubkey};
use pookie_cards::escrow::KeyedAccount;
use pookie_cards::instructions::mint_card::{finish_handler, plan_handler};
use pookie_cards::publishing::{
    card_metadata, metadata_uri, push_decimal, CardMetadata, CollectionRef, Creator,
};
use pookie_cards::{
    handler, initialize_user_stats, CardCollection, CardElement, CardRarity, ErrorCode, Failure,
    Identity, InitializeUserStats, MintCard, PookieCard, UserStats,
};

struct Backing {
    key: Pubkey,
    owner: Pubkey,
    lamports: u64,
    data: Vec<u8>,
}

fn backing(tag: u8) -> Backing {
    Backing {
        key: Pubkey::new_from_array([tag; 32]),
        owner: Pubkey::new_from_array([0; 32]),
        lamports: 0,
        data: vec![0u8; 8],
    }
}

fn account(backing: &mut Backing) -> AccountInfo<'_> {
    AccountInfo::new(
        &backing.key,
        false,
        true,
        &mut backing.lamports,
        &mut backing.data,
        &backing.owner,
        false,
    )
}

fn id(tag: u8) -> Identity {
    Identity::new([tag; 32])
}

fn card(owner: Identity, rarity: CardRarity) -> PookieCard {
    let (attack, defense, health) = rarity.base_stats();
    PookieCard {
        mint: id(200),
        owner,
        card_id: 7,
        name: String::from("Pookie"),
        rarity,
        element: CardElement::Fire,
        attack,
        defense,
        health,
        special_ability: Some(String::from("Basic Attack")),
        level: 1,
        experience: 0,
        created_at: 10,
        last_updated: 10,
        is_listed: false,
        listing_price: None,
    }
}

fn stats(owner: Identity, cards_owned: u64) -> UserStats {
    UserStats {
        owner,
        cards_owned,
        cards_minted: 0,
        total_spent: 0,
        total_earned: 0,
        battles_won: 0,
        battles_lost: 0,
        experience: 0,
        level: 1,
        created_at: 10,
        last_activity: 10,
    }
}

fn collection(total_cards: u64, max_supply: Option<u64>) -> CardCollection {
    CardCollection {
        authority: id(60),
        name: String::from("Starters"),
        description: String::from("The first cards"),
        total_cards,
        max_supply,
        created_at: 5,
        is_active: true,
    }
}

fn minting<'a>(collection: CardCollection, accounts: [AccountInfo<'a>; 9]) -> MintCard<'a> {
    let [payer, mint, token_account, metadata, master_edition, token_program, token_metadata_program, system_program, rent] =
        accounts;
    MintCard {
        payer: KeyedAccount { key: id(1), info: payer },
        mint: KeyedAccount { key: id(200), info: mint },
        token_account,
        metadata,
        master_edition,
        user_stats: stats(id(1), 2),
        collection,
        collection_key: id(61),
        collection_authority: id(60),
        token_program,
        token_metadata_program,
        system_program,
        rent,
    }
}

fn backings() -> [Backing; 9] {
    [
        backing(1),
        backing(200),
        backing(11),
        backing(70),
        backing(71),
        backing(100),
        backing(101),
        backing(102),
        backing(103),
    ]
}

fn accounts(backings: &mut [Backing; 9]) -> [AccountInfo<'_>; 9] {
    let [a, b, c, d, e, f, g, h, i] = backings;
    [
        account(a),
        account(b),
        account(c),
        account(d),
        account(e),
        account(f),
        account(g),
        account(h),
        account(i),
    ]
}

#[test]
fn metadata_uri_ends_in_the_card_number() {
    assert_eq!(metadata_uri(0), "https://api.pookiecards.com/metadata/0");
    assert_eq!(metadata_uri(7), "https://api.pookiecards.com/metadata/7");
    assert_eq!(metadata_uri(10), "https://api.pookiecards.com/metadata/10");
    assert_eq!(metadata_uri(42), "https://api.pookiecards.com/metadata/42");
    assert_eq!(metadata_uri(1234567890), "https://api.pookiecards.com/metadata/1234567890");
    assert_eq!(
        metadata_uri(u64::MAX),
        "https://api.pookiecards.com/metadata/18446744073709551615"
    );
}

#[test]
fn push_decimal_appends_the_digits() {
    let mut text = String::from("n=");
    push_decimal(&mut text, 9);
    assert_eq!(text, "n=9");
    push_decimal(&mut text, 100);
    assert_eq!(text, "n=9100");
    push_decimal(&mut text, 0);
    assert_eq!(text, "n=91000");
    let mut empty = String::new();
    push_decimal(&mut empty, 9007199254740993);
    assert_eq!(empty, "9007199254740993");
    for n in [0u64, 1, 9, 10, 11, 99, 100, 101, 999_999, 1_000_000, u64::MAX - 1] {
        let mut digits = String::new();
        push_decimal(&mut digits, n);
        assert_eq!(digits, format!("{}", n));
    }
}

#[test]
fn card_metadata_describes_the_card() {
    let name = String::from("Sparky");
    assert_eq!(
        card_metadata(42, &name, id(60), id(61)),
        CardMetadata {
            name: String::from("Sparky"),
            symbol: String::from("POOKIE"),
            uri: String::from("https://api.pookiecards.com/metadata/42"),
            seller_fee_basis_points: 500,
            creators: Some(vec![Creator { address: id(60), verified: true, share: 100 }]),
            collection: Some(CollectionRef { verified: false, key: id(61) }),
        }
    );
}

#[test]
fn validate_checks_the_collection() {
    let mut store = backings();
    let mut ctx = minting(collection(3, Some(4)), accounts(&mut store));
    assert_eq!(MintCard::validate(&ctx, &CardRarity::Common, &CardElement::Fire), Ok(()));
    ctx.collection.total_cards = 4;
    assert_eq!(
        MintCard::validate(&ctx, &CardRarity::Common, &CardElement::Fire),
        Err(ErrorCode::MaxSupplyReached)
    );
    ctx.collection.total_cards = 5;
    assert_eq!(
        MintCard::validate(&ctx, &CardRarity::Mythic, &CardElement::Neutral),
        Err(ErrorCode::MaxSupplyReached)
    );
    ctx.collection.max_supply = None;
    assert_eq!(MintCard::validate(&ctx, &CardRarity::Common, &CardElement::Fire), Ok(()));
    ctx.collection.total_cards = u64::MAX;
    assert_eq!(MintCard::validate(&ctx, &CardRarity::Common, &CardElement::Fire), Ok(()));
    ctx.collection.is_active = false;
    assert_eq!(
        MintCard::validate(&ctx, &CardRarity::Common, &CardElement::Fire),
        Err(ErrorCode::CollectionNotFound)
    );
    ctx.collection.max_supply = Some(0);
    assert_eq!(
        MintCard::validate(&ctx, &CardRarity::Common, &CardElement::Fire),
        Err(ErrorCode::CollectionNotFound)
    );
}

#[test]
fn validate_allows_no_card_in_a_collection_of_none() {
    let mut store = backings();
    let ctx = minting(collection(0, Some(0)), accounts(&mut store));
    assert_eq!(
        MintCard::validate(&ctx, &CardRarity::Common, &CardElement::Fire),
        Err(ErrorCode::MaxSupplyReached)
    );
}

#[test]
fn handler_mints_a_card_of_each_rarity() {
    let tiers = [
        (CardRarity::Common, (3u8, 3u8, 10u8)),
        (CardRarity::Uncommon, (5, 5, 15)),
        (CardRarity::Rare, (8, 8, 20)),
        (CardRarity::Epic, (12, 12, 25)),
        (CardRarity::Legendary, (18, 18, 30)),
        (CardRarity::Mythic, (25, 25, 40)),
    ];
    for (rarity, (attack, defense, health)) in tiers {
        let mut store = backings();
        let mut ctx = minting(collection(3, Some(4)), accounts(&mut store));
        let minted =
            handler(&mut ctx, 42, String::from("Sparky"), rarity, CardElement::Water, 900);
        assert_eq!(
            minted,
            Ok(PookieCard {
                mint: id(200),
                owner: id(1),
                card_id: 42,
                name: String::from("Sparky"),
                rarity,
                element: CardElement::Water,
                attack,
                defense,
                health,
                special_ability: Some(String::from("Basic Attack")),
                level: 1,
                experience: 0,
                created_at: 900,
                last_updated: 900,
                is_listed: false,
                listing_price: None,
            })
        );
        assert_eq!(ctx.user_stats.cards_owned, 3);
        assert_eq!(ctx.user_stats.cards_minted, 1);
        assert_eq!(ctx.user_stats.last_activity, 900);
        assert_eq!(ctx.user_stats.level, 1);
        assert_eq!(ctx.collection, collection(4, Some(4)));
    }
}

#[test]
fn handler_respects_the_collection() {
    let mut store = backings();
    let mut ctx = minting(collection(4, Some(4)), accounts(&mut store));
    assert_eq!(
        handler(&mut ctx, 42, String::from("Sparky"), CardRarity::Rare, CardElement::Air, 900),
        Err(Failure::Rejected(ErrorCode::MaxSupplyReached))
    );
    ctx.collection.is_active = false;
    assert_eq!(
        handler(&mut ctx, 42, String::from("Sparky"), CardRarity::Rare, CardElement::Air, 900),
        Err(Failure::Rejected(ErrorCode::CollectionNotFound))
    );
    assert_eq!(ctx.user_stats, stats(id(1), 2));
    assert_eq!(ctx.collection.total_cards, 4);
}

#[test]
fn handler_fails_rather_than_wraps() {
    let mut store = backings();
    let mut ctx = minting(collection(u64::MAX, None), accounts(&mut store));
    assert_eq!(
        handler(&mut ctx, 42, String::from("Sparky"), CardRarity::Rare, CardElement::Air, 900),
        Err(Failure::Overflow)
    );
    ctx.collection.total_cards = 0;
    ctx.user_stats.cards_owned = u64::MAX;
    assert_eq!(
        handler(&mut ctx, 42, String::from("Sparky"), CardRarity::Rare, CardElement::Air, 900),
        Err(Failure::Overflow)
    );
    ctx.user_stats.cards_owned = 0;
    ctx.user_stats.cards_minted = u64::MAX;
    assert_eq!(
        handler(&mut ctx, 42, String::from("Sparky"), CardRarity::Rare, CardElement::Air, 900),
        Err(Failure::Overflow)
    );
    assert_eq!(ctx.collection.total_cards, 0);
    assert_eq!(ctx.user_stats.cards_owned, 0);
    assert_eq!(ctx.user_stats.last_activity, 10);
    ctx.user_stats.cards_minted = u64::MAX - 1;
    assert!(handler(&mut ctx, 42, String::from("Sparky"), CardRarity::Rare, CardElement::Air, 900)
        .is_ok());
    assert_eq!(ctx.user_stats.cards_minted, u64::MAX);
}

#[test]
fn handler_changes_nothing_when_the_metadata_is_refused() {
    let mut store = backings();
    let all = accounts(&mut store);
    let held = all[3].clone();
    let mut ctx = minting(collection(3, Some(4)), all);
    let in_use = held.try_borrow_mut_data().unwrap();
    let outcome =
        handler(&mut ctx, 42, String::from("Sparky"), CardRarity::Rare, CardElement::Air, 900);
    drop(in_use);
    assert!(matches!(outcome, Err(Failure::Host(_))));
    assert_eq!(ctx.user_stats, stats(id(1), 2));
    assert_eq!(ctx.collection, collection(3, Some(4)));
}

#[test]
fn handler_changes_nothing_when_the_master_edition_is_refused() {
    let mut store = backings();
    let all = accounts(&mut store);
    let held = all[4].clone();
    let mut ctx = minting(collection(3, Some(4)), all);
    let in_use = held.try_borrow_mut_data().unwrap();
    let outcome =
        handler(&mut ctx, 42, String::from("Sparky"), CardRarity::Rare, CardElement::Air, 900);
    drop(in_use);
    assert!(matches!(outcome, Err(Failure::Host(_))));
    assert_eq!(ctx.user_stats, stats(id(1), 2));
    assert_eq!(ctx.collection, collection(3, Some(4)));
}

#[test]
fn handler_changes_nothing_when_the_token_is_refused() {
    let mut store = backings();
    let all = accounts(&mut store);
    let held = all[2].clone();
    let mut ctx = minting(collection(3, Some(4)), all);
    let in_use = held.try_borrow_mut_data().unwrap();
    let outcome =
        handler(&mut ctx, 42, String::from("Sparky"), CardRarity::Rare, CardElement::Air, 900);
    drop(in_use);
    assert!(matches!(outcome, Err(Failure::Host(_))));
    assert_eq!(ctx.user_stats, stats(id(1), 2));
    assert_eq!(ctx.collection, collection(3, Some(4)));
}

#[test]
fn plan_handler_names_what_the_host_is_asked() {
    let mut store = backings();
    let ctx = minting(collection(3, Some(4)), accounts(&mut store));
    let name = String::from("Sparky");
    let plan = plan_handler(&ctx, 42, &name, &CardRarity::Rare, &CardElement::Air)
        .ok()
        .unwrap();
    let key = |tag: u8| Pubkey::new_from_array([tag; 32]);

    assert_eq!(*plan.metadata.token_metadata_program.key, key(101));
    assert_eq!(*plan.metadata.metadata.key, key(70));
    assert_eq!(*plan.metadata.mint.key, key(200));
    assert_eq!(*plan.metadata.mint_authority.key, key(1));
    assert_eq!(*plan.metadata.payer.key, key(1));
    assert_eq!(*plan.metadata.update_authority.key, key(1));
    assert_eq!(*plan.metadata.system_program.key, key(102));
    assert_eq!(*plan.metadata.rent.key, key(103));
    assert_eq!(plan.metadata.data, card_metadata(42, &name, id(60), id(61)));
    assert_eq!(plan.metadata.data.uri, "https://api.pookiecards.com/metadata/42");
    assert!(plan.metadata.is_mutable);
    assert!(plan.metadata.update_authority_is_signer);

    assert_eq!(*plan.master_edition.token_metadata_program.key, key(101));
    assert_eq!(*plan.master_edition.edition.key, key(71));
    assert_eq!(*plan.master_edition.mint.key, key(200));
    assert_eq!(*plan.master_edition.update_authority.key, key(1));
    assert_eq!(*plan.master_edition.mint_authority.key, key(1));
    assert_eq!(*plan.master_edition.payer.key, key(1));
    assert_eq!(*plan.master_edition.metadata.key, key(70));
    assert_eq!(*plan.master_edition.token_program.key, key(100));
    assert_eq!(*plan.master_edition.system_program.key, key(102));
    assert_eq!(*plan.master_edition.rent.key, key(103));
    assert_eq!(plan.master_edition.max_supply, Some(0));

    assert_eq!(*plan.tokens.token_program.key, key(100));
    assert_eq!(*plan.tokens.mint.key, key(200));
    assert_eq!(*plan.tokens.to.key, key(11));
    assert_eq!(*plan.tokens.authority.key, key(1));
    assert_eq!(plan.tokens.amount, 1);
}

#[test]
fn plan_handler_turns_down_what_handler_turns_down() {
    let mut store = backings();
    let mut ctx = minting(collection(4, Some(4)), accounts(&mut store));
    let name = String::from("Sparky");
    assert_eq!(
        plan_handler(&ctx, 42, &name, &CardRarity::Rare, &CardElement::Air).err(),
        Some(Failure::Rejected(ErrorCode::MaxSupplyReached))
    );
    ctx.collection.max_supply = None;
    ctx.user_stats.cards_owned = u64::MAX;
    assert_eq!(
        plan_handler(&ctx, 42, &name, &CardRarity::Rare, &CardElement::Air).err(),
        Some(Failure::Overflow)
    );
}

#[test]
fn finish_handler_follows_the_host() {
    let mut store = backings();
    let mut ctx = minting(collection(3, Some(4)), accounts(&mut store));
    assert_eq!(
        finish_handler(
            &mut ctx,
            42,
            String::from("Sparky"),
            CardRarity::Rare,
            CardElement::Air,
            900,
            Err(Error::from(ProgramError::Custom(7)))
        ),
        Err(Failure::Host(Error::from(ProgramError::Custom(7))))
    );
    assert_eq!(ctx.user_stats, stats(id(1), 2));
    assert_eq!(ctx.collection, collection(3, Some(4)));
    let minted = finish_handler(
        &mut ctx,
        42,
        String::from("Sparky"),
        CardRarity::Rare,
        CardElement::Air,
        900,
        Ok(()),
    )
    .unwrap();
    assert_eq!(minted.owner, id(1));
    assert_eq!(minted.level, 1);
    assert_eq!(ctx.collection.total_cards, 4);
}

#[test]
fn initialize_user_stats_starts_from_nothing() {
    let ctx = InitializeUserStats { payer: id(5) };
    assert_eq!(
        initialize_user_stats(&ctx, 321),
        Ok(UserStats {
            owner: id(5),
            cards_owned: 0,
            cards_minted: 0,
            total_spent: 0,
            total_earned: 0,
            battles_won: 0,
            battles_lost: 0,
            experience: 0,
            level: 1,
            created_at: 321,
            last_activity: 321,
        })
    );
}

#[test]
fn finish_handler_checks_the_request_itself() {
    let mut store = backings();
    let mut ctx = minting(collection(4, Some(4)), accounts(&mut store));
    assert_eq!(
        finish_handler(
            &mut ctx,
            42,
            String::from("Sparky"),
            CardRarity::Rare,
            CardElement::Air,
            900,
            Ok(())
        ),
        Err(Failure::Rejected(ErrorCode::MaxSupplyReached))
    );
    assert_eq!(ctx.user_stats, stats(id(1), 2));
    assert_eq!(ctx.collection, collection(4, Some(4)));
}
