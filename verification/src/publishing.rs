//! What minting asks of the host: the metadata of a card, and the requests
//! to the metadata registry and to the token ledger.

use crate::identity::Identity;
use anchor_lang::context::CpiContext;
use anchor_lang::error::Error;
use anchor_lang::prelude::{AccountInfo, Pubkey};
use anchor_spl::metadata::mpl_token_metadata::types::{
    Collection, Creator as RoyaltyCreator, DataV2,
};
use anchor_spl::metadata::{
    create_master_edition_v3, create_metadata_accounts_v3, CreateMasterEditionV3,
    CreateMetadataAccountsV3,
};
use anchor_spl::token::{mint_to, MintTo};
use vstd::prelude::*;
use vstd::utf8::{encode_utf8, is_ascii_chars, is_ascii_chars_encode_utf8};

verus! {

/// One of those to whom a card's royalties go.
#[derive(Clone, Copy, Debug, PartialEq, Eq)]
pub struct Creator {
    pub address: Identity,
    pub verified: bool,
    /// The creator's part of the royalties, in percent.
    pub share: u8,
}

/// The collection that a card is published under.
#[derive(Clone, Copy, Debug, PartialEq, Eq)]
pub struct CollectionRef {
    pub verified: bool,
    pub key: Identity,
}

/// What is published about a card when it is minted.
#[derive(Clone, Debug, PartialEq, Eq)]
pub struct CardMetadata {
    pub name: String,
    pub symbol: String,
    /// Where the card's description can be fetched.
    pub uri: String,
    /// The royalty on later sales, in basis points.
    pub seller_fee_basis_points: u16,
    pub creators: Option<Vec<Creator>>,
    pub collection: Option<CollectionRef>,
}

/// The royalty that is published for every card, in basis points: five
/// percent.
pub const SELLER_FEE_BASIS_POINTS: u16 = 500;

/// The share of the royalties that goes to a card's only creator, in percent.
pub const WHOLE_SHARE: u8 = 100;

/// The length in bytes up to which the host can frame a text or a list.
pub open spec fn frame_limit() -> int {
    u32::MAX as int
}

/// The character of one decimal digit.
pub open spec fn digit_char(digit: int) -> char
    recommends
        0 <= digit < 10,
{
    seq!['0', '1', '2', '3', '4', '5', '6', '7', '8', '9'][digit]
}

/// A number written in decimal digits, the highest first, without leading
/// zeros.
pub open spec fn decimal_digits(n: nat) -> Seq<char>
    decreases n,
{
    if n < 10 {
        seq![digit_char(n as int)]
    } else {
        decimal_digits(n / 10).push(digit_char((n % 10) as int))
    }
}

/// The characters of a sequence from the last to the first.
spec fn backwards(text: Seq<char>) -> Seq<char>
    decreases text.len(),
{
    if text.len() == 0 {
        Seq::<char>::empty()
    } else {
        seq![text.last()] + backwards(text.drop_last())
    }
}

/// The character of one decimal digit.
fn digit(value: u8) -> (c: char)
    requires
        value < 10,
    ensures
        c == digit_char(value as int),
{
    match value {
        0 => '0',
        1 => '1',
        2 => '2',
        3 => '3',
        4 => '4',
        5 => '5',
        6 => '6',
        7 => '7',
        8 => '8',
        _ => '9',
    }
}

/// Appends one character to a text, through `String::push` of the standard
/// library, which puts the character behind those that the text holds.
#[verifier::external_body]
fn push_char(text: &mut String, c: char)
    ensures
        final(text)@ == old(text)@.push(c),
{
    text.push(c)
}

/// Appends a number in decimal digits to a text.
pub fn push_decimal(text: &mut String, n: u64)
    ensures
        final(text)@ == old(text)@ + decimal_digits(n as nat),
{
    let mut lowest_first: Vec<char> = Vec::new();
    lowest_first.push(digit((n % 10) as u8));
    let mut rest: u64 = n / 10;
    assert(lowest_first@.drop_last() =~= Seq::<char>::empty());
    assert(backwards(lowest_first@) =~= seq![digit_char((n % 10) as int)]) by {
        assert(backwards(lowest_first@.drop_last()) =~= Seq::<char>::empty());
    }
    while rest > 0
        invariant
            decimal_digits(n as nat) =~= if rest == 0 {
                backwards(lowest_first@)
            } else {
                decimal_digits(rest as nat) + backwards(lowest_first@)
            },
        decreases rest,
    {
        let ghost before = lowest_first@;
        let next: char = digit((rest % 10) as u8);
        lowest_first.push(next);
        assert(lowest_first@.drop_last() =~= before);
        assert(backwards(lowest_first@) =~= seq![next] + backwards(before));
        rest = rest / 10;
    }
    let mut i: usize = lowest_first.len();
    assert(lowest_first@.subrange(0, i as int) =~= lowest_first@);
    while i > 0
        invariant
            i <= lowest_first.len(),
            old(text)@ + backwards(lowest_first@) =~= text@ + backwards(
                lowest_first@.subrange(0, i as int),
            ),
        decreases i,
    {
        assert(lowest_first@.subrange(0, i as int).drop_last() =~= lowest_first@.subrange(
            0,
            i - 1,
        ));
        i = i - 1;
        push_char(text, lowest_first[i]);
    }
    assert(backwards(lowest_first@.subrange(0, 0)) =~= Seq::<char>::empty());
}

/// The symbol under which every card is published.
pub open spec fn card_symbol() -> Seq<char> {
    "POOKIE"@
}

/// The address under which the descriptions of all cards are found; that of
/// one card is this followed by the card's number.
pub open spec fn metadata_uri_prefix() -> Seq<char> {
    "https://api.pookiecards.com/metadata/"@
}

/// Where the description of the card with the number `card_id` is found.
pub open spec fn spec_metadata_uri(card_id: u64) -> Seq<char> {
    metadata_uri_prefix() + decimal_digits(card_id as nat)
}

/// Where the description of the card with the number `card_id` is found.
pub fn metadata_uri(card_id: u64) -> (uri: String)
    ensures
        uri@ == spec_metadata_uri(card_id),
{
    let mut uri: String = "https://api.pookiecards.com/metadata/".to_owned();
    push_decimal(&mut uri, card_id);
    uri
}

/// Ten to the power of `k`.
pub open spec fn pow10(k: nat) -> nat
    decreases k,
{
    if k == 0 {
        1
    } else {
        10 * pow10((k - 1) as nat)
    }
}

/// A number below ten to the power of `k` is written in at most `k` digits,
/// all of which are plain characters of one byte.
pub proof fn lemma_decimal_digits_are_few(n: nat, k: nat)
    requires
        k >= 1,
        n < pow10(k),
    ensures
        1 <= decimal_digits(n).len() <= k,
        is_ascii_chars(decimal_digits(n)),
    decreases n,
{
    if n >= 10 {
        assert(pow10(1) == 10) by {
            reveal_with_fuel(pow10, 2);
        }
        assert(k >= 2);
        lemma_decimal_digits_are_few(n / 10, (k - 1) as nat);
    }
}

/// The address of a card's description is made of plain characters of one
/// byte, at most fifty-seven of them.
pub proof fn lemma_metadata_uri_is_short(card_id: u64)
    ensures
        is_ascii_chars(spec_metadata_uri(card_id)),
        spec_metadata_uri(card_id).len() <= 57,
        encode_utf8(spec_metadata_uri(card_id)).len() == spec_metadata_uri(card_id).len(),
        is_ascii_chars(card_symbol()),
        encode_utf8(card_symbol()).len() == 6,
{
    reveal_strlit("https://api.pookiecards.com/metadata/");
    reveal_strlit("POOKIE");
    assert(pow10(20) == 100_000_000_000_000_000_000nat) by {
        reveal_with_fuel(pow10, 21);
    }
    lemma_decimal_digits_are_few(card_id as nat, 20);
    is_ascii_chars_encode_utf8(spec_metadata_uri(card_id));
    is_ascii_chars_encode_utf8(card_symbol());
}

impl CardMetadata {
    /// Whether the host can frame what is published: each text and the list
    /// of creators stay within the limit of a frame.
    pub open spec fn fits(&self) -> bool {
        &&& encode_utf8(self.name@).len() <= frame_limit()
        &&& encode_utf8(self.symbol@).len() <= frame_limit()
        &&& encode_utf8(self.uri@).len() <= frame_limit()
        &&& self.creators matches Some(creators) ==> creators@.len() <= frame_limit()
    }

    /// Whether this is what is published for the card with the number
    /// `card_id` and the given name: the common symbol, the card's own
    /// address, five percent royalty that goes whole to the one creator, who
    /// counts as verified, and the collection, which does not.
    pub open spec fn describes(
        &self,
        card_id: u64,
        name: Seq<char>,
        creator: Identity,
        collection: Identity,
    ) -> bool {
        &&& self.name@ == name
        &&& self.symbol@ == card_symbol()
        &&& self.uri@ == spec_metadata_uri(card_id)
        &&& self.seller_fee_basis_points == SELLER_FEE_BASIS_POINTS
        &&& self.creators matches Some(creators) && creators@ == seq![
            Creator { address: creator, verified: true, share: WHOLE_SHARE },
        ]
        &&& self.collection == Some(CollectionRef { verified: false, key: collection })
    }
}

/// What is published for a card when it is minted.
pub fn card_metadata(card_id: u64, name: &String, creator: Identity, collection: Identity) -> (data:
    CardMetadata)
    ensures
        data.describes(card_id, name@, creator, collection),
        encode_utf8(name@).len() <= frame_limit() ==> data.fits(),
{
    proof {
        lemma_metadata_uri_is_short(card_id);
    }
    let mut creators: Vec<Creator> = Vec::new();
    creators.push(Creator { address: creator, verified: true, share: WHOLE_SHARE });
    CardMetadata {
        name: name.clone(),
        symbol: "POOKIE".to_owned(),
        uri: metadata_uri(card_id),
        seller_fee_basis_points: SELLER_FEE_BASIS_POINTS,
        creators: Some(creators),
        collection: Some(CollectionRef { verified: false, key: collection }),
    }
}

/// The request to publish a card's metadata, as it is submitted to the
/// metadata registry.
pub struct MetadataOrder<'a, 'info> {
    pub token_metadata_program: &'a AccountInfo<'info>,
    pub metadata: &'a AccountInfo<'info>,
    pub mint: &'a AccountInfo<'info>,
    pub mint_authority: &'a AccountInfo<'info>,
    pub payer: &'a AccountInfo<'info>,
    pub update_authority: &'a AccountInfo<'info>,
    pub system_program: &'a AccountInfo<'info>,
    pub rent: &'a AccountInfo<'info>,
    pub data: CardMetadata,
    pub is_mutable: bool,
    pub update_authority_is_signer: bool,
}

/// The request to make a card's token the only one of its kind, as it is
/// submitted to the metadata registry.
pub struct MasterEditionOrder<'a, 'info> {
    pub token_metadata_program: &'a AccountInfo<'info>,
    pub edition: &'a AccountInfo<'info>,
    pub mint: &'a AccountInfo<'info>,
    pub update_authority: &'a AccountInfo<'info>,
    pub mint_authority: &'a AccountInfo<'info>,
    pub payer: &'a AccountInfo<'info>,
    pub metadata: &'a AccountInfo<'info>,
    pub token_program: &'a AccountInfo<'info>,
    pub system_program: &'a AccountInfo<'info>,
    pub rent: &'a AccountInfo<'info>,
    /// How many further prints of the token may be made.
    pub max_supply: Option<u64>,
}

/// The request to mint tokens into a token account, as it is submitted to
/// the token ledger.
pub struct MintOrder<'a, 'info> {
    pub token_program: &'a AccountInfo<'info>,
    pub mint: &'a AccountInfo<'info>,
    pub to: &'a AccountInfo<'info>,
    pub authority: &'a AccountInfo<'info>,
    pub amount: u64,
}

/// The accounts of a request to publish metadata, in the form in which
/// `anchor_spl::metadata` takes them.
#[verifier::external_type_specification]
#[verifier::external_body]
pub struct ExCreateMetadataAccountsV3<'info>(CreateMetadataAccountsV3<'info>);

/// Puts the accounts of an order into `anchor_spl`'s
/// `CreateMetadataAccountsV3`, each under the field of its own name.
#[verifier::external_body]
fn metadata_accounts<'a, 'info>(order: &MetadataOrder<'a, 'info>) -> (accounts:
    CreateMetadataAccountsV3<'info>) {
    CreateMetadataAccountsV3 {
        metadata: order.metadata.clone(),
        mint: order.mint.clone(),
        mint_authority: order.mint_authority.clone(),
        payer: order.payer.clone(),
        update_authority: order.update_authority.clone(),
        system_program: order.system_program.clone(),
        rent: order.rent.clone(),
    }
}

/// A creator in the form in which the metadata registry takes one.
#[verifier::external_type_specification]
#[verifier::external_body]
pub struct ExRoyaltyCreator(RoyaltyCreator);

/// A collection in the form in which the metadata registry takes one.
#[verifier::external_type_specification]
#[verifier::external_body]
pub struct ExCollection(Collection);

/// Puts each creator into `mpl_token_metadata`'s `Creator`, field by field,
/// in the order of the list.
#[verifier::external_body]
fn royalty_creators(creators: &Option<Vec<Creator>>) -> (converted: Option<Vec<RoyaltyCreator>>) {
    creators.as_ref().map(|all| {
        all.iter()
            .map(|c| RoyaltyCreator {
                address: Pubkey::new_from_array(c.address.bytes),
                verified: c.verified,
                share: c.share,
            })
            .collect()
    })
}

/// Puts the collection into `mpl_token_metadata`'s `Collection`, field by
/// field.
#[verifier::external_body]
fn published_collection(collection: &Option<CollectionRef>) -> (converted: Option<Collection>) {
    collection.as_ref().map(|c| Collection {
        verified: c.verified,
        key: Pubkey::new_from_array(c.key.bytes),
    })
}

/// Submits a request to publish metadata through
/// `anchor_spl::metadata::create_metadata_accounts_v3`, with the data as a
/// `DataV2` without usage limits and without collection details; `creators`
/// and `collection` are those of `data` in the registry's form. The call
/// frames the data and cannot do so beyond the limit of a frame, which the
/// precondition leaves out. Whether the registry accepts the request depends
/// on what it holds, so nothing is claimed of the answer; on the chain a
/// request that the registry refuses ends the whole transaction instead of
/// returning.
#[verifier::external_body]
fn create_metadata<'info>(
    program: &AccountInfo<'info>,
    accounts: CreateMetadataAccountsV3<'info>,
    data: &CardMetadata,
    creators: Option<Vec<RoyaltyCreator>>,
    collection: Option<Collection>,
    is_mutable: bool,
    update_authority_is_signer: bool,
) -> (published: Result<(), Error>)
    requires
        data.fits(),
{
    let data = DataV2 {
        name: data.name.clone(),
        symbol: data.symbol.clone(),
        uri: data.uri.clone(),
        seller_fee_basis_points: data.seller_fee_basis_points,
        creators,
        collection,
        uses: None,
    };
    let ctx = CpiContext::new(*program.key, accounts);
    create_metadata_accounts_v3(ctx, data, is_mutable, update_authority_is_signer, None)
}

/// Submits a request for a master edition through
/// `anchor_spl::metadata::create_master_edition_v3`, with the order's accounts
/// each under the field of its own name. Whether the registry accepts it
/// depends on what it holds, so nothing is claimed of the answer.
#[verifier::external_body]
fn create_master_edition<'a, 'info>(order: &MasterEditionOrder<'a, 'info>) -> (published: Result<
    (),
    Error,
>) {
    let accounts = CreateMasterEditionV3 {
        edition: order.edition.clone(),
        mint: order.mint.clone(),
        update_authority: order.update_authority.clone(),
        mint_authority: order.mint_authority.clone(),
        payer: order.payer.clone(),
        metadata: order.metadata.clone(),
        token_program: order.token_program.clone(),
        system_program: order.system_program.clone(),
        rent: order.rent.clone(),
    };
    let ctx = CpiContext::new(*order.token_metadata_program.key, accounts);
    create_master_edition_v3(ctx, order.max_supply)
}

/// Submits a request to mint tokens through `anchor_spl::token::mint_to`,
/// with the order's accounts and amount. Whether the ledger carries it out
/// depends on what the ledger holds, so nothing is claimed of the answer.
#[verifier::external_body]
fn mint_tokens<'a, 'info>(order: &MintOrder<'a, 'info>) -> (minted: Result<(), Error>) {
    let accounts = MintTo {
        mint: order.mint.clone(),
        to: order.to.clone(),
        authority: order.authority.clone(),
    };
    mint_to(CpiContext::new(*order.token_program.key, accounts), order.amount)
}

/// All that minting a card asks of the host: to publish the card's metadata,
/// to make its token the only one of its kind, and to mint that token.
pub struct MintPlan<'a, 'info> {
    pub metadata: MetadataOrder<'a, 'info>,
    pub master_edition: MasterEditionOrder<'a, 'info>,
    pub tokens: MintOrder<'a, 'info>,
}

/// Submits the three requests of a plan in their order and stops at the first
/// that the host turns down, whose error it hands on.
pub(crate) fn publish<'a, 'info>(plan: &MintPlan<'a, 'info>) -> (published: Result<(), Error>)
    requires
        plan.metadata.data.fits(),
{
    let accounts = metadata_accounts(&plan.metadata);
    let creators = royalty_creators(&plan.metadata.data.creators);
    let collection = published_collection(&plan.metadata.data.collection);
    match create_metadata(
        plan.metadata.token_metadata_program,
        accounts,
        &plan.metadata.data,
        creators,
        collection,
        plan.metadata.is_mutable,
        plan.metadata.update_authority_is_signer,
    ) {
        Err(refusal) => {
            return Err(refusal);
        },
        Ok(_) => {},
    }
    match create_master_edition(&plan.master_edition) {
        Err(refusal) => {
            return Err(refusal);
        },
        Ok(_) => {},
    }
    mint_tokens(&plan.tokens)
}

} // verus!
