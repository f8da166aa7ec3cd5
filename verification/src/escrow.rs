//! Custody of a card's token: the movements between a holder's wallet and
//! the escrow of the exchange, and the one place where a movement is handed
//! to the token ledger of the host.

use crate::identity::Identity;
use anchor_lang::error::Error;
use anchor_lang::prelude::AccountInfo;
use vstd::prelude::*;

verus! {

/// An account as the host hands it to a program. Nothing here looks inside
/// it: it is only passed on to the token ledger.
#[verifier::external_type_specification]
#[verifier::external_body]
pub struct ExAccountInfo<'info>(AccountInfo<'info>);

/// An account of the host together with the identity under which the
/// records know it.
pub struct KeyedAccount<'info> {
    pub key: Identity,
    pub info: AccountInfo<'info>,
}

/// How many tokens stand for one card.
pub const ONE_CARD: u64 = 1;

/// One movement of tokens between two token accounts, as it is submitted to
/// the token ledger.
pub struct TokenTransfer<'a, 'info> {
    pub token_program: &'a AccountInfo<'info>,
    pub from: &'a AccountInfo<'info>,
    pub to: &'a AccountInfo<'info>,
    pub authority: &'a AccountInfo<'info>,
    pub amount: u64,
}

impl<'a, 'info> TokenTransfer<'a, 'info> {
    /// Whether carrying out `self` after `earlier` puts back what `earlier`
    /// took: the same amount travels the same way in the other direction.
    pub open spec fn returns_what_was_taken_by(self, earlier: TokenTransfer<'a, 'info>) -> bool {
        &&& self.token_program == earlier.token_program
        &&& self.from == earlier.to
        &&& self.to == earlier.from
        &&& self.amount == earlier.amount
    }
}

/// The movement that puts a card into escrow: one token from the holder's
/// wallet to the escrow account, authorized by the holder.
pub open spec fn spec_escrow_in<'a, 'info>(
    token_program: &'a AccountInfo<'info>,
    wallet: &'a AccountInfo<'info>,
    escrow: &'a AccountInfo<'info>,
    holder: &'a AccountInfo<'info>,
) -> TokenTransfer<'a, 'info> {
    TokenTransfer { token_program, from: wallet, to: escrow, authority: holder, amount: ONE_CARD }
}

/// The movement that releases a card from escrow: one token from the escrow
/// account to a wallet, authorized by the custodian of the escrow.
pub open spec fn spec_escrow_out<'a, 'info>(
    token_program: &'a AccountInfo<'info>,
    escrow: &'a AccountInfo<'info>,
    wallet: &'a AccountInfo<'info>,
    custodian: &'a AccountInfo<'info>,
) -> TokenTransfer<'a, 'info> {
    TokenTransfer {
        token_program,
        from: escrow,
        to: wallet,
        authority: custodian,
        amount: ONE_CARD,
    }
}

/// The movement that hands a card over directly: one token from the holder's
/// wallet to another wallet, authorized by the holder.
pub open spec fn spec_hand_over<'a, 'info>(
    token_program: &'a AccountInfo<'info>,
    wallet: &'a AccountInfo<'info>,
    recipient: &'a AccountInfo<'info>,
    holder: &'a AccountInfo<'info>,
) -> TokenTransfer<'a, 'info> {
    TokenTransfer {
        token_program,
        from: wallet,
        to: recipient,
        authority: holder,
        amount: ONE_CARD,
    }
}

/// The movement that puts a card into escrow: one token from the holder's
/// wallet to the escrow account, authorized by the holder.
#[verifier::when_used_as_spec(spec_escrow_in)]
pub fn escrow_in<'a, 'info>(
    token_program: &'a AccountInfo<'info>,
    wallet: &'a AccountInfo<'info>,
    escrow: &'a AccountInfo<'info>,
    holder: &'a AccountInfo<'info>,
) -> (order: TokenTransfer<'a, 'info>)
    ensures
        order == spec_escrow_in(token_program, wallet, escrow, holder),
{
    TokenTransfer { token_program, from: wallet, to: escrow, authority: holder, amount: ONE_CARD }
}

/// The movement that releases a card from escrow: one token from the escrow
/// account to a wallet, authorized by the custodian of the escrow.
#[verifier::when_used_as_spec(spec_escrow_out)]
pub fn escrow_out<'a, 'info>(
    token_program: &'a AccountInfo<'info>,
    escrow: &'a AccountInfo<'info>,
    wallet: &'a AccountInfo<'info>,
    custodian: &'a AccountInfo<'info>,
) -> (order: TokenTransfer<'a, 'info>)
    ensures
        order == spec_escrow_out(token_program, escrow, wallet, custodian),
{
    TokenTransfer {
        token_program,
        from: escrow,
        to: wallet,
        authority: custodian,
        amount: ONE_CARD,
    }
}

/// The movement that hands a card over directly: one token from the holder's
/// wallet to another wallet, authorized by the holder.
#[verifier::when_used_as_spec(spec_hand_over)]
pub fn hand_over<'a, 'info>(
    token_program: &'a AccountInfo<'info>,
    wallet: &'a AccountInfo<'info>,
    recipient: &'a AccountInfo<'info>,
    holder: &'a AccountInfo<'info>,
) -> (order: TokenTransfer<'a, 'info>)
    ensures
        order == spec_hand_over(token_program, wallet, recipient, holder),
{
    TokenTransfer {
        token_program,
        from: wallet,
        to: recipient,
        authority: holder,
        amount: ONE_CARD,
    }
}

/// Submits a movement to the token ledger through
/// `anchor_spl::token::transfer`, which builds the ledger's transfer
/// instruction for the order's accounts and amount and invokes the ledger
/// with it. Whether the ledger carries the movement out depends on what the
/// ledger holds, so nothing is claimed of the answer: `Ok` is the host's word
/// that the tokens moved, and `Err` that they did not, as when one of the
/// accounts is in use elsewhere. On the chain a movement that the ledger
/// refuses ends the whole transaction instead of returning.
#[verifier::external_body]
pub(crate) fn carry_out<'a, 'info>(order: &TokenTransfer<'a, 'info>) -> (moved: Result<(), Error>) {
    anchor_spl::token::transfer(
        anchor_lang::context::CpiContext::new(
            *order.token_program.key,
            anchor_spl::token::Transfer {
                from: order.from.clone(),
                to: order.to.clone(),
                authority: order.authority.clone(),
            },
        ),
        order.amount,
    )
}

} // verus!
