//! Opening an escrow: the record of a listing at the seller's price.

use vstd::prelude::*;
use crate::error::{Errors, ErrorCode};
use crate::pubkey::Pubkey;
use crate::state::{Escrow, List as Listing, initialized_escrow, opening_refusal};
use crate::pda::{
    escrow_seeds_rule, escrow_bump_rule, associated_token_rule, check_escrow_seeds,
    check_associated_token,
};
use crate::instructions::{MintAccount, AssetAccount, EscrowAccount};

verus! {

/// The accounts of `initialize`. The escrow is created where it does not
/// exist yet, as are the vault (the escrow's token account for the mint)
/// and the seller's token account.
#[derive(Clone, PartialEq, Eq, Debug)]
pub struct Initialize {
    pub maker: Pubkey,
    pub mint_sol: MintAccount,
    pub asset: AssetAccount,
    pub escrow: EscrowAccount,
    pub vault: Pubkey,
    pub maker_ata_sol: Pubkey,
    pub associated_token_program: Pubkey,
    pub token_program: Pubkey,
    pub system_program: Pubkey,
    pub mpl_core_program: Pubkey,
}

/// The bump seeds that the account rules of `initialize` find.
#[derive(Clone, Copy, PartialEq, Eq, Debug)]
pub struct InitializeBumps {
    pub escrow: u8,
}

/// The address rules of an instruction whose escrow, vault and seller's
/// token account may be created: the escrow's seeds, then the vault, then
/// the seller's token account, each an associated token account of the
/// mint. `None` where an address search finds no bump seed.
pub open spec fn opening_rules(
    program_id: Pubkey,
    seed: u64,
    maker: Pubkey,
    mint: Pubkey,
    escrow: Pubkey,
    vault: Pubkey,
    maker_ata: Pubkey,
    token_program: Pubkey,
) -> Option<Result<u8, ErrorCode>> {
    match escrow_seeds_rule(program_id, seed, escrow) {
        None => None,
        Some(Err(e)) => Some(Err(e)),
        Some(Ok(bump)) => match associated_token_rule(
            vault,
            escrow,
            mint,
            token_program,
            ErrorCode::AccountNotAssociatedTokenAccount,
        ) {
            None => None,
            Some(Err(e)) => Some(Err(e)),
            Some(Ok(())) => match associated_token_rule(
                maker_ata,
                maker,
                mint,
                token_program,
                ErrorCode::AccountNotAssociatedTokenAccount,
            ) {
                None => None,
                Some(Err(e)) => Some(Err(e)),
                Some(Ok(())) => Some(Ok(bump)),
            },
        },
    }
}

/// Checks the address rules of an instruction whose escrow, vault and
/// seller's token account may be created, and finds the escrow's bump seed.
pub fn check_opening_rules(
    program_id: &Pubkey,
    seed: u64,
    maker: &Pubkey,
    mint: &Pubkey,
    escrow: &Pubkey,
    vault: &Pubkey,
    maker_ata: &Pubkey,
    token_program: &Pubkey,
) -> (r: Option<Result<u8, ErrorCode>>)
    ensures
        r == opening_rules(*program_id, seed, *maker, *mint, *escrow, *vault, *maker_ata, *token_program),
        r matches Some(Ok(b)) ==> escrow_bump_rule(*program_id, seed, b, *escrow) == Ok::<(), ErrorCode>(()),
{
    let bump = match check_escrow_seeds(program_id, seed, escrow) {
        None => return None,
        Some(Err(e)) => return Some(Err(e)),
        Some(Ok(b)) => b,
    };
    match check_associated_token(vault, escrow, mint, token_program, ErrorCode::AccountNotAssociatedTokenAccount) {
        None => return None,
        Some(Err(e)) => return Some(Err(e)),
        Some(Ok(())) => {},
    }
    match check_associated_token(maker_ata, maker, mint, token_program, ErrorCode::AccountNotAssociatedTokenAccount) {
        None => return None,
        Some(Err(e)) => return Some(Err(e)),
        Some(Ok(())) => {},
    }
    Some(Ok(bump))
}

impl Initialize {
    /// The address rules of `initialize` for a listing with this seed,
    /// under the program `program_id`.
    pub open spec fn rules(&self, program_id: Pubkey, seed: u64) -> Option<Result<InitializeBumps, ErrorCode>> {
        match opening_rules(
            program_id,
            seed,
            self.maker,
            self.mint_sol.key,
            self.escrow.key,
            self.vault,
            self.maker_ata_sol,
            self.token_program,
        ) {
            None => None,
            Some(Err(e)) => Some(Err(e)),
            Some(Ok(b)) => Some(Ok(InitializeBumps { escrow: b })),
        }
    }

    /// Checks the address rules of `initialize` and finds the escrow's bump
    /// seed. The escrow that passes them passes the rule that `unlist`
    /// puts on it once it records that bump seed.
    pub fn validate(&self, program_id: &Pubkey, seed: u64) -> (r: Option<Result<InitializeBumps, ErrorCode>>)
        ensures
            r == self.rules(*program_id, seed),
            r matches Some(Ok(bumps)) ==> escrow_bump_rule(*program_id, seed, bumps.escrow, self.escrow.key)
                == Ok::<(), ErrorCode>(()),
    {
        match check_opening_rules(
            program_id,
            seed,
            &self.maker,
            &self.mint_sol.key,
            &self.escrow.key,
            &self.vault,
            &self.maker_ata_sol,
            &self.token_program,
        ) {
            None => None,
            Some(Err(e)) => Some(Err(e)),
            Some(Ok(b)) => Some(Ok(InitializeBumps { escrow: b })),
        }
    }

    /// Writes the escrow record: the seed, the seller, the seller's token
    /// account, the bump seed and the fee, and a listing for payment in the
    /// mint at `amount`, through the vault, owned by the seller. A new
    /// escrow's listing names this asset and is not yet listed; a listing
    /// that is open stays open, with the asset that the escrow holds.
    /// Refused, with nothing written, where the escrow belongs to another
    /// seller.
    pub fn initialize_escrow(&mut self, seed: u64, bumps: &InitializeBumps, amount: u64) -> (r: Result<(), Errors>)
        ensures
            r == (match opening_refusal(old(self).escrow.inner, old(self).maker) {
                Some(e) => Err(e),
                None => Ok(()),
            }),
            r is Err ==> *final(self) == *old(self),
            r is Ok ==> final(self).escrow.inner == initialized_escrow(
                old(self).escrow.inner,
                seed,
                old(self).maker,
                old(self).maker_ata_sol,
                old(self).mint_sol.key,
                old(self).asset.key,
                old(self).vault,
                bumps.escrow,
                amount,
            ),
            *final(self) == (Initialize { escrow: EscrowAccount { inner: final(self).escrow.inner, ..old(self).escrow }, ..*old(self) }),
    {
        if let Some(e) = self.escrow.inner.opening_refusal(&self.maker) {
            return Err(e);
        }
        let listed = self.escrow.inner.state.listed;
        let asset = if listed { self.escrow.inner.state.asset } else { self.asset.key };
        let inner = Escrow {
            seed: seed,
            maker: self.maker,
            maker_mint: self.maker_ata_sol,
            bump: bumps.escrow,
            fee: 5,
            state: Listing {
                maker: self.maker,
                maker_mint: self.mint_sol.key,
                asset: asset,
                bump: bumps.escrow,
                vault: self.vault,
                price: amount,
                listed: listed,
                owner: self.maker,
            },
        };
        self.escrow.set_inner(inner);
        Ok(())
    }
}

} // verus!
