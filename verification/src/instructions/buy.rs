//! Buying: the buyer pays the price to the seller that the escrow records,
//! the escrow hands the asset to the buyer, and the escrow account is closed
//! to the seller.

use vstd::prelude::*;
use crate::error::{Errors, ErrorCode};
use crate::pubkey::{Pubkey, lemma_same_bytes};
use crate::asset::{decodes_as_base_asset, is_base_asset, asset_owner, asset_owner_key};
use crate::cpi::{Step, CloseAccount, TransferChecked, TransferV1, SignerSeeds, SeedOrder};
use crate::pda::{
    escrow_seeds_rule, escrow_bump_rule, associated_token_rule, check_escrow_seeds,
    check_associated_token,
};
use crate::instructions::{MintAccount, AssetAccount, EscrowAccount};

verus! {

/// The accounts of `buy_nft`; the buyer's token account is created where it
/// does not exist yet.
#[derive(Clone, PartialEq, Eq, Debug)]
pub struct Buy {
    pub buyer: Pubkey,
    pub maker: Pubkey,
    pub mint_sol: MintAccount,
    pub asset: AssetAccount,
    pub escrow: EscrowAccount,
    pub vault: Pubkey,
    pub maker_ata_sol: Pubkey,
    pub buyer_ata_sol: Pubkey,
    pub associated_token_program: Pubkey,
    pub token_program: Pubkey,
    pub system_program: Pubkey,
    pub mpl_core_program: Pubkey,
}

/// The bump seeds that the account rules of `buy_nft` find.
#[derive(Clone, Copy, PartialEq, Eq, Debug)]
pub struct BuyBumps {
    pub escrow: u8,
}

/// The steps that buying takes: first `price_amount` of the mint from the
/// buyer's token account to the seller's, signed by the buyer; then the
/// asset to the buyer, paid by the buyer, authorised by the escrow, which
/// signs with its seeds (the seed little-endian) and its recorded bump seed;
/// then the escrow account is closed to the seller.
pub open spec fn buy_plan(a: Buy, seed: u64, price_amount: u64) -> Seq<Step> {
    seq![
        Step::TransferChecked(TransferChecked {
            token_program: a.token_program,
            from: a.buyer_ata_sol,
            to: a.maker_ata_sol,
            mint: a.mint_sol.key,
            authority: a.buyer,
            amount: price_amount,
            decimals: a.mint_sol.decimals,
        }),
        Step::TransferV1(TransferV1 {
            mpl_core_program: a.mpl_core_program,
            asset: a.asset.key,
            collection: None,
            payer: a.buyer,
            authority: Some(a.escrow.key),
            new_owner: a.buyer,
            system_program: None,
            signer: Some(SignerSeeds { seed: seed, order: SeedOrder::LittleEndian, bump: a.escrow.inner.bump }),
        }),
        Step::Close(CloseAccount { account: a.escrow.key, destination: a.maker }),
    ]
}

/// Why buying refuses the accounts, if it does: the seller named is not the
/// one that the escrow records, the escrow holds no listed asset, the asset
/// or the payment mint named is not the one that it records, or the asset's
/// record does not name the escrow as its owner (Metaplex Core would refuse
/// the escrow's transfer then). It reads the asset's owner from data that
/// holds a Metaplex Core asset.
pub open spec fn buy_refusal(a: Buy) -> Option<Errors> {
    if a.maker != a.escrow.inner.maker {
        Some(Errors::MakerMismatch)
    } else if !a.escrow.inner.state.listed {
        Some(Errors::NotListed)
    } else if a.asset.key != a.escrow.inner.state.asset {
        Some(Errors::AssetMismatch)
    } else if a.mint_sol.key != a.escrow.inner.state.maker_mint {
        Some(Errors::MintMismatch)
    } else if asset_owner(a.asset.data@) != a.escrow.key.bytes@ {
        Some(Errors::AssetNotInEscrow)
    } else {
        None
    }
}

/// What buying gives: refused with `InvalidAsset` unless the asset account
/// holds a Metaplex Core asset, then refused as `buy_refusal` says;
/// otherwise the steps of `buy_plan`.
pub open spec fn buy_outcome(a: Buy, seed: u64, price_amount: u64) -> Result<Seq<Step>, Errors> {
    if !decodes_as_base_asset(a.asset.data@) {
        Err(Errors::InvalidAsset)
    } else {
        match buy_refusal(a) {
            Some(e) => Err(e),
            None => Ok(buy_plan(a, seed, price_amount)),
        }
    }
}

impl Buy {
    /// The address rules of `buy_nft` for a listing with this seed, under
    /// the program `program_id`, in the order in which they are checked:
    /// the buyer's token account (which may be created), the escrow's seeds,
    /// the vault, the seller's token account.
    pub open spec fn rules(&self, program_id: Pubkey, seed: u64) -> Option<Result<BuyBumps, ErrorCode>> {
        match associated_token_rule(
            self.buyer_ata_sol,
            self.buyer,
            self.mint_sol.key,
            self.token_program,
            ErrorCode::AccountNotAssociatedTokenAccount,
        ) {
            None => None,
            Some(Err(e)) => Some(Err(e)),
            Some(Ok(())) => match escrow_seeds_rule(program_id, seed, self.escrow.key) {
                None => None,
                Some(Err(e)) => Some(Err(e)),
                Some(Ok(bump)) => match associated_token_rule(
                    self.vault,
                    self.escrow.key,
                    self.mint_sol.key,
                    self.token_program,
                    ErrorCode::ConstraintAssociated,
                ) {
                    None => None,
                    Some(Err(e)) => Some(Err(e)),
                    Some(Ok(())) => match associated_token_rule(
                        self.maker_ata_sol,
                        self.maker,
                        self.mint_sol.key,
                        self.token_program,
                        ErrorCode::ConstraintAssociated,
                    ) {
                        None => None,
                        Some(Err(e)) => Some(Err(e)),
                        Some(Ok(())) => Some(Ok(BuyBumps { escrow: bump })),
                    },
                },
            },
        }
    }

    /// Checks the address rules of `buy_nft` and finds the escrow's bump
    /// seed.
    pub fn validate(&self, program_id: &Pubkey, seed: u64) -> (r: Option<Result<BuyBumps, ErrorCode>>)
        ensures
            r == self.rules(*program_id, seed),
            r matches Some(Ok(bumps)) ==> escrow_bump_rule(*program_id, seed, bumps.escrow, self.escrow.key)
                == Ok::<(), ErrorCode>(()),
    {
        match check_associated_token(
            &self.buyer_ata_sol,
            &self.buyer,
            &self.mint_sol.key,
            &self.token_program,
            ErrorCode::AccountNotAssociatedTokenAccount,
        ) {
            None => return None,
            Some(Err(e)) => return Some(Err(e)),
            Some(Ok(())) => {},
        }
        let bump = match check_escrow_seeds(program_id, seed, &self.escrow.key) {
            None => return None,
            Some(Err(e)) => return Some(Err(e)),
            Some(Ok(b)) => b,
        };
        match check_associated_token(
            &self.vault,
            &self.escrow.key,
            &self.mint_sol.key,
            &self.token_program,
            ErrorCode::ConstraintAssociated,
        ) {
            None => return None,
            Some(Err(e)) => return Some(Err(e)),
            Some(Ok(())) => {},
        }
        match check_associated_token(
            &self.maker_ata_sol,
            &self.maker,
            &self.mint_sol.key,
            &self.token_program,
            ErrorCode::ConstraintAssociated,
        ) {
            None => return None,
            Some(Err(e)) => return Some(Err(e)),
            Some(Ok(())) => {},
        }
        Some(Ok(BuyBumps { escrow: bump }))
    }

    /// Why buying refuses these accounts, if it does.
    pub fn refusal(&self) -> (r: Option<Errors>)
        requires
            self.asset.data@.len() >= 33,
        ensures
            r == buy_refusal(*self),
    {
        if !self.maker.equals(&self.escrow.inner.maker) {
            Some(Errors::MakerMismatch)
        } else if !self.escrow.inner.state.listed {
            Some(Errors::NotListed)
        } else if !self.asset.key.equals(&self.escrow.inner.state.asset) {
            Some(Errors::AssetMismatch)
        } else if !self.mint_sol.key.equals(&self.escrow.inner.state.maker_mint) {
            Some(Errors::MintMismatch)
        } else {
            let owner = asset_owner_key(self.asset.data.as_slice());
            proof { lemma_same_bytes(owner, self.escrow.key); }
            if !owner.equals(&self.escrow.key) {
                Some(Errors::AssetNotInEscrow)
            } else {
                None
            }
        }
    }

    /// Buys the asset at `price_amount`: what `buy_outcome` gives, the steps
    /// to be taken in order, each only if the one before it succeeded. The
    /// accounts are left as they are.
    pub fn buy_nft(&mut self, seed: u64, bumps: &BuyBumps, price_amount: u64) -> (r: Result<Vec<Step>, Errors>)
        ensures
            *final(self) == *old(self),
            (match r {
                Ok(plan) => Ok(plan@),
                Err(e) => Err(e),
            }) == buy_outcome(*old(self), seed, price_amount),
    {
        if !is_base_asset(self.asset.data.as_slice()) {
            return Err(Errors::InvalidAsset);
        }
        if let Some(e) = self.refusal() {
            return Err(e);
        }
        let payment = Step::TransferChecked(TransferChecked {
            token_program: self.token_program,
            from: self.buyer_ata_sol,
            to: self.maker_ata_sol,
            mint: self.mint_sol.key,
            authority: self.buyer,
            amount: price_amount,
            decimals: self.mint_sol.decimals,
        });
        let delivery = Step::TransferV1(TransferV1 {
            mpl_core_program: self.mpl_core_program,
            asset: self.asset.key,
            collection: None,
            payer: self.buyer,
            authority: Some(self.escrow.key),
            new_owner: self.buyer,
            system_program: None,
            signer: Some(SignerSeeds { seed: seed, order: SeedOrder::LittleEndian, bump: self.escrow.inner.bump }),
        });
        let close = Step::Close(CloseAccount { account: self.escrow.key, destination: self.maker });
        let mut plan: Vec<Step> = Vec::new();
        plan.push(payment);
        plan.push(delivery);
        plan.push(close);
        assert(plan@ =~= buy_plan(*self, seed, price_amount));
        Ok(plan)
    }
}

} // verus!
