//! Withdrawing a listing: the escrow hands the asset back to the seller
//! that it records, and the escrow account is closed to that seller.

use vstd::prelude::*;
use crate::error::{Errors, ErrorCode};
use crate::pubkey::{Pubkey, lemma_same_bytes};
use crate::asset::{decodes_as_base_asset, is_base_asset, asset_owner, asset_owner_key};
use crate::cpi::{Step, CloseAccount, TransferV1, SignerSeeds, SeedOrder};
use crate::pda::{escrow_bump_rule, check_escrow_bump};
use crate::instructions::{AssetAccount, EscrowAccount};

verus! {

/// The accounts of `unlist`.
#[derive(Clone, PartialEq, Eq, Debug)]
pub struct Unlist {
    pub maker: Pubkey,
    pub asset: AssetAccount,
    pub escrow: EscrowAccount,
    pub associated_token_program: Pubkey,
    pub token_program: Pubkey,
    pub system_program: Pubkey,
    pub mpl_core_program: Pubkey,
}

/// `unlist` finds no bump seed: it uses the one that the escrow records.
#[derive(Clone, Copy, PartialEq, Eq, Debug)]
pub struct UnlistBumps {}

/// The steps that withdrawing takes: the asset back to the seller, paid by
/// the seller, authorised by the escrow, which signs with its seeds (the
/// seed little-endian) and its recorded bump seed; then the escrow account
/// is closed to the seller.
pub open spec fn unlist_plan(a: Unlist, seed: u64) -> Seq<Step> {
    seq![
        Step::TransferV1(TransferV1 {
            mpl_core_program: a.mpl_core_program,
            asset: a.asset.key,
            collection: None,
            payer: a.maker,
            authority: Some(a.escrow.key),
            new_owner: a.maker,
            system_program: None,
            signer: Some(SignerSeeds { seed: seed, order: SeedOrder::LittleEndian, bump: a.escrow.inner.bump }),
        }),
        Step::Close(CloseAccount { account: a.escrow.key, destination: a.maker }),
    ]
}

/// What withdrawing gives: refused with `InvalidAsset` unless the asset
/// account holds a Metaplex Core asset, then with `MakerMismatch` unless
/// the signer is the seller that the escrow records, then with
/// `AssetNotInEscrow` unless the asset's record names the escrow as its
/// owner (Metaplex Core would refuse the escrow's transfer otherwise);
/// otherwise the steps of `unlist_plan`.
pub open spec fn unlist_outcome(a: Unlist, seed: u64) -> Result<Seq<Step>, Errors> {
    if !decodes_as_base_asset(a.asset.data@) {
        Err(Errors::InvalidAsset)
    } else if a.maker != a.escrow.inner.maker {
        Err(Errors::MakerMismatch)
    } else if asset_owner(a.asset.data@) != a.escrow.key.bytes@ {
        Err(Errors::AssetNotInEscrow)
    } else {
        Ok(unlist_plan(a, seed))
    }
}

impl Unlist {
    /// The address rule of `unlist` for a listing with this seed, under the
    /// program `program_id`: the escrow's seeds with its recorded bump seed
    /// must give its address.
    pub open spec fn rules(&self, program_id: Pubkey, seed: u64) -> Result<UnlistBumps, ErrorCode> {
        match escrow_bump_rule(program_id, seed, self.escrow.inner.bump, self.escrow.key) {
            Ok(()) => Ok(UnlistBumps {}),
            Err(e) => Err(e),
        }
    }

    /// Checks the address rule of `unlist`.
    pub fn validate(&self, program_id: &Pubkey, seed: u64) -> (r: Result<UnlistBumps, ErrorCode>)
        ensures
            r == self.rules(*program_id, seed),
    {
        match check_escrow_bump(program_id, seed, self.escrow.inner.bump, &self.escrow.key) {
            Ok(()) => Ok(UnlistBumps {}),
            Err(e) => Err(e),
        }
    }

    /// Withdraws the listing: what `unlist_outcome` gives, the steps to be
    /// taken in order, each only if the one before it succeeded. The
    /// accounts are left as they are.
    pub fn unlist(&mut self, seed: u64, _bumps: &UnlistBumps) -> (r: Result<Vec<Step>, Errors>)
        ensures
            *final(self) == *old(self),
            (match r {
                Ok(plan) => Ok(plan@),
                Err(e) => Err(e),
            }) == unlist_outcome(*old(self), seed),
    {
        if !is_base_asset(self.asset.data.as_slice()) {
            return Err(Errors::InvalidAsset);
        }
        if !self.maker.equals(&self.escrow.inner.maker) {
            return Err(Errors::MakerMismatch);
        }
        let owner = asset_owner_key(self.asset.data.as_slice());
        proof { lemma_same_bytes(owner, self.escrow.key); }
        if !owner.equals(&self.escrow.key) {
            return Err(Errors::AssetNotInEscrow);
        }
        let mut plan: Vec<Step> = Vec::new();
        plan.push(Step::TransferV1(TransferV1 {
            mpl_core_program: self.mpl_core_program,
            asset: self.asset.key,
            collection: None,
            payer: self.maker,
            authority: Some(self.escrow.key),
            new_owner: self.maker,
            system_program: None,
            signer: Some(SignerSeeds { seed: seed, order: SeedOrder::LittleEndian, bump: self.escrow.inner.bump }),
        }));
        plan.push(Step::Close(CloseAccount { account: self.escrow.key, destination: self.maker }));
        assert(plan@ =~= unlist_plan(*self, seed));
        Ok(plan)
    }
}

} // verus!
