//! Listing: the seller pays the listing amount into the vault and hands the
//! asset to the escrow.

use vstd::prelude::*;
use crate::error::{Errors, ErrorCode};
use crate::pubkey::Pubkey;
use crate::state::{Escrow, List as Listing, opened_escrow, initialized_escrow, opening_refusal};
use crate::asset::{decodes_as_base_asset, is_base_asset};
use crate::cpi::{Step, TransferChecked, TransferV1, SignerSeeds, SeedOrder};
use crate::pda::escrow_bump_rule;
use crate::instructions::{MintAccount, AssetAccount, EscrowAccount};
use crate::instructions::initialize::{opening_rules, check_opening_rules};

verus! {

/// The accounts of `list_nft`; the escrow, the vault and the seller's token
/// account are created where they do not exist yet.
#[derive(Clone, PartialEq, Eq, Debug)]
pub struct List {
    pub maker: Pubkey,
    pub mint_sol: MintAccount,
    pub asset: AssetAccount,
    pub escrow: EscrowAccount,
    pub vault: Pubkey,
    pub maker_ata_sol: Pubkey,
    pub associated_token_program: Pubkey,
    pub token_program: Pubkey,
    pub system_program: Pubkey,
    pub mpl_core_program: Pubkey,
}

/// The bump seeds that the account rules of `list_nft` find.
#[derive(Clone, Copy, PartialEq, Eq, Debug)]
pub struct ListBumps {
    pub escrow: u8,
}

/// The steps that listing takes: first `amount` of the mint from the
/// seller's token account into the vault, signed by the seller; then the
/// asset to the escrow, paid and authorised by the seller, the call signed
/// with the escrow's seeds (the seed little-endian) and the bump seed found.
pub open spec fn list_plan(a: List, amount: u64, bumps: ListBumps, seed: u64) -> Seq<Step> {
    seq![
        Step::TransferChecked(TransferChecked {
            token_program: a.token_program,
            from: a.maker_ata_sol,
            to: a.vault,
            mint: a.mint_sol.key,
            authority: a.maker,
            amount: amount,
            decimals: a.mint_sol.decimals,
        }),
        Step::TransferV1(TransferV1 {
            mpl_core_program: a.mpl_core_program,
            asset: a.asset.key,
            collection: None,
            payer: a.maker,
            authority: None,
            new_owner: a.escrow.key,
            system_program: None,
            signer: Some(SignerSeeds { seed: seed, order: SeedOrder::LittleEndian, bump: bumps.escrow }),
        }),
    ]
}

/// What listing gives: refused with `InvalidAsset` unless the asset account
/// holds a Metaplex Core asset, then refused where the escrow belongs to
/// another seller; otherwise the steps of `list_plan`.
pub open spec fn list_outcome(a: List, amount: u64, bumps: ListBumps, seed: u64) -> Result<Seq<Step>, Errors> {
    if !decodes_as_base_asset(a.asset.data@) {
        Err(Errors::InvalidAsset)
    } else {
        match opening_refusal(a.escrow.inner, a.maker) {
            Some(e) => Err(e),
            None => Ok(list_plan(a, amount, bumps, seed)),
        }
    }
}

impl List {
    /// The address rules of `list_nft` for a listing with this seed, under
    /// the program `program_id`: those of `initialize`.
    pub open spec fn rules(&self, program_id: Pubkey, seed: u64) -> Option<Result<ListBumps, ErrorCode>> {
        match opening_rules(
            program_id,
            seed,
            self.maker,
            self.mint_sol.key,
            self.escrow.key,
            self.vault,
            self.maker_ata_sol,
            self.token_program,
        ) {
            None => None,
            Some(Err(e)) => Some(Err(e)),
            Some(Ok(b)) => Some(Ok(ListBumps { escrow: b })),
        }
    }

    /// Checks the address rules of `list_nft` and finds the escrow's bump
    /// seed.
    pub fn validate(&self, program_id: &Pubkey, seed: u64) -> (r: Option<Result<ListBumps, ErrorCode>>)
        ensures
            r == self.rules(*program_id, seed),
            r matches Some(Ok(bumps)) ==> escrow_bump_rule(*program_id, seed, bumps.escrow, self.escrow.key)
                == Ok::<(), ErrorCode>(()),
    {
        match check_opening_rules(
            program_id,
            seed,
            &self.maker,
            &self.mint_sol.key,
            &self.escrow.key,
            &self.vault,
            &self.maker_ata_sol,
            &self.token_program,
        ) {
            None => None,
            Some(Err(e)) => Some(Err(e)),
            Some(Ok(b)) => Some(Ok(ListBumps { escrow: b })),
        }
    }

    /// Writes the escrow record, as `initialize` does.
    pub fn initialize_escrow(&mut self, seed: u64, bumps: &ListBumps, amount: u64) -> (r: Result<(), Errors>)
        ensures
            r == (match opening_refusal(old(self).escrow.inner, old(self).maker) {
                Some(e) => Err(e),
                None => Ok(()),
            }),
            r is Err ==> *final(self) == *old(self),
            r is Ok ==> final(self).escrow.inner == initialized_escrow(
                old(self).escrow.inner,
                seed,
                old(self).maker,
                old(self).maker_ata_sol,
                old(self).mint_sol.key,
                old(self).asset.key,
                old(self).vault,
                bumps.escrow,
                amount,
            ),
            *final(self) == (List { escrow: EscrowAccount { inner: final(self).escrow.inner, ..old(self).escrow }, ..*old(self) }),
    {
        let listed = self.escrow.inner.state.listed;
        let asset = if listed { self.escrow.inner.state.asset } else { self.asset.key };
        self.write_record(seed, bumps, amount, asset, listed)
    }

    /// Writes the escrow record with the given asset and `listed` flag,
    /// unless the escrow belongs to another seller.
    fn write_record(&mut self, seed: u64, bumps: &ListBumps, amount: u64, asset: Pubkey, listed: bool) -> (r: Result<(), Errors>)
        ensures
            r == (match opening_refusal(old(self).escrow.inner, old(self).maker) {
                Some(e) => Err(e),
                None => Ok(()),
            }),
            r is Err ==> *final(self) == *old(self),
            r is Ok ==> final(self).escrow.inner == opened_escrow(
                seed,
                old(self).maker,
                old(self).maker_ata_sol,
                old(self).mint_sol.key,
                asset,
                old(self).vault,
                bumps.escrow,
                amount,
                listed,
            ),
            *final(self) == (List { escrow: EscrowAccount { inner: final(self).escrow.inner, ..old(self).escrow }, ..*old(self) }),
    {
        if let Some(e) = self.escrow.inner.opening_refusal(&self.maker) {
            return Err(e);
        }
        self.escrow.set_inner(Escrow {
            seed: seed,
            maker: self.maker,
            maker_mint: self.maker_ata_sol,
            bump: bumps.escrow,
            fee: 5,
            state: Listing {
                maker: self.maker,
                maker_mint: self.mint_sol.key,
                asset: asset,
                bump: bumps.escrow,
                vault: self.vault,
                price: amount,
                listed: listed,
                owner: self.maker,
            },
        });
        Ok(())
    }

    /// Lists the asset at `amount`: what `list_outcome` gives. On success
    /// the escrow records the listing, marked listed, and the steps are to
    /// be taken in order, each only if the one before it succeeded; on
    /// refusal nothing is written.
    pub fn list_nft(&mut self, amount: u64, bumps: &ListBumps, seed: u64) -> (r: Result<Vec<Step>, Errors>)
        ensures
            (match r {
                Ok(plan) => Ok(plan@),
                Err(e) => Err(e),
            }) == list_outcome(*old(self), amount, *bumps, seed),
            r is Err ==> *final(self) == *old(self),
            r is Ok ==> final(self).escrow.inner == opened_escrow(
                seed,
                old(self).maker,
                old(self).maker_ata_sol,
                old(self).mint_sol.key,
                old(self).asset.key,
                old(self).vault,
                bumps.escrow,
                amount,
                true,
            ),
            *final(self) == (List { escrow: EscrowAccount { inner: final(self).escrow.inner, ..old(self).escrow }, ..*old(self) }),
    {
        if !is_base_asset(self.asset.data.as_slice()) {
            return Err(Errors::InvalidAsset);
        }
        let ghost before = *self;
        let payment = Step::TransferChecked(TransferChecked {
            token_program: self.token_program,
            from: self.maker_ata_sol,
            to: self.vault,
            mint: self.mint_sol.key,
            authority: self.maker,
            amount: amount,
            decimals: self.mint_sol.decimals,
        });
        let deposit = Step::TransferV1(TransferV1 {
            mpl_core_program: self.mpl_core_program,
            asset: self.asset.key,
            collection: None,
            payer: self.maker,
            authority: None,
            new_owner: self.escrow.key,
            system_program: None,
            signer: Some(SignerSeeds { seed: seed, order: SeedOrder::LittleEndian, bump: bumps.escrow }),
        });
        let asset = self.asset.key;
        self.write_record(seed, bumps, amount, asset, true)?;
        let mut plan: Vec<Step> = Vec::new();
        plan.push(payment);
        plan.push(deposit);
        assert(plan@ =~= list_plan(before, amount, *bumps, seed));
        Ok(plan)
    }
}

} // verus!
