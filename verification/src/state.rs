//! The records that the program keeps on chain.

use vstd::prelude::*;
use crate::pubkey::Pubkey;
use crate::error::Errors;

verus! {

/// A listing: who sells which asset, for payment in which mint, through
/// which vault, at what price, and whether the asset is in the escrow.
#[derive(Clone, Copy, PartialEq, Eq, Debug)]
pub struct List {
    pub maker: Pubkey,
    pub maker_mint: Pubkey,
    pub asset: Pubkey,
    pub vault: Pubkey,
    pub price: u64,
    pub bump: u8,
    pub listed: bool,
    pub owner: Pubkey,
}

impl List {
    /// The number of bytes that a listing takes in account data.
    pub const INIT_SPACE: usize = 170;
}

/// A purchase record: the buyer and the buyer's token account.
#[derive(Clone, Copy, PartialEq, Eq, Debug)]
pub struct Buy {
    pub buyer: Pubkey,
    pub buyer_mint: Pubkey,
}

impl Buy {
    /// The number of bytes that a purchase record takes in account data.
    pub const INIT_SPACE: usize = 64;
}

/// The escrow account: its seed, the seller, the seller's token account,
/// the address bump, the fee and the listing.
#[derive(Clone, Copy, PartialEq, Eq, Debug)]
pub struct Escrow {
    pub seed: u64,
    pub maker: Pubkey,
    pub maker_mint: Pubkey,
    pub bump: u8,
    pub fee: u8,
    pub state: List,
}

impl Escrow {
    /// The number of bytes that an escrow record takes in account data,
    /// after the 8 byte discriminator.
    pub const INIT_SPACE: usize = 244;
}

/// The fee that every new escrow records.
pub open spec fn escrow_fee() -> u8 {
    5
}

/// Whether every byte of the address is zero. A newly created escrow
/// account holds only zeros; the all-zero address belongs to the system
/// program, which never signs, so no seller has it.
pub open spec fn is_zero_key(k: Pubkey) -> bool {
    forall|i: int| 0 <= i < 32 ==> k.bytes[i] == 0
}

/// Whether the escrow record names a seller, that is, whether an earlier
/// `initialize` or `list_nft` wrote it.
pub open spec fn has_seller(e: Escrow) -> bool {
    !is_zero_key(e.maker)
}

/// Why `initialize` or `list_nft` by `maker` refuses to write over the
/// escrow record `e`, if it does: the record belongs to another seller.
pub open spec fn opening_refusal(e: Escrow, maker: Pubkey) -> Option<Errors> {
    if has_seller(e) && e.maker != maker {
        Some(Errors::MakerMismatch)
    } else {
        None
    }
}

/// The escrow record that `initialize` (with `listed` false) and `list_nft`
/// (with `listed` true) write: the seed, the seller `maker`, the seller's
/// token account `maker_ata`, the address `bump` and the fee; and a listing
/// of `asset` for payment in `mint` at `amount`, through the `vault`, owned
/// by the seller.
pub open spec fn opened_escrow(
    seed: u64,
    maker: Pubkey,
    maker_ata: Pubkey,
    mint: Pubkey,
    asset: Pubkey,
    vault: Pubkey,
    bump: u8,
    amount: u64,
    listed: bool,
) -> Escrow {
    Escrow {
        seed: seed,
        maker: maker,
        maker_mint: maker_ata,
        bump: bump,
        fee: escrow_fee(),
        state: List {
            maker: maker,
            maker_mint: mint,
            asset: asset,
            bump: bump,
            vault: vault,
            price: amount,
            listed: listed,
            owner: maker,
        },
    }
}

/// The escrow record that `initialize` writes over `old`: the seed, the
/// price and the rest as `opened_escrow` gives them, but a listing that is
/// open stays open, with the asset that the escrow holds.
pub open spec fn initialized_escrow(
    old: Escrow,
    seed: u64,
    maker: Pubkey,
    maker_ata: Pubkey,
    mint: Pubkey,
    asset: Pubkey,
    vault: Pubkey,
    bump: u8,
    amount: u64,
) -> Escrow {
    opened_escrow(
        seed,
        maker,
        maker_ata,
        mint,
        if old.state.listed { old.state.asset } else { asset },
        vault,
        bump,
        amount,
        old.state.listed,
    )
}

impl Escrow {
    /// Why `initialize` or `list_nft` by `maker` refuses to write over this
    /// record, if it does.
    pub fn opening_refusal(&self, maker: &Pubkey) -> (r: Option<Errors>)
        ensures
            r == opening_refusal(*self, *maker),
    {
        if !self.maker.is_zero() && !self.maker.equals(maker) {
            Some(Errors::MakerMismatch)
        } else {
            None
        }
    }
}

} // verus!
