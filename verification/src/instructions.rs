//! The four instructions: the accounts that each one reads, the rules that
//! the accounts must meet, and what each one does.

use vstd::prelude::*;
use crate::pubkey::Pubkey;
use crate::state::Escrow;

pub mod initialize;
pub mod list;
pub mod buy;
pub mod unlist;

pub use initialize::{Initialize, InitializeBumps};
pub use list::{List, ListBumps};
pub use buy::{Buy, BuyBumps};
pub use unlist::{Unlist, UnlistBumps};

verus! {

/// A token mint: its address and its number of decimals.
#[derive(Clone, Copy, PartialEq, Eq, Debug)]
pub struct MintAccount {
    pub key: Pubkey,
    pub decimals: u8,
}

/// The NFT's account: its address and its data.
#[derive(Clone, PartialEq, Eq, Debug)]
pub struct AssetAccount {
    pub key: Pubkey,
    pub data: Vec<u8>,
}

/// The escrow account: its address and the escrow record it holds.
#[derive(Clone, Copy, PartialEq, Eq, Debug)]
pub struct EscrowAccount {
    pub key: Pubkey,
    pub inner: Escrow,
}

impl EscrowAccount {
    /// Replaces the record that the account holds.
    pub fn set_inner(&mut self, inner: Escrow)
        ensures
            final(self).key == old(self).key,
            final(self).inner == inner,
    {
        self.inner = inner;
    }
}

} // verus!
