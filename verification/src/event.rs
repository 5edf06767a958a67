//! The events that the program declares.

use vstd::prelude::*;
use crate::pubkey::Pubkey;

verus! {

/// A listing was opened.
#[derive(Clone, Copy, PartialEq, Eq, Debug)]
pub struct List {
    pub maker: Pubkey,
    pub maker_mint: Pubkey,
    pub listed: bool,
    pub price: u64,
}

/// A listing was withdrawn.
#[derive(Clone, Copy, PartialEq, Eq, Debug)]
pub struct Unlist {
    pub maker: Pubkey,
    pub maker_mint: Pubkey,
    pub listed: bool,
    pub price: u64,
}

/// A listing was bought.
#[derive(Clone, Copy, PartialEq, Eq, Debug)]
pub struct Buy {
    pub taker: Pubkey,
    pub taker_mint: Pubkey,
}

} // verus!
