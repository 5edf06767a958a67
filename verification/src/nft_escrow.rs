//! The program's entry points: each one runs its instruction on accounts
//! that have passed the instruction's account rules, with the bump seeds
//! that those rules found.

use vstd::prelude::*;
use crate::error::Errors;
use crate::cpi::Step;
use crate::state::{opened_escrow, initialized_escrow, opening_refusal};
use crate::instructions::{Initialize, InitializeBumps, List, ListBumps, Buy, BuyBumps, Unlist, UnlistBumps, EscrowAccount};
use crate::instructions::list::list_outcome;
use crate::instructions::buy::buy_outcome;
use crate::instructions::unlist::unlist_outcome;

verus! {

/// Opens the escrow of a listing with this seed at the price `amount`.
pub fn initialize(accounts: &mut Initialize, bumps: &InitializeBumps, seed: u64, amount: u64) -> (r: Result<(), Errors>)
    ensures
        r == (match opening_refusal(old(accounts).escrow.inner, old(accounts).maker) {
            Some(e) => Err(e),
            None => Ok(()),
        }),
        r is Err ==> *final(accounts) == *old(accounts),
        r is Ok ==> final(accounts).escrow.inner == initialized_escrow(
            old(accounts).escrow.inner,
            seed,
            old(accounts).maker,
            old(accounts).maker_ata_sol,
            old(accounts).mint_sol.key,
            old(accounts).asset.key,
            old(accounts).vault,
            bumps.escrow,
            amount,
        ),
        *final(accounts) == (Initialize { escrow: EscrowAccount { inner: final(accounts).escrow.inner, ..old(accounts).escrow }, ..*old(accounts) }),
{
    accounts.initialize_escrow(seed, bumps, amount)
}

/// Lists the asset at the price `amount`, paying `amount` into the vault.
pub fn list_nft(accounts: &mut List, bumps: &ListBumps, amount: u64, seed: u64) -> (r: Result<Vec<Step>, Errors>)
    ensures
        (match r {
            Ok(plan) => Ok(plan@),
            Err(e) => Err(e),
        }) == list_outcome(*old(accounts), amount, *bumps, seed),
        r is Err ==> *final(accounts) == *old(accounts),
        r is Ok ==> final(accounts).escrow.inner == opened_escrow(
            seed,
            old(accounts).maker,
            old(accounts).maker_ata_sol,
            old(accounts).mint_sol.key,
            old(accounts).asset.key,
            old(accounts).vault,
            bumps.escrow,
            amount,
            true,
        ),
        *final(accounts) == (List { escrow: EscrowAccount { inner: final(accounts).escrow.inner, ..old(accounts).escrow }, ..*old(accounts) }),
{
    accounts.list_nft(amount, bumps, seed)
}

/// Buys the asset at the price that the escrow's listing records.
pub fn buy_nft(accounts: &mut Buy, bumps: &BuyBumps, seed: u64) -> (r: Result<Vec<Step>, Errors>)
    ensures
        *final(accounts) == *old(accounts),
        (match r {
            Ok(plan) => Ok(plan@),
            Err(e) => Err(e),
        }) == buy_outcome(*old(accounts), seed, old(accounts).escrow.inner.state.price),
{
    let price = accounts.escrow.inner.state.price;
    accounts.buy_nft(seed, bumps, price)
}

/// Withdraws the listing.
pub fn unlist(accounts: &mut Unlist, bumps: &UnlistBumps, seed: u64) -> (r: Result<Vec<Step>, Errors>)
    ensures
        *final(accounts) == *old(accounts),
        (match r {
            Ok(plan) => Ok(plan@),
            Err(e) => Err(e),
        }) == unlist_outcome(*old(accounts), seed),
{
    accounts.unlist(seed, bumps)
}

} // verus!
