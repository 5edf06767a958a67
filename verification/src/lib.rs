//! An escrow marketplace for Metaplex Core NFTs on Solana: the account
//! layouts, the address rules and the decisions of the four instructions
//! (initialize, list, buy, unlist), with the cross-program calls that each
//! instruction makes given as plans for the runtime to carry out.

pub mod pubkey;
pub mod error;
pub mod state;
pub mod codec;
pub mod event;
pub mod asset;
pub mod pda;
pub mod cpi;
pub mod instructions;
pub mod nft_escrow;
pub mod laws;
