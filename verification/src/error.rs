//! The errors that the program and its account rules return.

use vstd::prelude::*;

verus! {

/// The program's own errors.
#[derive(Clone, Copy, PartialEq, Eq, Debug)]
pub enum Errors {
    /// The asset account does not hold a Metaplex Core asset.
    InvalidAsset,
    /// The seller named is not the one that the escrow records.
    MakerMismatch,
    /// The escrow holds no listed asset.
    NotListed,
    /// The asset named is not the one that the escrow records.
    AssetMismatch,
    /// The payment mint named is not the one that the escrow records.
    MintMismatch,
    /// The asset's record does not name the escrow as its owner.
    AssetNotInEscrow,
}

/// The framework errors that the account rules of the program raise.
#[derive(Clone, Copy, PartialEq, Eq, Debug)]
pub enum ErrorCode {
    /// The account data is shorter than the 8 byte discriminator.
    AccountDiscriminatorNotFound,
    /// The first 8 bytes of the account data are not the escrow discriminator.
    AccountDiscriminatorMismatch,
    /// The bytes after the discriminator do not hold an escrow record.
    AccountDidNotDeserialize,
    /// The escrow account is not the address derived from its seeds.
    ConstraintSeeds,
    /// An existing token account is not the associated token account of its
    /// owner and mint.
    ConstraintAssociated,
    /// A token account that the instruction may create is not the associated
    /// token account of its owner and mint.
    AccountNotAssociatedTokenAccount,
}

} // verus!
