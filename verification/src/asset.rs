//! Recognising the account data of a Metaplex Core asset.

use vstd::prelude::*;
use crate::pubkey::Pubkey;

verus! {

/// Whether `data` starts with the encoding of a Metaplex Core base asset
/// record (key, owner, update authority, name, uri, sequence number).
pub uninterp spec fn decodes_as_base_asset(data: Seq<u8>) -> bool;

/// The fewest bytes that a base asset record takes: key, owner, update
/// authority tag, the two string lengths and the sequence tag.
pub open spec fn base_asset_min_len() -> int {
    43
}

/// Calls `mpl_core::accounts::BaseAssetV1::from_bytes` on `data` and says
/// whether it succeeded. Trusted: that the answer is `decodes_as_base_asset`
/// of the bytes, and that data shorter than the smallest record is refused.
#[verifier::external_body]
fn base_asset_from_bytes(data: &[u8]) -> (ok: bool)
    ensures
        ok == decodes_as_base_asset(data@),
        data@.len() < base_asset_min_len() ==> !ok,
{
    mpl_core::accounts::BaseAssetV1::from_bytes(data).is_ok()
}

/// The owner that a Metaplex Core asset record names: the 32 bytes after
/// the key byte.
pub open spec fn asset_owner(data: Seq<u8>) -> Seq<u8> {
    data.subrange(1, 33)
}

/// The owner that the asset record in `data` names.
pub fn asset_owner_key(data: &[u8]) -> (k: Pubkey)
    requires
        data@.len() >= 33,
    ensures
        k.bytes@ == asset_owner(data@),
{
    Pubkey::from_slice_at(data, 1)
}

/// Whether the asset account's data holds a Metaplex Core asset.
pub fn is_base_asset(data: &[u8]) -> (ok: bool)
    ensures
        ok == decodes_as_base_asset(data@),
        data@.len() < base_asset_min_len() ==> !ok,
{
    base_asset_from_bytes(data)
}

} // verus!
