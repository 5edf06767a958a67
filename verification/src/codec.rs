//! The byte layout of the escrow account: an 8 byte discriminator, then the
//! escrow record with its fields in declaration order, integers little-endian,
//! addresses as their 32 bytes and booleans as one byte, 0 or 1.

use vstd::prelude::*;
use vstd::bytes::{spec_u64_to_le_bytes, spec_u64_from_le_bytes, lemma_auto_spec_u64_to_from_le_bytes};
use crate::error::ErrorCode;
use crate::pubkey::Pubkey;
use crate::state::{Escrow, List};

verus! {

/// The SHA-256 digest of `data`.
pub uninterp spec fn sha256_digest(data: Seq<u8>) -> Seq<u8>;

/// Calls `anchor_lang::solana_program::hash::hash` and returns the 32 bytes
/// of the digest. Trusted: that the result is the SHA-256 digest of `data`
/// (named `sha256_digest`) and is 32 bytes long.
#[verifier::external_body]
fn sha256(data: &[u8]) -> (digest: Vec<u8>)
    ensures
        digest@ == sha256_digest(data@),
        digest@.len() == 32,
{
    anchor_lang::solana_program::hash::hash(data).to_bytes().to_vec()
}

/// The bytes of the text `account:Escrow`, whose digest gives the
/// discriminator of the escrow account.
pub open spec fn escrow_preimage() -> Seq<u8> {
    seq![97u8, 99, 99, 111, 117, 110, 116, 58, 69, 115, 99, 114, 111, 119]
}

/// The 8 byte discriminator of the escrow account: the first 8 bytes of the
/// SHA-256 digest of `account:Escrow`.
pub open spec fn escrow_discriminator_spec() -> Seq<u8> {
    Seq::new(8, |i: int| sha256_digest(escrow_preimage())[i])
}

/// The discriminator of the escrow account.
pub fn escrow_discriminator() -> (d: Vec<u8>)
    ensures
        d@ == escrow_discriminator_spec(),
{
    let preimage: Vec<u8> = vec![97u8, 99, 99, 111, 117, 110, 116, 58, 69, 115, 99, 114, 111, 119];
    assert(preimage@ =~= escrow_preimage());
    let digest = sha256(preimage.as_slice());
    let mut d: Vec<u8> = Vec::new();
    for i in 0..8
        invariant
            digest@.len() == 32,
            digest@ == sha256_digest(escrow_preimage()),
            d@.len() == i,
            forall|j: int| 0 <= j < i ==> d@[j] == digest@[j],
    {
        d.push(digest[i]);
    }
    assert(d@ =~= escrow_discriminator_spec());
    d
}

/// One byte for a boolean.
pub open spec fn bool_byte(b: bool) -> u8 {
    if b { 1 } else { 0 }
}

/// The bytes of a listing.
pub open spec fn list_bytes(l: List) -> Seq<u8> {
    l.maker.bytes@ + l.maker_mint.bytes@ + l.asset.bytes@ + l.vault.bytes@ + spec_u64_to_le_bytes(l.price)
        + seq![l.bump] + seq![bool_byte(l.listed)] + l.owner.bytes@
}

/// The bytes of an escrow record, without the discriminator.
pub open spec fn escrow_bytes(e: Escrow) -> Seq<u8> {
    spec_u64_to_le_bytes(e.seed) + e.maker.bytes@ + e.maker_mint.bytes@ + seq![e.bump]
        + seq![e.fee] + list_bytes(e.state)
}

/// The account data of an escrow: the discriminator, then the record.
pub open spec fn escrow_account_bytes(e: Escrow) -> Seq<u8> {
    escrow_discriminator_spec() + escrow_bytes(e)
}

/// The offset, in account data, of the byte that holds `state.listed`.
pub open spec fn listed_offset() -> int {
    219
}

/// What loading an escrow from account data gives: data shorter than the
/// discriminator, or that starts with another one, is refused; so is data
/// whose record is cut short or whose `listed` byte is neither 0 nor 1; bytes
/// after the record are ignored. Otherwise it is the escrow whose bytes these
/// are.
pub open spec fn decode_escrow(data: Seq<u8>) -> Result<Escrow, ErrorCode> {
    if data.len() < 8 {
        Err(ErrorCode::AccountDiscriminatorNotFound)
    } else if data.take(8) != escrow_discriminator_spec() {
        Err(ErrorCode::AccountDiscriminatorMismatch)
    } else if data.len() < 8 + Escrow::INIT_SPACE || data[listed_offset()] > 1 {
        Err(ErrorCode::AccountDidNotDeserialize)
    } else {
        Ok(choose|e: Escrow| escrow_bytes(e) == data.subrange(8, 8 + Escrow::INIT_SPACE))
    }
}

/// Two escrow records with the same bytes are the same record.
pub proof fn lemma_escrow_bytes_injective(e1: Escrow, e2: Escrow)
    requires
        escrow_bytes(e1) == escrow_bytes(e2),
    ensures
        e1 == e2,
{
    let b1 = escrow_bytes(e1);
    let b2 = escrow_bytes(e2);
    lemma_escrow_bytes_pieces(e1);
    lemma_escrow_bytes_pieces(e2);
    lemma_auto_spec_u64_to_from_le_bytes();
    assert(spec_u64_to_le_bytes(e1.seed) == spec_u64_to_le_bytes(e2.seed));
    assert(spec_u64_to_le_bytes(e1.state.price) == spec_u64_to_le_bytes(e2.state.price));
    assert(e1.seed == e2.seed);
    assert(e1.state.price == e2.state.price);
    assert(e1.maker.bytes =~= e2.maker.bytes);
    assert(e1.maker_mint.bytes =~= e2.maker_mint.bytes);
    assert(e1.state.maker.bytes =~= e2.state.maker.bytes);
    assert(e1.state.maker_mint.bytes =~= e2.state.maker_mint.bytes);
    assert(e1.state.asset.bytes =~= e2.state.asset.bytes);
    assert(e1.state.vault.bytes =~= e2.state.vault.bytes);
    assert(e1.state.owner.bytes =~= e2.state.owner.bytes);
    assert(b1[72] == b2[72]);
    assert(b1[73] == b2[73]);
    assert(b1[210] == b2[210]);
    assert(b1[211] == b2[211]);
}

/// Where each field stands in the bytes of an escrow record.
pub proof fn lemma_escrow_bytes_pieces(e: Escrow)
    ensures
        escrow_bytes(e).len() == Escrow::INIT_SPACE,
        escrow_bytes(e).subrange(0, 8) == spec_u64_to_le_bytes(e.seed),
        escrow_bytes(e).subrange(8, 40) == e.maker.bytes@,
        escrow_bytes(e).subrange(40, 72) == e.maker_mint.bytes@,
        escrow_bytes(e)[72] == e.bump,
        escrow_bytes(e)[73] == e.fee,
        escrow_bytes(e).subrange(74, 106) == e.state.maker.bytes@,
        escrow_bytes(e).subrange(106, 138) == e.state.maker_mint.bytes@,
        escrow_bytes(e).subrange(138, 170) == e.state.asset.bytes@,
        escrow_bytes(e).subrange(170, 202) == e.state.vault.bytes@,
        escrow_bytes(e).subrange(202, 210) == spec_u64_to_le_bytes(e.state.price),
        escrow_bytes(e)[210] == e.state.bump,
        escrow_bytes(e)[211] == bool_byte(e.state.listed),
        escrow_bytes(e).subrange(212, 244) == e.state.owner.bytes@,
        list_bytes(e.state).len() == List::INIT_SPACE,
{
    lemma_auto_spec_u64_to_from_le_bytes();
    let b = escrow_bytes(e);
    assert(b.subrange(0, 8) =~= spec_u64_to_le_bytes(e.seed));
    assert(b.subrange(8, 40) =~= e.maker.bytes@);
    assert(b.subrange(40, 72) =~= e.maker_mint.bytes@);
    assert(b.subrange(74, 106) =~= e.state.maker.bytes@);
    assert(b.subrange(106, 138) =~= e.state.maker_mint.bytes@);
    assert(b.subrange(138, 170) =~= e.state.asset.bytes@);
    assert(b.subrange(170, 202) =~= e.state.vault.bytes@);
    assert(b.subrange(202, 210) =~= spec_u64_to_le_bytes(e.state.price));
    assert(b.subrange(212, 244) =~= e.state.owner.bytes@);
}

/// Appends the bytes of an address.
fn append_key(out: &mut Vec<u8>, k: &Pubkey)
    ensures
        final(out)@ == old(out)@ + k.bytes@,
{
    let ghost start = out@;
    for i in 0..32
        invariant
            out@ == start + k.bytes@.take(i as int),
    {
        out.push(k.bytes[i]);
        assert(k.bytes@.take(i + 1) =~= k.bytes@.take(i as int).push(k.bytes@[i as int]));
    }
    assert(k.bytes@.take(32) =~= k.bytes@);
}

/// Appends the little-endian bytes of an integer.
fn append_u64(out: &mut Vec<u8>, x: u64)
    ensures
        final(out)@ == old(out)@ + spec_u64_to_le_bytes(x),
{
    let bytes = vstd::bytes::u64_to_le_bytes(x);
    let ghost start = out@;
    for i in 0..8
        invariant
            bytes@ == spec_u64_to_le_bytes(x),
            bytes@.len() == 8,
            out@ == start + bytes@.take(i as int),
    {
        out.push(bytes[i]);
        assert(bytes@.take(i + 1) =~= bytes@.take(i as int).push(bytes@[i as int]));
    }
    assert(bytes@.take(8) =~= bytes@);
}

/// The integer whose little-endian bytes are the 8 bytes of `data` at `offset`.
fn u64_at(data: &[u8], offset: usize) -> (x: u64)
    requires
        offset + 8 <= data@.len(),
    ensures
        spec_u64_to_le_bytes(x) == data@.subrange(offset as int, offset + 8),
{
    let n = data.len();
    assert(offset + 8 <= n);
    let s = vstd::slice::slice_subrange(data, offset, offset + 8);
    let x = vstd::bytes::u64_from_le_bytes(s);
    proof {
        lemma_auto_spec_u64_to_from_le_bytes();
        assert(spec_u64_to_le_bytes(spec_u64_from_le_bytes(s@)) == s@);
    }
    x
}

impl Escrow {
    /// The account data of this escrow: the discriminator, then the record.
    pub fn try_serialize(&self) -> (data: Vec<u8>)
        ensures
            data@ == escrow_account_bytes(*self),
    {
        let mut out = escrow_discriminator();
        append_u64(&mut out, self.seed);
        append_key(&mut out, &self.maker);
        append_key(&mut out, &self.maker_mint);
        out.push(self.bump);
        out.push(self.fee);
        append_key(&mut out, &self.state.maker);
        append_key(&mut out, &self.state.maker_mint);
        append_key(&mut out, &self.state.asset);
        append_key(&mut out, &self.state.vault);
        append_u64(&mut out, self.state.price);
        out.push(self.state.bump);
        out.push(if self.state.listed { 1u8 } else { 0u8 });
        append_key(&mut out, &self.state.owner);
        assert(out@ =~= escrow_account_bytes(*self));
        out
    }

    /// Loads an escrow from account data.
    pub fn try_deserialize(data: &[u8]) -> (r: Result<Escrow, ErrorCode>)
        ensures
            r == decode_escrow(data@),
    {
        if data.len() < 8 {
            return Err(ErrorCode::AccountDiscriminatorNotFound);
        }
        let disc = escrow_discriminator();
        let mut i: usize = 0;
        while i < 8
            invariant
                8 <= data@.len(),
                disc@ == escrow_discriminator_spec(),
                i <= 8,
                forall|j: int| 0 <= j < i ==> data@[j] == disc@[j],
            decreases 8 - i,
        {
            if data[i] != disc[i] {
                assert(data@.take(8)[i as int] != escrow_discriminator_spec()[i as int]);
                return Err(ErrorCode::AccountDiscriminatorMismatch);
            }
            i = i + 1;
        }
        assert(data@.take(8) =~= escrow_discriminator_spec());
        if data.len() < 252 || data[219] > 1 {
            return Err(ErrorCode::AccountDidNotDeserialize);
        }
        let e = Escrow {
            seed: u64_at(data, 8),
            maker: Pubkey::from_slice_at(data, 16),
            maker_mint: Pubkey::from_slice_at(data, 48),
            bump: data[80],
            fee: data[81],
            state: List {
                maker: Pubkey::from_slice_at(data, 82),
                maker_mint: Pubkey::from_slice_at(data, 114),
                asset: Pubkey::from_slice_at(data, 146),
                vault: Pubkey::from_slice_at(data, 178),
                price: u64_at(data, 210),
                bump: data[218],
                listed: data[219] == 1,
                owner: Pubkey::from_slice_at(data, 220),
            },
        };
        proof {
            let body = data@.subrange(8, 252);
            lemma_escrow_bytes_pieces(e);
            assert(escrow_bytes(e) =~= body) by {
                let b = escrow_bytes(e);
                assert forall|k: int| 0 <= k < 244 implies b[k] == body[k] by {
                    if k < 8 {
                        assert(b[k] == b.subrange(0, 8)[k]);
                        assert(body[k] == data@.subrange(8, 16)[k]);
                    } else if k < 40 {
                        assert(b[k] == b.subrange(8, 40)[k - 8]);
                        assert(body[k] == data@.subrange(16, 48)[k - 8]);
                    } else if k < 72 {
                        assert(b[k] == b.subrange(40, 72)[k - 40]);
                        assert(body[k] == data@.subrange(48, 80)[k - 40]);
                    } else if k < 74 {
                    } else if k < 106 {
                        assert(b[k] == b.subrange(74, 106)[k - 74]);
                        assert(body[k] == data@.subrange(82, 114)[k - 74]);
                    } else if k < 138 {
                        assert(b[k] == b.subrange(106, 138)[k - 106]);
                        assert(body[k] == data@.subrange(114, 146)[k - 106]);
                    } else if k < 170 {
                        assert(b[k] == b.subrange(138, 170)[k - 138]);
                        assert(body[k] == data@.subrange(146, 178)[k - 138]);
                    } else if k < 202 {
                        assert(b[k] == b.subrange(170, 202)[k - 170]);
                        assert(body[k] == data@.subrange(178, 210)[k - 170]);
                    } else if k < 210 {
                        assert(b[k] == b.subrange(202, 210)[k - 202]);
                        assert(body[k] == data@.subrange(210, 218)[k - 202]);
                    } else if k < 212 {
                    } else {
                        assert(b[k] == b.subrange(212, 244)[k - 212]);
                        assert(body[k] == data@.subrange(220, 252)[k - 212]);
                    }
                }
            }
            let c = choose|c: Escrow| escrow_bytes(c) == body;
            lemma_escrow_bytes_injective(c, e);
        }
        Ok(e)
    }
}

} // verus!
