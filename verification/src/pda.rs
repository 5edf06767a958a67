//! Program derived addresses: the escrow address that the seed of a listing
//! determines, and the associated token account of a wallet and a mint.

use vstd::prelude::*;
use vstd::bytes::spec_u64_to_le_bytes;
use crate::error::ErrorCode;
use crate::pubkey::{Pubkey, lemma_same_bytes};

verus! {

/// What `Pubkey::create_program_address` gives for these seeds and this
/// program: the address, if the seeds give one off the curve.
pub uninterp spec fn created_program_address(seeds: Seq<Seq<u8>>, program_id: Seq<u8>) -> Option<Seq<u8>>;

/// The first bump seed from `bump` down to 1 which, appended to the seeds,
/// gives an address, with that address; `None` if none does.
pub open spec fn find_from_bump(seeds: Seq<Seq<u8>>, program_id: Seq<u8>, bump: nat) -> Option<(Seq<u8>, u8)>
    decreases bump,
{
    if bump == 0 {
        None
    } else {
        match created_program_address(seeds.push(seq![bump as u8]), program_id) {
            Some(a) => Some((a, bump as u8)),
            None => find_from_bump(seeds, program_id, (bump - 1) as nat),
        }
    }
}

/// What `Pubkey::try_find_program_address` gives for these seeds and this
/// program: the first bump seed from 255 down to 1 which, appended to the
/// seeds, gives an address through `create_program_address`, with that
/// address; `None` if none does.
pub open spec fn found_program_address(seeds: Seq<Seq<u8>>, program_id: Seq<u8>) -> Option<(Seq<u8>, u8)> {
    find_from_bump(seeds, program_id, 255)
}

/// The bump seed found gives the address found, and no larger bump seed
/// gives an address.
pub proof fn lemma_found_is_created(seeds: Seq<Seq<u8>>, program_id: Seq<u8>, bump: nat)
    requires
        bump <= 255,
    ensures
        find_from_bump(seeds, program_id, bump) matches Some(p) ==> {
            &&& created_program_address(seeds.push(seq![p.1]), program_id) == Some(p.0)
            &&& 1 <= p.1 <= bump
            &&& forall|b: nat| p.1 < b <= bump ==> #[trigger] created_program_address(seeds.push(seq![b as u8]), program_id) is None
        },
        find_from_bump(seeds, program_id, bump) is None ==>
            forall|b: nat| 1 <= b <= bump ==> #[trigger] created_program_address(seeds.push(seq![b as u8]), program_id) is None,
    decreases bump,
{
    if bump > 0 {
        lemma_found_is_created(seeds, program_id, (bump - 1) as nat);
    }
}

/// The bytes of each seed.
pub open spec fn seeds_view(seeds: Vec<Vec<u8>>) -> Seq<Seq<u8>> {
    seeds@.map_values(|s: Vec<u8>| s@)
}

/// Calls `Pubkey::try_find_program_address` (anchor_lang's `Pubkey`, from
/// solana-pubkey). Trusted: that the result is `found_program_address` of
/// the seeds and the program, as its source shows: it tries the bump seeds
/// from 255 down to 1 with `create_program_address` and returns the first
/// address that it gets. (Where the seeds are too many or too long, every
/// bump seed fails alike, and the answer is `None` either way.)
#[verifier::external_body]
fn try_find_program_address(seeds: &Vec<Vec<u8>>, program_id: &Pubkey) -> (r: Option<(Pubkey, u8)>)
    ensures
        r is None ==> found_program_address(seeds_view(*seeds), program_id.bytes@) is None,
        r matches Some((k, b)) ==> found_program_address(seeds_view(*seeds), program_id.bytes@)
            == Some((k.bytes@, b)),
{
    let refs: Vec<&[u8]> = seeds.iter().map(|s| s.as_slice()).collect();
    let program = anchor_lang::prelude::Pubkey::new_from_array(program_id.bytes);
    anchor_lang::prelude::Pubkey::try_find_program_address(&refs, &program)
        .map(|(k, b)| (Pubkey { bytes: k.to_bytes() }, b))
}

/// Calls `Pubkey::create_program_address` (anchor_lang's `Pubkey`, from
/// solana-pubkey) and keeps the address when it succeeds. Trusted: that the
/// result is `created_program_address` of the seeds and the program.
#[verifier::external_body]
fn create_program_address(seeds: &Vec<Vec<u8>>, program_id: &Pubkey) -> (r: Option<Pubkey>)
    ensures
        r is None ==> created_program_address(seeds_view(*seeds), program_id.bytes@) is None,
        r matches Some(k) ==> created_program_address(seeds_view(*seeds), program_id.bytes@)
            == Some(k.bytes@),
{
    let refs: Vec<&[u8]> = seeds.iter().map(|s| s.as_slice()).collect();
    let program = anchor_lang::prelude::Pubkey::new_from_array(program_id.bytes);
    anchor_lang::prelude::Pubkey::create_program_address(&refs, &program)
        .ok()
        .map(|k| Pubkey { bytes: k.to_bytes() })
}

/// The program's own address.
pub open spec fn program_id_bytes() -> Seq<u8> {
    seq![
        24u8, 80, 81, 223, 21, 35, 60, 182, 135, 103, 226, 219, 3, 208, 54, 120,
        78, 66, 248, 193, 235, 10, 104, 128, 41, 163, 151, 218, 211, 87, 208, 225,
    ]
}

/// The program's address, 2dupZTbJ6jcBDRT3wa1A5JADh2q4hWLgTSf8dCCQSvoA.
pub fn id() -> (k: Pubkey)
    ensures
        k.bytes@ == program_id_bytes(),
{
    let k = Pubkey {
        bytes: [
            24u8, 80, 81, 223, 21, 35, 60, 182, 135, 103, 226, 219, 3, 208, 54, 120,
            78, 66, 248, 193, 235, 10, 104, 128, 41, 163, 151, 218, 211, 87, 208, 225,
        ],
    };
    assert(k.bytes@ =~= program_id_bytes());
    k
}

/// The address of the associated token account program.
pub open spec fn associated_token_program_bytes() -> Seq<u8> {
    seq![
        140u8, 151, 37, 143, 78, 36, 137, 241, 187, 61, 16, 41, 20, 142, 13, 131,
        11, 90, 19, 153, 218, 255, 16, 132, 4, 142, 123, 216, 219, 233, 248, 89,
    ]
}

/// The associated token account program,
/// ATokenGPvbdGVxr1b2hvZbsiqW5xWH25efTNsLJA8knL.
pub fn associated_token_program_id() -> (k: Pubkey)
    ensures
        k.bytes@ == associated_token_program_bytes(),
{
    let k = Pubkey {
        bytes: [
            140u8, 151, 37, 143, 78, 36, 137, 241, 187, 61, 16, 41, 20, 142, 13, 131,
            11, 90, 19, 153, 218, 255, 16, 132, 4, 142, 123, 216, 219, 233, 248, 89,
        ],
    };
    assert(k.bytes@ =~= associated_token_program_bytes());
    k
}

/// The first seed of every escrow address: the bytes of `escrow`.
pub open spec fn escrow_prefix() -> Seq<u8> {
    seq![101u8, 115, 99, 114, 111, 119]
}

/// The seeds of the escrow of a listing: `escrow`, then the listing's seed
/// as 8 little-endian bytes.
pub open spec fn escrow_seeds_spec(seed: u64) -> Seq<Seq<u8>> {
    seq![escrow_prefix(), spec_u64_to_le_bytes(seed)]
}

/// The seeds of the escrow of a listing.
pub fn escrow_seeds(seed: u64) -> (seeds: Vec<Vec<u8>>)
    ensures
        seeds_view(seeds) == escrow_seeds_spec(seed),
{
    let prefix: Vec<u8> = vec![101u8, 115, 99, 114, 111, 119];
    let le = vstd::bytes::u64_to_le_bytes(seed);
    let mut seeds: Vec<Vec<u8>> = Vec::new();
    seeds.push(prefix);
    seeds.push(le);
    assert(seeds_view(seeds)[0] =~= escrow_prefix());
    assert(seeds_view(seeds) =~= escrow_seeds_spec(seed));
    seeds
}

/// The escrow address of a listing and its bump seed, if a bump seed gives
/// one.
pub fn find_escrow_address(program_id: &Pubkey, seed: u64) -> (r: Option<(Pubkey, u8)>)
    ensures
        r is None ==> found_program_address(escrow_seeds_spec(seed), program_id.bytes@) is None,
        r matches Some((k, b)) ==> found_program_address(escrow_seeds_spec(seed), program_id.bytes@)
            == Some((k.bytes@, b)),
        r matches Some((k, b)) ==> created_program_address(
            escrow_seeds_spec(seed).push(seq![b]),
            program_id.bytes@,
        ) == Some(k.bytes@),
{
    let seeds = escrow_seeds(seed);
    proof { lemma_found_is_created(escrow_seeds_spec(seed), program_id.bytes@, 255); }
    try_find_program_address(&seeds, program_id)
}

/// The escrow address of a listing for a given bump seed, if that bump seed
/// gives one.
pub fn create_escrow_address(program_id: &Pubkey, seed: u64, bump: u8) -> (r: Option<Pubkey>)
    ensures
        r is None ==> created_program_address(
            escrow_seeds_spec(seed).push(seq![bump]),
            program_id.bytes@,
        ) is None,
        r matches Some(k) ==> created_program_address(
            escrow_seeds_spec(seed).push(seq![bump]),
            program_id.bytes@,
        ) == Some(k.bytes@),
{
    let mut seeds = escrow_seeds(seed);
    let mut b: Vec<u8> = Vec::new();
    b.push(bump);
    assert(b@ =~= seq![bump]);
    seeds.push(b);
    assert(seeds_view(seeds) =~= escrow_seeds_spec(seed).push(seq![bump]));
    create_program_address(&seeds, program_id)
}

/// The seeds of an associated token account: the wallet, the token program
/// and the mint.
pub open spec fn associated_token_seeds(wallet: Pubkey, mint: Pubkey, token_program: Pubkey) -> Seq<Seq<u8>> {
    seq![wallet.bytes@, token_program.bytes@, mint.bytes@]
}

/// The associated token account of a wallet for a mint under a token
/// program, as `get_associated_token_address_with_program_id` derives it
/// (that function panics where no bump seed gives an address; here the
/// answer is then `None`).
pub fn associated_token_address(wallet: &Pubkey, mint: &Pubkey, token_program: &Pubkey) -> (r: Option<Pubkey>)
    ensures
        r is None ==> found_program_address(
            associated_token_seeds(*wallet, *mint, *token_program),
            associated_token_program_bytes(),
        ) is None,
        r matches Some(k) ==> (found_program_address(
            associated_token_seeds(*wallet, *mint, *token_program),
            associated_token_program_bytes(),
        ) matches Some(p) && p.0 == k.bytes@),
{
    let mut seeds: Vec<Vec<u8>> = Vec::new();
    seeds.push(wallet.to_vec());
    seeds.push(token_program.to_vec());
    seeds.push(mint.to_vec());
    assert(seeds_view(seeds) =~= associated_token_seeds(*wallet, *mint, *token_program));
    let ata_program = associated_token_program_id();
    match try_find_program_address(&seeds, &ata_program) {
        Some((k, b)) => {
            assert(found_program_address(
                associated_token_seeds(*wallet, *mint, *token_program),
                associated_token_program_bytes(),
            ) == Some((k.bytes@, b)));
            Some(k)
        },
        None => None,
    }
}

} // verus!

verus! {

/// The rule `seeds = [b"escrow", seed.to_le_bytes()], bump` on the escrow
/// account: the escrow must be the address found for its seeds, and the
/// bump seed found is recorded. `None` where no bump seed gives an address
/// (the framework panics there).
pub open spec fn escrow_seeds_rule(program_id: Pubkey, seed: u64, escrow: Pubkey) -> Option<Result<u8, ErrorCode>> {
    match found_program_address(escrow_seeds_spec(seed), program_id.bytes@) {
        None => None,
        Some(p) => if p.0 == escrow.bytes@ {
            Some(Ok(p.1))
        } else {
            Some(Err(ErrorCode::ConstraintSeeds))
        },
    }
}

/// The rule `seeds = [b"escrow", seed.to_le_bytes()], bump = escrow.bump`:
/// the seeds with the recorded bump must give the escrow's address.
pub open spec fn escrow_bump_rule(program_id: Pubkey, seed: u64, bump: u8, escrow: Pubkey) -> Result<(), ErrorCode> {
    match created_program_address(escrow_seeds_spec(seed).push(seq![bump]), program_id.bytes@) {
        Some(a) => if a == escrow.bytes@ {
            Ok(())
        } else {
            Err(ErrorCode::ConstraintSeeds)
        },
        None => Err(ErrorCode::ConstraintSeeds),
    }
}

/// The rule that `account` is the associated token account of `wallet` for
/// `mint` under `token_program`; `error` is what a mismatch gives. `None`
/// where no bump seed gives an address (the address helper panics there).
pub open spec fn associated_token_rule(
    account: Pubkey,
    wallet: Pubkey,
    mint: Pubkey,
    token_program: Pubkey,
    error: ErrorCode,
) -> Option<Result<(), ErrorCode>> {
    match found_program_address(
        associated_token_seeds(wallet, mint, token_program),
        associated_token_program_bytes(),
    ) {
        None => None,
        Some(p) => if p.0 == account.bytes@ {
            Some(Ok(()))
        } else {
            Some(Err(error))
        },
    }
}

/// Checks the escrow account against its seeds and finds its bump seed.
pub fn check_escrow_seeds(program_id: &Pubkey, seed: u64, escrow: &Pubkey) -> (r: Option<Result<u8, ErrorCode>>)
    ensures
        r == escrow_seeds_rule(*program_id, seed, *escrow),
        r matches Some(Ok(b)) ==> escrow_bump_rule(*program_id, seed, b, *escrow) == Ok::<(), ErrorCode>(()),
{
    match find_escrow_address(program_id, seed) {
        None => None,
        Some((k, b)) => {
            proof { lemma_same_bytes(k, *escrow); }
            if k.equals(escrow) {
                Some(Ok(b))
            } else {
                Some(Err(ErrorCode::ConstraintSeeds))
            }
        },
    }
}

/// Checks the escrow account against its seeds and its recorded bump seed.
pub fn check_escrow_bump(program_id: &Pubkey, seed: u64, bump: u8, escrow: &Pubkey) -> (r: Result<(), ErrorCode>)
    ensures
        r == escrow_bump_rule(*program_id, seed, bump, *escrow),
{
    match create_escrow_address(program_id, seed, bump) {
        None => Err(ErrorCode::ConstraintSeeds),
        Some(k) => {
            proof { lemma_same_bytes(k, *escrow); }
            if k.equals(escrow) {
                Ok(())
            } else {
                Err(ErrorCode::ConstraintSeeds)
            }
        },
    }
}

/// Checks that `account` is the associated token account of `wallet` for
/// `mint` under `token_program`.
pub fn check_associated_token(
    account: &Pubkey,
    wallet: &Pubkey,
    mint: &Pubkey,
    token_program: &Pubkey,
    error: ErrorCode,
) -> (r: Option<Result<(), ErrorCode>>)
    ensures
        r == associated_token_rule(*account, *wallet, *mint, *token_program, error),
{
    match associated_token_address(wallet, mint, token_program) {
        None => None,
        Some(k) => {
            proof { lemma_same_bytes(k, *account); }
            if k.equals(account) {
                Some(Ok(()))
            } else {
                Some(Err(error))
            }
        },
    }
}

} // verus!
