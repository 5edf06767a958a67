//! What holds across the program's functions.

use vstd::prelude::*;
use vstd::bytes::spec_u64_to_le_bytes;
use crate::codec::{
    decode_escrow, escrow_account_bytes, escrow_bytes, escrow_discriminator_spec, list_bytes,
    lemma_escrow_bytes_pieces, lemma_escrow_bytes_injective,
};
use crate::error::ErrorCode;
use crate::pubkey::Pubkey;
use crate::state::{Escrow, List as Listing, opened_escrow, initialized_escrow, opening_refusal, has_seller};
use crate::asset::{asset_owner, decodes_as_base_asset};
use crate::error::Errors;
use crate::cpi::{Step, SignerSeeds, SeedOrder, CloseAccount, TransferV1, TransferChecked};
use crate::pda::{found_program_address, associated_token_rule, associated_token_seeds, associated_token_program_bytes, escrow_seeds_spec, escrow_seeds_rule, escrow_bump_rule, created_program_address, lemma_found_is_created};
use crate::pubkey::lemma_same_bytes;
use crate::instructions::{Buy, BuyBumps, Initialize, InitializeBumps, List, ListBumps, Unlist, UnlistBumps, EscrowAccount};
use crate::instructions::buy::{buy_plan, buy_outcome};
use crate::instructions::list::{list_outcome, list_plan};
use crate::instructions::unlist::{unlist_plan, unlist_outcome};

verus! {

/// An escrow written to account data loads back as the same escrow.
pub proof fn lemma_escrow_roundtrip(e: Escrow)
    ensures
        decode_escrow(escrow_account_bytes(e)) == Ok::<Escrow, ErrorCode>(e),
{
    let data = escrow_account_bytes(e);
    lemma_escrow_bytes_pieces(e);
    assert(data.take(8) =~= escrow_discriminator_spec());
    assert(data.subrange(8, 8 + Escrow::INIT_SPACE) =~= escrow_bytes(e));
    assert(data[219] == escrow_bytes(e)[211]);
    let c = choose|c: Escrow| escrow_bytes(c) == data.subrange(8, 8 + Escrow::INIT_SPACE);
    lemma_escrow_bytes_injective(c, e);
}

/// The account data of an escrow takes exactly the space that is reserved
/// for it: the 8 byte discriminator and `Escrow::INIT_SPACE` bytes, of which
/// the listing takes `List::INIT_SPACE`.
pub proof fn lemma_escrow_space(e: Escrow)
    ensures
        escrow_account_bytes(e).len() == 8 + Escrow::INIT_SPACE,
        list_bytes(e.state).len() == Listing::INIT_SPACE,
{
    lemma_escrow_bytes_pieces(e);
}

/// A record that initialization or listing writes names the seller as
/// seller and owner, the asset, the payment mint and the price asked, and
/// records one bump seed in both places; it is marked listed exactly when
/// listing wrote it.
pub proof fn lemma_opened_escrow_records_listing(
    seed: u64,
    maker: Pubkey,
    maker_ata: Pubkey,
    mint: Pubkey,
    asset: Pubkey,
    vault: Pubkey,
    bump: u8,
    amount: u64,
    listed: bool,
)
    ensures
        ({
            let e = opened_escrow(seed, maker, maker_ata, mint, asset, vault, bump, amount, listed);
            &&& e.state.listed == listed
            &&& e.state.price == amount
            &&& e.state.asset == asset
            &&& e.state.maker_mint == mint
            &&& e.state.owner == maker
            &&& e.state.maker == maker
            &&& e.maker == maker
            &&& e.state.bump == e.bump
            &&& e.seed == seed
        }),
{
}

/// An escrow that records a seller cannot be taken over: initialization or
/// listing by anyone else is refused (and then writes nothing); and when
/// its seller initializes it again, a listing that is open stays open with
/// the asset that the escrow holds.
pub proof fn lemma_escrow_cannot_be_taken_over(
    e: Escrow,
    maker: Pubkey,
    seed: u64,
    maker_ata: Pubkey,
    mint: Pubkey,
    asset: Pubkey,
    vault: Pubkey,
    bump: u8,
    amount: u64,
)
    ensures
        has_seller(e) && e.maker != maker ==> opening_refusal(e, maker) == Some(Errors::MakerMismatch),
        e.state.listed ==> initialized_escrow(e, seed, maker, maker_ata, mint, asset, vault, bump, amount).state.listed,
        e.state.listed ==> initialized_escrow(e, seed, maker, maker_ata, mint, asset, vault, bump, amount).state.asset
            == e.state.asset,
{
}

/// An escrow record written with the bump seed that the address rules
/// found keeps the escrow's address: initialization on accounts that pass
/// the rules of `initialize` writes a record whose seed and bump seed derive
/// the escrow's address, the bump seed being the canonical one (the largest
/// that gives an address), and the listing records the same bump seed.
pub proof fn lemma_initialized_escrow_keeps_its_address(a: Initialize, program_id: Pubkey, seed: u64, amount: u64)
    requires
        a.rules(program_id, seed) matches Some(Ok(_)),
    ensures
        a.rules(program_id, seed) matches Some(Ok(bumps)) && ({
            let e = initialized_escrow(
                a.escrow.inner,
                seed,
                a.maker,
                a.maker_ata_sol,
                a.mint_sol.key,
                a.asset.key,
                a.vault,
                bumps.escrow,
                amount,
            );
            &&& e.seed == seed
            &&& e.state.bump == e.bump
            &&& escrow_seeds_rule(program_id, e.seed, a.escrow.key) == Some(Ok::<u8, ErrorCode>(e.bump))
            &&& escrow_bump_rule(program_id, e.seed, e.bump, a.escrow.key) == Ok::<(), ErrorCode>(())
            &&& forall|b: nat| e.bump < b <= 255 ==> #[trigger] created_program_address(
                escrow_seeds_spec(seed).push(seq![b as u8]),
                program_id.bytes@,
            ) is None
        }),
{
    lemma_found_is_created(escrow_seeds_spec(seed), program_id.bytes@, 255);
}

/// The same for listing: on accounts that pass the rules of `list_nft`, the
/// record that listing writes derives the escrow's address.
pub proof fn lemma_listed_escrow_keeps_its_address(a: List, program_id: Pubkey, seed: u64, amount: u64)
    requires
        a.rules(program_id, seed) matches Some(Ok(_)),
    ensures
        a.rules(program_id, seed) matches Some(Ok(bumps)) && ({
            let e = opened_escrow(
                seed,
                a.maker,
                a.maker_ata_sol,
                a.mint_sol.key,
                a.asset.key,
                a.vault,
                bumps.escrow,
                amount,
                true,
            );
            &&& escrow_seeds_rule(program_id, e.seed, a.escrow.key) == Some(Ok::<u8, ErrorCode>(e.bump))
            &&& escrow_bump_rule(program_id, e.seed, e.bump, a.escrow.key) == Ok::<(), ErrorCode>(())
        }),
{
    lemma_found_is_created(escrow_seeds_spec(seed), program_id.bytes@, 255);
}

/// Buying pays the full listed price, in the recorded payment mint, from the
/// buyer's token account into the token account of the seller that the
/// escrow records, before the asset goes to the buyer; then it closes the
/// escrow to that seller. Accounts that name another seller are refused.
pub proof fn lemma_buyer_pays_recorded_seller_first(a: Buy, seed: u64)
    ensures
        a.maker != a.escrow.inner.maker ==> buy_outcome(a, seed, a.escrow.inner.state.price)
            is Err,
        buy_outcome(a, seed, a.escrow.inner.state.price) matches Ok(plan) ==> {
            &&& a.maker == a.escrow.inner.maker
            &&& a.mint_sol.key == a.escrow.inner.state.maker_mint
            &&& a.asset.key == a.escrow.inner.state.asset
            &&& plan.len() == 3
            &&& plan[0] matches Step::TransferChecked(t) && t.from == a.buyer_ata_sol
                && t.to == a.maker_ata_sol && t.authority == a.buyer && t.mint == a.mint_sol.key
                && t.amount == a.escrow.inner.state.price
            &&& plan[1] matches Step::TransferV1(x) && x.asset == a.asset.key && x.new_owner == a.buyer
            &&& plan[2] == Step::Close(CloseAccount { account: a.escrow.key, destination: a.escrow.inner.maker })
        },
{
}

/// Only the seller that the escrow records can withdraw: accounts that name
/// another signer are refused.
pub proof fn lemma_only_seller_unlists(a: Unlist, seed: u64)
    ensures
        a.maker != a.escrow.inner.maker ==> unlist_outcome(a, seed) is Err,
        unlist_outcome(a, seed) is Ok ==> a.maker == a.escrow.inner.maker,
{
}

/// No withdrawal after a purchase: a successful purchase hands the asset to
/// the buyer and then closes the escrow, whose emptied data no longer loads
/// as an escrow. Once the asset's record names the buyer as owner (as the
/// transfer to the buyer leaves it), any later withdrawal of that asset,
/// through any escrow (the same one created again included) and for any
/// seed, is refused, as is any later purchase of it.
pub proof fn lemma_no_withdrawal_after_purchase(b: Buy, seed: u64, u: Unlist, later_seed: u64, c: Buy, price: u64)
    requires
        buy_outcome(b, seed, b.escrow.inner.state.price) is Ok,
        asset_owner(u.asset.data@) == b.buyer.bytes@,
        b.buyer != u.escrow.key,
        asset_owner(c.asset.data@) == b.buyer.bytes@,
        b.buyer != c.escrow.key,
    ensures
        buy_outcome(b, seed, b.escrow.inner.state.price) matches Ok(plan) && {
            &&& plan[1] matches Step::TransferV1(x) && x.asset == b.asset.key && x.new_owner == b.buyer
            &&& plan.last() == Step::Close(CloseAccount { account: b.escrow.key, destination: b.maker })
        },
        decode_escrow(Seq::<u8>::empty()) == Err::<Escrow, ErrorCode>(ErrorCode::AccountDiscriminatorNotFound),
        unlist_outcome(u, later_seed) is Err,
        buy_outcome(c, later_seed, price) is Err,
{
    lemma_same_bytes(b.buyer, u.escrow.key);
    lemma_same_bytes(b.buyer, c.escrow.key);
}

/// Listing moves the asset into the escrow (paid and authorised by the
/// seller) and records it as listed by that seller; once the asset's record
/// names the escrow as owner (as that transfer leaves it), withdrawing by
/// that seller moves the same asset from the escrow back to the seller,
/// signed by the escrow, and closes the escrow to the seller.
pub proof fn lemma_unlist_undoes_list(l: List, amount: u64, bumps: ListBumps, seed: u64, u: Unlist)
    requires
        list_outcome(l, amount, bumps, seed) is Ok,
        u.maker == l.maker,
        u.asset.key == l.asset.key,
        decodes_as_base_asset(u.asset.data@),
        asset_owner(u.asset.data@) == l.escrow.key.bytes@,
        u.escrow == (EscrowAccount {
            key: l.escrow.key,
            inner: opened_escrow(
                seed,
                l.maker,
                l.maker_ata_sol,
                l.mint_sol.key,
                l.asset.key,
                l.vault,
                bumps.escrow,
                amount,
                true,
            ),
        }),
    ensures
        list_outcome(l, amount, bumps, seed) matches Ok(plan) && plan[1] matches Step::TransferV1(x)
            && x.asset == l.asset.key && x.new_owner == l.escrow.key,
        unlist_outcome(u, seed) == Ok::<Seq<Step>, Errors>(seq![
            Step::TransferV1(TransferV1 {
                mpl_core_program: u.mpl_core_program,
                asset: l.asset.key,
                collection: None,
                payer: l.maker,
                authority: Some(l.escrow.key),
                new_owner: l.maker,
                system_program: None,
                signer: Some(SignerSeeds { seed: seed, order: SeedOrder::LittleEndian, bump: bumps.escrow }),
            }),
            Step::Close(CloseAccount { account: l.escrow.key, destination: l.maker }),
        ]),
{
    assert(unlist_plan(u, seed) =~= seq![
        Step::TransferV1(TransferV1 {
            mpl_core_program: u.mpl_core_program,
            asset: l.asset.key,
            collection: None,
            payer: l.maker,
            authority: Some(l.escrow.key),
            new_owner: l.maker,
            system_program: None,
            signer: Some(SignerSeeds { seed: seed, order: SeedOrder::LittleEndian, bump: bumps.escrow }),
        }),
        Step::Close(CloseAccount { account: l.escrow.key, destination: l.maker }),
    ]);
}

/// The escrow releases the asset only by signing: the steps of buying and
/// withdrawing that move the asset name the escrow as the authority and
/// sign with the escrow's seeds and recorded bump seed; buying sends it to
/// the buyer, withdrawing to the seller.
pub proof fn lemma_release_is_signed_by_escrow(b: Buy, u: Unlist, seed: u64, price: u64)
    ensures
        ({
            let bp = buy_plan(b, seed, price);
            let up = unlist_plan(u, seed);
            &&& bp[1] matches Step::TransferV1(x) && x.authority == Some(b.escrow.key)
                && x.new_owner == b.buyer
                && x.signer == Some(SignerSeeds { seed: seed, order: SeedOrder::LittleEndian, bump: b.escrow.inner.bump })
            &&& up.len() == 2
            &&& up[0] matches Step::TransferV1(x) && x.authority == Some(u.escrow.key)
                && x.new_owner == u.maker
                && x.signer == Some(SignerSeeds { seed: seed, order: SeedOrder::LittleEndian, bump: u.escrow.inner.bump })
        }),
{
}

/// The seeds with which buying and withdrawing sign are the escrow's own:
/// where the escrow passes the rule on its recorded bump seed, the
/// little-endian signer seeds derive the escrow's address.
pub proof fn lemma_signer_seeds_derive_escrow(program_id: Pubkey, seed: u64, bump: u8, escrow: Pubkey)
    requires
        escrow_bump_rule(program_id, seed, bump, escrow) == Ok::<(), ErrorCode>(()),
    ensures
        created_program_address(
            SignerSeeds { seed: seed, order: SeedOrder::LittleEndian, bump: bump }.seeds(),
            program_id.bytes@,
        ) == Some(escrow.bytes@),
{
    assert(SignerSeeds { seed: seed, order: SeedOrder::LittleEndian, bump: bump }.seeds()
        =~= escrow_seeds_spec(seed).push(seq![bump]));
}

/// Escrow addresses are determined by the program and the seed: two escrow
/// accounts that both pass the seeds rule for the same seed are the same
/// account, and they record the same bump seed.
pub proof fn lemma_escrow_address_is_determined(program_id: Pubkey, seed: u64, a: Pubkey, b: Pubkey)
    requires
        escrow_seeds_rule(program_id, seed, a) matches Some(Ok(_)),
        escrow_seeds_rule(program_id, seed, b) matches Some(Ok(_)),
    ensures
        a == b,
        escrow_seeds_rule(program_id, seed, a) == escrow_seeds_rule(program_id, seed, b),
{
    lemma_same_bytes(a, b);
}

/// When buying goes through: exactly when the asset account holds a
/// Metaplex Core asset, the seller named is the recorded one, the escrow is
/// listed, the asset and the payment mint are the recorded ones, and the
/// owner that the asset record names (the 32 bytes after its key byte) is
/// the escrow; nothing else in the asset's data matters. It then pays the
/// price asked, in the payment mint with its decimals, from the buyer's
/// token account into the seller's, hands the asset to the buyer with the
/// escrow authorising and signing with its little-endian seeds and recorded
/// bump seed, and closes the escrow to the seller.
pub proof fn lemma_buy_goes_through_exactly(a: Buy, seed: u64, price: u64)
    ensures
        buy_outcome(a, seed, price) is Ok <==> {
            &&& decodes_as_base_asset(a.asset.data@)
            &&& a.maker == a.escrow.inner.maker
            &&& a.escrow.inner.state.listed
            &&& a.asset.key == a.escrow.inner.state.asset
            &&& a.mint_sol.key == a.escrow.inner.state.maker_mint
            &&& a.asset.data@.subrange(1, 33) == a.escrow.key.bytes@
        },
        buy_outcome(a, seed, price) is Ok ==> buy_outcome(a, seed, price) == Ok::<Seq<Step>, Errors>(seq![
            Step::TransferChecked(TransferChecked {
                token_program: a.token_program,
                from: a.buyer_ata_sol,
                to: a.maker_ata_sol,
                mint: a.mint_sol.key,
                authority: a.buyer,
                amount: price,
                decimals: a.mint_sol.decimals,
            }),
            Step::TransferV1(TransferV1 {
                mpl_core_program: a.mpl_core_program,
                asset: a.asset.key,
                collection: None,
                payer: a.buyer,
                authority: Some(a.escrow.key),
                new_owner: a.buyer,
                system_program: None,
                signer: Some(SignerSeeds { seed: seed, order: SeedOrder::LittleEndian, bump: a.escrow.inner.bump }),
            }),
            Step::Close(CloseAccount { account: a.escrow.key, destination: a.maker }),
        ]),
        !decodes_as_base_asset(a.asset.data@) ==> buy_outcome(a, seed, price) == Err::<Seq<Step>, Errors>(Errors::InvalidAsset),
{
}

/// When withdrawing goes through: exactly when the asset account holds a
/// Metaplex Core asset, the signer is the recorded seller, and the owner
/// that the asset record names (the 32 bytes after its key byte) is the
/// escrow, whatever else the asset's data holds and whether or not the
/// escrow is marked listed. It then hands the asset back to the seller,
/// with the escrow authorising and signing with its little-endian seeds and
/// recorded bump seed, and closes the escrow to the seller.
pub proof fn lemma_unlist_goes_through_exactly(a: Unlist, seed: u64)
    ensures
        unlist_outcome(a, seed) is Ok <==> {
            &&& decodes_as_base_asset(a.asset.data@)
            &&& a.maker == a.escrow.inner.maker
            &&& a.asset.data@.subrange(1, 33) == a.escrow.key.bytes@
        },
        unlist_outcome(a, seed) is Ok ==> unlist_outcome(a, seed) == Ok::<Seq<Step>, Errors>(seq![
            Step::TransferV1(TransferV1 {
                mpl_core_program: a.mpl_core_program,
                asset: a.asset.key,
                collection: None,
                payer: a.maker,
                authority: Some(a.escrow.key),
                new_owner: a.maker,
                system_program: None,
                signer: Some(SignerSeeds { seed: seed, order: SeedOrder::LittleEndian, bump: a.escrow.inner.bump }),
            }),
            Step::Close(CloseAccount { account: a.escrow.key, destination: a.maker }),
        ]),
        !decodes_as_base_asset(a.asset.data@) ==> unlist_outcome(a, seed) == Err::<Seq<Step>, Errors>(Errors::InvalidAsset),
{
}

/// The owner of an asset record is the 32 bytes after its key byte, for
/// every record, whatever follows it.
pub proof fn lemma_asset_owner_follows_key_byte(data: Seq<u8>, rest: Seq<u8>)
    requires
        data.len() >= 33,
    ensures
        asset_owner(data) == data.subrange(1, 33),
        asset_owner(data) == asset_owner(data.subrange(0, 33) + rest),
        asset_owner(data).len() == 32,
        forall|i: int| 0 <= i < 32 ==> #[trigger] asset_owner(data)[i] == data[i + 1],
{
    assert(asset_owner(data) =~= asset_owner(data.subrange(0, 33) + rest));
}

/// When listing goes through: exactly when the asset account holds a
/// Metaplex Core asset and the escrow names no seller yet (all zero bytes)
/// or names this seller. It then takes `amount` of the payment mint, with
/// the mint's own decimals through the given token program, from the
/// seller's token account into the vault, and hands the asset to the escrow,
/// paid and authorised by the seller, signed with the escrow's little-endian
/// seeds and the bump seed found.
pub proof fn lemma_list_goes_through_exactly(a: List, amount: u64, bumps: ListBumps, seed: u64)
    ensures
        list_outcome(a, amount, bumps, seed) is Ok <==> {
            &&& decodes_as_base_asset(a.asset.data@)
            &&& ((forall|i: int| 0 <= i < 32 ==> a.escrow.inner.maker.bytes[i] == 0)
                || a.escrow.inner.maker == a.maker)
        },
        list_outcome(a, amount, bumps, seed) is Ok ==> list_outcome(a, amount, bumps, seed)
            == Ok::<Seq<Step>, Errors>(seq![
            Step::TransferChecked(TransferChecked {
                token_program: a.token_program,
                from: a.maker_ata_sol,
                to: a.vault,
                mint: a.mint_sol.key,
                authority: a.maker,
                amount: amount,
                decimals: a.mint_sol.decimals,
            }),
            Step::TransferV1(TransferV1 {
                mpl_core_program: a.mpl_core_program,
                asset: a.asset.key,
                collection: None,
                payer: a.maker,
                authority: None,
                new_owner: a.escrow.key,
                system_program: None,
                signer: Some(SignerSeeds { seed: seed, order: SeedOrder::LittleEndian, bump: bumps.escrow }),
            }),
        ]),
        list_plan(a, amount, bumps, seed)[0] matches Step::TransferChecked(t)
            && t.decimals == a.mint_sol.decimals && t.amount == amount && t.token_program == a.token_program,
{
}

/// Opening an escrow is refused exactly when the record already names a
/// seller (some byte of the recorded seller is not zero) other than the
/// one who opens it.
pub proof fn lemma_opening_refused_exactly(e: Escrow, maker: Pubkey)
    ensures
        opening_refusal(e, maker) is Some <==> (
            (exists|i: int| 0 <= i < 32 && e.maker.bytes[i] != 0) && e.maker != maker),
        opening_refusal(e, maker) is Some ==> opening_refusal(e, maker) == Some(Errors::MakerMismatch),
{
}

/// What initialization writes, field by field, for every input: the seed,
/// the seller, the seller's token account, the bump seed in both places,
/// the fee of 5, the payment mint, the vault, the seller as owner and the
/// full price `amount`; the listed flag and (while listed) the asset are
/// kept, and a listing not yet open names the asset given.
pub proof fn lemma_initialized_escrow_fields(
    old: Escrow,
    seed: u64,
    maker: Pubkey,
    maker_ata: Pubkey,
    mint: Pubkey,
    asset: Pubkey,
    vault: Pubkey,
    bump: u8,
    amount: u64,
)
    ensures
        ({
            let e = initialized_escrow(old, seed, maker, maker_ata, mint, asset, vault, bump, amount);
            &&& e.seed == seed
            &&& e.maker == maker
            &&& e.maker_mint == maker_ata
            &&& e.bump == bump
            &&& e.fee == 5
            &&& e.state.maker == maker
            &&& e.state.maker_mint == mint
            &&& e.state.vault == vault
            &&& e.state.price == amount
            &&& e.state.bump == bump
            &&& e.state.owner == maker
            &&& e.state.listed == old.state.listed
            &&& e.state.asset == (if old.state.listed { old.state.asset } else { asset })
        }),
        ({
            let e = opened_escrow(seed, maker, maker_ata, mint, asset, vault, bump, amount, true);
            &&& e.state.price == amount
            &&& e.seed == seed
            &&& e.state.asset == asset
            &&& e.state.listed
            &&& e.maker == maker
            &&& e.maker_mint == maker_ata
            &&& e.bump == bump
            &&& e.fee == 5
            &&& e.state.maker == maker
            &&& e.state.maker_mint == mint
            &&& e.state.vault == vault
            &&& e.state.bump == bump
            &&& e.state.owner == maker
        }),
{
}

/// The associated token account rule holds exactly for the address found
/// for the seeds [wallet, the token program given, mint] under the
/// associated token program; any other token program gives other seeds.
pub proof fn lemma_associated_token_rule_exactly(
    account: Pubkey,
    wallet: Pubkey,
    mint: Pubkey,
    token_program: Pubkey,
    error: ErrorCode,
)
    ensures
        associated_token_seeds(wallet, mint, token_program) == seq![wallet.bytes@, token_program.bytes@, mint.bytes@],
        associated_token_rule(account, wallet, mint, token_program, error) == Some(Ok::<(), ErrorCode>(())) <==> (
            found_program_address(seq![wallet.bytes@, token_program.bytes@, mint.bytes@], associated_token_program_bytes())
                matches Some(p) && p.0 == account.bytes@),
        associated_token_rule(account, wallet, mint, token_program, error) is None <==>
            found_program_address(seq![wallet.bytes@, token_program.bytes@, mint.bytes@], associated_token_program_bytes())
                is None,
        associated_token_rule(account, wallet, mint, token_program, error) matches Some(Err(e)) ==> e == error,
{
    assert(associated_token_seeds(wallet, mint, token_program) =~= seq![wallet.bytes@, token_program.bytes@, mint.bytes@]);
}

/// The escrow's seeds are the bytes of `escrow` and the seed little-endian;
/// the seeds rule passes exactly for the address found for them, and the
/// bump rule exactly for the address that they give with the bump appended.
pub proof fn lemma_escrow_rules_exactly(program_id: Pubkey, seed: u64, bump: u8, escrow: Pubkey)
    ensures
        escrow_seeds_spec(seed) == seq![seq![101u8, 115, 99, 114, 111, 119], spec_u64_to_le_bytes(seed)],
        escrow_seeds_rule(program_id, seed, escrow) == Some(Ok::<u8, ErrorCode>(bump)) <==>
            found_program_address(escrow_seeds_spec(seed), program_id.bytes@) == Some((escrow.bytes@, bump)),
        escrow_bump_rule(program_id, seed, bump, escrow) == Ok::<(), ErrorCode>(()) <==>
            created_program_address(escrow_seeds_spec(seed).push(seq![bump]), program_id.bytes@) == Some(escrow.bytes@),
        (SignerSeeds { seed: seed, order: SeedOrder::LittleEndian, bump: bump }).seeds()
            == escrow_seeds_spec(seed).push(seq![bump]),
{
    assert(escrow_seeds_spec(seed) =~= seq![seq![101u8, 115, 99, 114, 111, 119], spec_u64_to_le_bytes(seed)]);
    let signer = SignerSeeds { seed: seed, order: SeedOrder::LittleEndian, bump: bump };
    assert(signer.seeds() =~= escrow_seeds_spec(seed).push(seq![bump]));
    if escrow_seeds_rule(program_id, seed, escrow) == Some(Ok::<u8, ErrorCode>(bump)) {
        lemma_same_bytes(escrow, escrow);
    }
}

/// The accounts of `initialize` (and, alike, of `list_nft`) pass the
/// address rules exactly when the escrow is the address found for its seeds
/// and the vault and the seller's token account are the associated token
/// accounts, of the escrow and of the seller, for the payment mint under the
/// token program given; the bump seed found is the one recorded. A wrong
/// escrow gives `ConstraintSeeds`; a wrong token account (these may be
/// created) gives `AccountNotAssociatedTokenAccount`.
pub proof fn lemma_opening_rules_exactly(a: Initialize, l: List, program_id: Pubkey, seed: u64, bump: u8)
    ensures
        a.rules(program_id, seed) == Some(Ok::<InitializeBumps, ErrorCode>(InitializeBumps { escrow: bump })) <==> {
            &&& escrow_seeds_rule(program_id, seed, a.escrow.key) == Some(Ok::<u8, ErrorCode>(bump))
            &&& associated_token_rule(a.vault, a.escrow.key, a.mint_sol.key, a.token_program,
                ErrorCode::AccountNotAssociatedTokenAccount) == Some(Ok::<(), ErrorCode>(()))
            &&& associated_token_rule(a.maker_ata_sol, a.maker, a.mint_sol.key, a.token_program,
                ErrorCode::AccountNotAssociatedTokenAccount) == Some(Ok::<(), ErrorCode>(()))
        },
        escrow_seeds_rule(program_id, seed, a.escrow.key) == Some(Err::<u8, ErrorCode>(ErrorCode::ConstraintSeeds))
            ==> a.rules(program_id, seed) == Some(Err::<InitializeBumps, ErrorCode>(ErrorCode::ConstraintSeeds)),
        a.rules(program_id, seed) matches Some(Err(e)) ==> (e == ErrorCode::ConstraintSeeds
            || e == ErrorCode::AccountNotAssociatedTokenAccount),
        l.rules(program_id, seed) == Some(Ok::<ListBumps, ErrorCode>(ListBumps { escrow: bump })) <==> {
            &&& escrow_seeds_rule(program_id, seed, l.escrow.key) == Some(Ok::<u8, ErrorCode>(bump))
            &&& associated_token_rule(l.vault, l.escrow.key, l.mint_sol.key, l.token_program,
                ErrorCode::AccountNotAssociatedTokenAccount) == Some(Ok::<(), ErrorCode>(()))
            &&& associated_token_rule(l.maker_ata_sol, l.maker, l.mint_sol.key, l.token_program,
                ErrorCode::AccountNotAssociatedTokenAccount) == Some(Ok::<(), ErrorCode>(()))
        },
{
}

/// The accounts of `buy_nft` pass the address rules exactly when the
/// buyer's token account (which may be created), the vault and the seller's
/// token account are the associated token accounts, of the buyer, of the
/// escrow and of the seller, for the payment mint under the token program
/// given, and the escrow is the address found for its seeds. A wrong
/// buyer's token account gives `AccountNotAssociatedTokenAccount`, checked
/// first; a wrong escrow `ConstraintSeeds`; a wrong vault or seller's token
/// account `ConstraintAssociated`.
pub proof fn lemma_buy_rules_exactly(a: Buy, program_id: Pubkey, seed: u64, bump: u8)
    ensures
        a.rules(program_id, seed) == Some(Ok::<BuyBumps, ErrorCode>(BuyBumps { escrow: bump })) <==> {
            &&& associated_token_rule(a.buyer_ata_sol, a.buyer, a.mint_sol.key, a.token_program,
                ErrorCode::AccountNotAssociatedTokenAccount) == Some(Ok::<(), ErrorCode>(()))
            &&& escrow_seeds_rule(program_id, seed, a.escrow.key) == Some(Ok::<u8, ErrorCode>(bump))
            &&& associated_token_rule(a.vault, a.escrow.key, a.mint_sol.key, a.token_program,
                ErrorCode::ConstraintAssociated) == Some(Ok::<(), ErrorCode>(()))
            &&& associated_token_rule(a.maker_ata_sol, a.maker, a.mint_sol.key, a.token_program,
                ErrorCode::ConstraintAssociated) == Some(Ok::<(), ErrorCode>(()))
        },
        associated_token_rule(a.buyer_ata_sol, a.buyer, a.mint_sol.key, a.token_program,
            ErrorCode::AccountNotAssociatedTokenAccount) matches Some(Err(_))
            ==> a.rules(program_id, seed) == Some(Err::<BuyBumps, ErrorCode>(ErrorCode::AccountNotAssociatedTokenAccount)),
        a.rules(program_id, seed) matches Some(Err(e)) ==> (e == ErrorCode::ConstraintSeeds
            || e == ErrorCode::AccountNotAssociatedTokenAccount || e == ErrorCode::ConstraintAssociated),
{
}

/// The accounts of `unlist` pass the address rule exactly when the escrow's
/// seeds with its recorded bump seed give its address; otherwise the answer
/// is `ConstraintSeeds`.
pub proof fn lemma_unlist_rule_exactly(a: Unlist, program_id: Pubkey, seed: u64)
    ensures
        a.rules(program_id, seed) == Ok::<UnlistBumps, ErrorCode>(UnlistBumps {}) <==>
            created_program_address(escrow_seeds_spec(seed).push(seq![a.escrow.inner.bump]), program_id.bytes@)
                == Some(a.escrow.key.bytes@),
        a.rules(program_id, seed) is Err ==> a.rules(program_id, seed)
            == Err::<UnlistBumps, ErrorCode>(ErrorCode::ConstraintSeeds),
{
}

/// Loading an escrow from account data: data shorter than 8 bytes gives
/// `AccountDiscriminatorNotFound`; data whose first 8 bytes are not the
/// discriminator `AccountDiscriminatorMismatch`; otherwise it loads exactly
/// when the data holds the 244 bytes of a record whose `listed` byte (at
/// offset 219) is 0 or 1, and the escrow loaded is the one whose bytes those
/// are; anything after the record is ignored.
pub proof fn lemma_decode_escrow_exactly(data: Seq<u8>)
    ensures
        data.len() < 8 ==> decode_escrow(data) == Err::<Escrow, ErrorCode>(ErrorCode::AccountDiscriminatorNotFound),
        data.len() >= 8 && data.take(8) != escrow_discriminator_spec() ==> decode_escrow(data)
            == Err::<Escrow, ErrorCode>(ErrorCode::AccountDiscriminatorMismatch),
        data.len() >= 8 && data.take(8) == escrow_discriminator_spec() ==> (decode_escrow(data) is Ok <==> (
            data.len() >= 252 && data[219] <= 1)),
        data.len() >= 8 && data.take(8) == escrow_discriminator_spec() && !(data.len() >= 252 && data[219] <= 1)
            ==> decode_escrow(data) == Err::<Escrow, ErrorCode>(ErrorCode::AccountDidNotDeserialize),
        decode_escrow(data) matches Ok(e) ==> escrow_account_bytes(e) == data.subrange(0, 252),
        decode_escrow(data) matches Ok(e) ==> e.state.listed == (data[219] == 1),
{
    if decode_escrow(data) is Ok {
        let body = data.subrange(8, 252);
        // A record with these bytes exists: read the fields off them.
        let e = decode_witness(data);
        lemma_escrow_bytes_pieces(e);
        let c = choose|c: Escrow| escrow_bytes(c) == body;
        assert(escrow_bytes(c) == body);
        lemma_escrow_bytes_pieces(c);
        assert(escrow_account_bytes(c) =~= data.subrange(0, 252));
        assert(escrow_bytes(c)[211] == data[219]);
    }
}

/// A record whose bytes are the 244 bytes after the discriminator, where
/// the `listed` byte is 0 or 1.
proof fn decode_witness(data: Seq<u8>) -> (e: Escrow)
    requires
        data.len() >= 252,
        data[219] <= 1,
    ensures
        escrow_bytes(e) == data.subrange(8, 252),
{
    lemma_u64_le_onto(data.subrange(8, 16));
    lemma_u64_le_onto(data.subrange(210, 218));
    let seed = choose|x: u64| spec_u64_to_le_bytes(x) == data.subrange(8, 16);
    let price = choose|x: u64| spec_u64_to_le_bytes(x) == data.subrange(210, 218);
    let e = Escrow {
        seed: seed,
        maker: key_of(data.subrange(16, 48)),
        maker_mint: key_of(data.subrange(48, 80)),
        bump: data[80],
        fee: data[81],
        state: Listing {
            maker: key_of(data.subrange(82, 114)),
            maker_mint: key_of(data.subrange(114, 146)),
            asset: key_of(data.subrange(146, 178)),
            vault: key_of(data.subrange(178, 210)),
            price: price,
            bump: data[218],
            listed: data[219] == 1,
            owner: key_of(data.subrange(220, 252)),
        },
    };
    lemma_escrow_bytes_pieces(e);
    let b = escrow_bytes(e);
    let body = data.subrange(8, 252);
    assert forall|k: int| 0 <= k < 244 implies b[k] == body[k] by {
        if k < 8 {
            assert(b[k] == b.subrange(0, 8)[k]);
        } else if k < 40 {
            assert(b[k] == b.subrange(8, 40)[k - 8]);
        } else if k < 72 {
            assert(b[k] == b.subrange(40, 72)[k - 40]);
        } else if k < 74 {
        } else if k < 106 {
            assert(b[k] == b.subrange(74, 106)[k - 74]);
        } else if k < 138 {
            assert(b[k] == b.subrange(106, 138)[k - 106]);
        } else if k < 170 {
            assert(b[k] == b.subrange(138, 170)[k - 138]);
        } else if k < 202 {
            assert(b[k] == b.subrange(170, 202)[k - 170]);
        } else if k < 210 {
            assert(b[k] == b.subrange(202, 210)[k - 202]);
        } else if k < 212 {
        } else {
            assert(b[k] == b.subrange(212, 244)[k - 212]);
        }
    }
    assert(b =~= body);
    e
}

/// An array holding the first `n` bytes of `s`, zeros after them.
spec fn bytes_array(s: Seq<u8>, n: nat) -> [u8; 32]
    decreases n,
{
    if n == 0 {
        vstd::array::spec_array_fill_for_copy_type::<u8, 32>(0u8)
    } else {
        vstd::array::spec_array_update(bytes_array(s, (n - 1) as nat), n - 1, s[n - 1])
    }
}

proof fn lemma_bytes_array(s: Seq<u8>, n: nat)
    requires
        n <= 32,
        s.len() == 32,
    ensures
        bytes_array(s, n)@.len() == 32,
        forall|i: int| 0 <= i < n ==> bytes_array(s, n)@[i] == s[i],
    decreases n,
{
    broadcast use vstd::array::axiom_spec_array_update, vstd::array::axiom_spec_array_fill_for_copy_type;
    if n > 0 {
        lemma_bytes_array(s, (n - 1) as nat);
    } else {
        let a = vstd::array::spec_array_fill_for_copy_type::<u8, 32>(0u8);
        assert(a@.len() == 32);
    }
}

/// The address whose bytes are these 32 bytes.
proof fn key_of(s: Seq<u8>) -> (k: Pubkey)
    requires
        s.len() == 32,
    ensures
        k.bytes@ == s,
{
    lemma_bytes_array(s, 32);
    let k = Pubkey { bytes: bytes_array(s, 32) };
    assert(k.bytes@ =~= s);
    k
}

/// Every 8 bytes are the little-endian bytes of some integer.
proof fn lemma_u64_le_onto(s: Seq<u8>)
    requires
        s.len() == 8,
    ensures
        exists|x: u64| spec_u64_to_le_bytes(x) == s,
{
    vstd::bytes::lemma_auto_spec_u64_to_from_le_bytes();
    let x = vstd::bytes::spec_u64_from_le_bytes(s);
    assert(spec_u64_to_le_bytes(x) == s);
}

} // verus!
