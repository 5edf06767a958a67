use nft_escrow::codec::escrow_discriminator;
use nft_escrow::cpi::{CloseAccount, SeedOrder, SignerSeeds, Step, TransferChecked, TransferV1};
use nft_escrow::error::{ErrorCode, Errors};
use nft_escrow::instructions::{
    AssetAccount, Buy, BuyBumps, EscrowAccount, Initialize, InitializeBumps, List, ListBumps,
    MintAccount, Unlist, UnlistBumps,
};
use nft_escrow::nft_escrow::{buy_nft, initialize, list_nft, unlist};
use nft_escrow::pda::{
    associated_token_address, associated_token_program_id, check_escrow_bump, escrow_seeds,
    find_escrow_address, id,
};
use nft_escrow::pubkey::Pubkey;
use nft_escrow::state::{Escrow, List as Listing};

fn key(n: u8) -> Pubkey {
    Pubkey::new_from_array([n; 32])
}

fn anchor_key(k: &Pubkey) -> anchor_lang::prelude::Pubkey {
    anchor_lang::prelude::Pubkey::new_from_array(k.bytes)
}

fn from_anchor(k: &anchor_lang::prelude::Pubkey) -> Pubkey {
    Pubkey::new_from_array(k.to_bytes())
}

/// The smallest Metaplex Core asset record: key AssetV1, an owner, no
/// update authority, empty name and uri, no sequence number.
fn asset_bytes() -> Vec<u8> {
    asset_owned_by(&key(9))
}

/// The same record with `owner` as the asset's owner.
fn asset_owned_by(owner: &Pubkey) -> Vec<u8> {
    let mut v = vec![1u8];
    v.extend_from_slice(&owner.bytes);
    v.push(0);
    v.extend_from_slice(&[0, 0, 0, 0]);
    v.extend_from_slice(&[0, 0, 0, 0]);
    v.push(0);
    v
}

fn sample_escrow() -> Escrow {
    Escrow {
        seed: 0x0102030405060708,
        maker: key(1),
        maker_mint: key(2),
        bump: 254,
        fee: 5,
        state: Listing {
            maker: key(1),
            maker_mint: key(3),
            asset: key(7),
            vault: key(4),
            price: 1_000_000,
            bump: 254,
            listed: true,
            owner: key(1),
        },
    }
}

/// The record of a newly created escrow account: all zeros.
fn zero_escrow() -> Escrow {
    Escrow {
        seed: 0,
        maker: key(0),
        maker_mint: key(0),
        bump: 0,
        fee: 0,
        state: Listing {
            maker: key(0),
            maker_mint: key(0),
            asset: key(0),
            vault: key(0),
            price: 0,
            bump: 0,
            listed: false,
            owner: key(0),
        },
    }
}

fn initialize_accounts() -> Initialize {
    Initialize {
        maker: key(1),
        mint_sol: MintAccount { key: key(3), decimals: 9 },
        asset: AssetAccount { key: key(7), data: asset_bytes() },
        escrow: EscrowAccount { key: key(8), inner: zero_escrow() },
        vault: key(4),
        maker_ata_sol: key(2),
        associated_token_program: associated_token_program_id(),
        token_program: key(10),
        system_program: key(0),
        mpl_core_program: key(11),
    }
}

fn list_accounts() -> List {
    let a = initialize_accounts();
    List {
        maker: a.maker,
        mint_sol: a.mint_sol,
        asset: a.asset,
        escrow: a.escrow,
        vault: a.vault,
        maker_ata_sol: a.maker_ata_sol,
        associated_token_program: a.associated_token_program,
        token_program: a.token_program,
        system_program: a.system_program,
        mpl_core_program: a.mpl_core_program,
    }
}

fn buy_accounts() -> Buy {
    Buy {
        buyer: key(20),
        maker: key(1),
        mint_sol: MintAccount { key: key(3), decimals: 6 },
        asset: AssetAccount { key: key(7), data: asset_owned_by(&key(8)) },
        escrow: EscrowAccount { key: key(8), inner: sample_escrow() },
        vault: key(4),
        maker_ata_sol: key(2),
        buyer_ata_sol: key(21),
        associated_token_program: associated_token_program_id(),
        token_program: key(10),
        system_program: key(0),
        mpl_core_program: key(11),
    }
}

fn unlist_accounts() -> Unlist {
    Unlist {
        maker: key(1),
        asset: AssetAccount { key: key(7), data: asset_owned_by(&key(8)) },
        escrow: EscrowAccount { key: key(8), inner: sample_escrow() },
        associated_token_program: associated_token_program_id(),
        token_program: key(10),
        system_program: key(0),
        mpl_core_program: key(11),
    }
}

#[test]
fn initialize_writes_open_listing() {
    let mut accounts = initialize_accounts();
    let before = accounts.clone();
    let r = initialize(&mut accounts, &InitializeBumps { escrow: 251 }, 42, 777);
    assert_eq!(r, Ok(()));
    let e = accounts.escrow.inner;
    assert_eq!(e.seed, 42);
    assert_eq!(e.maker, key(1));
    assert_eq!(e.maker_mint, key(2));
    assert_eq!(e.bump, 251);
    assert_eq!(e.fee, 5);
    assert_eq!(
        e.state,
        Listing {
            maker: key(1),
            maker_mint: key(3),
            asset: key(7),
            vault: key(4),
            price: 777,
            bump: 251,
            listed: false,
            owner: key(1),
        }
    );
    assert_eq!(accounts.escrow.key, before.escrow.key);
    assert_eq!(accounts.asset, before.asset);
    assert_eq!(accounts.vault, before.vault);
}

#[test]
fn list_initialize_escrow_writes_the_same_record() {
    let mut a = initialize_accounts();
    let mut l = list_accounts();
    a.initialize_escrow(9, &InitializeBumps { escrow: 250 }, 5_000).unwrap();
    l.initialize_escrow(9, &ListBumps { escrow: 250 }, 5_000).unwrap();
    assert_eq!(a.escrow, l.escrow);
}

#[test]
fn list_nft_pays_vault_then_escrows_asset() {
    let mut accounts = list_accounts();
    let plan = list_nft(&mut accounts, &ListBumps { escrow: 254 }, 300, 7).unwrap();
    assert_eq!(
        plan,
        vec![
            Step::TransferChecked(TransferChecked {
                token_program: key(10),
                from: key(2),
                to: key(4),
                mint: key(3),
                authority: key(1),
                amount: 300,
                decimals: 9,
            }),
            Step::TransferV1(TransferV1 {
                mpl_core_program: key(11),
                asset: key(7),
                collection: None,
                payer: key(1),
                authority: None,
                new_owner: key(8),
                system_program: None,
                signer: Some(SignerSeeds { seed: 7, order: SeedOrder::LittleEndian, bump: 254 }),
            }),
        ]
    );
    let e = accounts.escrow.inner;
    assert_eq!(e.seed, 7);
    assert_eq!(e.maker, key(1));
    assert_eq!(e.bump, 254);
    assert!(e.state.listed);
    assert_eq!(e.state.price, 300);
    assert_eq!(e.state.asset, key(7));
    assert_eq!(e.state.maker_mint, key(3));
    assert_eq!(accounts.asset, list_accounts().asset);
}

#[test]
fn opening_refuses_another_sellers_escrow() {
    let mut a = initialize_accounts();
    a.escrow.inner = sample_escrow();
    a.escrow.inner.maker = key(5);
    a.escrow.inner.state.listed = false;
    let before = a.clone();
    assert_eq!(initialize(&mut a, &InitializeBumps { escrow: 1 }, 2, 3), Err(Errors::MakerMismatch));
    assert_eq!(a, before);
    let mut l = list_accounts();
    l.escrow.inner = before.escrow.inner;
    let lbefore = l.clone();
    assert_eq!(list_nft(&mut l, &ListBumps { escrow: 1 }, 3, 2), Err(Errors::MakerMismatch));
    assert_eq!(l, lbefore);
}

#[test]
fn reinitializing_a_listed_escrow_keeps_it_listed() {
    let mut a = initialize_accounts();
    a.escrow.inner = sample_escrow();
    a.asset.key = key(33);
    assert_eq!(initialize(&mut a, &InitializeBumps { escrow: 1 }, 2, 3), Ok(()));
    let e = a.escrow.inner;
    assert!(e.state.listed);
    assert_eq!(e.state.asset, key(7));
    assert_eq!(e.seed, 2);
    assert_eq!(e.state.price, 3);
    assert_eq!(e.bump, 1);
}

#[test]
fn listing_into_a_listed_escrow() {
    let mut l = list_accounts();
    l.escrow.inner = sample_escrow();
    let plan = list_nft(&mut l, &ListBumps { escrow: 1 }, 3, 2).unwrap();
    assert_eq!(plan.len(), 2);
    assert!(l.escrow.inner.state.listed);
    assert_eq!(l.escrow.inner.state.price, 3);
}

#[test]
fn seller_may_reopen_own_unlisted_escrow() {
    let mut a = initialize_accounts();
    a.escrow.inner = sample_escrow();
    a.escrow.inner.state.listed = false;
    assert_eq!(initialize(&mut a, &InitializeBumps { escrow: 9 }, 4, 55), Ok(()));
    assert_eq!(a.escrow.inner.state.price, 55);
    assert_eq!(a.escrow.inner.seed, 4);
}

#[test]
fn list_nft_rejects_account_without_asset() {
    let mut accounts = list_accounts();
    accounts.asset.data = vec![];
    assert_eq!(list_nft(&mut accounts, &ListBumps { escrow: 254 }, 300, 7), Err(Errors::InvalidAsset));
    let mut short = list_accounts();
    short.asset.data.pop();
    assert_eq!(list_nft(&mut short, &ListBumps { escrow: 254 }, 300, 7), Err(Errors::InvalidAsset));
    let mut bad_key = list_accounts();
    bad_key.asset.data[0] = 200;
    assert_eq!(list_nft(&mut bad_key, &ListBumps { escrow: 254 }, 300, 7), Err(Errors::InvalidAsset));
}

#[test]
fn buy_nft_pays_listed_price_before_delivery() {
    let mut accounts = buy_accounts();
    let plan = buy_nft(&mut accounts, &BuyBumps { escrow: 254 }, 0x0102030405060708).unwrap();
    assert_eq!(
        plan,
        vec![
            Step::TransferChecked(TransferChecked {
                token_program: key(10),
                from: key(21),
                to: key(2),
                mint: key(3),
                authority: key(20),
                amount: 1_000_000,
                decimals: 6,
            }),
            Step::TransferV1(TransferV1 {
                mpl_core_program: key(11),
                asset: key(7),
                collection: None,
                payer: key(20),
                authority: Some(key(8)),
                new_owner: key(20),
                system_program: None,
                signer: Some(SignerSeeds {
                    seed: 0x0102030405060708,
                    order: SeedOrder::LittleEndian,
                    bump: 254,
                }),
            }),
            Step::Close(CloseAccount { account: key(8), destination: key(1) }),
        ]
    );
    assert_eq!(accounts, buy_accounts());
}

#[test]
fn buy_nft_refusals() {
    let mut missing = buy_accounts();
    missing.asset.data = vec![0u8; 10];
    assert_eq!(buy_nft(&mut missing, &BuyBumps { escrow: 254 }, 1), Err(Errors::InvalidAsset));
    let mut other_seller = buy_accounts();
    other_seller.maker = key(20);
    assert_eq!(buy_nft(&mut other_seller, &BuyBumps { escrow: 254 }, 1), Err(Errors::MakerMismatch));
    let mut unlisted = buy_accounts();
    unlisted.escrow.inner.state.listed = false;
    assert_eq!(buy_nft(&mut unlisted, &BuyBumps { escrow: 254 }, 1), Err(Errors::NotListed));
    let mut other_asset = buy_accounts();
    other_asset.asset.key = key(30);
    assert_eq!(buy_nft(&mut other_asset, &BuyBumps { escrow: 254 }, 1), Err(Errors::AssetMismatch));
    let mut other_mint = buy_accounts();
    other_mint.mint_sol.key = key(31);
    assert_eq!(buy_nft(&mut other_mint, &BuyBumps { escrow: 254 }, 1), Err(Errors::MintMismatch));
    let mut not_held = buy_accounts();
    not_held.asset.data = asset_owned_by(&key(1));
    assert_eq!(buy_nft(&mut not_held, &BuyBumps { escrow: 254 }, 1), Err(Errors::AssetNotInEscrow));
}

#[test]
fn unlist_returns_asset_to_maker() {
    let mut accounts = unlist_accounts();
    let plan = unlist(&mut accounts, &UnlistBumps {}, 3).unwrap();
    assert_eq!(
        plan,
        vec![
            Step::TransferV1(TransferV1 {
                mpl_core_program: key(11),
                asset: key(7),
                collection: None,
                payer: key(1),
                authority: Some(key(8)),
                new_owner: key(1),
                system_program: None,
                signer: Some(SignerSeeds { seed: 3, order: SeedOrder::LittleEndian, bump: 254 }),
            }),
            Step::Close(CloseAccount { account: key(8), destination: key(1) }),
        ]
    );
    let mut unlisted = unlist_accounts();
    unlisted.escrow.inner.state.listed = false;
    assert_eq!(unlist(&mut unlisted, &UnlistBumps {}, 3), Ok(plan));
    let mut missing = unlist_accounts();
    missing.asset.data = vec![];
    assert_eq!(unlist(&mut missing, &UnlistBumps {}, 3), Err(Errors::InvalidAsset));
    let mut stranger = unlist_accounts();
    stranger.maker = key(40);
    assert_eq!(unlist(&mut stranger, &UnlistBumps {}, 3), Err(Errors::MakerMismatch));
    let mut not_held = unlist_accounts();
    not_held.asset.data = asset_owned_by(&key(41));
    assert_eq!(unlist(&mut not_held, &UnlistBumps {}, 3), Err(Errors::AssetNotInEscrow));
}

#[test]
fn list_then_unlist_returns_the_asset() {
    let mut l = list_accounts();
    let listed = list_nft(&mut l, &ListBumps { escrow: 250 }, 500, 12).unwrap();
    assert_eq!(listed.len(), 2);
    // The deposit leaves the asset's record naming the escrow as owner.
    let mut u = Unlist {
        maker: l.maker,
        asset: AssetAccount { key: l.asset.key, data: asset_owned_by(&l.escrow.key) },
        escrow: l.escrow,
        associated_token_program: l.associated_token_program,
        token_program: l.token_program,
        system_program: l.system_program,
        mpl_core_program: l.mpl_core_program,
    };
    let plan = unlist(&mut u, &UnlistBumps {}, 12).unwrap();
    assert_eq!(
        plan[0],
        Step::TransferV1(TransferV1 {
            mpl_core_program: key(11),
            asset: key(7),
            collection: None,
            payer: key(1),
            authority: Some(key(8)),
            new_owner: key(1),
            system_program: None,
            signer: Some(SignerSeeds { seed: 12, order: SeedOrder::LittleEndian, bump: 250 }),
        })
    );
    assert_eq!(plan[1], Step::Close(CloseAccount { account: key(8), destination: key(1) }));
}

#[test]
fn bought_escrow_is_closed_and_no_longer_loads() {
    let mut b = buy_accounts();
    let plan = buy_nft(&mut b, &BuyBumps { escrow: 254 }, 5).unwrap();
    assert_eq!(plan.last(), Some(&Step::Close(CloseAccount { account: key(8), destination: key(1) })));
    assert_eq!(Escrow::try_deserialize(&[]), Err(ErrorCode::AccountDiscriminatorNotFound));
    // The transfer leaves the asset's record naming the buyer as owner: no
    // later withdrawal or purchase of it goes through, even from an escrow
    // created again at the same address.
    let mut later = unlist_accounts();
    later.asset.data = asset_owned_by(&b.buyer);
    later.escrow.inner.state.listed = false;
    assert_eq!(unlist(&mut later, &UnlistBumps {}, 5), Err(Errors::AssetNotInEscrow));
    let mut again = buy_accounts();
    again.asset.data = asset_owned_by(&b.buyer);
    assert_eq!(buy_nft(&mut again, &BuyBumps { escrow: 254 }, 5), Err(Errors::AssetNotInEscrow));
}

#[test]
fn signer_seeds_bytes() {
    let le = SignerSeeds { seed: 0x0102030405060708, order: SeedOrder::LittleEndian, bump: 253 };
    assert_eq!(
        le.to_vec(),
        vec![b"escrow".to_vec(), vec![8, 7, 6, 5, 4, 3, 2, 1], vec![253]]
    );
    let be = SignerSeeds { seed: 0x0102030405060708, order: SeedOrder::BigEndian, bump: 253 };
    assert_eq!(
        be.to_vec(),
        vec![b"escrow".to_vec(), vec![1, 2, 3, 4, 5, 6, 7, 8], vec![253]]
    );
    assert_eq!(escrow_seeds(0x0102030405060708), vec![b"escrow".to_vec(), vec![8, 7, 6, 5, 4, 3, 2, 1]]);
}

#[test]
fn escrow_discriminator_is_hash_prefix() {
    assert_eq!(escrow_discriminator(), vec![31, 213, 123, 187, 186, 22, 218, 155]);
}

#[test]
fn escrow_account_roundtrip() {
    let e = sample_escrow();
    let data = e.try_serialize();
    assert_eq!(data.len(), 8 + Escrow::INIT_SPACE);
    assert_eq!(&data[0..8], &[31, 213, 123, 187, 186, 22, 218, 155]);
    assert_eq!(&data[8..16], &[8, 7, 6, 5, 4, 3, 2, 1]);
    assert_eq!(data[219], 1);
    assert_eq!(Escrow::try_deserialize(&data), Ok(e));
    let mut longer = data.clone();
    longer.extend_from_slice(&[0xAA; 5]);
    assert_eq!(Escrow::try_deserialize(&longer), Ok(e));
    let mut closed = e;
    closed.state.listed = false;
    let d2 = closed.try_serialize();
    assert_eq!(d2[219], 0);
    assert_eq!(Escrow::try_deserialize(&d2), Ok(closed));
}

#[test]
fn escrow_account_load_errors() {
    let data = sample_escrow().try_serialize();
    assert_eq!(Escrow::try_deserialize(&[]), Err(ErrorCode::AccountDiscriminatorNotFound));
    assert_eq!(Escrow::try_deserialize(&data[..7]), Err(ErrorCode::AccountDiscriminatorNotFound));
    let mut wrong = data.clone();
    wrong[3] ^= 1;
    assert_eq!(Escrow::try_deserialize(&wrong), Err(ErrorCode::AccountDiscriminatorMismatch));
    assert_eq!(Escrow::try_deserialize(&data[..8]), Err(ErrorCode::AccountDidNotDeserialize));
    assert_eq!(Escrow::try_deserialize(&data[..251]), Err(ErrorCode::AccountDidNotDeserialize));
    let mut bad_bool = data.clone();
    bad_bool[219] = 2;
    assert_eq!(Escrow::try_deserialize(&bad_bool), Err(ErrorCode::AccountDidNotDeserialize));
}

#[test]
fn escrow_address_matches_runtime_derivation() {
    let program = id();
    let seed = 12345u64;
    let (expected, bump) = anchor_lang::prelude::Pubkey::find_program_address(
        &[b"escrow", &seed.to_le_bytes()],
        &anchor_key(&program),
    );
    let (found, found_bump) = find_escrow_address(&program, seed).unwrap();
    assert_eq!(found, from_anchor(&expected));
    assert_eq!(found_bump, bump);
    assert_eq!(check_escrow_bump(&program, seed, bump, &found), Ok(()));
    assert_eq!(check_escrow_bump(&program, seed, bump, &key(5)), Err(ErrorCode::ConstraintSeeds));
}

#[test]
fn program_and_token_program_ids() {
    assert_eq!(
        anchor_key(&id()),
        anchor_lang::prelude::Pubkey::from_str_const("2dupZTbJ6jcBDRT3wa1A5JADh2q4hWLgTSf8dCCQSvoA")
    );
    assert_eq!(anchor_key(&associated_token_program_id()), anchor_spl::associated_token::ID);
}

#[test]
fn associated_token_address_matches_helper() {
    let wallet = key(1);
    let mint = key(3);
    let token_program = from_anchor(&anchor_spl::token::ID);
    let expected = anchor_spl::associated_token::get_associated_token_address_with_program_id(
        &anchor_key(&wallet),
        &anchor_key(&mint),
        &anchor_key(&token_program),
    );
    assert_eq!(
        associated_token_address(&wallet, &mint, &token_program),
        Some(from_anchor(&expected))
    );
}

fn derived_initialize(seed: u64) -> (Initialize, u8) {
    let program = id();
    let token_program = from_anchor(&anchor_spl::token::ID);
    let (escrow, bump) = find_escrow_address(&program, seed).unwrap();
    let mut a = initialize_accounts();
    a.token_program = token_program;
    a.escrow.key = escrow;
    a.vault = associated_token_address(&escrow, &a.mint_sol.key, &token_program).unwrap();
    a.maker_ata_sol = associated_token_address(&a.maker, &a.mint_sol.key, &token_program).unwrap();
    (a, bump)
}

#[test]
fn initialize_rules_accept_derived_accounts() {
    let (a, bump) = derived_initialize(99);
    assert_eq!(a.validate(&id(), 99), Some(Ok(InitializeBumps { escrow: bump })));
}

#[test]
fn initialize_rules_reject_wrong_accounts() {
    let (a, _) = derived_initialize(99);
    assert_eq!(a.validate(&id(), 100), Some(Err(ErrorCode::ConstraintSeeds)));
    let mut wrong_vault = a.clone();
    wrong_vault.vault = key(44);
    assert_eq!(
        wrong_vault.validate(&id(), 99),
        Some(Err(ErrorCode::AccountNotAssociatedTokenAccount))
    );
    let mut wrong_ata = a.clone();
    wrong_ata.maker_ata_sol = a.vault;
    assert_eq!(
        wrong_ata.validate(&id(), 99),
        Some(Err(ErrorCode::AccountNotAssociatedTokenAccount))
    );
}

#[test]
fn list_rules_match_initialize_rules() {
    let (a, bump) = derived_initialize(5);
    let l = List {
        maker: a.maker,
        mint_sol: a.mint_sol,
        asset: a.asset.clone(),
        escrow: a.escrow,
        vault: a.vault,
        maker_ata_sol: a.maker_ata_sol,
        associated_token_program: a.associated_token_program,
        token_program: a.token_program,
        system_program: a.system_program,
        mpl_core_program: a.mpl_core_program,
    };
    assert_eq!(l.validate(&id(), 5), Some(Ok(ListBumps { escrow: bump })));
}

fn derived_buy(seed: u64) -> (Buy, u8) {
    let program = id();
    let token_program = from_anchor(&anchor_spl::token::ID);
    let (escrow, bump) = find_escrow_address(&program, seed).unwrap();
    let mut b = buy_accounts();
    b.token_program = token_program;
    b.escrow.key = escrow;
    b.escrow.inner.bump = bump;
    b.vault = associated_token_address(&escrow, &b.mint_sol.key, &token_program).unwrap();
    b.maker_ata_sol = associated_token_address(&b.maker, &b.mint_sol.key, &token_program).unwrap();
    b.buyer_ata_sol = associated_token_address(&b.buyer, &b.mint_sol.key, &token_program).unwrap();
    (b, bump)
}

#[test]
fn buy_rules_accept_and_reject() {
    let (b, bump) = derived_buy(31);
    assert_eq!(b.validate(&id(), 31), Some(Ok(BuyBumps { escrow: bump })));
    let mut wrong_buyer_ata = b.clone();
    wrong_buyer_ata.buyer_ata_sol = b.maker_ata_sol;
    assert_eq!(
        wrong_buyer_ata.validate(&id(), 31),
        Some(Err(ErrorCode::AccountNotAssociatedTokenAccount))
    );
    assert_eq!(b.validate(&id(), 32), Some(Err(ErrorCode::ConstraintSeeds)));
    let mut wrong_vault = b.clone();
    wrong_vault.vault = key(45);
    assert_eq!(wrong_vault.validate(&id(), 31), Some(Err(ErrorCode::ConstraintAssociated)));
    let mut wrong_maker_ata = b.clone();
    wrong_maker_ata.maker_ata_sol = key(46);
    assert_eq!(wrong_maker_ata.validate(&id(), 31), Some(Err(ErrorCode::ConstraintAssociated)));
}

#[test]
fn unlist_rule_uses_recorded_bump() {
    let program = id();
    let (escrow, bump) = find_escrow_address(&program, 77).unwrap();
    let mut u = unlist_accounts();
    u.escrow.key = escrow;
    u.escrow.inner.bump = bump;
    assert_eq!(u.validate(&program, 77), Ok(UnlistBumps {}));
    assert_eq!(u.validate(&program, 78), Err(ErrorCode::ConstraintSeeds));
    u.escrow.inner.bump = bump.wrapping_sub(1);
    assert_eq!(u.validate(&program, 77), Err(ErrorCode::ConstraintSeeds));
}

#[test]
fn initialized_escrow_signs_for_release() {
    let (mut a, bump) = derived_initialize(123);
    let bumps = a.validate(&id(), 123).unwrap().unwrap();
    assert_eq!(bumps.escrow, bump);
    initialize(&mut a, &bumps, 123, 10).unwrap();
    let signer = SignerSeeds { seed: 123, order: SeedOrder::LittleEndian, bump: a.escrow.inner.bump };
    let seeds = signer.to_vec();
    let refs: Vec<&[u8]> = seeds.iter().map(|s| s.as_slice()).collect();
    let derived = anchor_lang::prelude::Pubkey::create_program_address(&refs, &anchor_key(&id())).unwrap();
    assert_eq!(from_anchor(&derived), a.escrow.key);
}

#[test]
fn pubkey_helpers() {
    let data: Vec<u8> = (0u8..40).collect();
    let k = Pubkey::from_slice_at(&data, 3);
    let expected: Vec<u8> = (3u8..35).collect();
    assert_eq!(k.to_vec(), expected);
    assert!(k.equals(&k));
    assert!(!k.equals(&key(3)));
    assert_eq!(k.to_bytes().to_vec(), expected);
}
