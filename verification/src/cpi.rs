//! The steps that the instructions take, as plain values: a checked token
//! transfer through the token program, a Metaplex Core asset transfer
//! (signed by the escrow's seeds where the escrow signs), and closing the
//! escrow account.

use vstd::prelude::*;
use vstd::bytes::spec_u64_to_le_bytes;
use crate::pubkey::Pubkey;
use crate::pda::{escrow_prefix, seeds_view};

verus! {

/// A `transfer_checked` call of the token program: `amount` base units of
/// `mint` (with `decimals` decimals) from the token account `from` to the
/// token account `to`, authorised by the signer `authority`.
#[derive(Clone, Copy, PartialEq, Eq, Debug)]
pub struct TransferChecked {
    pub token_program: Pubkey,
    pub from: Pubkey,
    pub to: Pubkey,
    pub mint: Pubkey,
    pub authority: Pubkey,
    pub amount: u64,
    pub decimals: u8,
}

/// The byte order in which the listing's seed enters the signer seeds.
#[derive(Clone, Copy, PartialEq, Eq, Debug)]
pub enum SeedOrder {
    LittleEndian,
    BigEndian,
}

/// The seeds with which the escrow signs: `escrow`, the 8 bytes of the
/// listing's `seed` in the given byte order, and the `bump` seed.
#[derive(Clone, Copy, PartialEq, Eq, Debug)]
pub struct SignerSeeds {
    pub seed: u64,
    pub order: SeedOrder,
    pub bump: u8,
}

impl SignerSeeds {
    /// The 8 bytes of the seed in the chosen order.
    pub open spec fn seed_bytes(self) -> Seq<u8> {
        match self.order {
            SeedOrder::LittleEndian => le_bytes(self.seed),
            SeedOrder::BigEndian => be_bytes(self.seed),
        }
    }

    /// The three seeds.
    pub open spec fn seeds(self) -> Seq<Seq<u8>> {
        seq![escrow_prefix(), self.seed_bytes(), seq![self.bump]]
    }

    /// The three seeds, as the runtime takes them.
    pub fn to_vec(&self) -> (v: Vec<Vec<u8>>)
        ensures
            seeds_view(v) == self.seeds(),
    {
        let prefix: Vec<u8> = vec![101u8, 115, 99, 114, 111, 119];
        let le = vstd::bytes::u64_to_le_bytes(self.seed);
        proof { vstd::bytes::lemma_auto_spec_u64_to_from_le_bytes(); }
        let middle = match self.order {
            SeedOrder::LittleEndian => le,
            SeedOrder::BigEndian => {
                let mut be: Vec<u8> = Vec::new();
                for i in 0..8
                    invariant
                        le@ == spec_u64_to_le_bytes(self.seed),
                        le@.len() == 8,
                        be@.len() == i,
                        forall|j: int| 0 <= j < i ==> be@[j] == le@[7 - j],
                {
                    be.push(le[7 - i]);
                }
                assert(be@ =~= be_bytes(self.seed));
                be
            },
        };
        let mut last: Vec<u8> = Vec::new();
        last.push(self.bump);
        let mut v: Vec<Vec<u8>> = Vec::new();
        v.push(prefix);
        v.push(middle);
        v.push(last);
        assert(seeds_view(v)[0] =~= escrow_prefix());
        assert(seeds_view(v)[2] =~= seq![self.bump]);
        assert(seeds_view(v) =~= self.seeds());
        v
    }
}

/// A `TransferV1` call of the Metaplex Core program: `asset` passes to
/// `new_owner`; `payer` pays, `authority` (when given) authorises, and the
/// escrow signs with `signer` (when given).
#[derive(Clone, Copy, PartialEq, Eq, Debug)]
pub struct TransferV1 {
    pub mpl_core_program: Pubkey,
    pub asset: Pubkey,
    pub collection: Option<Pubkey>,
    pub payer: Pubkey,
    pub authority: Option<Pubkey>,
    pub new_owner: Pubkey,
    pub system_program: Option<Pubkey>,
    pub signer: Option<SignerSeeds>,
}

/// Closing an account of this program: its lamports go to `destination`,
/// it passes to the system program and its data is emptied.
#[derive(Clone, Copy, PartialEq, Eq, Debug)]
pub struct CloseAccount {
    pub account: Pubkey,
    pub destination: Pubkey,
}

/// One step of an instruction: a cross-program call, or closing an account.
#[derive(Clone, Copy, PartialEq, Eq, Debug)]
pub enum Step {
    TransferChecked(TransferChecked),
    TransferV1(TransferV1),
    Close(CloseAccount),
}

/// The 8 little-endian bytes of `x`.
pub open spec fn le_bytes(x: u64) -> Seq<u8> {
    spec_u64_to_le_bytes(x)
}

/// The 8 big-endian bytes of `x`.
pub open spec fn be_bytes(x: u64) -> Seq<u8> {
    spec_u64_to_le_bytes(x).reverse()
}

} // verus!
