# nft_escrow

An escrow marketplace for Metaplex Core NFTs on Solana, written in Verus.

- `src/` is the verified library: the escrow and listing records and their
  account byte layout (`state`, `codec`), the program derived addresses and the
  address rules of each instruction (`pda`, `instructions`), the check that an
  account holds a Metaplex Core asset (`asset`), and the four instructions
  (`instructions`, `nft_escrow`), which return the cross-program calls they
  make as plain values (`cpi`). `laws` holds the properties that span them.
- `app/` is the Anchor program around the library: account loading and
  constraints, the program entry points, and the code that carries out the
  planned calls.
- `tests/` runs the library against the real Solana, SPL and Metaplex crates.
