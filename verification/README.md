# nft_marketplace

The rules of an NFT marketplace on Solana, verified with Verus.

- `src/` is the verified library. Each instruction (listing, delisting,
  purchasing) is computed as a plan: the exact cross-program calls it makes,
  in order, with accounts, amounts and signer seeds. The fee arithmetic, the
  signer seeds, the plans and the runner that decides the next call and
  what the instruction returns are
  proved against their contracts; `src/laws.rs` and `src/run.rs` hold the
  properties that span functions (the taker pays exactly the price, both
  parties get equal rewards, one NFT leaves the vault, a run stops at the
  first failed call and returns its error).
- `app/` is the Anchor program around it: the account types and constraints,
  conversions to the library's types, and the execution of each call through
  the runtime as the library's runner directs.
- `tests/` runs the library on concrete accounts.
