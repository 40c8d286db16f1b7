use vstd::prelude::*;
use vstd::utf8::encode_utf8;

use crate::keys::Pubkey;

verus! {

/// The configuration of the marketplace: its admin, its fee and the bumps of
/// its program-derived accounts.
#[derive(Debug)]
pub struct Marketplace {
    pub admin: Pubkey,
    /// Platform fee in basis points of the price (10000 is the whole price).
    pub fee: u16,
    pub bump: u8,
    /// Bump of the treasury that collects the fees.
    pub treasury_bump: u8,
    /// Bump of the mint of the reward tokens.
    pub rewards_bump: u8,
    pub name: String,
}

/// Who listed which NFT, and at what price.
#[derive(Clone, Copy, Debug, PartialEq, Eq)]
pub struct Listing {
    pub maker: Pubkey,
    pub maker_mint: Pubkey,
    pub price: u64,
    pub bump: u8,
}

impl Marketplace {
    /// Bytes reserved for the account: discriminator, admin, fee, three bumps,
    /// and a length-prefixed name of up to 32 bytes.
    pub const INIT_SPACE: usize = 8 + 32 + 2 + 3 * 1 + (4 + 32);
}

impl Listing {
    /// Bytes reserved for the account: 8 for the discriminator, 32 for each of
    /// the two addresses, 2 for the price (which is an 8-byte integer), and 1
    /// for the bump.
    pub const INIT_SPACE: usize = 8 + 32 * 2 + 2 + 1;
}

/// The constant first seed of the marketplace address: the bytes of "marketplace".
pub open spec fn marketplace_seed_prefix() -> Seq<u8> {
    seq![109u8, 97u8, 114u8, 107u8, 101u8, 116u8, 112u8, 108u8, 97u8, 99u8, 101u8]
}

/// The seeds with which the marketplace signs: "marketplace", its name in
/// UTF-8, and its bump.
pub open spec fn marketplace_seeds(name: Seq<char>, bump: u8) -> Seq<Seq<u8>> {
    seq![marketplace_seed_prefix(), encode_utf8(name), seq![bump]]
}

/// The seeds with which a listing signs: the marketplace address, the NFT's
/// mint address, and the listing's bump.
pub open spec fn listing_seeds(marketplace: Pubkey, maker_mint: Pubkey, bump: u8) -> Seq<Seq<u8>> {
    seq![marketplace.spec_bytes(), maker_mint.spec_bytes(), seq![bump]]
}

/// Builds the signer seeds of the marketplace account.
pub fn marketplace_signer_seeds(marketplace: &Marketplace) -> (seeds: Vec<Vec<u8>>)
    ensures
        seeds.deep_view() == marketplace_seeds(marketplace.name@, marketplace.bump),
{
    let prefix: Vec<u8> = vec![109u8, 97u8, 114u8, 107u8, 101u8, 116u8, 112u8, 108u8, 97u8, 99u8, 101u8];
    let name_bytes: Vec<u8> = vstd::slice::slice_to_vec(marketplace.name.as_str().as_bytes());
    let bump: Vec<u8> = vec![marketplace.bump];
    assert(prefix.deep_view() =~= marketplace_seed_prefix());
    assert(name_bytes.deep_view() =~= encode_utf8(marketplace.name@));
    assert(bump.deep_view() =~= seq![marketplace.bump]);
    let mut seeds: Vec<Vec<u8>> = Vec::new();
    seeds.push(prefix);
    seeds.push(name_bytes);
    seeds.push(bump);
    assert(seeds.deep_view() =~= marketplace_seeds(marketplace.name@, marketplace.bump));
    seeds
}

/// Builds the signer seeds of a listing account.
pub fn listing_signer_seeds(marketplace: &Pubkey, maker_mint: &Pubkey, bump: u8) -> (seeds: Vec<Vec<u8>>)
    ensures
        seeds.deep_view() == listing_seeds(*marketplace, *maker_mint, bump),
{
    let a: Vec<u8> = marketplace.to_bytes();
    let b: Vec<u8> = maker_mint.to_bytes();
    let c: Vec<u8> = vec![bump];
    assert(a.deep_view() =~= marketplace.spec_bytes());
    assert(b.deep_view() =~= maker_mint.spec_bytes());
    assert(c.deep_view() =~= seq![bump]);
    let mut seeds: Vec<Vec<u8>> = Vec::new();
    seeds.push(a);
    seeds.push(b);
    seeds.push(c);
    assert(seeds.deep_view() =~= listing_seeds(*marketplace, *maker_mint, bump));
    seeds
}

} // verus!
