use vstd::prelude::*;

use crate::keys::Pubkey;
use crate::state::{Listing, Marketplace};

verus! {

/// What an instruction reads of a token mint: its address and decimals.
#[derive(Clone, Copy, Debug, PartialEq, Eq)]
pub struct MintInfo {
    pub key: Pubkey,
    pub decimals: u8,
}

/// What an instruction reads of a token account: its address and balance.
#[derive(Clone, Copy, Debug, PartialEq, Eq)]
pub struct TokenAccountInfo {
    pub key: Pubkey,
    pub amount: u64,
}

/// A listing account: its address and its data.
#[derive(Clone, Copy, Debug, PartialEq, Eq)]
pub struct ListingAccount {
    pub key: Pubkey,
    pub data: Listing,
}

/// The marketplace account: its address and its data.
#[derive(Debug)]
pub struct MarketplaceAccount {
    pub key: Pubkey,
    pub data: Marketplace,
}

} // verus!
