use vstd::prelude::*;

use crate::keys::Pubkey;

verus! {

/// Emitted when a marketplace is set up.
#[derive(Debug)]
pub struct InitializeEvent {
    pub admin: Pubkey,
    pub marketplace: Pubkey,
    pub treasury: Pubkey,
    pub reward_mint: Pubkey,
    pub name: String,
    pub fee: u16,
}

/// Emitted when an NFT is listed.
#[derive(Debug)]
pub struct ListEvent {
    pub maker: Pubkey,
    pub maker_ata: Pubkey,
    pub marketplace: Pubkey,
    pub maker_mint: Pubkey,
    pub vault: Pubkey,
    pub collection_mint: Pubkey,
    pub listing: Pubkey,
    pub name: String,
    pub price: u64,
    pub fee: u16,
}

/// Emitted when a listed NFT is bought.
#[derive(Debug)]
pub struct PurchaseEvent {
    pub maker: Pubkey,
    pub taker: Pubkey,
    pub taker_ata: Pubkey,
    pub marketplace: Pubkey,
    pub treasury: Pubkey,
    pub reward_mint: Pubkey,
    pub maker_rewards_ata: Pubkey,
    pub taker_rewards_ata: Pubkey,
    pub maker_mint: Pubkey,
    pub vault: Pubkey,
    pub listing: Pubkey,
    pub name: String,
    pub price: u64,
    pub fee: u16,
}

/// Emitted when a listed NFT is taken back.
#[derive(Debug)]
pub struct DelistEvent {
    pub maker: Pubkey,
    pub maker_ata: Pubkey,
    pub marketplace: Pubkey,
    pub maker_mint: Pubkey,
    pub vault: Pubkey,
    pub collection_mint: Pubkey,
    pub listing: Pubkey,
    pub name: String,
    pub price: u64,
    pub fee: u16,
}

} // verus!
