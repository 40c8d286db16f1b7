use vstd::prelude::*;

use crate::accounts::{ListingAccount, MarketplaceAccount, MintInfo, TokenAccountInfo};
use crate::cpi::{Cpi, CpiModel};
use crate::keys::Pubkey;
use crate::state::Listing;

verus! {

/// The collection that an NFT's metadata names, and whether it was verified.
#[derive(Clone, Copy, Debug, PartialEq, Eq)]
pub struct Collection {
    pub verified: bool,
    pub key: Pubkey,
}

/// What a listing reads of the NFT's metadata account.
#[derive(Clone, Copy, Debug, PartialEq, Eq)]
pub struct MetadataInfo {
    pub key: Pubkey,
    pub collection: Option<Collection>,
}

/// Whether the collection that an NFT's metadata names is the required one,
/// and verified.
pub fn collection_is_verified(collection: &Collection, collection_mint: &Pubkey) -> (ok: bool)
    ensures
        ok == (collection.key == *collection_mint && collection.verified),
{
    let same: bool = collection.key.same_as(collection_mint);
    proof {
        if same {
            assert(collection.key.bytes =~= collection_mint.bytes);
        }
    }
    same && collection.verified
}

/// The bumps found for the program-derived accounts of a listing.
#[derive(Clone, Copy, Debug, PartialEq, Eq)]
pub struct ListBumps {
    pub listing: u8,
    pub metadata: u8,
    pub master_edition: u8,
}

/// The accounts of a listing: the maker puts an NFT up for sale.
#[derive(Debug)]
pub struct List {
    pub maker: Pubkey,
    pub marketplace: MarketplaceAccount,
    pub maker_mint: MintInfo,
    /// The maker's token account for the NFT.
    pub maker_ata: TokenAccountInfo,
    /// The listing's token account that receives the NFT.
    pub vault: TokenAccountInfo,
    /// The collection the NFT must belong to.
    pub collection_mint: MintInfo,
    pub listing: ListingAccount,
    pub metadata: MetadataInfo,
    pub master_edition: Pubkey,
    pub metadata_program: Pubkey,
    pub token_program: Pubkey,
    pub associated_token_program: Pubkey,
    pub system_program: Pubkey,
}

impl List {
    /// The deposit: a checked transfer of the maker's whole balance from the
    /// maker's token account into the vault, signed by the maker.
    pub open spec fn deposit_nft_plan(&self) -> Seq<CpiModel> {
        seq![
            CpiModel::TransferChecked {
                program: self.token_program,
                from: self.maker_ata.key,
                mint: self.maker_mint.key,
                to: self.vault.key,
                authority: self.maker,
                amount: self.maker_ata.amount,
                decimals: self.maker_mint.decimals,
                signer_seeds: Seq::empty(),
            },
        ]
    }

    /// The listing that `create_listing` writes.
    pub open spec fn new_listing(&self, price: u64, bumps: ListBumps) -> Listing {
        Listing { maker: self.maker, maker_mint: self.maker_mint.key, price, bump: bumps.listing }
    }

    /// Records the maker, the NFT's mint, the price and the listing's bump in
    /// the listing account.
    pub fn create_listing(&mut self, price: u64, bumps: &ListBumps)
        ensures
            *final(self) == (List {
                listing: ListingAccount { key: old(self).listing.key, data: old(self).new_listing(price, *bumps) },
                ..*old(self)
            }),
    {
        self.listing.data = Listing {
            maker: self.maker,
            maker_mint: self.maker_mint.key,
            price,
            bump: bumps.listing,
        };
    }

    /// The transfer that moves the NFT into the vault.
    pub fn deposit_nft(&self) -> (plan: Vec<Cpi>)
        ensures
            plan.deep_view() == self.deposit_nft_plan(),
    {
        let no_seeds: Vec<Vec<u8>> = Vec::new();
        assert(no_seeds.deep_view() =~= Seq::<Seq<u8>>::empty());
        let mut plan: Vec<Cpi> = Vec::new();
        plan.push(
            Cpi::TransferChecked {
                program: self.token_program,
                from: self.maker_ata.key,
                mint: self.maker_mint.key,
                to: self.vault.key,
                authority: self.maker,
                amount: self.maker_ata.amount,
                decimals: self.maker_mint.decimals,
                signer_seeds: no_seeds,
            },
        );
        assert(plan.deep_view() =~= self.deposit_nft_plan());
        plan
    }
}

} // verus!
