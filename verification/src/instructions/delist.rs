use vstd::prelude::*;

use crate::accounts::{ListingAccount, MarketplaceAccount, MintInfo, TokenAccountInfo};
use crate::cpi::{Cpi, CpiModel};
use crate::keys::Pubkey;
use crate::state::{listing_seeds, listing_signer_seeds};

verus! {

/// The accounts of a delisting: the maker takes the NFT back out of the vault.
#[derive(Debug)]
pub struct Delist {
    pub maker: Pubkey,
    pub marketplace: MarketplaceAccount,
    pub maker_mint: MintInfo,
    /// The maker's token account for the NFT.
    pub maker_ata: TokenAccountInfo,
    /// The listing's token account that holds the NFT.
    pub vault: TokenAccountInfo,
    pub collection_mint: MintInfo,
    pub listing: ListingAccount,
    pub token_program: Pubkey,
    pub associated_token_program: Pubkey,
    pub system_program: Pubkey,
}

impl Delist {
    /// The seeds with which the listing signs.
    pub open spec fn listing_seeds(&self) -> Seq<Seq<u8>> {
        listing_seeds(self.marketplace.key, self.maker_mint.key, self.listing.data.bump)
    }

    /// The refund: a checked transfer from the vault to the maker's token
    /// account, signed by the listing. The amount moved is the balance that the
    /// maker's token account holds when the instruction starts.
    pub open spec fn refund_nft_plan(&self) -> Seq<CpiModel> {
        seq![
            CpiModel::TransferChecked {
                program: self.token_program,
                from: self.vault.key,
                mint: self.maker_mint.key,
                to: self.maker_ata.key,
                authority: self.listing.key,
                amount: self.maker_ata.amount,
                decimals: self.maker_mint.decimals,
                signer_seeds: self.listing_seeds(),
            },
        ]
    }

    /// Closing the vault, its rent going to the maker, signed by the listing.
    pub open spec fn close_mint_vault_plan(&self) -> Seq<CpiModel> {
        seq![
            CpiModel::CloseAccount {
                program: self.token_program,
                account: self.vault.key,
                destination: self.maker,
                authority: self.listing.key,
                signer_seeds: self.listing_seeds(),
            },
        ]
    }

    /// The transfer that moves the NFT back to the maker.
    pub fn refund_nft(&self) -> (plan: Vec<Cpi>)
        ensures
            plan.deep_view() == self.refund_nft_plan(),
    {
        let seeds: Vec<Vec<u8>> = listing_signer_seeds(&self.marketplace.key, &self.maker_mint.key, self.listing.data.bump);
        let mut plan: Vec<Cpi> = Vec::new();
        plan.push(
            Cpi::TransferChecked {
                program: self.token_program,
                from: self.vault.key,
                mint: self.maker_mint.key,
                to: self.maker_ata.key,
                authority: self.listing.key,
                amount: self.maker_ata.amount,
                decimals: self.maker_mint.decimals,
                signer_seeds: seeds,
            },
        );
        assert(plan.deep_view() =~= self.refund_nft_plan());
        plan
    }

    /// Closing the vault.
    pub fn close_mint_vault(&self) -> (plan: Vec<Cpi>)
        ensures
            plan.deep_view() == self.close_mint_vault_plan(),
    {
        let seeds: Vec<Vec<u8>> = listing_signer_seeds(&self.marketplace.key, &self.maker_mint.key, self.listing.data.bump);
        let mut plan: Vec<Cpi> = Vec::new();
        plan.push(
            Cpi::CloseAccount {
                program: self.token_program,
                account: self.vault.key,
                destination: self.maker,
                authority: self.listing.key,
                signer_seeds: seeds,
            },
        );
        assert(plan.deep_view() =~= self.close_mint_vault_plan());
        plan
    }
}

} // verus!
