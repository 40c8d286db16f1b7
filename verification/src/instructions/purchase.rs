use vstd::prelude::*;

use crate::accounts::{ListingAccount, MarketplaceAccount, MintInfo, TokenAccountInfo};
use crate::cpi::{Cpi, CpiModel};
use crate::keys::Pubkey;
use crate::state::{listing_seeds, listing_signer_seeds, marketplace_seeds, marketplace_signer_seeds};

verus! {

/// The platform's cut of a sale: `fee` basis points of `price`, rounded down.
pub open spec fn marketplace_fee(fee: u16, price: u64) -> int {
    (fee as int * price as int) / 10000
}

/// The inputs on which the fee can be computed and taken out of the price:
/// the product of fee and price fits in 64 bits, and the fee is at most the price.
pub open spec fn fee_is_payable(fee: u16, price: u64) -> bool {
    &&& fee as int * price as int <= u64::MAX as int
    &&& marketplace_fee(fee, price) <= price as int
}

/// The accounts of a purchase: the taker buys the listed NFT from the maker.
#[derive(Debug)]
pub struct Purchase {
    pub taker: Pubkey,
    pub maker: Pubkey,
    pub maker_mint: MintInfo,
    /// The taker's token account for the NFT.
    pub taker_ata: TokenAccountInfo,
    /// The taker's token account for the reward tokens.
    pub taker_rewards_ata: TokenAccountInfo,
    /// The maker's token account for the reward tokens.
    pub maker_rewards_ata: TokenAccountInfo,
    /// The listing's token account that holds the NFT.
    pub vault: TokenAccountInfo,
    pub listing: ListingAccount,
    /// The account that collects the platform fees.
    pub treasury: Pubkey,
    pub marketplace: MarketplaceAccount,
    pub reward_mint: MintInfo,
    pub token_program: Pubkey,
    pub system_program: Pubkey,
}

impl Purchase {
    /// The seeds with which the listing signs.
    pub open spec fn listing_seeds(&self) -> Seq<Seq<u8>> {
        listing_seeds(self.marketplace.key, self.maker_mint.key, self.listing.data.bump)
    }

    /// The seeds with which the marketplace signs.
    pub open spec fn marketplace_seeds(&self) -> Seq<Seq<u8>> {
        marketplace_seeds(self.marketplace.data.name@, self.marketplace.data.bump)
    }

    /// The fee of this sale.
    pub open spec fn fee_amount(&self) -> int {
        marketplace_fee(self.marketplace.data.fee, self.listing.data.price)
    }

    /// Whether the fee of this sale can be paid.
    pub open spec fn fee_is_payable(&self) -> bool {
        fee_is_payable(self.marketplace.data.fee, self.listing.data.price)
    }

    /// Payment: the price less the fee to the maker, then the fee to the treasury.
    pub open spec fn send_sol_plan(&self) -> Seq<CpiModel> {
        seq![
            CpiModel::Transfer {
                program: self.system_program,
                from: self.taker,
                to: self.maker,
                lamports: (self.listing.data.price - self.fee_amount()) as u64,
            },
            CpiModel::Transfer {
                program: self.system_program,
                from: self.taker,
                to: self.treasury,
                lamports: self.fee_amount() as u64,
            },
        ]
    }

    /// Delivery: one token of the NFT's mint from the vault to the taker,
    /// signed by the listing.
    pub open spec fn send_nft_plan(&self) -> Seq<CpiModel> {
        seq![
            CpiModel::TransferChecked {
                program: self.token_program,
                from: self.vault.key,
                mint: self.maker_mint.key,
                to: self.taker_ata.key,
                authority: self.listing.key,
                amount: 1,
                decimals: self.maker_mint.decimals,
                signer_seeds: self.listing_seeds(),
            },
        ]
    }

    /// Closing the vault, its rent going back to the maker, signed by the listing.
    pub open spec fn close_mint_vault_plan(&self) -> Seq<CpiModel> {
        seq![
            CpiModel::CloseAccount {
                program: self.token_program,
                account: self.vault.key,
                destination: self.maker,
                authority: self.listing.key,
                signer_seeds: self.listing_seeds(),
            },
        ]
    }

    /// Rewards: as many reward tokens as the price to the maker, then as many
    /// to the taker, signed by the marketplace.
    pub open spec fn reward_both_parties_plan(&self) -> Seq<CpiModel> {
        seq![
            CpiModel::MintTo {
                program: self.token_program,
                mint: self.reward_mint.key,
                to: self.maker_rewards_ata.key,
                authority: self.marketplace.key,
                amount: self.listing.data.price,
                signer_seeds: self.marketplace_seeds(),
            },
            CpiModel::MintTo {
                program: self.token_program,
                mint: self.reward_mint.key,
                to: self.taker_rewards_ata.key,
                authority: self.marketplace.key,
                amount: self.listing.data.price,
                signer_seeds: self.marketplace_seeds(),
            },
        ]
    }

    /// The whole purchase: payment, delivery, closing the vault, rewards.
    pub open spec fn purchase_plan(&self) -> Seq<CpiModel> {
        self.send_sol_plan() + self.send_nft_plan() + self.close_mint_vault_plan()
            + self.reward_both_parties_plan()
    }

    /// The calls of a purchase, in the order in which they are made.
    pub fn purchase(&self) -> (plan: Vec<Cpi>)
        requires
            self.fee_is_payable(),
        ensures
            plan.deep_view() == self.purchase_plan(),
    {
        let mut plan: Vec<Cpi> = self.send_sol();
        let mut nft: Vec<Cpi> = self.send_nft();
        let mut close: Vec<Cpi> = self.close_mint_vault();
        let mut rewards: Vec<Cpi> = self.reward_both_parties();
        let ghost s0 = plan@;
        let ghost s1 = nft@;
        let ghost s2 = close@;
        let ghost s3 = rewards@;
        plan.append(&mut nft);
        plan.append(&mut close);
        plan.append(&mut rewards);
        assert(plan@ =~= s0 + s1 + s2 + s3);
        assert(plan.deep_view() =~= self.purchase_plan());
        plan
    }

    /// The fee of this sale, or `None` where it cannot be paid: where fee
    /// times price overflows 64 bits, or the fee exceeds the price.
    pub fn checked_fee(&self) -> (fee: Option<u64>)
        ensures
            fee is Some <==> self.fee_is_payable(),
            fee matches Some(f) ==> f == self.fee_amount(),
    {
        let price: u64 = self.listing.data.price;
        let fee_bps: u64 = self.marketplace.data.fee as u64;
        match fee_bps.checked_mul(price) {
            Some(product) => {
                let fee: u64 = product / 10000;
                if fee <= price {
                    Some(fee)
                } else {
                    None
                }
            },
            None => None,
        }
    }

    /// The payment of a purchase. The fee is `fee` basis points of the price;
    /// the maker gets the price less the fee and the treasury gets the fee.
    pub fn send_sol(&self) -> (plan: Vec<Cpi>)
        requires
            self.fee_is_payable(),
        ensures
            plan.deep_view() == self.send_sol_plan(),
    {
        let price: u64 = self.listing.data.price;
        let fee_bps: u64 = self.marketplace.data.fee as u64;
        let fee: u64 = fee_bps * price / 10000;
        let amount: u64 = price - fee;
        let mut plan: Vec<Cpi> = Vec::new();
        plan.push(Cpi::Transfer { program: self.system_program, from: self.taker, to: self.maker, lamports: amount });
        plan.push(Cpi::Transfer { program: self.system_program, from: self.taker, to: self.treasury, lamports: fee });
        assert(plan.deep_view() =~= self.send_sol_plan());
        plan
    }

    /// The delivery of the NFT to the taker.
    pub fn send_nft(&self) -> (plan: Vec<Cpi>)
        ensures
            plan.deep_view() == self.send_nft_plan(),
    {
        let seeds: Vec<Vec<u8>> = listing_signer_seeds(&self.marketplace.key, &self.maker_mint.key, self.listing.data.bump);
        let mut plan: Vec<Cpi> = Vec::new();
        plan.push(
            Cpi::TransferChecked {
                program: self.token_program,
                from: self.vault.key,
                mint: self.maker_mint.key,
                to: self.taker_ata.key,
                authority: self.listing.key,
                amount: 1,
                decimals: self.maker_mint.decimals,
                signer_seeds: seeds,
            },
        );
        assert(plan.deep_view() =~= self.send_nft_plan());
        plan
    }

    /// Closing the emptied vault.
    pub fn close_mint_vault(&self) -> (plan: Vec<Cpi>)
        ensures
            plan.deep_view() == self.close_mint_vault_plan(),
    {
        let seeds: Vec<Vec<u8>> = listing_signer_seeds(&self.marketplace.key, &self.maker_mint.key, self.listing.data.bump);
        let mut plan: Vec<Cpi> = Vec::new();
        plan.push(
            Cpi::CloseAccount {
                program: self.token_program,
                account: self.vault.key,
                destination: self.maker,
                authority: self.listing.key,
                signer_seeds: seeds,
            },
        );
        assert(plan.deep_view() =~= self.close_mint_vault_plan());
        plan
    }

    /// Minting the reward tokens for maker and taker.
    pub fn reward_both_parties(&self) -> (plan: Vec<Cpi>)
        ensures
            plan.deep_view() == self.reward_both_parties_plan(),
    {
        let seeds_maker: Vec<Vec<u8>> = marketplace_signer_seeds(&self.marketplace.data);
        let seeds_taker: Vec<Vec<u8>> = marketplace_signer_seeds(&self.marketplace.data);
        let mut plan: Vec<Cpi> = Vec::new();
        plan.push(
            Cpi::MintTo {
                program: self.token_program,
                mint: self.reward_mint.key,
                to: self.maker_rewards_ata.key,
                authority: self.marketplace.key,
                amount: self.listing.data.price,
                signer_seeds: seeds_maker,
            },
        );
        plan.push(
            Cpi::MintTo {
                program: self.token_program,
                mint: self.reward_mint.key,
                to: self.taker_rewards_ata.key,
                authority: self.marketplace.key,
                amount: self.listing.data.price,
                signer_seeds: seeds_taker,
            },
        );
        assert(plan.deep_view() =~= self.reward_both_parties_plan());
        plan
    }
}

} // verus!
