use vstd::prelude::*;
use vstd::utf8::{decode_utf8, encode_utf8_decode_utf8};

use crate::cpi::CpiModel;
use crate::instructions::delist::Delist;
use crate::instructions::list::{List, ListBumps};
use crate::instructions::purchase::{fee_is_payable, Purchase};
use crate::keys::Pubkey;
use crate::state::{listing_seeds, marketplace_seeds};

verus! {

// What each call of each instruction must be, stated over the instruction's
// accounts, and the laws that each plan meets it.

/// `amount` is `fee` basis points of `price`, rounded down.
pub open spec fn is_basis_points_share(fee: u16, price: u64, amount: int) -> bool {
    &&& amount * 10000 <= fee as int * price as int
    &&& (fee as int * price as int) < (amount + 1) * 10000
}

/// `c` is a lamport transfer, by the system program, from the taker to `to`.
pub open spec fn is_payment(p: Purchase, c: CpiModel, to: Pubkey) -> bool {
    &&& c is Transfer
    &&& c->Transfer_program == p.system_program
    &&& c->Transfer_from == p.taker
    &&& c->Transfer_to == to
}

/// `c` moves one token of the NFT's mint out of the vault into the taker's
/// NFT account, by the token program, with the listing as signer.
pub open spec fn is_delivery(p: Purchase, c: CpiModel) -> bool {
    &&& c is TransferChecked
    &&& c->TransferChecked_program == p.token_program
    &&& c->TransferChecked_from == p.vault.key
    &&& c->TransferChecked_mint == p.maker_mint.key
    &&& c->TransferChecked_to == p.taker_ata.key
    &&& c->TransferChecked_authority == p.listing.key
    &&& c->TransferChecked_amount == 1
    &&& c->TransferChecked_decimals == p.maker_mint.decimals
    &&& c->TransferChecked_signer_seeds == listing_seeds(
        p.marketplace.key,
        p.maker_mint.key,
        p.listing.data.bump,
    )
}

/// `c` closes the vault, its rent going to the maker, with the listing as signer.
pub open spec fn is_vault_close(p: Purchase, c: CpiModel) -> bool {
    &&& c is CloseAccount
    &&& c->CloseAccount_program == p.token_program
    &&& c->CloseAccount_account == p.vault.key
    &&& c->CloseAccount_destination == p.maker
    &&& c->CloseAccount_authority == p.listing.key
    &&& c->CloseAccount_signer_seeds == listing_seeds(
        p.marketplace.key,
        p.maker_mint.key,
        p.listing.data.bump,
    )
}

/// `c` mints as many reward tokens as the price, of the marketplace's reward
/// mint, into `to`, with the marketplace as signer.
pub open spec fn is_reward(p: Purchase, c: CpiModel, to: Pubkey) -> bool {
    &&& c is MintTo
    &&& c->MintTo_program == p.token_program
    &&& c->MintTo_mint == p.reward_mint.key
    &&& c->MintTo_to == to
    &&& c->MintTo_authority == p.marketplace.key
    &&& c->MintTo_amount == p.listing.data.price
    &&& c->MintTo_signer_seeds == marketplace_seeds(
        p.marketplace.data.name@,
        p.marketplace.data.bump,
    )
}

/// The fee of a sale is `fee` basis points of the price, rounded down.
pub proof fn lemma_fee_is_basis_points_rounded_down(p: Purchase)
    ensures
        is_basis_points_share(p.marketplace.data.fee, p.listing.data.price, p.fee_amount()),
{
    let x = p.marketplace.data.fee as int * p.listing.data.price as int;
    assert(0 <= x) by (nonlinear_arith)
        requires
            x == p.marketplace.data.fee as int * p.listing.data.price as int,
    ;
    assert((x / 10000) * 10000 <= x && x < (x / 10000 + 1) * 10000) by (nonlinear_arith)
        requires
            0 <= x,
    ;
}

/// A fee can be paid exactly when fee times price fits in 64 bits and the
/// rounded-down share is at most the price, that is, fee times price is below
/// 10000 times one more than the price.
pub proof fn lemma_fee_is_payable_exactly(fee: u16, price: u64)
    ensures
        fee_is_payable(fee, price) <==> {
            &&& fee as int * price as int <= u64::MAX as int
            &&& (fee as int * price as int) < 10000 * (price as int + 1)
        },
{
    let x = fee as int * price as int;
    assert(0 <= x) by (nonlinear_arith)
        requires
            x == fee as int * price as int,
    ;
    assert((x / 10000) * 10000 <= x && x < (x / 10000 + 1) * 10000) by (nonlinear_arith)
        requires
            0 <= x,
    ;
}

/// The payment: the taker pays the maker the price less the fee, then the
/// treasury the fee, which is `fee` basis points of the price rounded down.
pub proof fn lemma_send_sol_pays_maker_and_treasury(p: Purchase)
    requires
        p.fee_is_payable(),
    ensures
        p.send_sol_plan().len() == 2,
        is_payment(p, p.send_sol_plan()[0], p.maker),
        is_payment(p, p.send_sol_plan()[1], p.treasury),
        is_basis_points_share(
            p.marketplace.data.fee,
            p.listing.data.price,
            p.send_sol_plan()[1]->Transfer_lamports as int,
        ),
        p.send_sol_plan()[0]->Transfer_lamports + p.send_sol_plan()[1]->Transfer_lamports
            == p.listing.data.price,
{
    lemma_fee_is_basis_points_rounded_down(p);
}

/// The delivery moves one token of the NFT from the vault into the taker's
/// NFT account.
pub proof fn lemma_send_nft_delivers_to_taker(p: Purchase)
    ensures
        p.send_nft_plan().len() == 1,
        is_delivery(p, p.send_nft_plan()[0]),
{
}

/// Closing the vault of a purchase sends its rent to the maker.
pub proof fn lemma_purchase_closes_vault_to_maker(p: Purchase)
    ensures
        p.close_mint_vault_plan().len() == 1,
        is_vault_close(p, p.close_mint_vault_plan()[0]),
{
}

/// The rewards: the reward mint mints the price to the maker's reward account,
/// then the price to the taker's.
pub proof fn lemma_rewards_mint_reward_tokens(p: Purchase)
    ensures
        p.reward_both_parties_plan().len() == 2,
        is_reward(p, p.reward_both_parties_plan()[0], p.maker_rewards_ata.key),
        is_reward(p, p.reward_both_parties_plan()[1], p.taker_rewards_ata.key),
{
}

/// A purchase is, in order: payment of the maker, payment of the fee to the
/// treasury, delivery of the NFT to the taker, closing the vault to the maker,
/// and the two rewards.
pub proof fn lemma_purchase_calls_in_order(p: Purchase)
    requires
        p.fee_is_payable(),
    ensures
        p.purchase_plan().len() == 6,
        is_payment(p, p.purchase_plan()[0], p.maker),
        is_payment(p, p.purchase_plan()[1], p.treasury),
        is_basis_points_share(
            p.marketplace.data.fee,
            p.listing.data.price,
            p.purchase_plan()[1]->Transfer_lamports as int,
        ),
        p.purchase_plan()[0]->Transfer_lamports + p.purchase_plan()[1]->Transfer_lamports
            == p.listing.data.price,
        is_delivery(p, p.purchase_plan()[2]),
        is_vault_close(p, p.purchase_plan()[3]),
        is_reward(p, p.purchase_plan()[4], p.maker_rewards_ata.key),
        is_reward(p, p.purchase_plan()[5], p.taker_rewards_ata.key),
{
    lemma_send_sol_pays_maker_and_treasury(p);
    lemma_send_nft_delivers_to_taker(p);
    lemma_purchase_closes_vault_to_maker(p);
    lemma_rewards_mint_reward_tokens(p);
    let a = p.send_sol_plan();
    let b = p.send_nft_plan();
    let c = p.close_mint_vault_plan();
    let d = p.reward_both_parties_plan();
    assert(p.purchase_plan() == a + b + c + d);
    assert((a + b + c + d)[2] == b[0]);
    assert((a + b + c + d)[3] == c[0]);
    assert((a + b + c + d)[4] == d[0]);
    assert((a + b + c + d)[5] == d[1]);
}

/// The refund moves the maker's token balance of the NFT's mint out of the
/// vault into the maker's token account, with the listing as signer.
pub proof fn lemma_refund_moves_vault_to_maker(d: Delist)
    ensures
        d.refund_nft_plan().len() == 1,
        d.refund_nft_plan()[0] is TransferChecked,
        d.refund_nft_plan()[0]->TransferChecked_program == d.token_program,
        d.refund_nft_plan()[0]->TransferChecked_from == d.vault.key,
        d.refund_nft_plan()[0]->TransferChecked_to == d.maker_ata.key,
        d.refund_nft_plan()[0]->TransferChecked_mint == d.maker_mint.key,
        d.refund_nft_plan()[0]->TransferChecked_authority == d.listing.key,
        d.refund_nft_plan()[0]->TransferChecked_amount == d.maker_ata.amount,
        d.refund_nft_plan()[0]->TransferChecked_decimals == d.maker_mint.decimals,
        d.refund_nft_plan()[0]->TransferChecked_signer_seeds == listing_seeds(
            d.marketplace.key,
            d.maker_mint.key,
            d.listing.data.bump,
        ),
{
}

/// Delisting closes the vault, its rent going to the maker, with the listing
/// as signer.
pub proof fn lemma_delist_closes_vault_to_maker(d: Delist)
    ensures
        d.close_mint_vault_plan().len() == 1,
        d.close_mint_vault_plan()[0] is CloseAccount,
        d.close_mint_vault_plan()[0]->CloseAccount_program == d.token_program,
        d.close_mint_vault_plan()[0]->CloseAccount_account == d.vault.key,
        d.close_mint_vault_plan()[0]->CloseAccount_destination == d.maker,
        d.close_mint_vault_plan()[0]->CloseAccount_authority == d.listing.key,
        d.close_mint_vault_plan()[0]->CloseAccount_signer_seeds == listing_seeds(
            d.marketplace.key,
            d.maker_mint.key,
            d.listing.data.bump,
        ),
{
}

/// The deposit moves the maker's whole balance of the NFT's mint from the
/// maker's token account into the vault, signed by the maker alone, whatever
/// the metadata says.
pub proof fn lemma_deposit_moves_maker_balance_into_vault(l: List)
    ensures
        l.deposit_nft_plan().len() == 1,
        l.deposit_nft_plan()[0] is TransferChecked,
        l.deposit_nft_plan()[0]->TransferChecked_program == l.token_program,
        l.deposit_nft_plan()[0]->TransferChecked_from == l.maker_ata.key,
        l.deposit_nft_plan()[0]->TransferChecked_to == l.vault.key,
        l.deposit_nft_plan()[0]->TransferChecked_mint == l.maker_mint.key,
        l.deposit_nft_plan()[0]->TransferChecked_authority == l.maker,
        l.deposit_nft_plan()[0]->TransferChecked_amount == l.maker_ata.amount,
        l.deposit_nft_plan()[0]->TransferChecked_decimals == l.maker_mint.decimals,
        l.deposit_nft_plan()[0]->TransferChecked_signer_seeds.len() == 0,
{
}

/// A new listing records the listing's signer as maker, the NFT's mint, the
/// asked price and the bump found for the listing account.
pub proof fn lemma_new_listing_records_sale(l: List, price: u64, bumps: ListBumps)
    ensures
        l.new_listing(price, bumps).maker == l.maker,
        l.new_listing(price, bumps).maker_mint == l.maker_mint.key,
        l.new_listing(price, bumps).price == price,
        l.new_listing(price, bumps).bump == bumps.listing,
{
}

/// A listing signs with three seeds: the marketplace's address bytes, the
/// NFT mint's address bytes, and its bump.
pub proof fn lemma_listing_seeds_layout(marketplace: Pubkey, maker_mint: Pubkey, bump: u8)
    ensures
        listing_seeds(marketplace, maker_mint, bump).len() == 3,
        listing_seeds(marketplace, maker_mint, bump)[0] == marketplace.bytes@,
        listing_seeds(marketplace, maker_mint, bump)[1] == maker_mint.bytes@,
        listing_seeds(marketplace, maker_mint, bump)[2] == seq![bump],
{
}

/// The marketplace signs with three seeds: the bytes of "marketplace", bytes
/// that decode as UTF-8 to its name, and its bump.
pub proof fn lemma_marketplace_seeds_layout(name: Seq<char>, bump: u8)
    ensures
        marketplace_seeds(name, bump).len() == 3,
        marketplace_seeds(name, bump)[0] == seq![
            109u8, 97u8, 114u8, 107u8, 101u8, 116u8, 112u8, 108u8, 97u8, 99u8, 101u8
        ],
        decode_utf8(marketplace_seeds(name, bump)[1]) == name,
        marketplace_seeds(name, bump)[2] == seq![bump],
{
    encode_utf8_decode_utf8(name);
}

} // verus!
