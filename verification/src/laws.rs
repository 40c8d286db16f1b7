use vstd::prelude::*;
use vstd::utf8::{decode_utf8, encode_utf8, encode_utf8_decode_utf8};

use crate::cpi::{lamports_received, lamports_sent, tokens_minted_to, tokens_moved_from};
use crate::instructions::delist::Delist;
use crate::instructions::list::{List, ListBumps};
use crate::instructions::purchase::{fee_is_payable, marketplace_fee, Purchase};
use crate::keys::Pubkey;
use crate::run::{lemma_run_stops_at_first_failure, spec_drive, spec_result, PlanRun};
use crate::state::{listing_seeds, marketplace_seeds};

verus! {

/// A fee of at most 10000 basis points (the whole price) never exceeds the
/// price, so a sale whose fee times price fits in 64 bits can always be paid.
pub proof fn lemma_fee_within_price(fee: u16, price: u64)
    requires
        fee <= 10000,
    ensures
        0 <= marketplace_fee(fee, price) <= price,
        fee as int * price as int <= u64::MAX ==> fee_is_payable(fee, price),
{
    assert(fee as int * price as int <= 10000 * price as int) by (nonlinear_arith)
        requires
            fee <= 10000,
    ;
    assert(0 <= fee as int * price as int) by (nonlinear_arith);
}

/// Without a fee the maker gets the whole price and the treasury nothing.
pub proof fn lemma_zero_fee(p: Purchase)
    requires
        p.marketplace.data.fee == 0,
    ensures
        p.fee_is_payable(),
        p.fee_amount() == 0,
        p.send_sol_plan()[0]->Transfer_lamports == p.listing.data.price,
        p.send_sol_plan()[1]->Transfer_lamports == 0,
{
}

/// The purchase plan has six calls, and dropping the last call of each of its
/// prefixes gives the next shorter prefix.
proof fn lemma_purchase_plan_prefixes(p: Purchase)
    ensures
        p.purchase_plan().len() == 6,
        p.purchase_plan().drop_last() == p.purchase_plan().take(5),
        p.purchase_plan().take(5).drop_last() == p.purchase_plan().take(4),
        p.purchase_plan().take(4).drop_last() == p.purchase_plan().take(3),
        p.purchase_plan().take(3).drop_last() == p.purchase_plan().take(2),
        p.purchase_plan().take(2).drop_last() == p.purchase_plan().take(1),
        p.purchase_plan().take(1).drop_last() == p.purchase_plan().take(0),
{
    let plan = p.purchase_plan();
    assert(plan.drop_last() =~= plan.take(5));
    assert(plan.take(5).drop_last() =~= plan.take(4));
    assert(plan.take(4).drop_last() =~= plan.take(3));
    assert(plan.take(3).drop_last() =~= plan.take(2));
    assert(plan.take(2).drop_last() =~= plan.take(1));
    assert(plan.take(1).drop_last() =~= plan.take(0));
}

/// A purchase takes exactly the listed price out of the taker's lamports:
/// the price less the fee goes to the maker and the fee to the treasury.
pub proof fn lemma_purchase_pays_the_price(p: Purchase)
    requires
        p.fee_is_payable(),
    ensures
        lamports_sent(p.purchase_plan(), p.taker) == p.listing.data.price,
        p.maker != p.treasury ==> lamports_received(p.purchase_plan(), p.maker)
            == p.listing.data.price - p.fee_amount(),
        p.maker != p.treasury ==> lamports_received(p.purchase_plan(), p.treasury)
            == p.fee_amount(),
{
    let plan = p.purchase_plan();
    reveal_with_fuel(lamports_sent, 7);
    reveal_with_fuel(lamports_received, 7);
    lemma_purchase_plan_prefixes(p);
}

/// Maker and taker are rewarded alike: each reward account gets as many reward
/// tokens as the price.
pub proof fn lemma_rewards_are_equal(p: Purchase)
    requires
        p.fee_is_payable(),
        p.maker_rewards_ata.key != p.taker_rewards_ata.key,
    ensures
        tokens_minted_to(p.purchase_plan(), p.maker_rewards_ata.key) == p.listing.data.price,
        tokens_minted_to(p.purchase_plan(), p.taker_rewards_ata.key) == p.listing.data.price,
{
    let plan = p.purchase_plan();
    reveal_with_fuel(tokens_minted_to, 7);
    lemma_purchase_plan_prefixes(p);
}

/// A purchase moves exactly one token out of the vault, and only then closes it.
pub proof fn lemma_purchase_moves_one_nft(p: Purchase)
    requires
        p.fee_is_payable(),
    ensures
        tokens_moved_from(p.purchase_plan(), p.vault.key) == 1,
        p.purchase_plan()[2] is TransferChecked,
        p.purchase_plan()[3] is CloseAccount,
        p.purchase_plan()[3]->CloseAccount_account == p.vault.key,
{
    let plan = p.purchase_plan();
    reveal_with_fuel(tokens_moved_from, 7);
    lemma_purchase_plan_prefixes(p);
}

/// A purchase of the listing that `create_listing` wrote charges the taker
/// the price the maker listed.
pub proof fn lemma_purchase_pays_listed_price(l: List, price: u64, bumps: ListBumps, p: Purchase)
    requires
        p.listing.data == l.new_listing(price, bumps),
        p.fee_is_payable(),
    ensures
        lamports_sent(p.purchase_plan(), p.taker) == price,
{
    lemma_purchase_pays_the_price(p);
}

/// A listing that `create_listing` wrote signs its refund, and the closing of
/// its vault, with the bump it was created with.
pub proof fn lemma_delist_signs_with_created_bump(l: List, price: u64, bumps: ListBumps, d: Delist)
    requires
        d.listing.data == l.new_listing(price, bumps),
        d.marketplace.key == l.marketplace.key,
        d.maker_mint.key == l.maker_mint.key,
    ensures
        d.refund_nft_plan()[0]->TransferChecked_signer_seeds
            == listing_seeds(l.marketplace.key, l.maker_mint.key, bumps.listing),
        d.close_mint_vault_plan()[0]->CloseAccount_signer_seeds
            == listing_seeds(l.marketplace.key, l.maker_mint.key, bumps.listing),
{
}

/// Each marketplace and NFT mint, with its bump, has seeds of its own: two
/// listings sign with the same seeds only if they belong to the same
/// marketplace and mint and have the same bump.
pub proof fn lemma_listing_seeds_distinct(m1: Pubkey, t1: Pubkey, b1: u8, m2: Pubkey, t2: Pubkey, b2: u8)
    requires
        listing_seeds(m1, t1, b1) == listing_seeds(m2, t2, b2),
    ensures
        m1 == m2,
        t1 == t2,
        b1 == b2,
{
    broadcast use vstd::array::axiom_array_ext_equal;
    assert(listing_seeds(m1, t1, b1)[0] == listing_seeds(m2, t2, b2)[0]);
    assert(listing_seeds(m1, t1, b1)[1] == listing_seeds(m2, t2, b2)[1]);
    assert(listing_seeds(m1, t1, b1)[2] == listing_seeds(m2, t2, b2)[2]);
    assert(seq![b1][0] == seq![b2][0]);
    assert(m1.bytes =~= m2.bytes);
    assert(t1.bytes =~= t2.bytes);
}

/// Two marketplaces sign with the same seeds only if they have the same name
/// and bump.
pub proof fn lemma_marketplace_seeds_distinct(n1: Seq<char>, b1: u8, n2: Seq<char>, b2: u8)
    requires
        marketplace_seeds(n1, b1) == marketplace_seeds(n2, b2),
    ensures
        n1 == n2,
        b1 == b2,
{
    assert(marketplace_seeds(n1, b1)[1] == marketplace_seeds(n2, b2)[1]);
    assert(marketplace_seeds(n1, b1)[2] == marketplace_seeds(n2, b2)[2]);
    assert(seq![b1][0] == seq![b2][0]);
    encode_utf8_decode_utf8(n1);
    encode_utf8_decode_utf8(n2);
    assert(decode_utf8(encode_utf8(n1)) == decode_utf8(encode_utf8(n2)));
}

/// When a payment of a purchase fails, the NFT is not delivered, the vault is
/// not closed and no reward is minted: the run of the purchase plan stops
/// before its third call, and the purchase fails with the error of the first
/// failed payment.
pub proof fn lemma_failed_payment_stops_purchase<E>(p: Purchase, outcomes: Seq<Result<(), E>>)
    requires
        p.fee_is_payable(),
        outcomes.len() == p.purchase_plan().len(),
        outcomes[0] is Err || outcomes[1] is Err,
    ensures
        spec_drive(PlanRun::<E> { len: 6, next: 0, failure: None }, outcomes).next < 2,
        spec_result(spec_drive(PlanRun::<E> { len: 6, next: 0, failure: None }, outcomes))
            == if outcomes[0] is Err { outcomes[0] } else { outcomes[1] },
{
    lemma_purchase_plan_prefixes(p);
    let s = PlanRun::<E> { len: 6, next: 0, failure: None };
    lemma_run_stops_at_first_failure(s, outcomes);
    if outcomes[0] is Err {
        assert(0 <= 0 < 6 && outcomes[0] is Err);
    } else {
        assert(0 <= 1 < 6 && outcomes[1] is Err);
    }
}

} // verus!
