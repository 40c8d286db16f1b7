use nft_marketplace::{
    collection_is_verified, Collection, Cpi, Delist, List, ListBumps, Listing, ListingAccount, Marketplace,
    MarketplaceAccount, MetadataInfo, MintInfo, PlanRun, Pubkey, Purchase, Step, TokenAccountInfo,
};
use nft_marketplace::state::{listing_signer_seeds, marketplace_signer_seeds};

fn key(n: u8) -> Pubkey {
    let mut bytes = [0u8; 32];
    for (i, b) in bytes.iter_mut().enumerate() {
        *b = n.wrapping_add(i as u8);
    }
    Pubkey::new(bytes)
}

fn marketplace(fee: u16) -> MarketplaceAccount {
    MarketplaceAccount {
        key: key(10),
        data: Marketplace {
            admin: key(11),
            fee,
            bump: 254,
            treasury_bump: 253,
            rewards_bump: 252,
            name: String::from("test"),
        },
    }
}

fn listing(price: u64) -> ListingAccount {
    ListingAccount {
        key: key(20),
        data: Listing { maker: key(1), maker_mint: key(30), price, bump: 250 },
    }
}

fn purchase(fee: u16, price: u64) -> Purchase {
    Purchase {
        taker: key(2),
        maker: key(1),
        maker_mint: MintInfo { key: key(30), decimals: 0 },
        taker_ata: TokenAccountInfo { key: key(40), amount: 0 },
        taker_rewards_ata: TokenAccountInfo { key: key(41), amount: 0 },
        maker_rewards_ata: TokenAccountInfo { key: key(42), amount: 0 },
        vault: TokenAccountInfo { key: key(43), amount: 1 },
        listing: listing(price),
        treasury: key(50),
        marketplace: marketplace(fee),
        reward_mint: MintInfo { key: key(60), decimals: 6 },
        token_program: key(70),
        system_program: key(71),
    }
}

fn delist(maker_balance: u64) -> Delist {
    Delist {
        maker: key(1),
        marketplace: marketplace(250),
        maker_mint: MintInfo { key: key(30), decimals: 0 },
        maker_ata: TokenAccountInfo { key: key(44), amount: maker_balance },
        vault: TokenAccountInfo { key: key(43), amount: 1 },
        collection_mint: MintInfo { key: key(80), decimals: 0 },
        listing: listing(1_000),
        token_program: key(70),
        associated_token_program: key(72),
        system_program: key(71),
    }
}

fn list(collection: Option<Collection>) -> List {
    List {
        maker: key(1),
        marketplace: marketplace(250),
        maker_mint: MintInfo { key: key(30), decimals: 0 },
        maker_ata: TokenAccountInfo { key: key(44), amount: 1 },
        vault: TokenAccountInfo { key: key(43), amount: 0 },
        collection_mint: MintInfo { key: key(80), decimals: 0 },
        listing: ListingAccount {
            key: key(20),
            data: Listing { maker: key(0), maker_mint: key(0), price: 0, bump: 0 },
        },
        metadata: MetadataInfo { key: key(90), collection },
        master_edition: key(91),
        metadata_program: key(92),
        token_program: key(70),
        associated_token_program: key(72),
        system_program: key(71),
    }
}

fn listing_seed_bytes() -> Vec<Vec<u8>> {
    vec![key(10).bytes.to_vec(), key(30).bytes.to_vec(), vec![250u8]]
}

fn marketplace_seed_bytes() -> Vec<Vec<u8>> {
    vec![b"marketplace".to_vec(), b"test".to_vec(), vec![254u8]]
}

#[test]
fn init_space_values() {
    assert_eq!(Marketplace::INIT_SPACE, 81);
    assert_eq!(Listing::INIT_SPACE, 75);
}

#[test]
fn pubkey_bytes_and_comparison() {
    let k = key(5);
    assert_eq!(k.to_bytes(), k.bytes.to_vec());
    assert_eq!(k.to_bytes().len(), 32);
    assert!(k.same_as(&key(5)));
    assert!(!k.same_as(&key(6)));
}

#[test]
fn listing_seeds_are_marketplace_mint_bump() {
    let seeds = listing_signer_seeds(&key(10), &key(30), 250);
    assert_eq!(seeds, listing_seed_bytes());
}

#[test]
fn marketplace_seeds_are_prefix_name_bump() {
    let m = marketplace(250);
    assert_eq!(marketplace_signer_seeds(&m.data), marketplace_seed_bytes());
}

#[test]
fn marketplace_seeds_encode_name_in_utf8() {
    let mut m = marketplace(250);
    m.data.name = String::from("é");
    let seeds = marketplace_signer_seeds(&m.data);
    assert_eq!(seeds[1], vec![0xc3u8, 0xa9u8]);
}

#[test]
fn send_sol_splits_price_and_fee() {
    let p = purchase(250, 1_000_000);
    let plan = p.send_sol();
    assert_eq!(
        plan,
        vec![
            Cpi::Transfer { program: key(71), from: key(2), to: key(1), lamports: 975_000 },
            Cpi::Transfer { program: key(71), from: key(2), to: key(50), lamports: 25_000 },
        ]
    );
}

#[test]
fn send_sol_rounds_fee_down() {
    let p = purchase(250, 399);
    let plan = p.send_sol();
    assert_eq!(plan[0], Cpi::Transfer { program: key(71), from: key(2), to: key(1), lamports: 390 });
    assert_eq!(plan[1], Cpi::Transfer { program: key(71), from: key(2), to: key(50), lamports: 9 });
}

#[test]
fn send_sol_zero_fee_pays_maker_everything() {
    let p = purchase(0, 5_000);
    let plan = p.send_sol();
    assert_eq!(plan[0], Cpi::Transfer { program: key(71), from: key(2), to: key(1), lamports: 5_000 });
    assert_eq!(plan[1], Cpi::Transfer { program: key(71), from: key(2), to: key(50), lamports: 0 });
}

#[test]
fn send_sol_full_fee_pays_treasury_everything() {
    let p = purchase(10_000, 5_000);
    let plan = p.send_sol();
    assert_eq!(plan[0], Cpi::Transfer { program: key(71), from: key(2), to: key(1), lamports: 0 });
    assert_eq!(plan[1], Cpi::Transfer { program: key(71), from: key(2), to: key(50), lamports: 5_000 });
}

#[test]
fn checked_fee_values() {
    assert_eq!(purchase(250, 1_000_000).checked_fee(), Some(25_000));
    assert_eq!(purchase(10_000, 7).checked_fee(), Some(7));
    // fee above the price: 65535 bps of 1 is 6
    assert_eq!(purchase(65_535, 1).checked_fee(), None);
    // fee times price overflows
    assert_eq!(purchase(2, u64::MAX).checked_fee(), None);
    // largest price whose product with the fee fits
    assert_eq!(purchase(1, u64::MAX).checked_fee(), Some(u64::MAX / 10_000));
}

#[test]
fn send_nft_moves_one_token_signed_by_listing() {
    let p = purchase(250, 1_000);
    assert_eq!(
        p.send_nft(),
        vec![Cpi::TransferChecked {
            program: key(70),
            from: key(43),
            mint: key(30),
            to: key(40),
            authority: key(20),
            amount: 1,
            decimals: 0,
            signer_seeds: listing_seed_bytes(),
        }]
    );
}

#[test]
fn purchase_close_vault_to_maker() {
    let p = purchase(250, 1_000);
    assert_eq!(
        p.close_mint_vault(),
        vec![Cpi::CloseAccount {
            program: key(70),
            account: key(43),
            destination: key(1),
            authority: key(20),
            signer_seeds: listing_seed_bytes(),
        }]
    );
}

#[test]
fn rewards_mint_price_to_both_parties() {
    let p = purchase(250, 1_000);
    assert_eq!(
        p.reward_both_parties(),
        vec![
            Cpi::MintTo {
                program: key(70),
                mint: key(60),
                to: key(42),
                authority: key(10),
                amount: 1_000,
                signer_seeds: marketplace_seed_bytes(),
            },
            Cpi::MintTo {
                program: key(70),
                mint: key(60),
                to: key(41),
                authority: key(10),
                amount: 1_000,
                signer_seeds: marketplace_seed_bytes(),
            },
        ]
    );
}

#[test]
fn purchase_is_payment_delivery_close_rewards() {
    let p = purchase(250, 1_000);
    let mut expected = p.send_sol();
    expected.extend(p.send_nft());
    expected.extend(p.close_mint_vault());
    expected.extend(p.reward_both_parties());
    let plan = p.purchase();
    assert_eq!(plan.len(), 6);
    assert_eq!(plan, expected);
}

#[test]
fn purchase_taker_pays_exactly_the_price() {
    let p = purchase(333, 123_457);
    let plan = p.purchase();
    let mut sent = 0u64;
    let mut to_maker = 0u64;
    let mut to_treasury = 0u64;
    for c in &plan {
        if let Cpi::Transfer { from, to, lamports, .. } = c {
            if *from == key(2) {
                sent += lamports;
            }
            if *to == key(1) {
                to_maker += lamports;
            }
            if *to == key(50) {
                to_treasury += lamports;
            }
        }
    }
    assert_eq!(sent, 123_457);
    assert_eq!(to_treasury, 333 * 123_457 / 10_000);
    assert_eq!(to_maker + to_treasury, 123_457);
}

#[test]
fn purchase_rewards_are_equal() {
    let p = purchase(333, 77);
    let plan = p.purchase();
    let minted: Vec<(Pubkey, u64)> = plan
        .iter()
        .filter_map(|c| match c {
            Cpi::MintTo { to, amount, .. } => Some((*to, *amount)),
            _ => None,
        })
        .collect();
    assert_eq!(minted, vec![(key(42), 77), (key(41), 77)]);
}

#[test]
fn purchase_moves_one_nft_then_closes_vault() {
    let p = purchase(333, 77);
    let plan = p.purchase();
    assert!(matches!(plan[2], Cpi::TransferChecked { amount: 1, .. }));
    assert!(matches!(plan[3], Cpi::CloseAccount { account, .. } if account == key(43)));
}

#[test]
fn refund_moves_makers_balance_back() {
    let d = delist(3);
    assert_eq!(
        d.refund_nft(),
        vec![Cpi::TransferChecked {
            program: key(70),
            from: key(43),
            mint: key(30),
            to: key(44),
            authority: key(20),
            amount: 3,
            decimals: 0,
            signer_seeds: listing_seed_bytes(),
        }]
    );
}

#[test]
fn refund_amount_is_makers_balance_not_vaults() {
    // the vault holds 1, the maker's account is empty: the refund moves 0
    let d = delist(0);
    assert!(matches!(d.refund_nft()[0], Cpi::TransferChecked { amount: 0, .. }));
}

#[test]
fn delist_closes_vault_to_maker() {
    let d = delist(1);
    assert_eq!(
        d.close_mint_vault(),
        vec![Cpi::CloseAccount {
            program: key(70),
            account: key(43),
            destination: key(1),
            authority: key(20),
            signer_seeds: listing_seed_bytes(),
        }]
    );
}

#[test]
fn deposit_moves_whole_balance_unsigned() {
    let l = list(None);
    assert_eq!(
        l.deposit_nft(),
        vec![Cpi::TransferChecked {
            program: key(70),
            from: key(44),
            mint: key(30),
            to: key(43),
            authority: key(1),
            amount: 1,
            decimals: 0,
            signer_seeds: vec![],
        }]
    );
}

#[test]
fn create_listing_records_maker_mint_price_bump() {
    let mut l = list(None);
    l.create_listing(42_000, &ListBumps { listing: 249, metadata: 1, master_edition: 2 });
    assert_eq!(
        l.listing.data,
        Listing { maker: key(1), maker_mint: key(30), price: 42_000, bump: 249 }
    );
    assert_eq!(l.listing.key, key(20));
}

#[test]
fn collection_check() {
    assert!(collection_is_verified(&Collection { verified: true, key: key(80) }, &key(80)));
    assert!(!collection_is_verified(&Collection { verified: false, key: key(80) }, &key(80)));
    assert!(!collection_is_verified(&Collection { verified: true, key: key(81) }, &key(80)));
}

#[test]
fn different_listings_sign_with_different_seeds() {
    let a = listing_signer_seeds(&key(10), &key(30), 250);
    assert_ne!(a, listing_signer_seeds(&key(10), &key(31), 250));
    assert_ne!(a, listing_signer_seeds(&key(11), &key(30), 250));
    assert_ne!(a, listing_signer_seeds(&key(10), &key(30), 249));
}

#[test]
fn different_marketplaces_sign_with_different_seeds() {
    let a = marketplace(250);
    let mut b = marketplace(250);
    b.data.name = String::from("tesu");
    assert_ne!(marketplace_signer_seeds(&a.data), marketplace_signer_seeds(&b.data));
    let mut c = marketplace(250);
    c.data.bump = 1;
    assert_ne!(marketplace_signer_seeds(&a.data), marketplace_signer_seeds(&c.data));
}

#[test]
fn purchase_of_created_listing_charges_listed_price() {
    let mut l = list(None);
    l.create_listing(9_999, &ListBumps { listing: 250, metadata: 1, master_edition: 2 });
    let mut p = purchase(500, 1);
    p.listing = l.listing;
    let plan = p.purchase();
    let sent: u64 = plan
        .iter()
        .filter_map(|c| match c {
            Cpi::Transfer { from, lamports, .. } if *from == key(2) => Some(*lamports),
            _ => None,
        })
        .sum();
    assert_eq!(sent, 9_999);
    // the refund of that listing signs with the bump it was created with
    let mut d = delist(1);
    d.listing = l.listing;
    assert!(matches!(&d.refund_nft()[0],
        Cpi::TransferChecked { signer_seeds, .. } if *signer_seeds == listing_seed_bytes()));
}

#[test]
fn run_makes_every_call_when_all_succeed() {
    let mut run: PlanRun<String> = PlanRun::start(3);
    let mut calls = vec![];
    loop {
        match run.step() {
            Step::Call(i) => {
                calls.push(i);
                run.record(Ok(()));
            }
            Step::Done => break,
            Step::Stop => panic!("no call failed"),
        }
    }
    assert_eq!(calls, vec![0, 1, 2]);
    assert_eq!(run, PlanRun { len: 3, next: 3, failure: None });
    assert_eq!(run.finish(), Ok(()));
}

#[test]
fn run_stops_at_first_failed_call_with_its_error() {
    // a purchase whose payment to the treasury fails: no NFT, no close, no rewards
    let plan = purchase(250, 1_000).purchase();
    let mut run: PlanRun<String> = PlanRun::start(plan.len());
    let mut calls = vec![];
    while let Step::Call(i) = run.step() {
        calls.push(i);
        run.record(if i == 1 { Err(String::from("insufficient lamports")) } else { Ok(()) });
    }
    assert_eq!(run.step(), Step::Stop);
    assert_eq!(calls, vec![0, 1]);
    assert_eq!(
        run,
        PlanRun { len: 6, next: 1, failure: Some(String::from("insufficient lamports")) }
    );
    assert_eq!(run.finish(), Err(String::from("insufficient lamports")));
}

#[test]
fn run_of_empty_plan_is_done() {
    let run: PlanRun<u32> = PlanRun::start(0);
    assert_eq!(run.step(), Step::Done);
    assert_eq!(run.finish(), Ok(()));
}
