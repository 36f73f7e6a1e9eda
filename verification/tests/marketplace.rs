use std::str::FromStr;

use anchor_lang::prelude::Pubkey;
use nft_marketplace::effects::Effect;
use nft_marketplace::error::Error;
use nft_marketplace::instructions::buy::Buy;
use nft_marketplace::instructions::initialize::Initialize;
use nft_marketplace::instructions::list::List;
use nft_marketplace::nft_marketplace::{buy, initliaze, list};
use nft_marketplace::state::{Account, Address, Listing, MarketPlace, MintAccount, TokenAccount, MPL_CORE_ID};

fn program_id() -> Pubkey {
    Pubkey::from_str("5FNsdhUK4Qn9HLkrkpR8bi916vistHfi5kihUk8As26M").unwrap()
}

fn addr(k: &Pubkey) -> Address {
    Address::new(k.to_bytes())
}

fn key(n: u8) -> Pubkey {
    Pubkey::new_from_array([n; 32])
}

fn pda(seeds: &[&[u8]]) -> (Pubkey, u8) {
    Pubkey::find_program_address(seeds, &program_id())
}

fn empty_marketplace() -> MarketPlace {
    MarketPlace {
        admin: Address::new([0; 32]),
        fee: 0,
        bump: 0,
        treasury_bump: 0,
        reward_bump: 0,
        name: String::new(),
    }
}

fn empty_listing() -> Listing {
    Listing { maker: Address::new([0; 32]), asset: Address::new([0; 32]), price: 0, solded: false, bump: 0 }
}

/// Runs the initialization of the marketplace `name` with `fee` by `admin`.
fn initialized(admin: &Pubkey, name: &str, fee: u16) -> (Account<MarketPlace>, Result<(), Error>) {
    let (market, _) = pda(&[b"maketplace", name.as_bytes()]);
    let (treasury, _) = pda(&[b"treasury", market.as_ref()]);
    let (reward_mint, _) = pda(&[b"reward_mint", market.as_ref()]);
    let mut accounts = Initialize {
        admin: addr(admin),
        maketplace: Account { key: addr(&market), data: empty_marketplace() },
        treasury: addr(&treasury),
        reward_mint: addr(&reward_mint),
    };
    let r = initliaze(&mut accounts, &addr(&program_id()), name.to_string(), fee);
    (accounts.maketplace, r)
}

/// Runs the listing of `asset` by `maker` at `price`.
fn listed(maker: &Pubkey, asset: &Pubkey, collection: &Pubkey, price: u64) -> (List, Result<Vec<Effect>, Error>) {
    let (listing, _) = pda(&[b"listing", asset.as_ref()]);
    let mut accounts = List {
        maker: addr(maker),
        asset: addr(asset),
        collection: Some(addr(collection)),
        listing: Account { key: addr(&listing), data: empty_listing() },
        mpl_core_program: Address::new(MPL_CORE_ID),
    };
    let r = list(&mut accounts, &addr(&program_id()), price);
    (accounts, r)
}

fn buy_accounts(taker: &Pubkey, market: Account<MarketPlace>, listing: Account<Listing>) -> Buy {
    let market_key = Pubkey::new_from_array(market.key.bytes);
    let (treasury, _) = pda(&[b"treasury", market_key.as_ref()]);
    let (reward_mint, _) = pda(&[b"reward_mint", market_key.as_ref()]);
    let reward_account = anchor_spl::associated_token::get_associated_token_address_with_program_id(
        taker,
        &reward_mint,
        &anchor_spl::token::ID,
    );
    Buy {
        taker: addr(taker),
        maker: listing.data.maker,
        asset: listing.data.asset,
        collection: None,
        maketplace: market,
        listing,
        treasury: addr(&treasury),
        reward_mint: MintAccount {
            key: addr(&reward_mint),
            decimals: 6,
            mint_authority: Some(addr(&market_key)),
        },
        take_reward_ata: TokenAccount { key: addr(&reward_account), state: None },
        mpl_core_program: Address::new(MPL_CORE_ID),
        token_program: addr(&anchor_spl::token::ID),
    }
}

fn transfer_of(e: &Effect) -> (Address, Address, u64) {
    match e {
        Effect::Transfer { from, to, lamports, .. } => (*from, *to, *lamports),
        _ => panic!("not a transfer"),
    }
}

#[test]
fn test_initialize() {
    let payer = key(1);
    let name = String::from("nameisthis");
    let (market, r) = initialized(&payer, &name, 500);
    assert_eq!(r, Ok(()));
    assert_eq!(market.data.admin.bytes, payer.to_bytes());
    assert_eq!(market.data.fee, 500);
    assert_eq!(market.data.name, "nameisthis");
    let (expected, bump) = pda(&[b"maketplace", name.as_bytes()]);
    assert_eq!(market.key.bytes, expected.to_bytes());
    assert_eq!(market.data.bump, bump);
}

#[test]
fn test_list() {
    let payer = key(1);
    let name = String::from("nameisthis");
    let (_market, r) = initialized(&payer, &name, 500);
    assert_eq!(r, Ok(()));
    let collection = key(2);
    let asset = key(3);
    let price = 100_000_000;
    let (accounts, r) = listed(&payer, &asset, &collection, price);
    let effects = r.unwrap();
    assert_eq!(accounts.listing.data.price, price);
    assert!(!accounts.listing.data.solded);
    assert_eq!(accounts.listing.data.maker.bytes, payer.to_bytes());
    let (_, bump) = pda(&[b"listing", asset.as_ref()]);
    assert_eq!(accounts.listing.data.bump, bump);
    assert_eq!(effects.len(), 1);
    match &effects[0] {
        Effect::TransferAsset { asset: a, new_owner, payer: p, authority, .. } => {
            assert_eq!(a.bytes, asset.to_bytes());
            assert_eq!(new_owner.bytes, accounts.listing.key.bytes);
            assert_eq!(p.bytes, payer.to_bytes());
            assert!(authority.is_none());
        },
        _ => panic!("expected the asset to move into the listing"),
    }
}

#[test]
fn test_buy() {
    let payer = key(1);
    let name = String::from("nameisthis");
    let (market, r) = initialized(&payer, &name, 500);
    assert_eq!(r, Ok(()));
    let collection = key(2);
    let asset = key(3);
    let price = 100_000_000;
    let (listed_accounts, r) = listed(&payer, &asset, &collection, price);
    assert!(r.is_ok());
    let taker = key(4);
    let accounts = buy_accounts(&taker, market, listed_accounts.listing);
    // The reward mint is checked against the treasury's bump, so the sale is
    // admitted exactly where that bump also derives the reward mint.
    let market_key = Pubkey::new_from_array(accounts.maketplace.key.bytes);
    let by_treasury_bump = Pubkey::create_program_address(
        &[b"reward_mint", market_key.as_ref(), &[accounts.maketplace.data.treasury_bump]],
        &program_id(),
    );
    let admitted = matches!(by_treasury_bump, Ok(k) if k.to_bytes() == accounts.reward_mint.key.bytes);
    let r = buy(&accounts, &addr(&program_id()));
    assert_eq!(r.is_ok(), admitted);
    match r {
        Ok(all) => {
            assert_eq!(all.len(), 6);
            match &all[0] {
                Effect::CreateAssociatedToken { associated_token, wallet, mint, .. } => {
                    assert_eq!(associated_token.bytes, accounts.take_reward_ata.key.bytes);
                    assert_eq!(wallet.bytes, taker.to_bytes());
                    assert_eq!(mint.bytes, accounts.reward_mint.key.bytes);
                },
                _ => panic!("expected the reward account's creation"),
            }
        },
        Err(e) => assert_eq!(e, Error::ConstraintSeeds),
    }
    let mut effects = accounts.send_sol();
    effects.push(accounts.receive_nft());
    effects.push(accounts.receive_rewards());
    effects.push(Effect::Close { account: accounts.listing.key, destination: accounts.maker });
    assert_eq!(effects.len(), 5);
    let (from, to, lamports) = transfer_of(&effects[0]);
    assert_eq!(from.bytes, taker.to_bytes());
    assert_eq!(to.bytes, payer.to_bytes());
    assert_eq!(lamports, 95_000_000);
    let (from, to, lamports) = transfer_of(&effects[1]);
    assert_eq!(from.bytes, taker.to_bytes());
    assert_eq!(to.bytes, accounts.treasury.bytes);
    assert_eq!(lamports, 5_000_000);
    match &effects[2] {
        Effect::TransferAsset { new_owner, authority, signer_seeds, .. } => {
            assert_eq!(new_owner.bytes, taker.to_bytes());
            assert_eq!(authority.unwrap().bytes, accounts.listing.key.bytes);
            let (_, bump) = pda(&[b"listing", asset.as_ref()]);
            assert_eq!(signer_seeds, &vec![b"listing".to_vec(), asset.to_bytes().to_vec(), vec![bump]]);
        },
        _ => panic!("expected the asset's delivery"),
    }
    match &effects[3] {
        Effect::MintTo { to, amount, decimals, mint_authority, .. } => {
            assert_eq!(to.bytes, taker.to_bytes());
            assert_eq!(*amount, 100);
            assert_eq!(*decimals, 6);
            assert_eq!(mint_authority.bytes, accounts.maketplace.key.bytes);
        },
        _ => panic!("expected the reward"),
    }
    match &effects[4] {
        Effect::Close { account, destination } => {
            assert_eq!(account.bytes, accounts.listing.key.bytes);
            assert_eq!(destination.bytes, payer.to_bytes());
        },
        _ => panic!("expected the listing to close"),
    }
}
