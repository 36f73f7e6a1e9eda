use std::str::FromStr;

use anchor_lang::prelude::Pubkey;
use nft_marketplace::error::{Error, ErrorCode};
use nft_marketplace::fees::{marketplace_fee, split_price};
use nft_marketplace::instructions::buy::Buy;
use nft_marketplace::instructions::initialize::{Initialize, InitializeBumps};
use nft_marketplace::instructions::list::List;
use nft_marketplace::nft_marketplace::{buy, initliaze, list, try_buy};
use nft_marketplace::state::{
    Account, Address, Listing, MarketPlace, MintAccount, TokenAccount, TokenAccountState,
    ASSOCIATED_TOKEN_PROGRAM_ID, MPL_CORE_ID,
};

fn program_id() -> Pubkey {
    Pubkey::from_str("5FNsdhUK4Qn9HLkrkpR8bi916vistHfi5kihUk8As26M").unwrap()
}

fn pid() -> Address {
    addr(&program_id())
}

fn addr(k: &Pubkey) -> Address {
    Address::new(k.to_bytes())
}

fn key(n: u8) -> Pubkey {
    Pubkey::new_from_array([n; 32])
}

fn pda(seeds: &[&[u8]]) -> (Pubkey, u8) {
    Pubkey::find_program_address(seeds, &program_id())
}

fn blank_marketplace() -> MarketPlace {
    MarketPlace {
        admin: Address::new([0; 32]),
        fee: 0,
        bump: 0,
        treasury_bump: 0,
        reward_bump: 0,
        name: String::new(),
    }
}

fn initialize_accounts(name: &str) -> Initialize {
    let (market, _) = pda(&[b"maketplace", name.as_bytes()]);
    let (treasury, _) = pda(&[b"treasury", market.as_ref()]);
    let (reward_mint, _) = pda(&[b"reward_mint", market.as_ref()]);
    Initialize {
        admin: addr(&key(1)),
        maketplace: Account { key: addr(&market), data: blank_marketplace() },
        treasury: addr(&treasury),
        reward_mint: addr(&reward_mint),
    }
}

fn sale(fee: u16, price: u64) -> Buy {
    let name = "nameisthis";
    let (market, bump) = pda(&[b"maketplace", name.as_bytes()]);
    let (treasury, treasury_bump) = pda(&[b"treasury", market.as_ref()]);
    let (reward_mint, reward_bump) = pda(&[b"reward_mint", market.as_ref()]);
    let asset = key(3);
    let (listing, listing_bump) = pda(&[b"listing", asset.as_ref()]);
    let reward_account = anchor_spl::associated_token::get_associated_token_address_with_program_id(
        &key(4),
        &reward_mint,
        &anchor_spl::token::ID,
    );
    Buy {
        taker: addr(&key(4)),
        maker: addr(&key(1)),
        asset: addr(&asset),
        collection: None,
        maketplace: Account {
            key: addr(&market),
            data: MarketPlace {
                admin: addr(&key(1)),
                fee,
                bump,
                treasury_bump,
                reward_bump,
                name: name.to_string(),
            },
        },
        listing: Account {
            key: addr(&listing),
            data: Listing { maker: addr(&key(1)), asset: addr(&asset), price, solded: false, bump: listing_bump },
        },
        treasury: addr(&treasury),
        reward_mint: MintAccount { key: addr(&reward_mint), decimals: 6, mint_authority: Some(addr(&market)) },
        take_reward_ata: TokenAccount { key: addr(&reward_account), state: None },
        mpl_core_program: Address::new(MPL_CORE_ID),
        token_program: addr(&anchor_spl::token::ID),
    }
}

#[test]
fn fee_is_the_rounded_down_share_of_the_price() {
    assert_eq!(marketplace_fee(100_000_000, 500), 5_000_000);
    assert_eq!(marketplace_fee(999, 500), 49);
    assert_eq!(marketplace_fee(12_345, 0), 0);
    assert_eq!(marketplace_fee(12_345, 10_000), 12_345);
    assert_eq!(marketplace_fee(u64::MAX, 10_000), u64::MAX);
    assert_eq!(marketplace_fee(u64::MAX, 1), u64::MAX / 10_000);
}

#[test]
fn fee_above_the_whole_price_wraps_to_64_bits() {
    let exact = (u64::MAX as u128) * 65_535 / 10_000;
    assert_eq!(marketplace_fee(u64::MAX, 65_535), exact as u64);
    assert_eq!(marketplace_fee(10, 20_000), 20);
}

#[test]
fn split_adds_back_up_to_the_price() {
    let s = split_price(100_000_000, 500);
    assert_eq!(s.maker_amount, 95_000_000);
    assert_eq!(s.fee, 5_000_000);
    let s = split_price(0, 20_000);
    assert_eq!(s.maker_amount, 0);
    assert_eq!(s.fee, 0);
}

#[test]
fn error_numbers_names_and_messages() {
    assert_eq!(ErrorCode::InvalidName.code(), 6000);
    assert_eq!(ErrorCode::InvalidFee.code(), 6001);
    assert_eq!(ErrorCode::AmountTooMuch.code(), 6002);
    assert_eq!(ErrorCode::AlreadySold.code(), 6003);
    assert_eq!(ErrorCode::OfferNotAccepted.code(), 6004);
    assert_eq!(ErrorCode::InvalidFee.name(), "InvalidFee");
    assert_eq!(ErrorCode::InvalidName.msg(), "Name it too long");
    assert_eq!(ErrorCode::AmountTooMuch.msg(), "Amount is greter then treasury fund");
    assert_eq!(ErrorCode::AlreadySold.msg(), "Nft already solded");
    assert_eq!(ErrorCode::OfferNotAccepted.msg(), "Offer not accepted");
    assert_eq!(Error::Program(ErrorCode::AlreadySold).code(), 6003);
    assert_eq!(Error::ConstraintHasOne.code(), 2001);
    assert_eq!(Error::ConstraintSeeds.code(), 2006);
    assert_eq!(Error::ConstraintAddress.code(), 2012);
    assert_eq!(Error::ConstraintMintMintAuthority.code(), 2016);
    assert_eq!(Error::ConstraintMintDecimals.code(), 2018);
}

#[test]
fn initialize_refuses_a_fee_above_the_whole_price() {
    let mut accounts = initialize_accounts("nameisthis");
    let r = initliaze(&mut accounts, &pid(), "nameisthis".to_string(), 10_001);
    assert_eq!(r, Err(Error::Program(ErrorCode::InvalidFee)));
    assert_eq!(accounts.maketplace.data.fee, 0);
    assert_eq!(accounts.maketplace.data.name, "");
}

#[test]
fn initialize_accepts_the_whole_price_as_fee() {
    let mut accounts = initialize_accounts("full");
    assert_eq!(initliaze(&mut accounts, &pid(), "full".to_string(), 10_000), Ok(()));
    assert_eq!(accounts.maketplace.data.fee, 10_000);
}

#[test]
fn initialize_refuses_a_name_longer_than_32_bytes() {
    let mut accounts = initialize_accounts("nameisthis");
    let long = "a".repeat(33);
    let bumps = InitializeBumps { maketplace: 1, treasury: 2, reward_mint: 3 };
    let r = accounts.initialize(long, 500, bumps);
    assert_eq!(r, Err(Error::Program(ErrorCode::InvalidName)));
    let r = accounts.initialize("a".repeat(32), 500, bumps);
    assert_eq!(r, Ok(()));
    assert_eq!(accounts.maketplace.data.bump, 1);
    assert_eq!(accounts.maketplace.data.treasury_bump, 2);
    assert_eq!(accounts.maketplace.data.reward_bump, 3);
}

#[test]
fn initialize_checks_the_fee_before_the_name() {
    let mut accounts = initialize_accounts("nameisthis");
    let bumps = InitializeBumps { maketplace: 1, treasury: 2, reward_mint: 3 };
    let r = accounts.initialize("a".repeat(40), 20_000, bumps);
    assert_eq!(r, Err(Error::Program(ErrorCode::InvalidFee)));
}

#[test]
fn initialize_refuses_a_marketplace_at_another_address() {
    let mut accounts = initialize_accounts("nameisthis");
    let r = initliaze(&mut accounts, &pid(), "othername".to_string(), 500);
    assert_eq!(r, Err(Error::ConstraintSeeds));
    let mut accounts = initialize_accounts("nameisthis");
    accounts.treasury = addr(&key(9));
    let r = initliaze(&mut accounts, &pid(), "nameisthis".to_string(), 500);
    assert_eq!(r, Err(Error::ConstraintSeeds));
}

#[test]
fn list_refuses_another_core_program() {
    let asset = key(3);
    let (listing, _) = pda(&[b"listing", asset.as_ref()]);
    let mut accounts = List {
        maker: addr(&key(1)),
        asset: addr(&asset),
        collection: None,
        listing: Account {
            key: addr(&listing),
            data: Listing { maker: addr(&key(0)), asset: addr(&key(0)), price: 7, solded: true, bump: 0 },
        },
        mpl_core_program: addr(&key(7)),
    };
    assert_eq!(list(&mut accounts, &pid(), 10).unwrap_err(), Error::ConstraintAddress);
    assert_eq!(accounts.listing.data.price, 7);
    assert!(accounts.listing.data.solded);
}

#[test]
fn list_refuses_a_listing_of_another_asset() {
    let (listing, _) = pda(&[b"listing", key(4).as_ref()]);
    let mut accounts = List {
        maker: addr(&key(1)),
        asset: addr(&key(3)),
        collection: None,
        listing: Account {
            key: addr(&listing),
            data: Listing { maker: addr(&key(0)), asset: addr(&key(0)), price: 7, solded: false, bump: 0 },
        },
        mpl_core_program: Address::new(MPL_CORE_ID),
    };
    assert_eq!(list(&mut accounts, &pid(), 10).unwrap_err(), Error::ConstraintSeeds);
}

#[test]
fn core_program_address_is_metaplex_core() {
    let core = Pubkey::from_str("CoREENxT6tW1HoK8ypY1SxRMZTcVPm7R94rH4PZNhX7d").unwrap();
    assert_eq!(MPL_CORE_ID, core.to_bytes());
    assert_eq!(MPL_CORE_ID, mpl_core::ID.to_bytes());
}

#[test]
fn buy_refuses_another_seller() {
    let mut b = sale(500, 1_000);
    b.maker = addr(&key(9));
    assert_eq!(buy(&b, &pid()).unwrap_err(), Error::ConstraintHasOne);
}

#[test]
fn buy_refuses_another_asset() {
    let mut b = sale(500, 1_000);
    b.asset = addr(&key(9));
    assert_eq!(buy(&b, &pid()).unwrap_err(), Error::ConstraintHasOne);
}

#[test]
fn buy_refuses_a_foreign_treasury() {
    let mut b = sale(500, 1_000);
    b.treasury = addr(&key(9));
    assert_eq!(buy(&b, &pid()).unwrap_err(), Error::ConstraintSeeds);
}

#[test]
fn buy_refuses_a_reward_mint_with_other_decimals() {
    let mut b = sale(500, 1_000);
    b.reward_mint.decimals = 9;
    let r = buy(&b, &pid());
    if b.maketplace.data.reward_bump == b.maketplace.data.treasury_bump {
        assert_eq!(r.unwrap_err(), Error::ConstraintMintDecimals);
    } else {
        assert_eq!(r.unwrap_err(), Error::ConstraintSeeds);
    }
}

#[test]
fn buy_checks_the_reward_mint_with_the_treasury_bump() {
    let b = sale(500, 1_000);
    let r = buy(&b, &pid());
    let market = Pubkey::new_from_array(b.maketplace.key.bytes);
    let by_treasury_bump = Pubkey::create_program_address(
        &[b"reward_mint", market.as_ref(), &[b.maketplace.data.treasury_bump]],
        &program_id(),
    );
    let passes = matches!(by_treasury_bump, Ok(k) if k.to_bytes() == b.reward_mint.key.bytes);
    assert_eq!(r.is_ok(), passes);
}

#[test]
fn buy_refuses_a_reward_mint_of_another_authority() {
    let mut b = sale(500, 1_000);
    b.reward_mint.mint_authority = None;
    let r = buy(&b, &pid());
    if b.maketplace.data.reward_bump == b.maketplace.data.treasury_bump {
        assert_eq!(r.unwrap_err(), Error::ConstraintMintMintAuthority);
    } else {
        assert_eq!(r.unwrap_err(), Error::ConstraintSeeds);
    }
}

#[test]
fn buy_at_the_whole_price_fee_pays_the_seller_nothing() {
    let b = sale(10_000, 1_000);
    if let Ok(effects) = buy(&b, &pid()) {
        match (&effects[1], &effects[2]) {
            (
                nft_marketplace::effects::Effect::Transfer { lamports: to_seller, .. },
                nft_marketplace::effects::Effect::Transfer { lamports: to_treasury, .. },
            ) => {
                assert_eq!(*to_seller, 0);
                assert_eq!(*to_treasury, 1_000);
            },
            _ => panic!("expected the payments"),
        }
    }
}

#[test]
fn associated_token_program_address_is_the_spl_one() {
    assert_eq!(ASSOCIATED_TOKEN_PROGRAM_ID, anchor_spl::associated_token::ID.to_bytes());
}

fn existing(b: &Buy) -> TokenAccountState {
    TokenAccountState { mint: b.reward_mint.key, owner: b.taker, owner_program: b.token_program }
}

#[test]
fn buy_refuses_a_reward_account_at_another_address() {
    let mut b = sale(500, 1_000);
    b.take_reward_ata.key = addr(&key(9));
    assert_eq!(buy(&b, &pid()).unwrap_err(), Error::AccountNotAssociatedTokenAccount);
    b.take_reward_ata.state = Some(existing(&b));
    assert_eq!(buy(&b, &pid()).unwrap_err(), Error::AccountNotAssociatedTokenAccount);
}

#[test]
fn buy_refuses_a_reward_account_of_another_mint() {
    let mut b = sale(500, 1_000);
    let mut s = existing(&b);
    s.mint = addr(&key(9));
    b.take_reward_ata.state = Some(s);
    assert_eq!(buy(&b, &pid()).unwrap_err(), Error::ConstraintTokenMint);
    assert_eq!(Error::ConstraintTokenMint.code(), 2014);
}

#[test]
fn buy_refuses_a_reward_account_of_another_owner() {
    let mut b = sale(500, 1_000);
    let mut s = existing(&b);
    s.owner = addr(&key(9));
    b.take_reward_ata.state = Some(s);
    assert_eq!(buy(&b, &pid()).unwrap_err(), Error::ConstraintTokenOwner);
    assert_eq!(Error::ConstraintTokenOwner.code(), 2015);
}

#[test]
fn buy_refuses_a_reward_account_of_another_token_program() {
    let mut b = sale(500, 1_000);
    let mut s = existing(&b);
    s.owner_program = addr(&key(9));
    b.take_reward_ata.state = Some(s);
    assert_eq!(buy(&b, &pid()).unwrap_err(), Error::ConstraintAssociatedTokenTokenProgram);
    assert_eq!(Error::ConstraintAssociatedTokenTokenProgram.code(), 2023);
    assert_eq!(Error::AccountNotAssociatedTokenAccount.code(), 3014);
}

#[test]
fn buy_with_an_existing_reward_account_creates_none() {
    let mut b = sale(500, 1_000);
    b.take_reward_ata.state = Some(existing(&b));
    if let Ok(effects) = buy(&b, &pid()) {
        assert_eq!(effects.len(), 5);
        assert!(matches!(&effects[0], nft_marketplace::effects::Effect::Transfer { .. }));
    } else {
        assert_eq!(buy(&b, &pid()).unwrap_err(), Error::ConstraintSeeds);
    }
}

#[test]
fn try_buy_refuses_on_the_accounts_before_the_fee() {
    let mut b = sale(20_000, 1_000);
    b.maker = addr(&key(9));
    match try_buy(&b, &pid()) {
        Some(Err(e)) => assert_eq!(e, Error::ConstraintHasOne),
        _ => panic!("expected the seller's check to refuse"),
    }
}

#[test]
fn try_buy_declines_a_fee_above_the_price_on_valid_accounts() {
    let b = sale(20_000, 1_000);
    let valid = buy_checks_pass(&b);
    match try_buy(&b, &pid()) {
        None => assert!(valid),
        Some(Err(e)) => {
            assert!(!valid);
            assert_eq!(e, Error::ConstraintSeeds);
        },
        Some(Ok(_)) => panic!("a fee above the price cannot be paid"),
    }
}

#[test]
fn try_buy_sells_at_a_payable_fee() {
    let b = sale(500, 1_000);
    let valid = buy_checks_pass(&b);
    match try_buy(&b, &pid()) {
        Some(Ok(effects)) => {
            assert!(valid);
            assert_eq!(effects.len(), 6);
        },
        Some(Err(e)) => {
            assert!(!valid);
            assert_eq!(e, Error::ConstraintSeeds);
        },
        None => panic!("a fee within the price can be paid"),
    }
}

/// Whether the reward mint is also derived with the treasury's bump, the one
/// check that depends on the addresses found for the marketplace's name.
fn buy_checks_pass(b: &Buy) -> bool {
    let market = Pubkey::new_from_array(b.maketplace.key.bytes);
    let by_treasury_bump = Pubkey::create_program_address(
        &[b"reward_mint", market.as_ref(), &[b.maketplace.data.treasury_bump]],
        &program_id(),
    );
    matches!(by_treasury_bump, Ok(k) if k.to_bytes() == b.reward_mint.key.bytes)
}
