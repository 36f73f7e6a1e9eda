use std::str::FromStr;

use anchor_lang::prelude::Pubkey;
use nft_marketplace::effects::Effect;
use nft_marketplace::error::{Error, ErrorCode};
use nft_marketplace::instructions::accept_offer::AcceptOffer;
use nft_marketplace::instructions::close_offer::CloseOffer;
use nft_marketplace::instructions::delist::Delist;
use nft_marketplace::instructions::make_offer::MakeOffer;
use nft_marketplace::instructions::reject_offer::RejectOffer;
use nft_marketplace::instructions::withdraw_fee::WithdrawFee;
use nft_marketplace::nft_marketplace::{
    accept_offer, close_offer, delist, maker_offer, reject_offer, withdraw_fee,
};
use nft_marketplace::state::{Account, Address, Listing, MarketPlace, Offer, SystemAccount, MPL_CORE_ID};

fn program_id() -> Pubkey {
    Pubkey::from_str("5FNsdhUK4Qn9HLkrkpR8bi916vistHfi5kihUk8As26M").unwrap()
}

fn pid() -> Address {
    addr(&program_id())
}

fn addr(k: &Pubkey) -> Address {
    Address::new(k.to_bytes())
}

fn key(n: u8) -> Pubkey {
    Pubkey::new_from_array([n; 32])
}

fn pda(seeds: &[&[u8]]) -> (Pubkey, u8) {
    Pubkey::find_program_address(seeds, &program_id())
}

fn listing_of(maker: &Pubkey, asset: &Pubkey, price: u64) -> Account<Listing> {
    let (listing, bump) = pda(&[b"listing", asset.as_ref()]);
    Account {
        key: addr(&listing),
        data: Listing { maker: addr(maker), asset: addr(asset), price, solded: false, bump },
    }
}

fn offer_of(listing: &Address, offer_maker: &Pubkey, price: u64) -> Account<Offer> {
    let (offer, bump) = pda(&[b"offer", listing.bytes.as_ref(), offer_maker.as_ref()]);
    let (_, vault_bump) = pda(&[b"offer_vault", offer.as_ref()]);
    Account {
        key: addr(&offer),
        data: Offer {
            listing: *listing,
            offer_maker: addr(offer_maker),
            price,
            accepted: false,
            bump,
            vault_bump,
        },
    }
}

fn vault_of(offer: &Address) -> Address {
    let (vault, _) = pda(&[b"offer_vault", offer.bytes.as_ref()]);
    addr(&vault)
}

fn marketplace_of(admin: &Pubkey, name: &str, fee: u16) -> Account<MarketPlace> {
    let (market, bump) = pda(&[b"maketplace", name.as_bytes()]);
    let (_, treasury_bump) = pda(&[b"treasury", market.as_ref()]);
    let (_, reward_bump) = pda(&[b"reward_mint", market.as_ref()]);
    Account {
        key: addr(&market),
        data: MarketPlace {
            admin: addr(admin),
            fee,
            bump,
            treasury_bump,
            reward_bump,
            name: name.to_string(),
        },
    }
}

fn treasury_of(market: &Address, lamports: u64) -> SystemAccount {
    let (treasury, _) = pda(&[b"treasury", market.bytes.as_ref()]);
    SystemAccount { key: addr(&treasury), lamports }
}

#[test]
fn make_offer_deposits_the_price_and_records_the_offer() {
    let seller = key(1);
    let bidder = key(5);
    let listing = listing_of(&seller, &key(3), 100);
    let (offer, offer_bump) = pda(&[b"offer", listing.key.bytes.as_ref(), bidder.as_ref()]);
    let (vault, vault_bump) = pda(&[b"offer_vault", offer.as_ref()]);
    let mut accounts = MakeOffer {
        maker: addr(&bidder),
        offer: Account { key: addr(&offer), data: offer_of(&listing.key, &key(9), 1).data },
        offer_vault: addr(&vault),
        listing,
    };
    let effects = maker_offer(&mut accounts, &pid(), 42).unwrap();
    assert_eq!(effects.len(), 1);
    match &effects[0] {
        Effect::Transfer { from, to, lamports, signer_seeds } => {
            assert_eq!(from.bytes, bidder.to_bytes());
            assert_eq!(to.bytes, vault.to_bytes());
            assert_eq!(*lamports, 42);
            assert!(signer_seeds.is_empty());
        },
        _ => panic!("expected the deposit"),
    }
    let o = accounts.offer.data;
    assert_eq!(o.price, 42);
    assert!(!o.accepted);
    assert_eq!(o.listing.bytes, accounts.listing.key.bytes);
    assert_eq!(o.offer_maker.bytes, bidder.to_bytes());
    assert_eq!(o.bump, offer_bump);
    assert_eq!(o.vault_bump, vault_bump);
}

#[test]
fn make_offer_refuses_a_vault_at_another_address() {
    let listing = listing_of(&key(1), &key(3), 100);
    let bidder = key(5);
    let (offer, _) = pda(&[b"offer", listing.key.bytes.as_ref(), bidder.as_ref()]);
    let before = offer_of(&listing.key, &key(9), 1).data;
    let mut accounts = MakeOffer {
        maker: addr(&bidder),
        offer: Account { key: addr(&offer), data: before },
        offer_vault: addr(&key(8)),
        listing,
    };
    let r = maker_offer(&mut accounts, &pid(), 42);
    assert_eq!(r.unwrap_err(), Error::ConstraintSeeds);
    assert_eq!(accounts.offer.data.price, 1);
}

#[test]
fn accept_then_close_puts_the_listing_back_on_sale() {
    let seller = key(1);
    let bidder = key(5);
    let listing = listing_of(&seller, &key(3), 100);
    let offer = offer_of(&listing.key, &bidder, 90);
    let mut a = AcceptOffer { maker: addr(&seller), offer_maker: addr(&bidder), offer, listing };
    assert_eq!(accept_offer(&mut a, &pid()), Ok(()));
    assert!(a.offer.data.accepted);
    assert!(a.listing.data.solded);
    let vault = vault_of(&a.offer.key);
    let (_, vault_bump) = pda(&[b"offer_vault", a.offer.key.bytes.as_ref()]);
    let mut c = CloseOffer {
        offer_maker: addr(&bidder),
        maker: addr(&seller),
        offer: a.offer,
        offer_vault: SystemAccount { key: vault, lamports: 1_000_090 },
        listing: a.listing,
    };
    let effects = close_offer(&mut c, &pid()).unwrap();
    assert!(!c.listing.data.solded);
    assert_eq!(c.listing.data.price, 100);
    assert_eq!(effects.len(), 2);
    match &effects[0] {
        Effect::Transfer { from, to, lamports, signer_seeds } => {
            assert_eq!(from.bytes, vault.bytes);
            assert_eq!(to.bytes, bidder.to_bytes());
            assert_eq!(*lamports, 1_000_090);
            assert_eq!(
                signer_seeds,
                &vec![b"offer_vault".to_vec(), c.offer.key.bytes.to_vec(), vec![vault_bump]]
            );
        },
        _ => panic!("expected the vault's refund"),
    }
    match &effects[1] {
        Effect::Close { account, destination } => {
            assert_eq!(account.bytes, c.offer.key.bytes);
            assert_eq!(destination.bytes, bidder.to_bytes());
        },
        _ => panic!("expected the offer to close"),
    }
}

#[test]
fn only_the_seller_accepts() {
    let seller = key(1);
    let bidder = key(5);
    let listing = listing_of(&seller, &key(3), 100);
    let offer = offer_of(&listing.key, &bidder, 90);
    let mut a = AcceptOffer { maker: addr(&key(6)), offer_maker: addr(&bidder), offer, listing };
    assert_eq!(accept_offer(&mut a, &pid()), Err(Error::ConstraintHasOne));
    assert!(!a.offer.data.accepted);
    assert!(!a.listing.data.solded);
}

#[test]
fn an_offer_on_another_listing_is_refused() {
    let seller = key(1);
    let bidder = key(5);
    let listing = listing_of(&seller, &key(3), 100);
    let other = listing_of(&seller, &key(4), 100);
    let offer = offer_of(&other.key, &bidder, 90);
    let mut a = AcceptOffer { maker: addr(&seller), offer_maker: addr(&bidder), offer, listing };
    assert_eq!(accept_offer(&mut a, &pid()), Err(Error::ConstraintHasOne));
}

#[test]
fn an_offer_whose_bump_is_wrong_is_refused() {
    let seller = key(1);
    let bidder = key(5);
    let listing = listing_of(&seller, &key(3), 100);
    let mut offer = offer_of(&listing.key, &bidder, 90);
    offer.data.bump = offer.data.bump.wrapping_sub(1);
    let offer_vault = SystemAccount { key: vault_of(&offer.key), lamports: 90 };
    let mut c = CloseOffer { offer_maker: addr(&bidder), maker: addr(&seller), offer, offer_vault, listing };
    assert_eq!(close_offer(&mut c, &pid()).unwrap_err(), Error::ConstraintSeeds);
}

#[test]
fn close_refuses_a_foreign_vault() {
    let seller = key(1);
    let bidder = key(5);
    let listing = listing_of(&seller, &key(3), 100);
    let offer = offer_of(&listing.key, &bidder, 90);
    let offer_vault = SystemAccount { key: addr(&key(8)), lamports: 90 };
    let mut c = CloseOffer { offer_maker: addr(&bidder), maker: addr(&seller), offer, offer_vault, listing };
    assert_eq!(close_offer(&mut c, &pid()).unwrap_err(), Error::ConstraintSeeds);
    assert!(!c.listing.data.solded);
}

#[test]
fn reject_refunds_the_whole_vault() {
    let seller = key(1);
    let bidder = key(5);
    let listing = listing_of(&seller, &key(3), 100);
    let offer = offer_of(&listing.key, &bidder, 90);
    let vault = vault_of(&offer.key);
    let (_, vault_bump) = pda(&[b"offer_vault", offer.key.bytes.as_ref()]);
    let r = RejectOffer {
        maker: addr(&seller),
        offer_maker: addr(&bidder),
        offer,
        offer_vault: SystemAccount { key: vault, lamports: 1_000_090 },
        listing,
    };
    let effects = reject_offer(&r, &pid()).unwrap();
    assert_eq!(effects.len(), 2);
    match &effects[0] {
        Effect::Transfer { from, to, lamports, signer_seeds } => {
            assert_eq!(from.bytes, vault.bytes);
            assert_eq!(to.bytes, bidder.to_bytes());
            assert_eq!(*lamports, 1_000_090);
            assert_eq!(
                signer_seeds,
                &vec![b"offer_vault".to_vec(), r.offer.key.bytes.to_vec(), vec![vault_bump]]
            );
        },
        _ => panic!("expected the refund"),
    }
    match &effects[1] {
        Effect::Close { account, destination } => {
            assert_eq!(account.bytes, r.offer.key.bytes);
            assert_eq!(destination.bytes, bidder.to_bytes());
        },
        _ => panic!("expected the offer to close"),
    }
}

#[test]
fn only_the_seller_rejects() {
    let seller = key(1);
    let bidder = key(5);
    let listing = listing_of(&seller, &key(3), 100);
    let offer = offer_of(&listing.key, &bidder, 90);
    let vault = vault_of(&offer.key);
    let r = RejectOffer {
        maker: addr(&bidder),
        offer_maker: addr(&bidder),
        offer,
        offer_vault: SystemAccount { key: vault, lamports: 90 },
        listing,
    };
    assert_eq!(reject_offer(&r, &pid()).unwrap_err(), Error::ConstraintHasOne);
}

#[test]
fn reject_refuses_a_foreign_vault() {
    let seller = key(1);
    let bidder = key(5);
    let listing = listing_of(&seller, &key(3), 100);
    let offer = offer_of(&listing.key, &bidder, 90);
    let r = RejectOffer {
        maker: addr(&seller),
        offer_maker: addr(&bidder),
        offer,
        offer_vault: SystemAccount { key: addr(&key(8)), lamports: 90 },
        listing,
    };
    assert_eq!(reject_offer(&r, &pid()).unwrap_err(), Error::ConstraintSeeds);
}

#[test]
fn delist_returns_the_asset_to_its_maker() {
    let seller = key(1);
    let asset = key(3);
    let listing = listing_of(&seller, &asset, 100);
    let d = Delist {
        maker: addr(&seller),
        asset: addr(&asset),
        collection: None,
        maketplace: marketplace_of(&key(1), "nameisthis", 500),
        listing,
        mpl_core_program: Address::new(MPL_CORE_ID),
    };
    let effects = delist(&d, &pid()).unwrap();
    match &effects[0] {
        Effect::TransferAsset { asset: a, new_owner, authority, .. } => {
            assert_eq!(a.bytes, asset.to_bytes());
            assert_eq!(new_owner.bytes, seller.to_bytes());
            assert_eq!(authority.unwrap().bytes, d.listing.key.bytes);
        },
        _ => panic!("expected the asset's return"),
    }
    match &effects[1] {
        Effect::Close { account, destination } => {
            assert_eq!(account.bytes, d.listing.key.bytes);
            assert_eq!(destination.bytes, seller.to_bytes());
        },
        _ => panic!("expected the listing to close"),
    }
}

#[test]
fn delist_refuses_another_core_program() {
    let seller = key(1);
    let asset = key(3);
    let d = Delist {
        maker: addr(&seller),
        asset: addr(&asset),
        collection: None,
        maketplace: marketplace_of(&key(1), "nameisthis", 500),
        listing: listing_of(&seller, &asset, 100),
        mpl_core_program: addr(&key(7)),
    };
    assert_eq!(delist(&d, &pid()).unwrap_err(), Error::ConstraintAddress);
}

#[test]
fn withdraw_fee_pays_the_admin_within_the_treasury() {
    let admin = key(1);
    let market = marketplace_of(&admin, "nameisthis", 500);
    let treasury = treasury_of(&market.key, 5_000);
    let w = WithdrawFee { admin: addr(&admin), maketplace: market, treasury };
    let effects = withdraw_fee(&w, &pid(), 5_000).unwrap();
    match &effects[0] {
        Effect::Transfer { from, to, lamports, signer_seeds } => {
            assert_eq!(from.bytes, treasury.key.bytes);
            assert_eq!(to.bytes, admin.to_bytes());
            assert_eq!(*lamports, 5_000);
            assert_eq!(
                signer_seeds,
                &vec![
                    b"treasury".to_vec(),
                    w.maketplace.key.bytes.to_vec(),
                    vec![w.maketplace.data.treasury_bump],
                ]
            );
        },
        _ => panic!("expected the payout"),
    }
}

#[test]
fn withdraw_fee_refuses_more_than_the_treasury_holds() {
    let admin = key(1);
    let market = marketplace_of(&admin, "nameisthis", 500);
    let treasury = treasury_of(&market.key, 5_000);
    let w = WithdrawFee { admin: addr(&admin), maketplace: market, treasury };
    assert_eq!(
        withdraw_fee(&w, &pid(), 5_001).unwrap_err(),
        Error::Program(ErrorCode::AmountTooMuch)
    );
}

#[test]
fn only_the_admin_withdraws() {
    let market = marketplace_of(&key(1), "nameisthis", 500);
    let treasury = treasury_of(&market.key, 5_000);
    let w = WithdrawFee { admin: addr(&key(2)), maketplace: market, treasury };
    assert_eq!(withdraw_fee(&w, &pid(), 1).unwrap_err(), Error::ConstraintHasOne);
}
