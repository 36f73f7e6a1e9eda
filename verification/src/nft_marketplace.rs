//! The instructions of the program: each checks its accounts' constraints,
//! in the order declared, then does its work. What the work hands to other
//! programs comes back as a list of effects, for the caller to perform in
//! order; an instruction that is refused changes nothing and hands nothing on.

use vstd::prelude::*;
use crate::effects::{owners_after, Effect, Owners};
use crate::error::{Error, ErrorCode};
use crate::fees::fee_as_u64;
use crate::instructions::accept_offer::AcceptOffer;
use crate::instructions::buy::Buy;
use crate::instructions::close_offer::CloseOffer;
use crate::instructions::delist::Delist;
use crate::instructions::initialize::Initialize;
use crate::instructions::list::List;
use crate::instructions::make_offer::MakeOffer;
use crate::instructions::reject_offer::RejectOffer;
use crate::instructions::withdraw_fee::WithdrawFee;
use crate::constraints::found_bump;
use crate::pda::{canonical_bump, listing_seeds_spec, marketplace_seeds_spec, offer_seeds_spec, offer_vault_seeds_spec, treasury_seeds_spec};
use crate::state::{utf8_bytes, Address, Listing, Offer};

verus! {

/// Creates the marketplace called `name`, taking `fee` basis points of every
/// sale, administered by the signer.
///
/// A name longer than 32 bytes cannot seed the marketplace's address; the
/// instruction aborts on it before any check, so it is not admitted here.
pub fn initliaze(accounts: &mut Initialize, program_id: &Address, name: String, fee: u16) -> (r:
    Result<(), Error>)
    requires
        utf8_bytes(name@).len() <= 32,
    ensures
        final(accounts).admin == old(accounts).admin,
        final(accounts).treasury == old(accounts).treasury,
        final(accounts).reward_mint == old(accounts).reward_mint,
        final(accounts).maketplace.key == old(accounts).maketplace.key,
        !old(accounts).constraints_hold(name@, program_id@) ==> r == Err::<(), Error>(
            Error::ConstraintSeeds,
        ),
        old(accounts).constraints_hold(name@, program_id@) && fee > 10_000 ==> r == Err::<(), Error>(
            Error::Program(ErrorCode::InvalidFee),
        ),
        r is Ok <==> old(accounts).constraints_hold(name@, program_id@) && fee <= 10_000,
        r is Err ==> final(accounts).maketplace.data == old(accounts).maketplace.data,
        r is Ok ==> {
            let m = final(accounts).maketplace;
            let bumps = old(accounts).spec_bumps(name@, program_id@);
            &&& m.data.admin == old(accounts).admin
            &&& m.data.fee == fee
            &&& m.data.name@ == name@
            &&& m.data.bump == bumps.maketplace
            &&& m.data.treasury_bump == bumps.treasury
            &&& m.data.reward_bump == bumps.reward_mint
            &&& m.data.wf()
            &&& canonical_bump(m.key@, marketplace_seeds_spec(m.data.name@), m.data.bump, program_id@)
            &&& canonical_bump(
                final(accounts).treasury@,
                treasury_seeds_spec(m.key@),
                m.data.treasury_bump,
                program_id@,
            )
        },
{
    let bumps = accounts.validate(&name, program_id)?;
    accounts.initialize(name, fee, bumps)
}

/// Puts the asset up for sale at `price`: records the listing and moves the
/// asset into its keeping.
pub fn list(accounts: &mut List, program_id: &Address, price: u64) -> (r: Result<Vec<Effect>, Error>)
    ensures
        r matches Err(e) ==> old(accounts).violation(program_id@) == Some(e),
        r is Ok <==> old(accounts).violation(program_id@) is None,
        r is Err ==> final(accounts).listing.data == old(accounts).listing.data,
        final(accounts).listing.key == old(accounts).listing.key,
        final(accounts).maker == old(accounts).maker,
        final(accounts).asset == old(accounts).asset,
        r matches Ok(effects) ==> {
            let l = final(accounts).listing;
            &&& l.data.maker == old(accounts).maker
            &&& l.data.asset == old(accounts).asset
            &&& l.data.price == price
            &&& !l.data.solded
            &&& l.data.bump == found_bump(listing_seeds_spec(l.data.asset@), program_id@)
            &&& canonical_bump(l.key@, listing_seeds_spec(l.data.asset@), l.data.bump, program_id@)
            &&& effects.deep_view() == seq![old(accounts).escrow()]
            &&& forall|owners: Owners|
                #[trigger] owners_after(effects.deep_view(), owners)(old(accounts).asset@)
                    == old(accounts).listing.key@
        },
{
    proof {
        assert forall|owners: Owners|
            #[trigger] owners_after(seq![old(accounts).escrow()], owners)(old(accounts).asset@)
                == old(accounts).listing.key@ by {
            crate::laws::lemma_list_escrows_the_asset_with_its_collection(*old(accounts), owners);
        }
    }
    let bumps = accounts.validate(program_id)?;
    Ok(accounts.create_list(price, bumps))
}

/// Buys the listed asset: creates the buyer's reward account where needed,
/// pays the seller and the treasury, delivers the asset, mints the buyer's
/// reward and closes the listing.
///
/// Accounts that pass their checks must carry a fee the price can pay: the
/// instruction aborts on any other, in the seller's share. Every marketplace
/// that initialization records meets this (see
/// `crate::laws::lemma_marketplace_stays_well_formed`); `try_buy` tests it.
pub fn buy(accounts: &Buy, program_id: &Address) -> (r: Result<Vec<Effect>, Error>)
    requires
        accounts.violation(program_id@) is None ==> fee_as_u64(
            accounts.listing.data.price,
            accounts.maketplace.data.fee,
        ) <= accounts.listing.data.price,
    ensures
        r matches Err(e) ==> accounts.violation(program_id@) == Some(e),
        r is Ok <==> accounts.violation(program_id@) is None,
        r matches Ok(effects) ==> effects.deep_view() == accounts.sale(),
        r matches Ok(effects) ==> forall|owners: Owners|
            #[trigger] owners_after(effects.deep_view(), owners)(accounts.asset@) == accounts.taker@,
{
    proof {
        assert forall|owners: Owners|
            #[trigger] owners_after(accounts.sale(), owners)(accounts.asset@) == accounts.taker@ by {
            crate::laws::lemma_sale_delivers_the_asset_to_the_buyer(*accounts, owners);
        }
    }
    accounts.validate(program_id)?;
    let mut effects: Vec<Effect> = Vec::new();
    if accounts.take_reward_ata.state.is_none() {
        effects.push(
            Effect::CreateAssociatedToken {
                payer: accounts.taker,
                associated_token: accounts.take_reward_ata.key,
                wallet: accounts.taker,
                mint: accounts.reward_mint.key,
                token_program: accounts.token_program,
            },
        );
    }
    let mut payments = accounts.send_sol();
    effects.append(&mut payments);
    effects.push(accounts.receive_nft());
    effects.push(accounts.receive_rewards());
    effects.push(Effect::Close { account: accounts.listing.key, destination: accounts.maker });
    assert(effects.deep_view() =~= accounts.sale());
    Ok(effects)
}

/// Buys the listed asset, as `buy` does, on all accounts: `None` where the
/// accounts pass their checks but the marketplace's fee exceeds the price,
/// so that the seller's share cannot be formed and the instruction aborts.
pub fn try_buy(accounts: &Buy, program_id: &Address) -> (r: Option<Result<Vec<Effect>, Error>>)
    ensures
        r is None <==> accounts.violation(program_id@) is None && fee_as_u64(
            accounts.listing.data.price,
            accounts.maketplace.data.fee,
        ) > accounts.listing.data.price,
        r matches Some(Err(e)) ==> accounts.violation(program_id@) == Some(e),
        r matches Some(Ok(effects)) ==> accounts.violation(program_id@) is None
            && effects.deep_view() == accounts.sale(),
{
    if let Err(e) = accounts.validate(program_id) {
        return Some(Err(e));
    }
    let price = accounts.listing.data.price;
    if crate::fees::marketplace_fee(price, accounts.maketplace.data.fee) > price {
        return None;
    }
    Some(buy(accounts, program_id))
}

/// Takes the asset off sale: gives it back to its maker and closes the
/// listing.
pub fn delist(accounts: &Delist, program_id: &Address) -> (r: Result<Vec<Effect>, Error>)
    ensures
        r matches Err(e) ==> accounts.violation(program_id@) == Some(e),
        r is Ok <==> accounts.violation(program_id@) is None,
        r matches Ok(effects) ==> effects.deep_view() == accounts.unlisting(),
        r matches Ok(effects) ==> forall|owners: Owners|
            #[trigger] owners_after(effects.deep_view(), owners)(accounts.asset@) == accounts.maker@,
{
    proof {
        assert forall|owners: Owners|
            #[trigger] owners_after(accounts.unlisting(), owners)(accounts.asset@) == accounts.maker@ by {
            crate::laws::lemma_delist_returns_the_asset_with_its_collection(*accounts, owners);
        }
    }
    accounts.validate(program_id)?;
    let mut effects: Vec<Effect> = Vec::new();
    effects.push(accounts.refund());
    effects.push(Effect::Close { account: accounts.listing.key, destination: accounts.maker });
    assert(effects.deep_view() =~= accounts.unlisting());
    Ok(effects)
}

/// Offers `price` lamports for a listed asset: the price goes into the
/// offer's vault and the offer is recorded.
pub fn maker_offer(accounts: &mut MakeOffer, program_id: &Address, price: u64) -> (r: Result<
    Vec<Effect>,
    Error,
>)
    ensures
        r matches Err(e) ==> old(accounts).violation(program_id@) == Some(e),
        r is Ok <==> old(accounts).violation(program_id@) is None,
        r is Err ==> final(accounts).offer.data == old(accounts).offer.data,
        final(accounts).offer.key == old(accounts).offer.key,
        final(accounts).offer_vault == old(accounts).offer_vault,
        final(accounts).maker == old(accounts).maker,
        final(accounts).listing == old(accounts).listing,
        r matches Ok(effects) ==> {
            let o = final(accounts).offer;
            &&& o.data.listing == old(accounts).listing.key
            &&& o.data.offer_maker == old(accounts).maker
            &&& o.data.price == price
            &&& !o.data.accepted
            &&& o.data.bump == found_bump(offer_seeds_spec(o.data.listing@, o.data.offer_maker@), program_id@)
            &&& o.data.vault_bump == found_bump(offer_vault_seeds_spec(o.key@), program_id@)
            &&& canonical_bump(o.key@, offer_seeds_spec(o.data.listing@, o.data.offer_maker@), o.data.bump, program_id@)
            &&& canonical_bump(
                final(accounts).offer_vault@,
                offer_vault_seeds_spec(o.key@),
                o.data.vault_bump,
                program_id@,
            )
            &&& effects.deep_view() == seq![old(accounts).deposit(price)]
        },
{
    let bumps = accounts.validate(program_id)?;
    Ok(accounts.make_offer(price, bumps))
}

/// Accepts an offer: the offer is marked accepted and the listing sold.
pub fn accept_offer(accounts: &mut AcceptOffer, program_id: &Address) -> (r: Result<(), Error>)
    ensures
        r matches Err(e) ==> old(accounts).violation(program_id@) == Some(e),
        r is Ok <==> old(accounts).violation(program_id@) is None,
        final(accounts).maker == old(accounts).maker,
        final(accounts).offer_maker == old(accounts).offer_maker,
        final(accounts).offer.key == old(accounts).offer.key,
        final(accounts).listing.key == old(accounts).listing.key,
        r is Err ==> final(accounts).offer.data == old(accounts).offer.data
            && final(accounts).listing.data == old(accounts).listing.data,
        r is Ok ==> final(accounts).offer.data == (Offer { accepted: true, ..old(accounts).offer.data })
            && final(accounts).listing.data == (Listing { solded: true, ..old(accounts).listing.data }),
{
    accounts.validate(program_id)?;
    accounts.accept_offer()
}

/// Withdraws an offer: the listing is put back on sale, everything in the
/// offer's vault goes back to the offer's maker, and the offer is closed.
pub fn close_offer(accounts: &mut CloseOffer, program_id: &Address) -> (r: Result<Vec<Effect>, Error>)
    ensures
        r matches Err(e) ==> old(accounts).violation(program_id@) == Some(e),
        r is Ok <==> old(accounts).violation(program_id@) is None,
        final(accounts).maker == old(accounts).maker,
        final(accounts).offer_maker == old(accounts).offer_maker,
        final(accounts).offer == old(accounts).offer,
        final(accounts).offer_vault == old(accounts).offer_vault,
        final(accounts).listing.key == old(accounts).listing.key,
        r is Err ==> final(accounts).listing.data == old(accounts).listing.data,
        r matches Ok(effects) ==> final(accounts).listing.data == (Listing {
            solded: false,
            ..old(accounts).listing.data
        }) && effects.deep_view() == old(accounts).withdrawal(),
{
    accounts.validate(program_id)?;
    accounts.close_offer()?;
    let mut effects: Vec<Effect> = Vec::new();
    effects.push(accounts.refund_vault());
    effects.push(accounts.close());
    assert(effects.deep_view() =~= old(accounts).withdrawal());
    Ok(effects)
}

/// Pays `amount` lamports of collected fees from the treasury to the admin.
pub fn withdraw_fee(accounts: &WithdrawFee, program_id: &Address, amount: u64) -> (r: Result<
    Vec<Effect>,
    Error,
>)
    ensures
        accounts.violation(program_id@) is Some ==> (r matches Err(e) && Some(e) == accounts.violation(
            program_id@,
        )),
        accounts.violation(program_id@) is None && amount > accounts.treasury.lamports ==> (r matches Err(
            e,
        ) && e == Error::Program(ErrorCode::AmountTooMuch)),
        r is Ok <==> accounts.violation(program_id@) is None && amount <= accounts.treasury.lamports,
        r matches Ok(effects) ==> effects.deep_view() == seq![accounts.payout(amount)],
{
    accounts.validate(program_id)?;
    let payout = accounts.withdraw_fee(amount)?;
    let mut effects: Vec<Effect> = Vec::new();
    effects.push(payout);
    assert(effects.deep_view() =~= seq![accounts.payout(amount)]);
    Ok(effects)
}

/// Turns an offer down: everything in its vault goes back to the offer's
/// maker, and the offer is closed.
pub fn reject_offer(accounts: &RejectOffer, program_id: &Address) -> (r: Result<Vec<Effect>, Error>)
    ensures
        r matches Err(e) ==> accounts.violation(program_id@) == Some(e),
        r is Ok <==> accounts.violation(program_id@) is None,
        r matches Ok(effects) ==> effects.deep_view() == accounts.rejection(),
{
    accounts.validate(program_id)?;
    let mut effects: Vec<Effect> = Vec::new();
    effects.push(accounts.reject_offer());
    effects.push(accounts.close());
    assert(effects.deep_view() =~= accounts.rejection());
    Ok(effects)
}

} // verus!
