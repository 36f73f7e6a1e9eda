use vstd::prelude::*;
use crate::constraints::{check_derived, check_has_one};
use crate::error::Error;
use crate::pda::{derives, listing_seeds, listing_seeds_spec, offer_seeds, offer_seeds_spec};
use crate::state::{Account, Address, Listing, Offer};

verus! {

/// The accounts of the instruction by which a seller accepts an offer.
pub struct AcceptOffer {
    pub maker: Address,
    pub offer_maker: Address,
    pub offer: Account<Offer>,
    pub listing: Account<Listing>,
}

/// The first constraint broken by an offer and its listing, as acceptance
/// checks them: the offer's own address, its maker, its listing, then the
/// listing's address and its maker.
pub open spec fn offer_violation(
    maker: Address,
    offer_maker: Address,
    offer: Account<Offer>,
    listing: Account<Listing>,
    program_id: Seq<u8>,
) -> Option<Error> {
    let o = offer.data;
    let l = listing.data;
    if !derives(offer.key@, offer_seeds_spec(o.listing@, o.offer_maker@), o.bump, program_id) {
        Some(Error::ConstraintSeeds)
    } else if o.offer_maker@ != offer_maker@ {
        Some(Error::ConstraintHasOne)
    } else if o.listing@ != listing.key@ {
        Some(Error::ConstraintHasOne)
    } else if !derives(listing.key@, listing_seeds_spec(l.asset@), l.bump, program_id) {
        Some(Error::ConstraintSeeds)
    } else if l.maker@ != maker@ {
        Some(Error::ConstraintHasOne)
    } else {
        None
    }
}

/// Checks the offer's constraints and then the listing's.
pub fn check_offer_accounts(
    maker: &Address,
    offer_maker: &Address,
    offer: &Account<Offer>,
    listing: &Account<Listing>,
    program_id: &Address,
) -> (r: Result<(), Error>)
    ensures
        r matches Err(e) ==> offer_violation(*maker, *offer_maker, *offer, *listing, program_id@)
            == Some(e),
        r is Ok <==> offer_violation(*maker, *offer_maker, *offer, *listing, program_id@) is None,
{
    check_derived(
        &offer.key,
        offer_seeds(&offer.data.listing, &offer.data.offer_maker),
        offer.data.bump,
        program_id,
    )?;
    check_has_one(&offer.data.offer_maker, offer_maker)?;
    check_has_one(&offer.data.listing, &listing.key)?;
    check_derived(&listing.key, listing_seeds(&listing.data.asset), listing.data.bump, program_id)?;
    check_has_one(&listing.data.maker, maker)
}

impl AcceptOffer {
    /// The first constraint that the accounts break, or `None`.
    pub open spec fn violation(&self, program_id: Seq<u8>) -> Option<Error> {
        offer_violation(self.maker, self.offer_maker, self.offer, self.listing, program_id)
    }

    /// Checks the constraints on the accounts, in order, and reports the
    /// first that fails.
    pub fn validate(&self, program_id: &Address) -> (r: Result<(), Error>)
        ensures
            r matches Err(e) ==> self.violation(program_id@) == Some(e),
            r is Ok <==> self.violation(program_id@) is None,
    {
        check_offer_accounts(&self.maker, &self.offer_maker, &self.offer, &self.listing, program_id)
    }

    /// Marks the offer accepted and the listing sold; nothing else changes.
    pub fn accept_offer(&mut self) -> (r: Result<(), Error>)
        ensures
            r is Ok,
            final(self).maker == old(self).maker,
            final(self).offer_maker == old(self).offer_maker,
            final(self).offer.key == old(self).offer.key,
            final(self).listing.key == old(self).listing.key,
            final(self).offer.data == (Offer { accepted: true, ..old(self).offer.data }),
            final(self).listing.data == (Listing { solded: true, ..old(self).listing.data }),
    {
        self.offer.data.accepted = true;
        self.listing.data.solded = true;
        Ok(())
    }
}

} // verus!
