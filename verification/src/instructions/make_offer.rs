use vstd::prelude::*;
use crate::constraints::{check_derived, check_found_address, found_bump, is_found_address};
use crate::effects::{empty_seeds, no_seeds, Effect, EffectView};
use crate::error::Error;
use crate::pda::{canonical_bump, derives, listing_seeds, listing_seeds_spec, offer_seeds, offer_seeds_spec, offer_vault_seeds, offer_vault_seeds_spec};
use crate::state::{Account, Address, Listing, Offer};

verus! {

/// The bump seeds found for the offer and its vault.
#[derive(Clone, Copy, Debug, PartialEq, Eq, Structural)]
pub struct MakeOfferBumps {
    pub offer: u8,
    pub offer_vault: u8,
}

/// The accounts of the instruction that offers a price for a listed asset.
pub struct MakeOffer {
    pub maker: Address,
    pub offer: Account<Offer>,
    pub offer_vault: Address,
    pub listing: Account<Listing>,
}

impl MakeOffer {
    /// The first constraint that the accounts break, or `None`: the offer,
    /// which is created here, comes first.
    pub open spec fn violation(&self, program_id: Seq<u8>) -> Option<Error> {
        let l = self.listing;
        if !is_found_address(self.offer.key@, offer_seeds_spec(l.key@, self.maker@), program_id) {
            Some(Error::ConstraintSeeds)
        } else if !is_found_address(self.offer_vault@, offer_vault_seeds_spec(self.offer.key@), program_id) {
            Some(Error::ConstraintSeeds)
        } else if !derives(l.key@, listing_seeds_spec(l.data.asset@), l.data.bump, program_id) {
            Some(Error::ConstraintSeeds)
        } else {
            None
        }
    }

    /// The bumps that the constraints find.
    pub open spec fn spec_bumps(&self, program_id: Seq<u8>) -> MakeOfferBumps {
        MakeOfferBumps {
            offer: found_bump(offer_seeds_spec(self.listing.key@, self.maker@), program_id),
            offer_vault: found_bump(offer_vault_seeds_spec(self.offer.key@), program_id),
        }
    }

    /// Checks the constraints on the accounts, in order, reports the first
    /// that fails, and returns the bumps found.
    ///
    /// Should no bump at all give an address (a chance of about 2^-255),
    /// the seeds constraint is reported.
    pub fn validate(&self, program_id: &Address) -> (r: Result<MakeOfferBumps, Error>)
        ensures
            r matches Err(e) ==> self.violation(program_id@) == Some(e),
            r is Ok <==> self.violation(program_id@) is None,
            r matches Ok(b) ==> b == self.spec_bumps(program_id@),
            r matches Ok(b) ==> {
                &&& canonical_bump(
                    self.offer.key@,
                    offer_seeds_spec(self.listing.key@, self.maker@),
                    b.offer,
                    program_id@,
                )
                &&& canonical_bump(self.offer_vault@, offer_vault_seeds_spec(self.offer.key@), b.offer_vault, program_id@)
            },
    {
        let offer = check_found_address(
            &self.offer.key,
            &offer_seeds(&self.listing.key, &self.maker),
            program_id,
        )?;
        let offer_vault = check_found_address(
            &self.offer_vault,
            &offer_vault_seeds(&self.offer.key),
            program_id,
        )?;
        check_derived(
            &self.listing.key,
            listing_seeds(&self.listing.data.asset),
            self.listing.data.bump,
            program_id,
        )?;
        Ok(MakeOfferBumps { offer, offer_vault })
    }

    /// The deposit of the offered price into the vault.
    pub open spec fn deposit(&self, price: u64) -> EffectView {
        EffectView::Transfer {
            from: self.maker@,
            to: self.offer_vault@,
            lamports: price,
            signer_seeds: no_seeds(),
        }
    }

    /// Moves `price` lamports from the offer's maker into the vault, and
    /// records the offer, not yet accepted.
    pub fn make_offer(&mut self, price: u64, bumps: MakeOfferBumps) -> (effects: Vec<Effect>)
        ensures
            final(self).maker == old(self).maker,
            final(self).offer_vault == old(self).offer_vault,
            final(self).listing == old(self).listing,
            final(self).offer.key == old(self).offer.key,
            final(self).offer.data == (Offer {
                listing: old(self).listing.key,
                offer_maker: old(self).maker,
                price,
                accepted: false,
                bump: bumps.offer,
                vault_bump: bumps.offer_vault,
            }),
            effects.deep_view() == seq![old(self).deposit(price)],
    {
        let mut effects: Vec<Effect> = Vec::new();
        effects.push(
            Effect::Transfer {
                from: self.maker,
                to: self.offer_vault,
                lamports: price,
                signer_seeds: empty_seeds(),
            },
        );
        self.offer.data = Offer {
            listing: self.listing.key,
            offer_maker: self.maker,
            price,
            accepted: false,
            bump: bumps.offer,
            vault_bump: bumps.offer_vault,
        };
        assert(effects.deep_view() =~~= seq![old(self).deposit(price)]);
        effects
    }
}

} // verus!
