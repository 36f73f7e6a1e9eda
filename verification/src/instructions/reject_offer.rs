use vstd::prelude::*;
use crate::constraints::{check_close, check_derived, check_has_one};
use crate::effects::{Effect, EffectView};
use crate::error::Error;
use crate::pda::{
    derives,
    listing_seeds,
    listing_seeds_spec,
    offer_seeds,
    offer_seeds_spec,
    offer_vault_seeds,
    offer_vault_seeds_spec,
    push_bump,
    with_bump,
};
use crate::state::{Account, Address, Listing, Offer, SystemAccount};

verus! {

/// The accounts of the instruction by which a seller turns an offer down.
pub struct RejectOffer {
    pub maker: Address,
    pub offer_maker: Address,
    pub offer: Account<Offer>,
    pub offer_vault: SystemAccount,
    pub listing: Account<Listing>,
}

/// The seeds with which an offer's vault signs.
pub fn vault_signer_seeds(offer: &Address, vault_bump: u8) -> (seeds: Vec<Vec<u8>>)
    ensures
        seeds.deep_view() == with_bump(offer_vault_seeds_spec(offer@), vault_bump),
{
    let mut seeds = offer_vault_seeds(offer);
    push_bump(&mut seeds, vault_bump);
    seeds
}

impl RejectOffer {
    /// The first constraint that the accounts break, or `None`: the offer's
    /// own, then the vault's address, then the listing's.
    pub open spec fn violation(&self, program_id: Seq<u8>) -> Option<Error> {
        let o = self.offer.data;
        let l = self.listing.data;
        if !derives(self.offer.key@, offer_seeds_spec(o.listing@, o.offer_maker@), o.bump, program_id) {
            Some(Error::ConstraintSeeds)
        } else if o.offer_maker@ != self.offer_maker@ {
            Some(Error::ConstraintHasOne)
        } else if o.listing@ != self.listing.key@ {
            Some(Error::ConstraintHasOne)
        } else if self.offer.key@ == self.offer_maker@ {
            Some(Error::ConstraintClose)
        } else if !derives(
            self.offer_vault.key@,
            offer_vault_seeds_spec(self.offer.key@),
            o.vault_bump,
            program_id,
        ) {
            Some(Error::ConstraintSeeds)
        } else if !derives(self.listing.key@, listing_seeds_spec(l.asset@), l.bump, program_id) {
            Some(Error::ConstraintSeeds)
        } else if l.maker@ != self.maker@ {
            Some(Error::ConstraintHasOne)
        } else {
            None
        }
    }

    /// Checks the constraints on the accounts, in order, and reports the
    /// first that fails.
    pub fn validate(&self, program_id: &Address) -> (r: Result<(), Error>)
        ensures
            r matches Err(e) ==> self.violation(program_id@) == Some(e),
            r is Ok <==> self.violation(program_id@) is None,
    {
        check_derived(
            &self.offer.key,
            offer_seeds(&self.offer.data.listing, &self.offer.data.offer_maker),
            self.offer.data.bump,
            program_id,
        )?;
        check_has_one(&self.offer.data.offer_maker, &self.offer_maker)?;
        check_has_one(&self.offer.data.listing, &self.listing.key)?;
        check_close(&self.offer.key, &self.offer_maker)?;
        check_derived(
            &self.offer_vault.key,
            offer_vault_seeds(&self.offer.key),
            self.offer.data.vault_bump,
            program_id,
        )?;
        check_derived(
            &self.listing.key,
            listing_seeds(&self.listing.data.asset),
            self.listing.data.bump,
            program_id,
        )?;
        check_has_one(&self.listing.data.maker, &self.maker)
    }

    /// The refund of the whole vault to the offer's maker, signed by the vault.
    pub open spec fn refund(&self) -> EffectView {
        EffectView::Transfer {
            from: self.offer_vault.key@,
            to: self.offer_maker@,
            lamports: self.offer_vault.lamports,
            signer_seeds: with_bump(offer_vault_seeds_spec(self.offer.key@), self.offer.data.vault_bump),
        }
    }

    /// Everything turning the offer down hands to other programs: the refund
    /// of the vault, then the closing of the offer, whose rent goes back to
    /// its maker.
    pub open spec fn rejection(&self) -> Seq<EffectView> {
        seq![
            self.refund(),
            EffectView::Close { account: self.offer.key@, destination: self.offer_maker@ },
        ]
    }

    /// Sends everything the vault holds back to the offer's maker.
    pub fn reject_offer(&self) -> (effect: Effect)
        ensures
            effect.deep_view() == self.refund(),
    {
        Effect::Transfer {
            from: self.offer_vault.key,
            to: self.offer_maker,
            lamports: self.offer_vault.lamports,
            signer_seeds: vault_signer_seeds(&self.offer.key, self.offer.data.vault_bump),
        }
    }

    /// The effect that closes the offer, whose rent goes to its maker.
    pub fn close(&self) -> (effect: Effect)
        ensures
            effect.deep_view() == (EffectView::Close {
                account: self.offer.key@,
                destination: self.offer_maker@,
            }),
    {
        Effect::Close { account: self.offer.key, destination: self.offer_maker }
    }
}

} // verus!
