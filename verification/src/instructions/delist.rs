use vstd::prelude::*;
use crate::constraints::{check_close, check_derived, check_has_one, check_mpl_core_program};
use crate::effects::{Effect, EffectView};
use crate::error::Error;
use crate::instructions::buy::listing_signer_seeds;
use crate::pda::{derives, listing_seeds, listing_seeds_spec, marketplace_seeds, marketplace_seeds_spec, with_bump};
use crate::state::{Account, Address, Listing, MarketPlace, MPL_CORE_ID};

verus! {

/// The accounts of the instruction that withdraws an asset from sale.
pub struct Delist {
    pub maker: Address,
    pub asset: Address,
    pub collection: Option<Address>,
    pub maketplace: Account<MarketPlace>,
    pub listing: Account<Listing>,
    pub mpl_core_program: Address,
}

impl Delist {
    /// The first constraint that the accounts break, or `None`.
    pub open spec fn violation(&self, program_id: Seq<u8>) -> Option<Error> {
        let m = self.maketplace;
        let l = self.listing;
        if !derives(m.key@, marketplace_seeds_spec(m.data.name@), m.data.bump, program_id) {
            Some(Error::ConstraintSeeds)
        } else if !derives(l.key@, listing_seeds_spec(l.data.asset@), l.data.bump, program_id) {
            Some(Error::ConstraintSeeds)
        } else if l.data.maker@ != self.maker@ {
            Some(Error::ConstraintHasOne)
        } else if l.data.asset@ != self.asset@ {
            Some(Error::ConstraintHasOne)
        } else if l.key@ == self.maker@ {
            Some(Error::ConstraintClose)
        } else if self.mpl_core_program@ != MPL_CORE_ID@ {
            Some(Error::ConstraintAddress)
        } else {
            None
        }
    }

    /// Checks the constraints on the accounts, in order, and reports the
    /// first that fails.
    pub fn validate(&self, program_id: &Address) -> (r: Result<(), Error>)
        ensures
            r matches Err(e) ==> self.violation(program_id@) == Some(e),
            r is Ok <==> self.violation(program_id@) is None,
    {
        check_derived(
            &self.maketplace.key,
            marketplace_seeds(&self.maketplace.data.name),
            self.maketplace.data.bump,
            program_id,
        )?;
        check_derived(
            &self.listing.key,
            listing_seeds(&self.listing.data.asset),
            self.listing.data.bump,
            program_id,
        )?;
        check_has_one(&self.listing.data.maker, &self.maker)?;
        check_has_one(&self.listing.data.asset, &self.asset)?;
        check_close(&self.listing.key, &self.maker)?;
        check_mpl_core_program(&self.mpl_core_program)
    }

    /// The asset's return from the listing's keeping to its maker.
    pub open spec fn return_of_asset(&self) -> EffectView {
        EffectView::TransferAsset {
            asset: self.asset@,
            collection: self.collection.deep_view(),
            payer: self.maker@,
            authority: Some(self.listing.key@),
            new_owner: self.maker@,
            signer_seeds: with_bump(listing_seeds_spec(self.asset@), self.listing.data.bump),
        }
    }

    /// Everything taking the asset off sale hands to other programs: the
    /// asset's return, then the closing of the listing, whose rent goes back
    /// to its maker.
    pub open spec fn unlisting(&self) -> Seq<EffectView> {
        seq![
            self.return_of_asset(),
            EffectView::Close { account: self.listing.key@, destination: self.maker@ },
        ]
    }

    /// Gives the asset back to its maker; the listing signs for it.
    pub fn refund(&self) -> (effect: Effect)
        ensures
            effect.deep_view() == self.return_of_asset(),
    {
        Effect::TransferAsset {
            asset: self.asset,
            collection: self.collection,
            payer: self.maker,
            authority: Some(self.listing.key),
            new_owner: self.maker,
            signer_seeds: listing_signer_seeds(&self.asset, self.listing.data.bump),
        }
    }
}

} // verus!
