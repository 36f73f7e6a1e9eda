use vstd::prelude::*;
use crate::effects::{empty_seeds, no_seeds, Effect, EffectView};
use crate::error::Error;
use crate::constraints::{check_found_address, check_mpl_core_program, found_bump, is_found_address};
use crate::pda::{canonical_bump, listing_seeds, listing_seeds_spec};
use crate::state::{Account, Address, Listing, MPL_CORE_ID};

verus! {

/// The bump seed found for the listing's address.
#[derive(Clone, Copy, Debug, PartialEq, Eq, Structural)]
pub struct ListBumps {
    pub listing: u8,
}

/// The accounts of the instruction that puts an asset up for sale.
pub struct List {
    pub maker: Address,
    pub asset: Address,
    pub collection: Option<Address>,
    pub listing: Account<Listing>,
    pub mpl_core_program: Address,
}

impl List {
    /// The first constraint that the accounts break, or `None`.
    pub open spec fn violation(&self, program_id: Seq<u8>) -> Option<Error> {
        if !is_found_address(self.listing.key@, listing_seeds_spec(self.asset@), program_id) {
            Some(Error::ConstraintSeeds)
        } else if self.mpl_core_program@ != MPL_CORE_ID@ {
            Some(Error::ConstraintAddress)
        } else {
            None
        }
    }

    /// Checks that the listing is the address derived from the asset, then
    /// that the core program is the Metaplex Core program, and returns the
    /// listing's bump.
    ///
    /// Should no bump at all give an address (a chance of about 2^-255),
    /// the seeds constraint is reported.
    pub fn validate(&self, program_id: &Address) -> (r: Result<ListBumps, Error>)
        ensures
            r is Ok <==> self.violation(program_id@) is None,
            r matches Ok(b) ==> b.listing == found_bump(listing_seeds_spec(self.asset@), program_id@),
            r matches Ok(b) ==> canonical_bump(self.listing.key@, listing_seeds_spec(self.asset@), b.listing, program_id@),
            r matches Err(e) ==> self.violation(program_id@) == Some(e),
    {
        let listing = check_found_address(&self.listing.key, &listing_seeds(&self.asset), program_id)?;
        check_mpl_core_program(&self.mpl_core_program)?;
        Ok(ListBumps { listing })
    }

    /// The move of the asset from its maker into the listing's keeping.
    pub open spec fn escrow(&self) -> EffectView {
        EffectView::TransferAsset {
            asset: self.asset@,
            collection: self.collection.deep_view(),
            payer: self.maker@,
            authority: None,
            new_owner: self.listing.key@,
            signer_seeds: no_seeds(),
        }
    }

    /// Records the listing of the asset at `price`, not yet sold, and moves
    /// the asset from its maker into the listing's keeping.
    pub fn create_list(&mut self, price: u64, bumps: ListBumps) -> (effects: Vec<Effect>)
        ensures
            final(self).maker == old(self).maker,
            final(self).asset == old(self).asset,
            final(self).collection == old(self).collection,
            final(self).mpl_core_program == old(self).mpl_core_program,
            final(self).listing.key == old(self).listing.key,
            final(self).listing.data.maker == old(self).maker,
            final(self).listing.data.asset == old(self).asset,
            final(self).listing.data.price == price,
            !final(self).listing.data.solded,
            final(self).listing.data.bump == bumps.listing,
            effects.deep_view() == seq![
                EffectView::TransferAsset {
                    asset: old(self).asset@,
                    collection: old(self).collection.deep_view(),
                    payer: old(self).maker@,
                    authority: None,
                    new_owner: old(self).listing.key@,
                    signer_seeds: no_seeds(),
                },
            ],
    {
        self.listing.data = Listing {
            maker: self.maker,
            asset: self.asset,
            price,
            solded: false,
            bump: bumps.listing,
        };
        let mut effects: Vec<Effect> = Vec::new();
        effects.push(
            Effect::TransferAsset {
                asset: self.asset,
                collection: self.collection,
                payer: self.maker,
                authority: None,
                new_owner: self.listing.key,
                signer_seeds: empty_seeds(),
            },
        );
        assert(effects.deep_view() =~~= seq![
            EffectView::TransferAsset {
                asset: old(self).asset@,
                collection: old(self).collection.deep_view(),
                payer: old(self).maker@,
                authority: None,
                new_owner: old(self).listing.key@,
                signer_seeds: no_seeds(),
            },
        ]);
        effects
    }
}

} // verus!
