use vstd::prelude::*;
use crate::constraints::{check_derived, check_has_one};
use crate::effects::{Effect, EffectView};
use crate::error::{Error, ErrorCode};
use crate::pda::{derives, marketplace_seeds, marketplace_seeds_spec, push_bump, treasury_seeds, treasury_seeds_spec, with_bump};
use crate::state::{Account, Address, MarketPlace, SystemAccount};

verus! {

/// The accounts of the instruction by which the admin takes fees out of the
/// treasury.
pub struct WithdrawFee {
    pub admin: Address,
    pub maketplace: Account<MarketPlace>,
    pub treasury: SystemAccount,
}

/// The seeds with which a marketplace's treasury signs.
pub fn treasury_signer_seeds(marketplace: &Address, treasury_bump: u8) -> (seeds: Vec<Vec<u8>>)
    ensures
        seeds.deep_view() == with_bump(treasury_seeds_spec(marketplace@), treasury_bump),
{
    let mut seeds = treasury_seeds(marketplace);
    push_bump(&mut seeds, treasury_bump);
    seeds
}

impl WithdrawFee {
    /// The first constraint that the accounts break, or `None`: the
    /// marketplace's address, its admin, then the treasury's address.
    pub open spec fn violation(&self, program_id: Seq<u8>) -> Option<Error> {
        let m = self.maketplace;
        if !derives(m.key@, marketplace_seeds_spec(m.data.name@), m.data.bump, program_id) {
            Some(Error::ConstraintSeeds)
        } else if m.data.admin@ != self.admin@ {
            Some(Error::ConstraintHasOne)
        } else if !derives(
            self.treasury.key@,
            treasury_seeds_spec(m.key@),
            m.data.treasury_bump,
            program_id,
        ) {
            Some(Error::ConstraintSeeds)
        } else {
            None
        }
    }

    /// Checks the constraints on the accounts, in order, and reports the
    /// first that fails.
    pub fn validate(&self, program_id: &Address) -> (r: Result<(), Error>)
        ensures
            r matches Err(e) ==> self.violation(program_id@) == Some(e),
            r is Ok <==> self.violation(program_id@) is None,
    {
        check_derived(
            &self.maketplace.key,
            marketplace_seeds(&self.maketplace.data.name),
            self.maketplace.data.bump,
            program_id,
        )?;
        check_has_one(&self.maketplace.data.admin, &self.admin)?;
        check_derived(
            &self.treasury.key,
            treasury_seeds(&self.maketplace.key),
            self.maketplace.data.treasury_bump,
            program_id,
        )
    }

    /// The payment of `amount` from the treasury to the admin, signed by the
    /// treasury.
    pub open spec fn payout(&self, amount: u64) -> EffectView {
        EffectView::Transfer {
            from: self.treasury.key@,
            to: self.admin@,
            lamports: amount,
            signer_seeds: with_bump(
                treasury_seeds_spec(self.maketplace.key@),
                self.maketplace.data.treasury_bump,
            ),
        }
    }

    /// Pays `amount` from the treasury to the admin, if the treasury holds
    /// that much; otherwise refuses with `AmountTooMuch` and moves nothing.
    pub fn withdraw_fee(&self, amount: u64) -> (r: Result<Effect, Error>)
        ensures
            r is Ok <==> amount <= self.treasury.lamports,
            r matches Ok(e) ==> e.deep_view() == self.payout(amount),
            r matches Err(e) ==> e == Error::Program(ErrorCode::AmountTooMuch),
    {
        if amount > self.treasury.lamports {
            return Err(Error::Program(ErrorCode::AmountTooMuch));
        }
        Ok(
            Effect::Transfer {
                from: self.treasury.key,
                to: self.admin,
                lamports: amount,
                signer_seeds: treasury_signer_seeds(
                    &self.maketplace.key,
                    self.maketplace.data.treasury_bump,
                ),
            },
        )
    }
}

} // verus!
