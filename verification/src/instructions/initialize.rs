use vstd::prelude::*;
use crate::error::{Error, ErrorCode};
use crate::constraints::{check_found_address, found_bump, is_found_address};
use crate::pda::{canonical_bump, marketplace_seeds, marketplace_seeds_spec, reward_mint_seeds, reward_mint_seeds_spec, treasury_seeds, treasury_seeds_spec};
use crate::state::{Account, Address, MarketPlace, utf8_bytes};

verus! {

/// The bump seeds found for the accounts that initialization derives.
#[derive(Clone, Copy, Debug, PartialEq, Eq, Structural)]
pub struct InitializeBumps {
    pub maketplace: u8,
    pub treasury: u8,
    pub reward_mint: u8,
}

/// The accounts of the instruction that creates a marketplace.
pub struct Initialize {
    pub admin: Address,
    pub maketplace: Account<MarketPlace>,
    pub treasury: Address,
    pub reward_mint: Address,
}

impl Initialize {
    /// The constraints on the accounts hold.
    pub open spec fn constraints_hold(&self, name: Seq<char>, program_id: Seq<u8>) -> bool {
        &&& is_found_address(self.maketplace.key@, marketplace_seeds_spec(name), program_id)
        &&& is_found_address(self.reward_mint@, reward_mint_seeds_spec(self.maketplace.key@), program_id)
        &&& is_found_address(self.treasury@, treasury_seeds_spec(self.maketplace.key@), program_id)
    }

    /// The bumps that the constraints find.
    pub open spec fn spec_bumps(&self, name: Seq<char>, program_id: Seq<u8>) -> InitializeBumps {
        InitializeBumps {
            maketplace: found_bump(marketplace_seeds_spec(name), program_id),
            treasury: found_bump(treasury_seeds_spec(self.maketplace.key@), program_id),
            reward_mint: found_bump(reward_mint_seeds_spec(self.maketplace.key@), program_id),
        }
    }

    /// Checks that the marketplace, its reward mint and its treasury are the
    /// addresses derived from their seeds, in that order (the two accounts
    /// that are created here come first), and returns the bumps found.
    ///
    /// A name longer than 32 bytes cannot seed an address; the instruction
    /// then aborts before any check, so such a name is not admitted here.
    /// Should no bump at all give an address (a chance of about 2^-255),
    /// the seeds constraint is reported.
    pub fn validate(&self, name: &String, program_id: &Address) -> (r: Result<InitializeBumps, Error>)
        requires
            utf8_bytes(name@).len() <= 32,
        ensures
            r is Ok <==> self.constraints_hold(name@, program_id@),
            r matches Ok(b) ==> b == self.spec_bumps(name@, program_id@),
            r matches Ok(b) ==> {
                &&& canonical_bump(self.maketplace.key@, marketplace_seeds_spec(name@), b.maketplace, program_id@)
                &&& canonical_bump(self.treasury@, treasury_seeds_spec(self.maketplace.key@), b.treasury, program_id@)
                &&& canonical_bump(
                    self.reward_mint@,
                    reward_mint_seeds_spec(self.maketplace.key@),
                    b.reward_mint,
                    program_id@,
                )
            },
            r matches Err(e) ==> e == Error::ConstraintSeeds,
    {
        let maketplace = check_found_address(&self.maketplace.key, &marketplace_seeds(name), program_id)?;
        let reward_mint = check_found_address(
            &self.reward_mint,
            &reward_mint_seeds(&self.maketplace.key),
            program_id,
        )?;
        let treasury = check_found_address(
            &self.treasury,
            &treasury_seeds(&self.maketplace.key),
            program_id,
        )?;
        Ok(InitializeBumps { maketplace, treasury, reward_mint })
    }

    /// Records a new marketplace administered by the signer, after checking
    /// the fee (at most 10 000 basis points) and then the name (at most 32
    /// bytes). On an error the marketplace account is left as it was.
    pub fn initialize(&mut self, name: String, fee: u16, bumps: InitializeBumps) -> (r: Result<
        (),
        Error,
    >)
        ensures
            final(self).admin == old(self).admin,
            final(self).treasury == old(self).treasury,
            final(self).reward_mint == old(self).reward_mint,
            final(self).maketplace.key == old(self).maketplace.key,
            fee > 10_000 ==> r == Err::<(), Error>(Error::Program(ErrorCode::InvalidFee)),
            fee <= 10_000 && utf8_bytes(name@).len() > 32 ==> r == Err::<(), Error>(
                Error::Program(ErrorCode::InvalidName),
            ),
            r is Err ==> final(self).maketplace.data == old(self).maketplace.data,
            r is Ok <==> fee <= 10_000 && utf8_bytes(name@).len() <= 32,
            r is Ok ==> {
                let m = final(self).maketplace.data;
                &&& m.admin == old(self).admin
                &&& m.fee == fee
                &&& m.bump == bumps.maketplace
                &&& m.treasury_bump == bumps.treasury
                &&& m.reward_bump == bumps.reward_mint
                &&& m.name@ == name@
                &&& m.wf()
            },
    {
        if fee > 10_000 {
            return Err(Error::Program(ErrorCode::InvalidFee));
        }
        if name.as_str().as_bytes().len() > 32 {
            return Err(Error::Program(ErrorCode::InvalidName));
        }
        self.maketplace.data = MarketPlace {
            admin: self.admin,
            fee,
            bump: bumps.maketplace,
            treasury_bump: bumps.treasury,
            reward_bump: bumps.reward_mint,
            name,
        };
        Ok(())
    }
}

} // verus!
