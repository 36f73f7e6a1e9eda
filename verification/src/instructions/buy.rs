use vstd::prelude::*;
use crate::effects::{empty_seeds, no_seeds, Effect, EffectView};
use crate::error::Error;
use crate::fees::{fee_as_u64, split_price};
use crate::constraints::{
    check_close,
    check_derived,
    check_found_address,
    check_has_one,
    check_mpl_core_program,
    is_found_address,
};
use crate::pda::{
    associated_token_seeds,
    associated_token_seeds_spec,
    derives,
    listing_seeds,
    listing_seeds_spec,
    marketplace_seeds,
    marketplace_seeds_spec,
    push_bump,
    reward_mint_seeds,
    reward_mint_seeds_spec,
    treasury_seeds,
    treasury_seeds_spec,
    with_bump,
};
use crate::state::{
    Account,
    Address,
    Listing,
    MarketPlace,
    MintAccount,
    TokenAccount,
    ASSOCIATED_TOKEN_PROGRAM_ID,
    MPL_CORE_ID,
};

verus! {

/// Base units of the reward token minted to the buyer of every sale.
pub const REWARD_AMOUNT: u64 = 100;

/// Decimals of the reward token.
pub const REWARD_DECIMALS: u8 = 6;

/// The accounts of the instruction that buys a listed asset at its price.
pub struct Buy {
    pub taker: Address,
    pub maker: Address,
    pub asset: Address,
    pub collection: Option<Address>,
    pub maketplace: Account<MarketPlace>,
    pub listing: Account<Listing>,
    pub treasury: Address,
    pub reward_mint: MintAccount,
    pub take_reward_ata: TokenAccount,
    pub mpl_core_program: Address,
    pub token_program: Address,
}

/// The seeds with which the listing signs for the asset it keeps.
pub fn listing_signer_seeds(asset: &Address, bump: u8) -> (seeds: Vec<Vec<u8>>)
    ensures
        seeds.deep_view() == with_bump(listing_seeds_spec(asset@), bump),
{
    let mut seeds = listing_seeds(asset);
    push_bump(&mut seeds, bump);
    seeds
}

/// The seeds with which the marketplace signs.
pub fn marketplace_signer_seeds(name: &String, bump: u8) -> (seeds: Vec<Vec<u8>>)
    ensures
        seeds.deep_view() == with_bump(marketplace_seeds_spec(name@), bump),
{
    let mut seeds = marketplace_seeds(name);
    push_bump(&mut seeds, bump);
    seeds
}

impl Buy {
    /// Whether the buyer's reward account is at the address of the buyer's
    /// associated token account for the reward mint.
    pub open spec fn is_reward_account(&self) -> bool {
        is_found_address(
            self.take_reward_ata.key@,
            associated_token_seeds_spec(self.taker@, self.token_program@, self.reward_mint.key@),
            ASSOCIATED_TOKEN_PROGRAM_ID@,
        )
    }

    /// The first constraint that the buyer's reward account breaks, or
    /// `None`. An account that is yet to be created is created for the reward
    /// mint, the buyer and the token program, so only its address is checked;
    /// an existing one is checked for its mint, its owner, its token program
    /// and its address, in that order.
    pub open spec fn reward_account_violation(&self) -> Option<Error> {
        match self.take_reward_ata.state {
            Some(s) => if s.mint@ != self.reward_mint.key@ {
                Some(Error::ConstraintTokenMint)
            } else if s.owner@ != self.taker@ {
                Some(Error::ConstraintTokenOwner)
            } else if s.owner_program@ != self.token_program@ {
                Some(Error::ConstraintAssociatedTokenTokenProgram)
            } else if !self.is_reward_account() {
                Some(Error::AccountNotAssociatedTokenAccount)
            } else {
                None
            },
            None => if !self.is_reward_account() {
                Some(Error::AccountNotAssociatedTokenAccount)
            } else {
                None
            },
        }
    }

    /// Checks the buyer's reward account.
    pub fn check_reward_account(&self) -> (r: Result<(), Error>)
        ensures
            r matches Err(e) ==> self.reward_account_violation() == Some(e),
            r is Ok <==> self.reward_account_violation() is None,
    {
        if let Some(s) = &self.take_reward_ata.state {
            if !s.mint.same(&self.reward_mint.key) {
                return Err(Error::ConstraintTokenMint);
            }
            if !s.owner.same(&self.taker) {
                return Err(Error::ConstraintTokenOwner);
            }
            if !s.owner_program.same(&self.token_program) {
                return Err(Error::ConstraintAssociatedTokenTokenProgram);
            }
        }
        let seeds = associated_token_seeds(&self.taker, &self.token_program, &self.reward_mint.key);
        match check_found_address(
            &self.take_reward_ata.key,
            &seeds,
            &Address::new(ASSOCIATED_TOKEN_PROGRAM_ID),
        ) {
            Ok(_) => Ok(()),
            Err(_) => Err(Error::AccountNotAssociatedTokenAccount),
        }
    }

    /// The first constraint that the accounts break, in the order in which
    /// they are checked, or `None` where all hold. The buyer's reward
    /// account, which is created where needed, comes first.
    ///
    /// Where the reward account is yet to be created at a wrong address, the
    /// associated token account program refuses to create it; that refusal is
    /// reported here as the account not being the associated one.
    ///
    /// The reward mint is checked with the treasury's bump, as declared.
    pub open spec fn violation(&self, program_id: Seq<u8>) -> Option<Error> {
        let m = self.maketplace;
        let l = self.listing;
        if self.reward_account_violation() is Some {
            self.reward_account_violation()
        } else if !derives(m.key@, marketplace_seeds_spec(m.data.name@), m.data.bump, program_id) {
            Some(Error::ConstraintSeeds)
        } else if !derives(l.key@, listing_seeds_spec(l.data.asset@), l.data.bump, program_id) {
            Some(Error::ConstraintSeeds)
        } else if l.data.maker@ != self.maker@ {
            Some(Error::ConstraintHasOne)
        } else if l.data.asset@ != self.asset@ {
            Some(Error::ConstraintHasOne)
        } else if l.key@ == self.maker@ {
            Some(Error::ConstraintClose)
        } else if !derives(self.treasury@, treasury_seeds_spec(m.key@), m.data.treasury_bump, program_id) {
            Some(Error::ConstraintSeeds)
        } else if !derives(
            self.reward_mint.key@,
            reward_mint_seeds_spec(m.key@),
            m.data.treasury_bump,
            program_id,
        ) {
            Some(Error::ConstraintSeeds)
        } else if self.reward_mint.decimals != REWARD_DECIMALS {
            Some(Error::ConstraintMintDecimals)
        } else if self.reward_mint.mint_authority.deep_view() != Some(m.key@) {
            Some(Error::ConstraintMintMintAuthority)
        } else if self.mpl_core_program@ != MPL_CORE_ID@ {
            Some(Error::ConstraintAddress)
        } else {
            None
        }
    }

    /// Checks the constraints on the accounts, in order, and reports the
    /// first that fails.
    pub fn validate(&self, program_id: &Address) -> (r: Result<(), Error>)
        ensures
            r matches Err(e) ==> self.violation(program_id@) == Some(e),
            r is Ok <==> self.violation(program_id@) is None,
    {
        self.check_reward_account()?;
        check_derived(
            &self.maketplace.key,
            marketplace_seeds(&self.maketplace.data.name),
            self.maketplace.data.bump,
            program_id,
        )?;
        check_derived(
            &self.listing.key,
            listing_seeds(&self.listing.data.asset),
            self.listing.data.bump,
            program_id,
        )?;
        check_has_one(&self.listing.data.maker, &self.maker)?;
        check_has_one(&self.listing.data.asset, &self.asset)?;
        check_close(&self.listing.key, &self.maker)?;
        check_derived(
            &self.treasury,
            treasury_seeds(&self.maketplace.key),
            self.maketplace.data.treasury_bump,
            program_id,
        )?;
        check_derived(
            &self.reward_mint.key,
            reward_mint_seeds(&self.maketplace.key),
            self.maketplace.data.treasury_bump,
            program_id,
        )?;
        if self.reward_mint.decimals != REWARD_DECIMALS {
            return Err(Error::ConstraintMintDecimals);
        }
        match &self.reward_mint.mint_authority {
            Some(a) => {
                if !a.same(&self.maketplace.key) {
                    return Err(Error::ConstraintMintMintAuthority);
                }
            },
            None => {
                return Err(Error::ConstraintMintMintAuthority);
            },
        }
        check_mpl_core_program(&self.mpl_core_program)
    }

    /// The fee that the sale pays to the treasury.
    pub open spec fn spec_fee(&self) -> int {
        fee_as_u64(self.listing.data.price, self.maketplace.data.fee)
    }

    /// The payments of the sale: the price less the fee from the buyer to the
    /// seller, then the fee from the buyer to the treasury.
    pub open spec fn payments(&self) -> Seq<EffectView> {
        seq![
            EffectView::Transfer {
                from: self.taker@,
                to: self.maker@,
                lamports: (self.listing.data.price - self.spec_fee()) as u64,
                signer_seeds: no_seeds(),
            },
            EffectView::Transfer {
                from: self.taker@,
                to: self.treasury@,
                lamports: self.spec_fee() as u64,
                signer_seeds: no_seeds(),
            },
        ]
    }

    /// The move of the asset from the listing's keeping to the buyer.
    pub open spec fn asset_delivery(&self) -> EffectView {
        EffectView::TransferAsset {
            asset: self.asset@,
            collection: self.collection.deep_view(),
            payer: self.taker@,
            authority: Some(self.listing.key@),
            new_owner: self.taker@,
            signer_seeds: with_bump(listing_seeds_spec(self.asset@), self.listing.data.bump),
        }
    }

    /// The reward minted to the buyer, signed for by the marketplace.
    pub open spec fn reward(&self) -> EffectView {
        EffectView::MintTo {
            mint: self.reward_mint.key@,
            to: self.taker@,
            mint_authority: self.maketplace.key@,
            amount: REWARD_AMOUNT,
            decimals: self.reward_mint.decimals,
            signer_seeds: with_bump(
                marketplace_seeds_spec(self.maketplace.data.name@),
                self.maketplace.data.bump,
            ),
        }
    }

    /// Everything a sale hands to other programs: the creation of the buyer's
    /// reward account where needed, the payments, the asset's delivery, the
    /// reward, and the closing of the listing, whose rent goes back to the
    /// seller.
    pub open spec fn sale(&self) -> Seq<EffectView> {
        self.preparation() + self.settlement()
    }

    /// The creation of the buyer's reward account, where it does not exist yet.
    pub open spec fn preparation(&self) -> Seq<EffectView> {
        if self.take_reward_ata.state is None {
            seq![
                EffectView::CreateAssociatedToken {
                    payer: self.taker@,
                    associated_token: self.take_reward_ata.key@,
                    wallet: self.taker@,
                    mint: self.reward_mint.key@,
                    token_program: self.token_program@,
                },
            ]
        } else {
            Seq::empty()
        }
    }

    /// The payments, the asset's delivery, the reward and the closing of the
    /// listing.
    pub open spec fn settlement(&self) -> Seq<EffectView> {
        self.payments().push(self.asset_delivery()).push(self.reward()).push(
            EffectView::Close { account: self.listing.key@, destination: self.maker@ },
        )
    }

    /// Pays for the asset: the seller gets the price less the marketplace
    /// fee, the treasury gets the fee.
    ///
    /// A fee above the price (possible only for a rate above the whole price)
    /// has no such split and is not admitted.
    pub fn send_sol(&self) -> (effects: Vec<Effect>)
        requires
            fee_as_u64(self.listing.data.price, self.maketplace.data.fee) <= self.listing.data.price,
        ensures
            effects.deep_view() == self.payments(),
    {
        let split = split_price(self.listing.data.price, self.maketplace.data.fee);
        let mut effects: Vec<Effect> = Vec::new();
        effects.push(
            Effect::Transfer {
                from: self.taker,
                to: self.maker,
                lamports: split.maker_amount,
                signer_seeds: empty_seeds(),
            },
        );
        effects.push(
            Effect::Transfer {
                from: self.taker,
                to: self.treasury,
                lamports: split.fee,
                signer_seeds: empty_seeds(),
            },
        );
        assert(effects.deep_view() =~~= self.payments());
        effects
    }

    /// Delivers the asset to the buyer; the listing signs for it.
    pub fn receive_nft(&self) -> (effect: Effect)
        ensures
            effect.deep_view() == self.asset_delivery(),
    {
        Effect::TransferAsset {
            asset: self.asset,
            collection: self.collection,
            payer: self.taker,
            authority: Some(self.listing.key),
            new_owner: self.taker,
            signer_seeds: listing_signer_seeds(&self.asset, self.listing.data.bump),
        }
    }

    /// Mints the reward for the purchase to the buyer; the marketplace signs.
    pub fn receive_rewards(&self) -> (effect: Effect)
        ensures
            effect.deep_view() == self.reward(),
    {
        Effect::MintTo {
            mint: self.reward_mint.key,
            to: self.taker,
            mint_authority: self.maketplace.key,
            amount: REWARD_AMOUNT,
            decimals: self.reward_mint.decimals,
            signer_seeds: marketplace_signer_seeds(
                &self.maketplace.data.name,
                self.maketplace.data.bump,
            ),
        }
    }
}

} // verus!
