use vstd::prelude::*;
use crate::state::Address;

verus! {

/// Work that an instruction hands to other programs, in the order given.
/// Signer seeds, where there are any, are the seeds and bump with which the
/// program signs for one of its derived accounts; empty ones mean that the
/// accounts' owners sign themselves.
#[derive(Debug)]
pub enum Effect {
    /// Move `lamports` from `from` to `to` with the system program.
    Transfer { from: Address, to: Address, lamports: u64, signer_seeds: Vec<Vec<u8>> },
    /// Move the core asset `asset` (of `collection`, if any) to `new_owner`;
    /// `authority` is the current owner that approves, where it is not `payer`.
    TransferAsset {
        asset: Address,
        collection: Option<Address>,
        payer: Address,
        authority: Option<Address>,
        new_owner: Address,
        signer_seeds: Vec<Vec<u8>>,
    },
    /// Mint `amount` base units of `mint` to `to`, checking its `decimals`.
    MintTo {
        mint: Address,
        to: Address,
        mint_authority: Address,
        amount: u64,
        decimals: u8,
        signer_seeds: Vec<Vec<u8>>,
    },
    /// Close the program account `account`, sending its lamports to `destination`.
    Close { account: Address, destination: Address },
    /// Create the associated token account `associated_token` of `wallet`
    /// for `mint`, kept by `token_program`, with `payer` paying its rent.
    CreateAssociatedToken {
        payer: Address,
        associated_token: Address,
        wallet: Address,
        mint: Address,
        token_program: Address,
    },
}

/// What an effect is, over plain values.
pub enum EffectView {
    Transfer { from: Seq<u8>, to: Seq<u8>, lamports: u64, signer_seeds: Seq<Seq<u8>> },
    TransferAsset {
        asset: Seq<u8>,
        collection: Option<Seq<u8>>,
        payer: Seq<u8>,
        authority: Option<Seq<u8>>,
        new_owner: Seq<u8>,
        signer_seeds: Seq<Seq<u8>>,
    },
    MintTo {
        mint: Seq<u8>,
        to: Seq<u8>,
        mint_authority: Seq<u8>,
        amount: u64,
        decimals: u8,
        signer_seeds: Seq<Seq<u8>>,
    },
    Close { account: Seq<u8>, destination: Seq<u8> },
    CreateAssociatedToken {
        payer: Seq<u8>,
        associated_token: Seq<u8>,
        wallet: Seq<u8>,
        mint: Seq<u8>,
        token_program: Seq<u8>,
    },
}

impl DeepView for Effect {
    type V = EffectView;

    open spec fn deep_view(&self) -> EffectView {
        match self {
            Effect::Transfer { from, to, lamports, signer_seeds } => EffectView::Transfer {
                from: from@,
                to: to@,
                lamports: *lamports,
                signer_seeds: signer_seeds.deep_view(),
            },
            Effect::TransferAsset { asset, collection, payer, authority, new_owner, signer_seeds } =>
            EffectView::TransferAsset {
                asset: asset@,
                collection: collection.deep_view(),
                payer: payer@,
                authority: authority.deep_view(),
                new_owner: new_owner@,
                signer_seeds: signer_seeds.deep_view(),
            },
            Effect::MintTo { mint, to, mint_authority, amount, decimals, signer_seeds } =>
            EffectView::MintTo {
                mint: mint@,
                to: to@,
                mint_authority: mint_authority@,
                amount: *amount,
                decimals: *decimals,
                signer_seeds: signer_seeds.deep_view(),
            },
            Effect::Close { account, destination } => EffectView::Close {
                account: account@,
                destination: destination@,
            },
            Effect::CreateAssociatedToken {
                payer,
                associated_token,
                wallet,
                mint,
                token_program,
            } => EffectView::CreateAssociatedToken {
                payer: payer@,
                associated_token: associated_token@,
                wallet: wallet@,
                mint: mint@,
                token_program: token_program@,
            },
        }
    }
}

/// No seeds: the accounts' owners sign themselves.
pub open spec fn no_seeds() -> Seq<Seq<u8>> {
    Seq::empty()
}

/// No seeds.
pub fn empty_seeds() -> (seeds: Vec<Vec<u8>>)
    ensures
        seeds.deep_view() == no_seeds(),
{
    let seeds: Vec<Vec<u8>> = Vec::new();
    assert(seeds.deep_view() =~= no_seeds());
    seeds
}

/// The lamports that a list of effects moves out of `account`.
pub open spec fn lamports_paid_by(effects: Seq<EffectView>, account: Seq<u8>) -> int
    decreases effects.len(),
{
    if effects.len() == 0 {
        0
    } else {
        lamports_paid_by(effects.drop_last(), account) + match effects.last() {
            EffectView::Transfer { from, lamports, .. } => if from == account {
                lamports as int
            } else {
                0
            },
            _ => 0,
        }
    }
}

/// The lamports that a list of effects moves into `account`.
pub open spec fn lamports_received_by(effects: Seq<EffectView>, account: Seq<u8>) -> int
    decreases effects.len(),
{
    if effects.len() == 0 {
        0
    } else {
        lamports_received_by(effects.drop_last(), account) + match effects.last() {
            EffectView::Transfer { to, lamports, .. } => if to == account {
                lamports as int
            } else {
                0
            },
            _ => 0,
        }
    }
}

/// Lamport balances of accounts, by address.
pub type Balances = spec_fn(Seq<u8>) -> int;

/// The balances after one effect: a transfer moves its lamports, a close
/// moves everything the closed account holds to the destination. The other
/// effects move no lamports of the accounts they name (the rent of a created
/// token account goes through the associated token program).
pub open spec fn apply_effect(e: EffectView, balances: Balances) -> Balances {
    match e {
        EffectView::Transfer { from, to, lamports, .. } => |a: Seq<u8>|
            if from == to {
                balances(a)
            } else if a == from {
                balances(a) - lamports
            } else if a == to {
                balances(a) + lamports
            } else {
                balances(a)
            },
        EffectView::Close { account, destination } => |a: Seq<u8>|
            if account == destination {
                balances(a)
            } else if a == account {
                0
            } else if a == destination {
                balances(a) + balances(account)
            } else {
                balances(a)
            },
        _ => balances,
    }
}

/// The balances after a list of effects, performed in order.
pub open spec fn apply_effects(effects: Seq<EffectView>, balances: Balances) -> Balances
    decreases effects.len(),
{
    if effects.len() == 0 {
        balances
    } else {
        apply_effect(effects.last(), apply_effects(effects.drop_last(), balances))
    }
}

/// Owners of assets, by the asset's address.
pub type Owners = spec_fn(Seq<u8>) -> Seq<u8>;

/// The owners after a list of effects: each asset transfer gives the asset
/// its new owner.
pub open spec fn owners_after(effects: Seq<EffectView>, owners: Owners) -> Owners
    decreases effects.len(),
{
    if effects.len() == 0 {
        owners
    } else {
        let before = owners_after(effects.drop_last(), owners);
        match effects.last() {
            EffectView::TransferAsset { asset, new_owner, .. } => |x: Seq<u8>|
                if x == asset {
                    new_owner
                } else {
                    before(x)
                },
            _ => before,
        }
    }
}

} // verus!
