//! Properties that span instructions: what a sale pays, what an offer's
//! vault gives back, what accepting and then withdrawing an offer leaves, and
//! who alone can pass each instruction's checks.

use vstd::prelude::*;
use crate::effects::{
    apply_effect,
    apply_effects,
    lamports_paid_by,
    lamports_received_by,
    owners_after,
    Balances,
    EffectView,
    Owners,
};
use crate::error::Error;
use crate::fees::{fee_as_u64, fee_on};
use crate::instructions::accept_offer::AcceptOffer;
use crate::instructions::buy::{Buy, REWARD_AMOUNT, REWARD_DECIMALS};
use crate::instructions::close_offer::CloseOffer;
use crate::instructions::delist::Delist;
use crate::instructions::initialize::Initialize;
use crate::instructions::list::List;
use crate::instructions::make_offer::MakeOffer;
use crate::instructions::reject_offer::RejectOffer;
use crate::instructions::withdraw_fee::WithdrawFee;
use crate::pda::{
    derives,
    found_address,
    with_bump,
    listing_seeds_spec,
    marketplace_seeds_spec,
    offer_seeds_spec,
    offer_vault_seeds_spec,
    reward_mint_seeds_spec,
    treasury_seeds_spec,
};
use crate::state::{utf8_bytes, Listing, MarketPlace, SystemAccount, MPL_CORE_ID};

verus! {

/// The lamports moved out of and into accounts by a short list of effects,
/// spelled out.
proof fn lemma_flows_after_payments(effects: Seq<EffectView>, account: Seq<u8>)
    requires
        effects.len() == 5,
        !(effects[2] is Transfer),
        !(effects[3] is Transfer),
        !(effects[4] is Transfer),
    ensures
        lamports_paid_by(effects, account) == lamports_paid_by(effects.take(2), account),
        lamports_received_by(effects, account) == lamports_received_by(effects.take(2), account),
{
    let e4 = effects.drop_last();
    let e3 = e4.drop_last();
    let e2 = e3.drop_last();
    assert(effects.last() == effects[4]);
    assert(e4.last() == effects[3]);
    assert(e3.last() == effects[2]);
    assert(lamports_paid_by(effects, account) == lamports_paid_by(e4, account));
    assert(lamports_paid_by(e4, account) == lamports_paid_by(e3, account));
    assert(lamports_paid_by(e3, account) == lamports_paid_by(e2, account));
    assert(lamports_received_by(effects, account) == lamports_received_by(e4, account));
    assert(lamports_received_by(e4, account) == lamports_received_by(e3, account));
    assert(lamports_received_by(e3, account) == lamports_received_by(e2, account));
    assert(e2 =~= effects.take(2));
}

/// Lamports paid and received over two lists of effects, one after the
/// other, add up.
proof fn lemma_flows_concat(a: Seq<EffectView>, b: Seq<EffectView>, account: Seq<u8>)
    ensures
        lamports_paid_by(a + b, account) == lamports_paid_by(a, account) + lamports_paid_by(b, account),
        lamports_received_by(a + b, account) == lamports_received_by(a, account)
            + lamports_received_by(b, account),
    decreases b.len(),
{
    if b.len() == 0 {
        assert(a + b =~= a);
    } else {
        lemma_flows_concat(a, b.drop_last(), account);
        assert((a + b).drop_last() =~= a + b.drop_last());
        assert((a + b).last() == b.last());
    }
}

/// A sale costs the buyer exactly the listed price; of it the seller gets
/// the price less the fee and the treasury the fee (where seller and
/// treasury are different accounts); and the buyer gets exactly the reward
/// amount of the reward token.
pub proof fn lemma_sale_moves_exactly_the_price(b: Buy)
    requires
        fee_as_u64(b.listing.data.price, b.maketplace.data.fee) <= b.listing.data.price,
        b.maker@ != b.treasury@,
    ensures
        lamports_paid_by(b.sale(), b.taker@) == b.listing.data.price,
        lamports_received_by(b.sale(), b.maker@) == b.listing.data.price - b.spec_fee(),
        lamports_received_by(b.sale(), b.treasury@) == b.spec_fee(),
        lamports_received_by(b.sale(), b.maker@) + lamports_received_by(b.sale(), b.treasury@)
            == b.listing.data.price,
        b.settlement()[3] matches EffectView::MintTo { to, amount, .. } && to == b.taker@ && amount
            == REWARD_AMOUNT,
{
    let s = b.settlement();
    lemma_flows_after_payments(s, b.taker@);
    lemma_flows_after_payments(s, b.maker@);
    lemma_flows_after_payments(s, b.treasury@);
    let p = s.take(2);
    assert(p.drop_last().drop_last() =~= Seq::<EffectView>::empty());
    assert(p.drop_last() =~= seq![s[0]]);
    reveal_with_fuel(lamports_paid_by, 3);
    reveal_with_fuel(lamports_received_by, 3);
    let pre = b.preparation();
    if pre.len() > 0 {
        assert(pre.drop_last() =~= Seq::<EffectView>::empty());
    }
    lemma_flows_concat(pre, s, b.taker@);
    lemma_flows_concat(pre, s, b.maker@);
    lemma_flows_concat(pre, s, b.treasury@);
}

/// On a marketplace made by initialization (a rate within the whole price)
/// the fee of a sale is the exact rounded-down share of the price.
pub proof fn lemma_sale_fee_is_the_rate(b: Buy)
    requires
        b.maketplace.data.wf(),
    ensures
        b.spec_fee() == fee_on(b.listing.data.price as int, b.maketplace.data.fee as int),
        b.spec_fee() <= b.listing.data.price,
{
    crate::fees::lemma_split_conserves_price(b.listing.data.price, b.maketplace.data.fee);
}

/// Accepting an offer and then withdrawing it puts the listing back on sale;
/// a listing that was on sale before comes back exactly as it was.
pub proof fn lemma_close_after_accept_reopens(listing: Listing)
    ensures
        (Listing { solded: false, ..(Listing { solded: true, ..listing }) }) == (Listing {
            solded: false,
            ..listing
        }),
        !listing.solded ==> (Listing { solded: false, ..(Listing { solded: true, ..listing }) })
            == listing,
{
}

/// Making an offer moves exactly the offered price from its maker into the
/// vault; rejecting it moves everything the vault holds back to the maker,
/// so a vault that still holds the deposit returns at least the offered price.
pub proof fn lemma_offer_escrow(m: MakeOffer, price: u64, r: RejectOffer)
    requires
        r.offer_vault.lamports >= price,
    ensures
        lamports_paid_by(seq![m.deposit(price)], m.maker@) == price,
        lamports_received_by(seq![m.deposit(price)], m.offer_vault@) == price,
        lamports_paid_by(seq![r.refund()], r.offer_vault.key@) == r.offer_vault.lamports,
        lamports_received_by(seq![r.refund()], r.offer_maker@) >= price,
{
    assert(seq![m.deposit(price)].drop_last() =~= Seq::<EffectView>::empty());
    assert(seq![r.refund()].drop_last() =~= Seq::<EffectView>::empty());
    reveal_with_fuel(lamports_paid_by, 2);
    reveal_with_fuel(lamports_received_by, 2);
}

/// Only the seller of a listing can accept an offer on it, and only an
/// offer made on that listing by the named offer maker.
pub proof fn lemma_only_the_seller_accepts(a: AcceptOffer, program_id: Seq<u8>)
    requires
        a.violation(program_id) is None,
    ensures
        a.listing.data.maker@ == a.maker@,
        a.offer.data.listing@ == a.listing.key@,
        a.offer.data.offer_maker@ == a.offer_maker@,
{
}

/// Only the seller of a listing can turn down an offer on it, and the refund
/// goes to the offer's own maker.
pub proof fn lemma_only_the_seller_rejects(r: RejectOffer, program_id: Seq<u8>)
    requires
        r.violation(program_id) is None,
    ensures
        r.listing.data.maker@ == r.maker@,
        r.offer.data.offer_maker@ == r.offer_maker@,
        r.offer.data.listing@ == r.listing.key@,
{
}

/// Only an offer's maker can withdraw it.
pub proof fn lemma_only_the_offer_maker_closes(c: CloseOffer, program_id: Seq<u8>)
    requires
        c.violation(program_id) is None,
    ensures
        c.offer.data.offer_maker@ == c.offer_maker@,
        c.offer.data.listing@ == c.listing.key@,
{
}

/// Only the seller can take an asset off sale, and the asset goes back to
/// the seller.
pub proof fn lemma_only_the_seller_delists(d: Delist, program_id: Seq<u8>)
    requires
        d.violation(program_id) is None,
    ensures
        d.listing.data.maker@ == d.maker@,
        d.return_of_asset() matches EffectView::TransferAsset { new_owner, .. } && new_owner
            == d.listing.data.maker@,
{
}

/// A sale pays the seller named in the listing, for the asset named in it.
pub proof fn lemma_sale_pays_the_listed_seller(b: Buy, program_id: Seq<u8>)
    requires
        b.violation(program_id) is None,
    ensures
        b.listing.data.maker@ == b.maker@,
        b.listing.data.asset@ == b.asset@,
{
}

/// Only a marketplace's admin can withdraw from its treasury; and the admin
/// of a marketplace as initialization left it (its address and its
/// treasury's derived with the bumps it stored) always passes the checks.
pub proof fn lemma_only_the_admin_withdraws(w: WithdrawFee, program_id: Seq<u8>)
    ensures
        w.violation(program_id) is None ==> w.maketplace.data.admin@ == w.admin@,
        derives(
            w.maketplace.key@,
            marketplace_seeds_spec(w.maketplace.data.name@),
            w.maketplace.data.bump,
            program_id,
        ) && derives(
            w.treasury.key@,
            treasury_seeds_spec(w.maketplace.key@),
            w.maketplace.data.treasury_bump,
            program_id,
        ) && w.admin@ == w.maketplace.data.admin@ ==> w.violation(program_id) is None,
{
}

/// A listing as `list` records it (its address derived from the asset with
/// the bump it stored, its maker and asset) in a marketplace as
/// initialization records it can always be taken off sale by its maker with
/// the Metaplex Core program.
pub proof fn lemma_listing_can_be_delisted(d: Delist, program_id: Seq<u8>)
    requires
        derives(
            d.maketplace.key@,
            marketplace_seeds_spec(d.maketplace.data.name@),
            d.maketplace.data.bump,
            program_id,
        ),
        derives(d.listing.key@, listing_seeds_spec(d.listing.data.asset@), d.listing.data.bump, program_id),
        d.maker@ == d.listing.data.maker@,
        d.asset@ == d.listing.data.asset@,
        d.listing.key@ != d.maker@,
        d.mpl_core_program@ == MPL_CORE_ID@,
    ensures
        d.violation(program_id) is None,
{
}

/// A listing as `list` records it, in a marketplace as initialization
/// records it, can be bought, provided that the reward mint is also derived
/// with the treasury's bump (the bump it is checked with), that the mint has
/// the reward decimals and the marketplace as its authority, and that the
/// buyer's reward account is the buyer's associated one.
pub proof fn lemma_listing_can_be_bought(b: Buy, program_id: Seq<u8>)
    requires
        derives(
            b.maketplace.key@,
            marketplace_seeds_spec(b.maketplace.data.name@),
            b.maketplace.data.bump,
            program_id,
        ),
        derives(
            b.treasury@,
            treasury_seeds_spec(b.maketplace.key@),
            b.maketplace.data.treasury_bump,
            program_id,
        ),
        derives(
            b.reward_mint.key@,
            reward_mint_seeds_spec(b.maketplace.key@),
            b.maketplace.data.treasury_bump,
            program_id,
        ),
        derives(b.listing.key@, listing_seeds_spec(b.listing.data.asset@), b.listing.data.bump, program_id),
        b.maker@ == b.listing.data.maker@,
        b.asset@ == b.listing.data.asset@,
        b.listing.key@ != b.maker@,
        b.reward_mint.decimals == REWARD_DECIMALS,
        b.reward_mint.mint_authority.deep_view() == Some(b.maketplace.key@),
        b.mpl_core_program@ == MPL_CORE_ID@,
        b.reward_account_violation() is None,
    ensures
        b.violation(program_id) is None,
{
}

/// An offer as `maker_offer` records it (its address and its vault's derived
/// with the bumps it stored, its listing and maker), on a listing as `list`
/// records it, can be accepted and rejected by the listing's maker and
/// withdrawn by its own maker.
pub proof fn lemma_offer_can_be_answered(
    a: AcceptOffer,
    r: RejectOffer,
    c: CloseOffer,
    program_id: Seq<u8>,
)
    requires
        derives(
            a.offer.key@,
            offer_seeds_spec(a.offer.data.listing@, a.offer.data.offer_maker@),
            a.offer.data.bump,
            program_id,
        ),
        derives(a.listing.key@, listing_seeds_spec(a.listing.data.asset@), a.listing.data.bump, program_id),
        a.offer.data.listing@ == a.listing.key@,
        a.offer_maker@ == a.offer.data.offer_maker@,
        a.maker@ == a.listing.data.maker@,
        a.offer.key@ != a.offer_maker@,
        r.maker == a.maker,
        r.offer_maker == a.offer_maker,
        r.offer == a.offer,
        r.listing == a.listing,
        derives(
            r.offer_vault.key@,
            offer_vault_seeds_spec(a.offer.key@),
            a.offer.data.vault_bump,
            program_id,
        ),
        c.maker == a.maker,
        c.offer_maker == a.offer_maker,
        c.offer == a.offer,
        c.offer_vault == r.offer_vault,
        c.listing == a.listing,
    ensures
        a.violation(program_id) is None,
        r.violation(program_id) is None,
        c.violation(program_id) is None,
{
}

/// Initialization leaves every marketplace it records well formed, and
/// leaves one it refuses as it was; no other instruction writes a
/// marketplace (they all take it read-only), so a marketplace stays well
/// formed in every later state. On a well-formed marketplace the fee of a
/// sale at any price is the exact rounded-down share and never exceeds the
/// price, so paying for a sale is always possible.
pub proof fn lemma_marketplace_stays_well_formed(m: MarketPlace, price: u64)
    requires
        m.wf(),
    ensures
        fee_as_u64(price, m.fee) == fee_on(price as int, m.fee as int),
        fee_as_u64(price, m.fee) <= price,
{
    crate::fees::lemma_split_conserves_price(price, m.fee);
}

/// Whether an effect leaves the lamports of `account` where they are or
/// adds to them: it neither pays from the account nor closes it or into it.
pub open spec fn leaves_alone(e: EffectView, account: Seq<u8>) -> bool {
    match e {
        EffectView::Transfer { from, .. } => from != account,
        EffectView::Close { account: closed, destination } => closed != account && destination
            != account,
        _ => true,
    }
}

/// An account that no effect of a list pays from or closes ends with at
/// least the lamports it started with.
proof fn lemma_balance_never_falls(effects: Seq<EffectView>, balances: Balances, account: Seq<u8>)
    requires
        forall|i: int| 0 <= i < effects.len() ==> leaves_alone(#[trigger] effects[i], account),
    ensures
        apply_effects(effects, balances)(account) >= balances(account),
    decreases effects.len(),
{
    if effects.len() > 0 {
        let rest = effects.drop_last();
        assert forall|i: int| 0 <= i < rest.len() implies leaves_alone(#[trigger] rest[i], account) by {
            assert(rest[i] == effects[i]);
        }
        lemma_balance_never_falls(rest, balances, account);
        assert(leaves_alone(effects[effects.len() - 1], account));
    }
}

/// The balances after a single effect, or two in a row.
proof fn lemma_apply_short(e1: EffectView, e2: EffectView, balances: Balances)
    ensures
        apply_effects(seq![e1], balances) == apply_effect(e1, balances),
        apply_effects(seq![e1, e2], balances) == apply_effect(e2, apply_effect(e1, balances)),
{
    assert(seq![e1].drop_last() =~= Seq::<EffectView>::empty());
    assert(seq![e1, e2].drop_last() =~= seq![e1]);
    reveal_with_fuel(apply_effects, 3);
}

/// The deposit that makes an offer puts the offered price into its vault;
/// after that, while the offer is open, no instruction but its rejection or
/// its withdrawal takes lamports out of the vault. Selling or taking off sale
/// an asset, listing one, making another offer, accepting one and
/// withdrawing fees pay only from their signer or the treasury, and close
/// only listings, none of which is the vault.
pub proof fn lemma_open_offer_vault_keeps_its_price(
    balances: Balances,
    m: MakeOffer,
    price: u64,
    b: Buy,
    li: List,
    d: Delist,
    m2: MakeOffer,
    price2: u64,
    w: WithdrawFee,
    amount: u64,
)
    requires
        balances(m.offer_vault@) >= 0,
        m.maker@ != m.offer_vault@,
        b.taker@ != m.offer_vault@,
        b.maker@ != m.offer_vault@,
        b.listing.key@ != m.offer_vault@,
        d.maker@ != m.offer_vault@,
        d.listing.key@ != m.offer_vault@,
        m2.maker@ != m.offer_vault@,
        w.treasury.key@ != m.offer_vault@,
    ensures
        apply_effects(seq![m.deposit(price)], balances)(m.offer_vault@) == balances(m.offer_vault@)
            + price,
        apply_effects(seq![m.deposit(price)], balances)(m.offer_vault@) >= price,
        apply_effects(b.sale(), balances)(m.offer_vault@) >= balances(m.offer_vault@),
        apply_effects(seq![li.escrow()], balances)(m.offer_vault@) >= balances(m.offer_vault@),
        apply_effects(d.unlisting(), balances)(m.offer_vault@) >= balances(m.offer_vault@),
        apply_effects(seq![m2.deposit(price2)], balances)(m.offer_vault@) >= balances(
            m.offer_vault@,
        ),
        apply_effects(seq![w.payout(amount)], balances)(m.offer_vault@) >= balances(m.offer_vault@),
{
    let v = m.offer_vault@;
    lemma_apply_short(m.deposit(price), m.deposit(price), balances);
    let sale = b.sale();
    let pre = b.preparation();
    let settle = b.settlement();
    assert forall|i: int| 0 <= i < sale.len() implies leaves_alone(#[trigger] sale[i], v) by {
        if i < pre.len() {
            assert(sale[i] == pre[i]);
        } else {
            assert(sale[i] == settle[i - pre.len()]);
        }
    }
    lemma_balance_never_falls(sale, balances, v);
    let one = seq![li.escrow()];
    assert(leaves_alone(one[0], v));
    lemma_balance_never_falls(one, balances, v);
    let un = d.unlisting();
    assert(leaves_alone(un[0], v) && leaves_alone(un[1], v));
    lemma_balance_never_falls(un, balances, v);
    let dep = seq![m2.deposit(price2)];
    assert(leaves_alone(dep[0], v));
    lemma_balance_never_falls(dep, balances, v);
    let pay = seq![w.payout(amount)];
    assert(leaves_alone(pay[0], v));
    lemma_balance_never_falls(pay, balances, v);
}

/// The rent that creating an account moves from its payer into it.
pub open spec fn creation(payer: Seq<u8>, account: Seq<u8>, rent: u64) -> EffectView {
    EffectView::Transfer { from: payer, to: account, lamports: rent, signer_seeds: Seq::empty() }
}

/// Listing an asset and then taking it off sale gives the asset back to its
/// maker, and with the closing of the listing the maker gets back the rent
/// paid to create it: the maker's lamports and the listing's are as before.
pub proof fn lemma_list_then_delist_round_trip(
    li: List,
    d: Delist,
    rent: u64,
    balances: Balances,
    owners: Owners,
)
    requires
        d.maker == li.maker,
        d.asset == li.asset,
        d.listing.key == li.listing.key,
        li.maker@ != li.listing.key@,
        balances(li.listing.key@) == 0,
    ensures
        ({
            let created = apply_effect(creation(li.maker@, li.listing.key@, rent), balances);
            let after = apply_effects(d.unlisting(), apply_effects(seq![li.escrow()], created));
            &&& after(li.maker@) == balances(li.maker@)
            &&& after(li.listing.key@) == 0
        }),
        owners_after(d.unlisting(), owners_after(seq![li.escrow()], owners))(li.asset@) == li.maker@,
{
    let created = apply_effect(creation(li.maker@, li.listing.key@, rent), balances);
    lemma_apply_short(li.escrow(), li.escrow(), created);
    let listed = apply_effects(seq![li.escrow()], created);
    let un = d.unlisting();
    lemma_apply_short(un[0], un[1], listed);
    assert(un =~= seq![un[0], un[1]]);
    let escrowed = owners_after(seq![li.escrow()], owners);
    assert(seq![li.escrow()].drop_last() =~= Seq::<EffectView>::empty());
    assert(un.drop_last() =~= seq![un[0]]);
    assert(seq![un[0]].drop_last() =~= Seq::<EffectView>::empty());
    reveal_with_fuel(owners_after, 3);
}

/// Making an offer and then having it turned down gives its maker back both
/// the offered price, through the vault, and the rent paid to create the
/// offer, with its closing: the maker's lamports are as before, and the vault
/// and the offer hold nothing.
pub proof fn lemma_offer_then_reject_round_trip(
    m: MakeOffer,
    price: u64,
    r: RejectOffer,
    rent: u64,
    balances: Balances,
)
    requires
        r.offer_maker == m.maker,
        r.offer.key == m.offer.key,
        r.offer_vault.key == m.offer_vault,
        m.maker@ != m.offer_vault@,
        m.maker@ != m.offer.key@,
        m.offer.key@ != m.offer_vault@,
        balances(m.offer_vault@) == 0,
        balances(m.offer.key@) == 0,
        r.offer_vault.lamports == price,
    ensures
        ({
            let created = apply_effect(creation(m.maker@, m.offer.key@, rent), balances);
            let offered = apply_effects(seq![m.deposit(price)], created);
            let rejected = apply_effects(r.rejection(), offered);
            &&& offered(m.offer_vault@) == price
            &&& rejected(m.maker@) == balances(m.maker@)
            &&& rejected(m.offer_vault@) == 0
            &&& rejected(m.offer.key@) == 0
        }),
{
    let created = apply_effect(creation(m.maker@, m.offer.key@, rent), balances);
    lemma_apply_short(m.deposit(price), m.deposit(price), created);
    let offered = apply_effects(seq![m.deposit(price)], created);
    let rj = r.rejection();
    lemma_apply_short(rj[0], rj[1], offered);
    assert(rj =~= seq![rj[0], rj[1]]);
}

/// Making an offer and then withdrawing it gives its maker back both the
/// offered price, through the vault, and the rent paid to create the offer,
/// with its closing: the maker's lamports are as before, and the vault and
/// the offer hold nothing.
pub proof fn lemma_offer_then_close_round_trip(
    m: MakeOffer,
    price: u64,
    c: CloseOffer,
    rent: u64,
    balances: Balances,
)
    requires
        c.offer_maker == m.maker,
        c.offer.key == m.offer.key,
        c.offer_vault.key == m.offer_vault,
        m.maker@ != m.offer_vault@,
        m.maker@ != m.offer.key@,
        m.offer.key@ != m.offer_vault@,
        balances(m.offer_vault@) == 0,
        balances(m.offer.key@) == 0,
        c.offer_vault.lamports == price,
    ensures
        ({
            let created = apply_effect(creation(m.maker@, m.offer.key@, rent), balances);
            let offered = apply_effects(seq![m.deposit(price)], created);
            let withdrawn = apply_effects(c.withdrawal(), offered);
            &&& offered(m.offer_vault@) == price
            &&& withdrawn(m.maker@) == balances(m.maker@)
            &&& withdrawn(m.offer_vault@) == 0
            &&& withdrawn(m.offer.key@) == 0
        }),
{
    let created = apply_effect(creation(m.maker@, m.offer.key@, rent), balances);
    lemma_apply_short(m.deposit(price), m.deposit(price), created);
    let offered = apply_effects(seq![m.deposit(price)], created);
    let wd = c.withdrawal();
    lemma_apply_short(wd[0], wd[1], offered);
    assert(wd =~= seq![wd[0], wd[1]]);
}

/// The treasury as a second withdrawal finds it after a first of `first`.
pub open spec fn after_withdrawal(w: WithdrawFee, first: u64) -> WithdrawFee {
    WithdrawFee {
        treasury: SystemAccount {
            key: w.treasury.key,
            lamports: (w.treasury.lamports - first) as u64,
        },
        ..w
    }
}

/// Two withdrawals act as one of their sum: where the treasury holds both,
/// each is admitted, and together they leave the treasury and the admin as
/// one withdrawal of the sum would; where it holds the first but not both,
/// the second is refused for the amount. The accounts' checks do not depend
/// on the treasury's balance.
pub proof fn lemma_two_withdrawals_act_as_one(
    w: WithdrawFee,
    first: u64,
    second: u64,
    balances: Balances,
    program_id: Seq<u8>,
)
    requires
        balances(w.treasury.key@) == w.treasury.lamports,
        w.treasury.key@ != w.admin@,
    ensures
        after_withdrawal(w, first).violation(program_id) == w.violation(program_id),
        first + second <= w.treasury.lamports ==> {
            let w2 = after_withdrawal(w, first);
            let once = apply_effects(seq![w.payout(first)], balances);
            let twice = apply_effects(seq![w2.payout(second)], once);
            let sum = apply_effects(seq![w.payout((first + second) as u64)], balances);
            &&& first <= w.treasury.lamports
            &&& second <= w2.treasury.lamports
            &&& once(w.treasury.key@) == w2.treasury.lamports
            &&& twice(w.treasury.key@) == sum(w.treasury.key@)
            &&& twice(w.admin@) == sum(w.admin@)
            &&& twice(w.treasury.key@) == w.treasury.lamports - (first + second)
        },
        first <= w.treasury.lamports < first + second ==> second > after_withdrawal(
            w,
            first,
        ).treasury.lamports,
{
    let w2 = after_withdrawal(w, first);
    lemma_apply_short(w.payout(first), w.payout(first), balances);
    let once = apply_effects(seq![w.payout(first)], balances);
    lemma_apply_short(w2.payout(second), w2.payout(second), once);
    lemma_apply_short(
        w.payout((first + second) as u64),
        w.payout((first + second) as u64),
        balances,
    );
}

/// Whether no effect of a list moves an asset.
pub open spec fn moves_no_asset(effects: Seq<EffectView>) -> bool {
    forall|i: int| 0 <= i < effects.len() ==> !(#[trigger] effects[i] is TransferAsset)
}

/// Effects that move no asset leave every asset's owner as it was.
proof fn lemma_owners_unchanged(effects: Seq<EffectView>, owners: Owners)
    requires
        moves_no_asset(effects),
    ensures
        owners_after(effects, owners) == owners,
    decreases effects.len(),
{
    if effects.len() > 0 {
        let rest = effects.drop_last();
        assert forall|i: int| 0 <= i < rest.len() implies !(#[trigger] rest[i] is TransferAsset) by {
            assert(rest[i] == effects[i]);
        }
        lemma_owners_unchanged(rest, owners);
        assert(!(effects[effects.len() - 1] is TransferAsset));
    }
}

/// The owners after one more effect: an asset transfer gives its asset the
/// new owner and leaves the others; any other effect leaves all of them.
proof fn lemma_owners_push(effects: Seq<EffectView>, e: EffectView, owners: Owners)
    ensures
        !(e is TransferAsset) ==> owners_after(effects.push(e), owners) == owners_after(effects, owners),
        e matches EffectView::TransferAsset { asset, new_owner, .. } ==> {
            &&& owners_after(effects.push(e), owners)(asset) == new_owner
            &&& forall|x: Seq<u8>|
                x != asset ==> #[trigger] owners_after(effects.push(e), owners)(x) == owners_after(
                    effects,
                    owners,
                )(x)
        },
{
    assert(effects.push(e).drop_last() =~= effects);
    assert(effects.push(e).last() == e);
}

/// A sale hands the listed asset, of the collection given, to the buyer,
/// with the listing approving as its keeper and signing with the listing's
/// seeds (the tag, the asset) and bump; it moves no other asset.
pub proof fn lemma_sale_delivers_the_asset_to_the_buyer(b: Buy, owners: Owners)
    ensures
        owners_after(b.sale(), owners)(b.asset@) == b.taker@,
        forall|x: Seq<u8>| x != b.asset@ ==> #[trigger] owners_after(b.sale(), owners)(x) == owners(x),
        exists|i: int|
            0 <= i < b.sale().len() && #[trigger] b.sale()[i] == (EffectView::TransferAsset {
                asset: b.asset@,
                collection: b.collection.deep_view(),
                payer: b.taker@,
                authority: Some(b.listing.key@),
                new_owner: b.taker@,
                signer_seeds: seq![utf8_bytes("listing"@), b.asset@, seq![b.listing.data.bump]],
            }),
{
    let base = b.preparation() + b.payments();
    let delivered = base.push(b.asset_delivery());
    let rewarded = delivered.push(b.reward());
    let closing = EffectView::Close { account: b.listing.key@, destination: b.maker@ };
    assert(b.sale() =~= rewarded.push(closing));
    assert forall|i: int| 0 <= i < base.len() implies !(#[trigger] base[i] is TransferAsset) by {
        if i < b.preparation().len() {
            assert(base[i] == b.preparation()[i]);
        } else {
            assert(base[i] == b.payments()[i - b.preparation().len()]);
        }
    }
    lemma_owners_unchanged(base, owners);
    lemma_owners_push(base, b.asset_delivery(), owners);
    lemma_owners_push(delivered, b.reward(), owners);
    lemma_owners_push(rewarded, closing, owners);
    assert(with_bump(listing_seeds_spec(b.asset@), b.listing.data.bump) =~= seq![
        utf8_bytes("listing"@),
        b.asset@,
        seq![b.listing.data.bump],
    ]);
    assert(b.sale()[base.len() as int] == b.asset_delivery());
}

/// Taking an asset off sale hands it back, of the collection given, to its
/// maker, with the listing approving as its keeper and signing with the
/// listing's seeds (the tag, the asset) and bump; it moves no other asset.
pub proof fn lemma_delist_returns_the_asset_with_its_collection(d: Delist, owners: Owners)
    ensures
        d.unlisting()[0] == (EffectView::TransferAsset {
            asset: d.asset@,
            collection: d.collection.deep_view(),
            payer: d.maker@,
            authority: Some(d.listing.key@),
            new_owner: d.maker@,
            signer_seeds: seq![utf8_bytes("listing"@), d.asset@, seq![d.listing.data.bump]],
        }),
        owners_after(d.unlisting(), owners)(d.asset@) == d.maker@,
        forall|x: Seq<u8>| x != d.asset@ ==> #[trigger] owners_after(d.unlisting(), owners)(x) == owners(x),
{
    let un = d.unlisting();
    let first = seq![un[0]];
    assert(un =~= first.push(un[1]));
    assert(first =~= Seq::<EffectView>::empty().push(un[0]));
    lemma_owners_unchanged(Seq::<EffectView>::empty(), owners);
    lemma_owners_push(Seq::<EffectView>::empty(), un[0], owners);
    lemma_owners_push(first, un[1], owners);
    assert(with_bump(listing_seeds_spec(d.asset@), d.listing.data.bump) =~= seq![
        utf8_bytes("listing"@),
        d.asset@,
        seq![d.listing.data.bump],
    ]);
}

/// Listing an asset hands it, of the collection given, from its maker, who
/// approves and pays, into the keeping of the listing; it moves no other
/// asset.
pub proof fn lemma_list_escrows_the_asset_with_its_collection(li: List, owners: Owners)
    ensures
        li.escrow() == (EffectView::TransferAsset {
            asset: li.asset@,
            collection: li.collection.deep_view(),
            payer: li.maker@,
            authority: None,
            new_owner: li.listing.key@,
            signer_seeds: Seq::empty(),
        }),
        owners_after(seq![li.escrow()], owners)(li.asset@) == li.listing.key@,
        forall|x: Seq<u8>|
            x != li.asset@ ==> #[trigger] owners_after(seq![li.escrow()], owners)(x) == owners(x),
{
    assert(seq![li.escrow()] =~= Seq::<EffectView>::empty().push(li.escrow()));
    lemma_owners_unchanged(Seq::<EffectView>::empty(), owners);
    lemma_owners_push(Seq::<EffectView>::empty(), li.escrow(), owners);
}

/// Initialization admits exactly the accounts that are the addresses found
/// for their seeds: the marketplace for its tag and the name, the reward
/// mint and the treasury for their tags and the marketplace. Nothing else of
/// the name counts: every name of at most 32 bytes can seed a marketplace.
pub proof fn lemma_initialize_admits_every_name_that_seeds(
    i: Initialize,
    name: Seq<char>,
    program_id: Seq<u8>,
)
    ensures
        i.constraints_hold(name, program_id) <==> {
            &&& (found_address(seq![utf8_bytes("maketplace"@), utf8_bytes(name)], program_id) matches Some(
                (a, _),
            ) && a == i.maketplace.key@)
            &&& (found_address(seq![utf8_bytes("reward_mint"@), i.maketplace.key@], program_id) matches Some(
                (a, _),
            ) && a == i.reward_mint@)
            &&& (found_address(seq![utf8_bytes("treasury"@), i.maketplace.key@], program_id) matches Some(
                (a, _),
            ) && a == i.treasury@)
        },
{
}

/// Every refusal has its own error number.
pub proof fn lemma_error_numbers_distinct(a: Error, b: Error)
    requires
        a != b,
    ensures
        a.number() != b.number(),
{
}

} // verus!
