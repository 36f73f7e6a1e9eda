use vstd::prelude::*;
use crate::state::{Address, utf8_bytes};

verus! {

/// The address that `Pubkey::create_program_address` derives from `seeds` for
/// the program `program_id`, or `None` where it returns an error.
pub uninterp spec fn derived_address(seeds: Seq<Seq<u8>>, program_id: Seq<u8>) -> Option<Seq<u8>>;

/// The first bump from `bump` down to 1 whose seeds, followed by it, derive
/// an address, with that address; `None` where none does.
pub open spec fn search_bumps(seeds: Seq<Seq<u8>>, program_id: Seq<u8>, bump: int) -> Option<
    (Seq<u8>, u8),
>
    decreases bump,
{
    if bump <= 0 {
        None
    } else {
        match derived_address(seeds.push(seq![bump as u8]), program_id) {
            Some(a) => Some((a, bump as u8)),
            None => search_bumps(seeds, program_id, bump - 1),
        }
    }
}

/// The address and bump that finding a program address gives for `seeds`
/// and the program `program_id`: the highest bump from 255 down to 1 whose
/// seeds derive an address, or `None` where none does.
pub open spec fn found_address(seeds: Seq<Seq<u8>>, program_id: Seq<u8>) -> Option<(Seq<u8>, u8)> {
    search_bumps(seeds, program_id, 255)
}

/// A found bump is the highest from `bump` down whose seeds derive an
/// address, and that address is the one found; where none is found, no bump
/// from 1 up to `bump` derives one.
pub proof fn lemma_search_bumps(seeds: Seq<Seq<u8>>, program_id: Seq<u8>, bump: int)
    requires
        bump <= 255,
    ensures
        search_bumps(seeds, program_id, bump) matches Some((a, b)) ==> {
            &&& derived_address(seeds.push(seq![b]), program_id) == Some(a)
            &&& 1 <= b <= bump
            &&& forall|c: u8| b < c <= bump ==> #[trigger] derived_address(seeds.push(seq![c]), program_id) is None
        },
        search_bumps(seeds, program_id, bump) is None ==> forall|c: u8|
            1 <= c <= bump ==> #[trigger] derived_address(seeds.push(seq![c]), program_id) is None,
    decreases bump,
{
    if bump > 0 {
        lemma_search_bumps(seeds, program_id, bump - 1);
        assert((bump as u8) as int == bump);
    }
}

pub open spec fn address_opt_view(r: Option<Address>) -> Option<Seq<u8>> {
    match r {
        Some(a) => Some(a@),
        None => None,
    }
}

pub open spec fn found_opt_view(r: Option<(Address, u8)>) -> Option<(Seq<u8>, u8)> {
    match r {
        Some((a, b)) => Some((a@, b)),
        None => None,
    }
}

/// `Pubkey::create_program_address`: the program address of `seeds` under
/// `program_id`. The result is named by `derived_address`; nothing more is
/// claimed of it.
#[verifier::external_body]
pub(crate) fn create_program_address(seeds: &Vec<Vec<u8>>, program_id: &Address) -> (r: Option<
    Address,
>)
    ensures
        address_opt_view(r) == derived_address(seeds.deep_view(), program_id@),
{
    let refs: Vec<&[u8]> = seeds.iter().map(|s| s.as_slice()).collect();
    let pid = anchor_lang::prelude::Pubkey::new_from_array(program_id.bytes);
    match anchor_lang::prelude::Pubkey::create_program_address(&refs, &pid) {
        Ok(key) => Some(Address { bytes: key.to_bytes() }),
        Err(_) => None,
    }
}

/// `Pubkey::try_find_program_address`: searches the bump seeds from 255 down
/// to 1 and returns the first address that `create_program_address` accepts
/// for `seeds` followed by the bump, as `found_address` states over
/// `derived_address` (a seed-length error stops the search early, but it
/// fails at every bump alike).
#[verifier::external_body]
pub(crate) fn find_program_address(seeds: &Vec<Vec<u8>>, program_id: &Address) -> (r: Option<
    (Address, u8),
>)
    ensures
        found_opt_view(r) == found_address(seeds.deep_view(), program_id@),
{
    let refs: Vec<&[u8]> = seeds.iter().map(|s| s.as_slice()).collect();
    let pid = anchor_lang::prelude::Pubkey::new_from_array(program_id.bytes);
    match anchor_lang::prelude::Pubkey::try_find_program_address(&refs, &pid) {
        Some((key, bump)) => Some((Address { bytes: key.to_bytes() }, bump)),
        None => None,
    }
}

// The tags that begin each kind of seed list.
pub open spec fn marketplace_tag() -> Seq<u8> {
    utf8_bytes("maketplace"@)
}

pub open spec fn treasury_tag() -> Seq<u8> {
    utf8_bytes("treasury"@)
}

pub open spec fn reward_mint_tag() -> Seq<u8> {
    utf8_bytes("reward_mint"@)
}

pub open spec fn listing_tag() -> Seq<u8> {
    utf8_bytes("listing"@)
}

pub open spec fn offer_tag() -> Seq<u8> {
    utf8_bytes("offer"@)
}

pub open spec fn offer_vault_tag() -> Seq<u8> {
    utf8_bytes("offer_vault"@)
}

/// The seeds of a marketplace's address: the tag and the name.
pub open spec fn marketplace_seeds_spec(name: Seq<char>) -> Seq<Seq<u8>> {
    seq![marketplace_tag(), utf8_bytes(name)]
}

/// The seeds of a marketplace's treasury: the tag and the marketplace.
pub open spec fn treasury_seeds_spec(marketplace: Seq<u8>) -> Seq<Seq<u8>> {
    seq![treasury_tag(), marketplace]
}

/// The seeds of a marketplace's reward mint: the tag and the marketplace.
pub open spec fn reward_mint_seeds_spec(marketplace: Seq<u8>) -> Seq<Seq<u8>> {
    seq![reward_mint_tag(), marketplace]
}

/// The seeds of a listing: the tag and the listed asset.
pub open spec fn listing_seeds_spec(asset: Seq<u8>) -> Seq<Seq<u8>> {
    seq![listing_tag(), asset]
}

/// The seeds of an offer: the tag, the listing and the offer's maker.
pub open spec fn offer_seeds_spec(listing: Seq<u8>, offer_maker: Seq<u8>) -> Seq<Seq<u8>> {
    seq![offer_tag(), listing, offer_maker]
}

/// The seeds of an offer's vault: the tag and the offer.
pub open spec fn offer_vault_seeds_spec(offer: Seq<u8>) -> Seq<Seq<u8>> {
    seq![offer_vault_tag(), offer]
}

/// The seeds of the associated token account of `wallet` for `mint`, kept
/// by `token_program`: the three addresses, under the associated token
/// account program.
pub open spec fn associated_token_seeds_spec(wallet: Seq<u8>, token_program: Seq<u8>, mint: Seq<u8>) -> Seq<
    Seq<u8>,
> {
    seq![wallet, token_program, mint]
}

/// Seeds followed by a bump, as a program signs with them.
pub open spec fn with_bump(seeds: Seq<Seq<u8>>, bump: u8) -> Seq<Seq<u8>> {
    seeds.push(seq![bump])
}

fn tag(s: &str) -> (v: Vec<u8>)
    ensures
        v@ == utf8_bytes(s@),
{
    vstd::slice::slice_to_vec(s.as_bytes())
}

fn address_bytes(a: &Address) -> (v: Vec<u8>)
    ensures
        v@ == a@,
{
    vstd::slice::slice_to_vec(a.bytes.as_slice())
}

/// The seeds of the marketplace called `name`.
pub fn marketplace_seeds(name: &String) -> (seeds: Vec<Vec<u8>>)
    ensures
        seeds.deep_view() == marketplace_seeds_spec(name@),
{
    let mut seeds: Vec<Vec<u8>> = Vec::new();
    seeds.push(tag("maketplace"));
    seeds.push(vstd::slice::slice_to_vec(name.as_str().as_bytes()));
    assert(seeds.deep_view() =~~= marketplace_seeds_spec(name@));
    seeds
}

/// The seeds of the treasury of `marketplace`.
pub fn treasury_seeds(marketplace: &Address) -> (seeds: Vec<Vec<u8>>)
    ensures
        seeds.deep_view() == treasury_seeds_spec(marketplace@),
{
    let mut seeds: Vec<Vec<u8>> = Vec::new();
    seeds.push(tag("treasury"));
    seeds.push(address_bytes(marketplace));
    assert(seeds.deep_view() =~~= treasury_seeds_spec(marketplace@));
    seeds
}

/// The seeds of the reward mint of `marketplace`.
pub fn reward_mint_seeds(marketplace: &Address) -> (seeds: Vec<Vec<u8>>)
    ensures
        seeds.deep_view() == reward_mint_seeds_spec(marketplace@),
{
    let mut seeds: Vec<Vec<u8>> = Vec::new();
    seeds.push(tag("reward_mint"));
    seeds.push(address_bytes(marketplace));
    assert(seeds.deep_view() =~~= reward_mint_seeds_spec(marketplace@));
    seeds
}

/// The seeds of the listing of `asset`.
pub fn listing_seeds(asset: &Address) -> (seeds: Vec<Vec<u8>>)
    ensures
        seeds.deep_view() == listing_seeds_spec(asset@),
{
    let mut seeds: Vec<Vec<u8>> = Vec::new();
    seeds.push(tag("listing"));
    seeds.push(address_bytes(asset));
    assert(seeds.deep_view() =~~= listing_seeds_spec(asset@));
    seeds
}

/// The seeds of the offer that `offer_maker` makes on `listing`.
pub fn offer_seeds(listing: &Address, offer_maker: &Address) -> (seeds: Vec<Vec<u8>>)
    ensures
        seeds.deep_view() == offer_seeds_spec(listing@, offer_maker@),
{
    let mut seeds: Vec<Vec<u8>> = Vec::new();
    seeds.push(tag("offer"));
    seeds.push(address_bytes(listing));
    seeds.push(address_bytes(offer_maker));
    assert(seeds.deep_view() =~~= offer_seeds_spec(listing@, offer_maker@));
    seeds
}

/// The seeds of the vault of `offer`.
pub fn offer_vault_seeds(offer: &Address) -> (seeds: Vec<Vec<u8>>)
    ensures
        seeds.deep_view() == offer_vault_seeds_spec(offer@),
{
    let mut seeds: Vec<Vec<u8>> = Vec::new();
    seeds.push(tag("offer_vault"));
    seeds.push(address_bytes(offer));
    assert(seeds.deep_view() =~~= offer_vault_seeds_spec(offer@));
    seeds
}

/// The seeds of the associated token account of `wallet` for `mint`, kept
/// by `token_program`.
pub fn associated_token_seeds(wallet: &Address, token_program: &Address, mint: &Address) -> (seeds: Vec<
    Vec<u8>,
>)
    ensures
        seeds.deep_view() == associated_token_seeds_spec(wallet@, token_program@, mint@),
{
    let mut seeds: Vec<Vec<u8>> = Vec::new();
    seeds.push(address_bytes(wallet));
    seeds.push(address_bytes(token_program));
    seeds.push(address_bytes(mint));
    assert(seeds.deep_view() =~~= associated_token_seeds_spec(wallet@, token_program@, mint@));
    seeds
}

/// Appends the bump to `seeds`, giving the seeds a program signs with.
pub fn push_bump(seeds: &mut Vec<Vec<u8>>, bump: u8)
    ensures
        final(seeds).deep_view() == with_bump(old(seeds).deep_view(), bump),
{
    let mut b: Vec<u8> = Vec::new();
    b.push(bump);
    seeds.push(b);
    assert(final(seeds).deep_view() =~~= with_bump(old(seeds).deep_view(), bump));
}

/// Whether `key` is the address that `seeds` followed by `bump` derive.
pub open spec fn derives(key: Seq<u8>, seeds: Seq<Seq<u8>>, bump: u8, program_id: Seq<u8>) -> bool {
    derived_address(with_bump(seeds, bump), program_id) == Some(key)
}

/// Whether `bump` is the canonical bump of `seeds`, the one that finding an
/// address gives: the highest that derives an address, and `key` is it.
pub open spec fn canonical_bump(key: Seq<u8>, seeds: Seq<Seq<u8>>, bump: u8, program_id: Seq<u8>) -> bool {
    &&& derives(key, seeds, bump, program_id)
    &&& 1 <= bump
    &&& forall|c: u8| bump < c ==> #[trigger] derived_address(seeds.push(seq![c]), program_id) is None
}

/// Whether `key` is the address that `seeds` followed by `bump` derive.
pub fn is_derived_with_bump(key: &Address, seeds: Vec<Vec<u8>>, bump: u8, program_id: &Address) -> (r:
    bool)
    ensures
        r == derives(key@, seeds.deep_view(), bump, program_id@),
{
    let mut full = seeds;
    push_bump(&mut full, bump);
    match create_program_address(&full, program_id) {
        Some(a) => a.same(key),
        None => false,
    }
}

} // verus!
