use vstd::prelude::*;
use crate::error::Error;
use crate::pda::{canonical_bump, derives, lemma_search_bumps, find_program_address, found_address, is_derived_with_bump};
use crate::state::{Address, MPL_CORE_ID};

verus! {

/// Whether `key` is the address found for `seeds`.
pub open spec fn is_found_address(key: Seq<u8>, seeds: Seq<Seq<u8>>, program_id: Seq<u8>) -> bool {
    found_address(seeds, program_id) matches Some((a, _)) && a == key
}

/// The bump found for `seeds`.
pub open spec fn found_bump(seeds: Seq<Seq<u8>>, program_id: Seq<u8>) -> u8 {
    found_address(seeds, program_id).unwrap().1
}

/// Looks up the address of `seeds` and checks that `key` is it.
pub fn check_found_address(key: &Address, seeds: &Vec<Vec<u8>>, program_id: &Address) -> (r: Result<
    u8,
    Error,
>)
    ensures
        r is Ok <==> is_found_address(key@, seeds.deep_view(), program_id@),
        r matches Ok(b) ==> b == found_bump(seeds.deep_view(), program_id@),
        r matches Ok(b) ==> canonical_bump(key@, seeds.deep_view(), b, program_id@),
        r matches Err(e) ==> e == Error::ConstraintSeeds,
{
    proof {
        lemma_search_bumps(seeds.deep_view(), program_id@, 255);
    }
    match find_program_address(seeds, program_id) {
        Some((a, b)) => {
            if a.same(key) {
                Ok(b)
            } else {
                Err(Error::ConstraintSeeds)
            }
        },
        None => Err(Error::ConstraintSeeds),
    }
}

/// Checks that `key` is the address that `seeds` and `bump` derive.
pub fn check_derived(key: &Address, seeds: Vec<Vec<u8>>, bump: u8, program_id: &Address) -> (r:
    Result<(), Error>)
    ensures
        r is Ok <==> derives(key@, seeds.deep_view(), bump, program_id@),
        r matches Err(e) ==> e == Error::ConstraintSeeds,
{
    if is_derived_with_bump(key, seeds, bump, program_id) {
        Ok(())
    } else {
        Err(Error::ConstraintSeeds)
    }
}

/// Checks that a stored address is the account passed for it.
pub fn check_has_one(stored: &Address, account: &Address) -> (r: Result<(), Error>)
    ensures
        r is Ok <==> stored@ == account@,
        r matches Err(e) ==> e == Error::ConstraintHasOne,
{
    if stored.same(account) {
        Ok(())
    } else {
        Err(Error::ConstraintHasOne)
    }
}

/// Checks that `key` is the Metaplex Core program.
pub fn check_mpl_core_program(key: &Address) -> (r: Result<(), Error>)
    ensures
        r is Ok <==> key@ == MPL_CORE_ID@,
        r matches Err(e) ==> e == Error::ConstraintAddress,
{
    if key.same(&Address::new(MPL_CORE_ID)) {
        Ok(())
    } else {
        Err(Error::ConstraintAddress)
    }
}

/// Checks that an account closed into `destination` is not that account.
pub fn check_close(account: &Address, destination: &Address) -> (r: Result<(), Error>)
    ensures
        r is Ok <==> account@ != destination@,
        r matches Err(e) ==> e == Error::ConstraintClose,
{
    if account.same(destination) {
        Err(Error::ConstraintClose)
    } else {
        Ok(())
    }
}

} // verus!
