use crate::error::Error;
use crate::role_directory::RoleIdLookup;
use crate::year_index::{is_year_index_of, role_of_year};
use std::collections::HashMap;
use vstd::prelude::*;

verus! {

broadcast use vstd::std_specs::hash::group_hash_axioms;

/// The role a member created in `year` is given: the one the year index
/// names, or else the wildcard role.
pub open spec fn target_role_name(index: Map<u64, String>, wildcard: Seq<char>, year: u64) -> Seq<
    char,
> {
    if index.contains_key(year) {
        index[year]@
    } else {
        wildcard
    }
}

/// No year is listed under two differently named roles.
pub open spec fn years_unambiguous(pairs: Seq<(String, Vec<u64>)>) -> bool {
    forall|i: int, j: int, y: u64|
        0 <= i < pairs.len() && 0 <= j < pairs.len() && #[trigger] pairs[i].1@.contains(y)
            && #[trigger] pairs[j].1@.contains(y) ==> pairs[i].0@ == pairs[j].0@
}

/// The name of the role that a member created in `year` is given.
pub fn assigned_role(year_index: &HashMap<u64, String>, wildcard_role: &String, year: u64) -> (r:
    String)
    ensures
        r@ == target_role_name(year_index@, wildcard_role@, year),
{
    match year_index.get(&year) {
        Some(role) => role.clone(),
        None => wildcard_role.clone(),
    }
}

/// The role, by name and id, that a member created in `year` is given.
/// Fails with `RoleNotFound` where that role was not resolved.
pub fn role_assignment(
    year_index: &HashMap<u64, String>,
    lookup: &RoleIdLookup,
    wildcard_role: &String,
    year: u64,
) -> (r: Result<(String, u64), Error>)
    ensures
        ({
            let target = target_role_name(year_index@, wildcard_role@, year);
            match r {
                Ok((name, id)) => name@ == target && lookup.id_of(target) == Some(id),
                Err(e) => lookup.id_of(target) is None && match e {
                    Error::RoleNotFound(n) => n@ == target,
                    _ => false,
                },
            }
        }),
{
    let role = assigned_role(year_index, wildcard_role, year);
    match lookup.get(&role) {
        Some(id) => Ok((role, id)),
        None => Err(Error::RoleNotFound(role)),
    }
}

proof fn lemma_role_of_year_source(pairs: Seq<(String, Vec<u64>)>, year: u64)
    ensures
        role_of_year(pairs, year) is None <==> forall|i: int|
            0 <= i < pairs.len() ==> !(#[trigger] pairs[i].1@).contains(year),
        role_of_year(pairs, year) is Some ==> exists|i: int|
            0 <= i < pairs.len() && (#[trigger] pairs[i].1@).contains(year) && pairs[i].0@
                == role_of_year(pairs, year)->0,
    decreases pairs.len(),
{
    if pairs.len() > 0 {
        let init = pairs.drop_last();
        lemma_role_of_year_source(init, year);
        assert forall|i: int| 0 <= i < init.len() implies #[trigger] init[i] == pairs[i] by {}
        if !pairs.last().1@.contains(year) && role_of_year(init, year) is Some {
            let i = choose|i: int|
                0 <= i < init.len() && (#[trigger] init[i].1@).contains(year) && init[i].0@
                    == role_of_year(init, year)->0;
            assert(pairs[i] == init[i]);
        }
        if role_of_year(pairs, year) is None {
            assert forall|i: int| 0 <= i < pairs.len() implies !(
            #[trigger] pairs[i].1@).contains(year) by {
                if i < init.len() {
                    assert(init[i] == pairs[i]);
                }
            }
        }
    }
}

/// A member created in a year that the configuration lists under a role is
/// given that role, where no year is listed under two roles.
pub proof fn lemma_configured_year_gets_its_role(
    pairs: Seq<(String, Vec<u64>)>,
    index: Map<u64, String>,
    wildcard: Seq<char>,
    i: int,
    year: u64,
)
    requires
        is_year_index_of(index, pairs),
        years_unambiguous(pairs),
        0 <= i < pairs.len(),
        pairs[i].1@.contains(year),
    ensures
        target_role_name(index, wildcard, year) == pairs[i].0@,
{
    lemma_role_of_year_source(pairs, year);
    assert(role_of_year(pairs, year) is Some);
    assert(index.contains_key(year));
    let j = choose|j: int|
        0 <= j < pairs.len() && (#[trigger] pairs[j].1@).contains(year) && pairs[j].0@
            == role_of_year(pairs, year)->0;
    assert(pairs[i].0@ == pairs[j].0@);
}

/// A member created in a year that no role lists is given the wildcard role.
pub proof fn lemma_unconfigured_year_gets_wildcard(
    pairs: Seq<(String, Vec<u64>)>,
    index: Map<u64, String>,
    wildcard: Seq<char>,
    year: u64,
)
    requires
        is_year_index_of(index, pairs),
        forall|i: int| 0 <= i < pairs.len() ==> !(#[trigger] pairs[i].1@).contains(year),
    ensures
        target_role_name(index, wildcard, year) == wildcard,
{
    lemma_role_of_year_source(pairs, year);
    assert(role_of_year(pairs, year) is None);
    assert(!index.contains_key(year));
}

} // verus!
