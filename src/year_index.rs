use std::collections::HashMap;
use vstd::prelude::*;

verus! {

broadcast use vstd::std_specs::hash::group_hash_axioms;

/// The role that a year belongs to: the last entry of `pairs` whose years
/// hold `year` wins.
pub open spec fn role_of_year(pairs: Seq<(String, Vec<u64>)>, year: u64) -> Option<Seq<char>>
    decreases pairs.len(),
{
    if pairs.len() == 0 {
        None
    } else if pairs.last().1@.contains(year) {
        Some(pairs.last().0@)
    } else {
        role_of_year(pairs.drop_last(), year)
    }
}

/// `m` maps each configured year to its role, and holds no other year.
pub open spec fn is_year_index_of(m: Map<u64, String>, pairs: Seq<(String, Vec<u64>)>) -> bool {
    forall|y: u64|
        #![trigger m.contains_key(y)]
        #![trigger role_of_year(pairs, y)]
        {
            &&& m.contains_key(y) <==> role_of_year(pairs, y) is Some
            &&& m.contains_key(y) ==> role_of_year(pairs, y) == Some(m[y]@)
        }
}

/// Inverts a role-to-years mapping into a year-to-role mapping. Where a year
/// is listed under more than one role, the later entry wins.
pub fn reverse_role_year_pairs(role_year_pairs: &Vec<(String, Vec<u64>)>) -> (r: HashMap<
    u64,
    String,
>)
    ensures
        is_year_index_of(r@, role_year_pairs@),
{
    let mut reversed_map: HashMap<u64, String> = HashMap::new();
    let n = role_year_pairs.len();
    let mut i: usize = 0;
    while i < n
        invariant
            n == role_year_pairs@.len(),
            i <= n,
            is_year_index_of(reversed_map@, role_year_pairs@.subrange(0, i as int)),
        decreases n - i,
    {
        let role = &role_year_pairs[i].0;
        let years = &role_year_pairs[i].1;
        let ghost prefix = role_year_pairs@.subrange(0, i as int);
        let ghost next = role_year_pairs@.subrange(0, i + 1);
        assert(next.drop_last() =~= prefix);
        assert(next.last() == role_year_pairs@[i as int]);
        let m = years.len();
        let mut j: usize = 0;
        while j < m
            invariant
                m == years@.len(),
                j <= m,
                forall|y: u64|
                    #![trigger reversed_map@.contains_key(y)]
                    {
                        &&& reversed_map@.contains_key(y) <==> (years@.subrange(0, j as int).contains(y)
                            || role_of_year(prefix, y) is Some)
                        &&& years@.subrange(0, j as int).contains(y) ==> reversed_map@.contains_key(y)
                            && reversed_map@[y]@ == role@
                        &&& !years@.subrange(0, j as int).contains(y) && reversed_map@.contains_key(y)
                            ==> role_of_year(prefix, y) == Some(reversed_map@[y]@)
                    },
            decreases m - j,
        {
            let year = years[j];
            assert(years@.subrange(0, j + 1) =~= years@.subrange(0, j as int).push(year));
            let ghost before = reversed_map@;
            reversed_map.insert(year, role.clone());
            assert forall|y: u64| #[trigger] years@.subrange(0, j + 1).contains(y) <==> (
            years@.subrange(0, j as int).contains(y) || y == year) by {
                if y == year {
                    assert(years@.subrange(0, j + 1)[j as int] == year);
                }
            }
            j = j + 1;
        }
        assert(years@.subrange(0, m as int) =~= years@);
        assert forall|y: u64| #[trigger] role_of_year(next, y) == (if years@.contains(y) {
            Some(role@)
        } else {
            role_of_year(prefix, y)
        }) by {}
        i = i + 1;
    }
    assert(role_year_pairs@.subrange(0, n as int) =~= role_year_pairs@);
    reversed_map
}

} // verus!
