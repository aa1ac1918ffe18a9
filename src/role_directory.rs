use crate::error::Error;
use vstd::prelude::*;

verus! {

/// One of a group's roles, as the platform lists it.
pub struct GroupRole {
    pub id: u64,
    pub name: String,
}

/// The id of the first role in `roles` whose name is exactly `name`.
pub open spec fn role_id_in(roles: Seq<GroupRole>, name: Seq<char>) -> Option<u64>
    decreases roles.len(),
{
    if roles.len() == 0 {
        None
    } else if roles[0].name@ == name {
        Some(roles[0].id)
    } else {
        role_id_in(roles.drop_first(), name)
    }
}

/// The first of `names` that no role in `roles` carries.
pub open spec fn first_unresolved(roles: Seq<GroupRole>, names: Seq<String>) -> Option<Seq<char>>
    decreases names.len(),
{
    if names.len() == 0 {
        None
    } else if role_id_in(roles, names[0]@) is None {
        Some(names[0]@)
    } else {
        first_unresolved(roles, names.drop_first())
    }
}

/// Every role name that a run refers to, in the order in which they are
/// resolved: the scanned roles, the roles of the year mapping, the wildcard.
pub open spec fn required_names(
    scanned_roles: Seq<String>,
    role_year_pairs: Seq<(String, Vec<u64>)>,
    wildcard_role: String,
) -> Seq<String> {
    scanned_roles + role_year_pairs.map_values(|p: (String, Vec<u64>)| p.0) + seq![wildcard_role]
}

/// The id of the first entry named `name`.
pub open spec fn lookup_in(entries: Seq<(String, u64)>, name: Seq<char>) -> Option<u64>
    decreases entries.len(),
{
    if entries.len() == 0 {
        None
    } else if entries[0].0@ == name {
        Some(entries[0].1)
    } else {
        lookup_in(entries.drop_first(), name)
    }
}

/// Role names resolved to the platform's ids.
pub struct RoleIdLookup {
    pub entries: Vec<(String, u64)>,
}

impl RoleIdLookup {
    /// The id that `name` was resolved to, if it was resolved.
    pub open spec fn id_of(&self, name: Seq<char>) -> Option<u64> {
        lookup_in(self.entries@, name)
    }

    /// The id that `name` was resolved to, if it was resolved.
    pub fn get(&self, name: &String) -> (r: Option<u64>)
        ensures
            r == self.id_of(name@),
    {
        let n = self.entries.len();
        let mut i: usize = 0;
        assert(self.entries@.subrange(0, n as int) =~= self.entries@);
        while i < n
            invariant
                n == self.entries@.len(),
                i <= n,
                lookup_in(self.entries@.subrange(i as int, n as int), name@) == self.id_of(name@),
            decreases n - i,
        {
            let ghost rest = self.entries@.subrange(i as int, n as int);
            assert(rest.drop_first() =~= self.entries@.subrange(i + 1, n as int));
            if self.entries[i].0 == *name {
                return Some(self.entries[i].1);
            }
            i = i + 1;
        }
        None
    }
}

/// The id of the first role in `roles` named `name`.
pub fn find_role_id(roles: &Vec<GroupRole>, name: &String) -> (r: Option<u64>)
    ensures
        r == role_id_in(roles@, name@),
{
    let n = roles.len();
    let mut i: usize = 0;
    assert(roles@.subrange(0, n as int) =~= roles@);
    while i < n
        invariant
            n == roles@.len(),
            i <= n,
            role_id_in(roles@.subrange(i as int, n as int), name@) == role_id_in(roles@, name@),
        decreases n - i,
    {
        let ghost rest = roles@.subrange(i as int, n as int);
        assert(rest.drop_first() =~= roles@.subrange(i + 1, n as int));
        if roles[i].name == *name {
            return Some(roles[i].id);
        }
        i = i + 1;
    }
    None
}

/// Collects every role name that a run refers to, in resolution order.
pub fn required_role_names(
    scanned_roles: &Vec<String>,
    role_year_pairs: &Vec<(String, Vec<u64>)>,
    wildcard_role: &String,
) -> (r: Vec<String>)
    ensures
        r@ == required_names(scanned_roles@, role_year_pairs@, *wildcard_role),
{
    let mut names: Vec<String> = Vec::new();
    let mut i: usize = 0;
    while i < scanned_roles.len()
        invariant
            i <= scanned_roles@.len(),
            names@ == scanned_roles@.subrange(0, i as int),
        decreases scanned_roles@.len() - i,
    {
        names.push(scanned_roles[i].clone());
        assert(scanned_roles@.subrange(0, i + 1) =~= scanned_roles@.subrange(0, i as int).push(
            scanned_roles@[i as int],
        ));
        i = i + 1;
    }
    assert(scanned_roles@.subrange(0, i as int) =~= scanned_roles@);
    let ghost pair_names = role_year_pairs@.map_values(|p: (String, Vec<u64>)| p.0);
    let mut k: usize = 0;
    while k < role_year_pairs.len()
        invariant
            k <= role_year_pairs@.len(),
            pair_names == role_year_pairs@.map_values(|p: (String, Vec<u64>)| p.0),
            names@ == scanned_roles@ + pair_names.subrange(0, k as int),
        decreases role_year_pairs@.len() - k,
    {
        names.push(role_year_pairs[k].0.clone());
        assert(pair_names.subrange(0, k + 1) =~= pair_names.subrange(0, k as int).push(
            pair_names[k as int],
        ));
        assert(scanned_roles@ + pair_names.subrange(0, k + 1) =~= (scanned_roles@
            + pair_names.subrange(0, k as int)).push(pair_names[k as int]));
        k = k + 1;
    }
    assert(pair_names.subrange(0, k as int) =~= pair_names);
    names.push(wildcard_role.clone());
    assert(names@ =~= required_names(scanned_roles@, role_year_pairs@, *wildcard_role));
    names
}

/// Each entry carries the id that `roles` gives its name.
pub open spec fn entries_agree(entries: Seq<(String, u64)>, roles: Seq<GroupRole>) -> bool {
    forall|k: int|
        0 <= k < entries.len() ==> role_id_in(roles, #[trigger] entries[k].0@) == Some(
            entries[k].1,
        )
}

proof fn lemma_lookup_agrees(entries: Seq<(String, u64)>, roles: Seq<GroupRole>, name: Seq<char>)
    requires
        entries_agree(entries, roles),
    ensures
        lookup_in(entries, name) is Some ==> lookup_in(entries, name) == role_id_in(roles, name),
        lookup_in(entries, name) is Some <==> exists|k: int|
            0 <= k < entries.len() && #[trigger] entries[k].0@ == name,
    decreases entries.len(),
{
    if entries.len() > 0 {
        let rest = entries.drop_first();
        assert forall|k: int| 0 <= k < rest.len() implies role_id_in(roles, #[trigger] rest[k].0@)
            == Some(rest[k].1) by {
            assert(rest[k] == entries[k + 1]);
        }
        lemma_lookup_agrees(rest, roles, name);
        if entries[0].0@ != name {
            if exists|k: int| 0 <= k < entries.len() && #[trigger] entries[k].0@ == name {
                let k = choose|k: int| 0 <= k < entries.len() && #[trigger] entries[k].0@ == name;
                assert(rest[k - 1].0@ == name);
            }
            if exists|k: int| 0 <= k < rest.len() && #[trigger] rest[k].0@ == name {
                let k = choose|k: int| 0 <= k < rest.len() && #[trigger] rest[k].0@ == name;
                assert(entries[k + 1].0@ == name);
            }
        } else {
            assert(entries[0].0@ == name);
        }
    }
}

/// Resolves every role name that a run refers to against the group's role
/// list. The first name, in resolution order, that no role carries is
/// reported; otherwise each of the names maps to its role's id, and no other
/// name maps to anything.
pub fn generate_role_id_lookup(
    group_roles: &Vec<GroupRole>,
    scanned_roles: &Vec<String>,
    role_year_pairs: &Vec<(String, Vec<u64>)>,
    wildcard_role: &String,
) -> (r: Result<RoleIdLookup, Error>)
    ensures
        ({
            let names = required_names(scanned_roles@, role_year_pairs@, *wildcard_role);
            match r {
                Ok(lookup) => {
                    &&& first_unresolved(group_roles@, names) is None
                    &&& forall|k: int|
                        0 <= k < names.len() ==> lookup.id_of(#[trigger] names[k]@) == role_id_in(
                            group_roles@,
                            names[k]@,
                        )
                    &&& forall|name: Seq<char>| #[trigger]
                        lookup.id_of(name) is Some ==> exists|k: int|
                            0 <= k < names.len() && #[trigger] names[k]@ == name
                },
                Err(e) => match e {
                    Error::RoleNotFound(n) => first_unresolved(group_roles@, names) == Some(n@),
                    _ => false,
                },
            }
        }),
{
    let names = required_role_names(scanned_roles, role_year_pairs, wildcard_role);
    let n = names.len();
    let mut entries: Vec<(String, u64)> = Vec::new();
    let mut i: usize = 0;
    assert(names@.subrange(0, n as int) =~= names@);
    while i < n
        invariant
            names@ == required_names(scanned_roles@, role_year_pairs@, *wildcard_role),
            n == names@.len(),
            i <= n,
            entries@.len() == i,
            first_unresolved(group_roles@, names@.subrange(i as int, n as int)) == first_unresolved(
                group_roles@,
                names@,
            ),
            forall|k: int| 0 <= k < i ==> (#[trigger] entries@[k]).0 == names@[k],
            entries_agree(entries@, group_roles@),
        decreases n - i,
    {
        let ghost rest = names@.subrange(i as int, n as int);
        assert(rest.drop_first() =~= names@.subrange(i + 1, n as int));
        assert(rest[0] == names@[i as int]);
        match find_role_id(group_roles, &names[i]) {
            Some(id) => {
                entries.push((names[i].clone(), id));
                assert(entries@[i as int].0 == names@[i as int]);
            },
            None => {
                assert(first_unresolved(group_roles@, rest) == Some(names@[i as int]@));
                let missing = names[i].clone();
                assert(missing@ == names@[i as int]@);
                return Err(Error::RoleNotFound(missing));
            },
        }
        i = i + 1;
    }
    let lookup = RoleIdLookup { entries };
    assert(names@.subrange(n as int, n as int) =~= Seq::<String>::empty());
    assert forall|k: int| 0 <= k < n implies lookup.id_of(#[trigger] names@[k]@) == role_id_in(
        group_roles@,
        names@[k]@,
    ) by {
        lemma_lookup_agrees(lookup.entries@, group_roles@, names@[k]@);
        assert(lookup.entries@[k].0@ == names@[k]@);
    }
    assert forall|name: Seq<char>| #[trigger] lookup.id_of(name) is Some implies exists|k: int|
        0 <= k < names@.len() && #[trigger] names@[k]@ == name by {
        lemma_lookup_agrees(lookup.entries@, group_roles@, name);
        let k = choose|k: int| 0 <= k < lookup.entries@.len() && #[trigger] lookup.entries@[k].0@ == name;
        assert(names@[k]@ == name);
    }
    Ok(lookup)
}

} // verus!

verus! {

/// A name that no role carries makes resolution fail, with a name that no
/// role carries.
pub proof fn lemma_missing_role_fails(roles: Seq<GroupRole>, names: Seq<String>, k: int)
    requires
        0 <= k < names.len(),
        role_id_in(roles, names[k]@) is None,
    ensures
        first_unresolved(roles, names) is Some,
        role_id_in(roles, first_unresolved(roles, names)->0) is None,
    decreases names.len(),
{
    if role_id_in(roles, names[0]@) is Some {
        assert(names.drop_first()[k - 1] == names[k]);
        lemma_missing_role_fails(roles, names.drop_first(), k - 1);
    }
}

} // verus!
