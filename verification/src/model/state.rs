use crate::dto::auth_dto::{RoleRelPath, RoleRelPathDto};
use dashmap::DashMap;
use vstd::prelude::*;

verus! {

/// `dashmap::DashMap`, a concurrent hash map. Proofs see what one holds
/// through [`role_map_entries`] only.
#[verifier::external_type_specification]
#[verifier::external_body]
#[verifier::reject_recursive_types(K)]
#[verifier::reject_recursive_types(V)]
#[verifier::reject_recursive_types(S)]
pub struct ExDashMap<K, V, S>(DashMap<K, V, S>);

/// What a map from role names to grants holds: for each role name that is a
/// key, the grants stored under it, in their stored order.
pub uninterp spec fn role_map_entries(map: DashMap<String, Vec<RoleRelPathDto>>) -> Map<
    Seq<char>,
    Seq<RoleRelPath>,
>;

/// `DashMap::new` makes a map without any key.
#[verifier::external_body]
fn role_map_new() -> (made: DashMap<String, Vec<RoleRelPathDto>>)
    ensures
        forall|role: Seq<char>| !(#[trigger] role_map_entries(made).contains_key(role)),
{
    DashMap::new()
}

/// `DashMap::insert` stores `grants` under `role`, in place of what the key
/// held before if it was there, and leaves every other key as it was.
#[verifier::external_body]
fn role_map_insert(
    map: &mut DashMap<String, Vec<RoleRelPathDto>>,
    role: String,
    grants: Vec<RoleRelPathDto>,
)
    ensures
        role_map_entries(*final(map)) == role_map_entries(*old(map)).insert(
            role@,
            grants.deep_view(),
        ),
{
    map.insert(role, grants);
}

/// `DashMap::get` finds the grants stored under `role`; they are handed out
/// as a copy. It finds nothing exactly when `role` is not a key.
#[verifier::external_body]
fn role_map_get(map: &DashMap<String, Vec<RoleRelPathDto>>, role: &str) -> (found: Option<
    Vec<RoleRelPathDto>,
>)
    ensures
        match found {
            Some(grants) => role_map_entries(*map).contains_key(role@) && grants.deep_view()
                == role_map_entries(*map)[role@],
            None => !role_map_entries(*map).contains_key(role@),
        },
{
    map.get(role).map(|held| held.value().clone())
}

/// `DashMap`'s `clone` makes a map of its own that holds what `map` holds
/// at the time of the call.
#[verifier::external_body]
fn role_map_copy(map: &DashMap<String, Vec<RoleRelPathDto>>) -> (copy: DashMap<
    String,
    Vec<RoleRelPathDto>,
>)
    ensures
        role_map_entries(copy) == role_map_entries(*map),
{
    map.clone()
}

/// `DashMap::iter` walks every key once, in an order that is not fixed. The
/// pairs it yields are handed out as copies: each is a key with the grants
/// stored under it, no key comes twice, and no key is left out.
#[verifier::external_body]
fn role_map_pairs(map: &DashMap<String, Vec<RoleRelPathDto>>) -> (pairs: Vec<
    (String, Vec<RoleRelPathDto>),
>)
    ensures
        lists_exactly(pairs.deep_view(), role_map_entries(*map)),
{
    map.iter().map(|held| (held.key().clone(), held.value().clone())).collect()
}

/// `pairs` lists the map `entries` key by key: every pair is a key with its
/// value, no key occurs twice, and every key occurs.
pub open spec fn lists_exactly(
    pairs: Seq<(Seq<char>, Seq<RoleRelPath>)>,
    entries: Map<Seq<char>, Seq<RoleRelPath>>,
) -> bool {
    &&& forall|i: int|
        0 <= i < pairs.len() ==> entries.contains_key(#[trigger] pairs[i].0) && entries[pairs[i].0]
            == pairs[i].1
    &&& forall|i: int, j: int|
        0 <= i < j < pairs.len() ==> (#[trigger] pairs[i]).0 != (#[trigger] pairs[j]).0
    &&& forall|role: Seq<char>| #[trigger]
        entries.contains_key(role) ==> exists|i: int| 0 <= i < pairs.len() && pairs[i].0 == role
}

/// The test "this grant belongs to `role`".
pub open spec fn of_role(role: Seq<char>) -> spec_fn(RoleRelPath) -> bool {
    |grant: RoleRelPath| grant.role_name == role
}

/// Whether some grant of `grants` belongs to `role`.
pub open spec fn names_role(grants: Seq<RoleRelPath>, role: Seq<char>) -> bool {
    exists|i: int| 0 <= i < grants.len() && (#[trigger] grants[i]).role_name == role
}

/// The table that a loaded sequence of grants stands for: its keys are the
/// role names that occur, and each role maps to its own grants in the order
/// in which they were loaded.
pub open spec fn grouped(grants: Seq<RoleRelPath>) -> Map<Seq<char>, Seq<RoleRelPath>> {
    Map::new(
        |role: Seq<char>| names_role(grants, role),
        |role: Seq<char>| grants.filter(of_role(role)),
    )
}

/// Filtering after one more grant: the grant joins the end of its own
/// role's list and changes no other.
pub proof fn lemma_filter_push(grants: Seq<RoleRelPath>, grant: RoleRelPath, role: Seq<char>)
    ensures
        grants.push(grant).filter(of_role(role)) == (if grant.role_name == role {
            grants.filter(of_role(role)).push(grant)
        } else {
            grants.filter(of_role(role))
        }),
{
    reveal(Seq::filter);
    assert(grants.push(grant).drop_last() =~= grants);
}

/// A role that no grant names has an empty list.
pub proof fn lemma_filter_unnamed(grants: Seq<RoleRelPath>, role: Seq<char>)
    requires
        !names_role(grants, role),
    ensures
        grants.filter(of_role(role)) == Seq::<RoleRelPath>::empty(),
    decreases grants.len(),
{
    reveal(Seq::filter);
    if grants.len() > 0 {
        let shorter = grants.drop_last();
        assert forall|i: int| 0 <= i < shorter.len() implies (#[trigger] shorter[i]).role_name
            != role by {
            assert(grants[i].role_name != role);
        }
        lemma_filter_unnamed(shorter, role);
        assert(grants.last() == grants[grants.len() - 1]);
    }
}

/// Every list of a grouped table is non-empty and holds only grants of the
/// role it stands under.
pub proof fn lemma_grouped_lists(grants: Seq<RoleRelPath>, role: Seq<char>)
    requires
        names_role(grants, role),
    ensures
        grouped(grants)[role].len() > 0,
        forall|i: int|
            0 <= i < grouped(grants)[role].len() ==> (#[trigger] grouped(
                grants,
            )[role][i]).role_name == role,
{
    broadcast use Seq::lemma_filter_pred, Seq::lemma_filter_contains;

    let i = choose|i: int| 0 <= i < grants.len() && (#[trigger] grants[i]).role_name == role;
    assert(of_role(role)(grants[i]));
    assert(grants.filter(of_role(role)).contains(grants[i]));
    assert forall|k: int| 0 <= k < grants.filter(of_role(role)).len() implies (
    #[trigger] grants.filter(of_role(role))[k]).role_name == role by {
        assert(of_role(role)(grants.filter(of_role(role))[k]));
    }
}

/// Grouping after one more grant: the grant's role now maps to its former
/// list with the grant at its end, and every other role is as before.
pub proof fn lemma_grouped_push(grants: Seq<RoleRelPath>, grant: RoleRelPath)
    ensures
        grouped(grants.push(grant)) == grouped(grants).insert(
            grant.role_name,
            grants.filter(of_role(grant.role_name)).push(grant),
        ),
{
    let longer = grants.push(grant);
    let expected = grouped(grants).insert(
        grant.role_name,
        grants.filter(of_role(grant.role_name)).push(grant),
    );
    assert forall|role: Seq<char>| grouped(longer).contains_key(role) <==> expected.contains_key(
        role,
    ) by {
        if names_role(longer, role) {
            let i = choose|i: int| 0 <= i < longer.len() && (#[trigger] longer[i]).role_name == role;
            if i < grants.len() {
                assert(grants[i].role_name == role);
            }
        }
        if names_role(grants, role) {
            let i = choose|i: int| 0 <= i < grants.len() && (#[trigger] grants[i]).role_name == role;
            assert(longer[i].role_name == role);
        }
        if role == grant.role_name {
            assert(longer[grants.len() as int].role_name == role);
        }
    }
    assert forall|role: Seq<char>| grouped(longer).contains_key(role) implies grouped(
        longer,
    )[role] == expected[role] by {
        lemma_filter_push(grants, grant, role);
    }
    assert(grouped(longer) =~= expected);
}

/// The permission table: for each role name, the grants of that role. A
/// table is built whole from what was loaded and never changed afterwards,
/// so whoever holds one sees a complete table.
pub struct PermissionTable {
    by_role: DashMap<String, Vec<RoleRelPathDto>>,
}

impl PermissionTable {
    /// The table as a map from role name to that role's grants in stored
    /// order. A role without grants is no key.
    pub closed spec fn view(&self) -> Map<Seq<char>, Seq<RoleRelPath>> {
        role_map_entries(self.by_role)
    }

    /// The table is the grouping of some loaded sequence of grants.
    #[verifier::type_invariant]
    pub closed spec fn wf(&self) -> bool {
        exists|grants: Seq<RoleRelPath>| role_map_entries(self.by_role) == grouped(grants)
    }

    /// The table without any grant.
    pub fn new() -> (table: Self)
        ensures
            table@ == grouped(Seq::empty()),
            forall|role: Seq<char>| !table@.contains_key(role),
    {
        let by_role = role_map_new();
        assert(role_map_entries(by_role) =~= grouped(Seq::empty()));
        PermissionTable { by_role }
    }

    /// Builds the table that `loaded` stands for: each grant goes to the end
    /// of the list of its role.
    pub fn from_entries(loaded: Vec<RoleRelPathDto>) -> (table: Self)
        ensures
            table@ == grouped(loaded.deep_view()),
    {
        let mut by_role = role_map_new();
        let ghost all = loaded.deep_view();
        assert(role_map_entries(by_role) =~= grouped(all.take(0)));
        let mut i: usize = 0;
        while i < loaded.len()
            invariant
                i <= loaded.len(),
                all == loaded.deep_view(),
                role_map_entries(by_role) == grouped(all.take(i as int)),
            decreases loaded.len() - i,
        {
            let grant = loaded[i].clone();
            let role = grant.role_name.clone();
            let ghost before = all.take(i as int);
            let mut grants = match role_map_get(&by_role, role.as_str()) {
                Some(grants) => grants,
                None => {
                    proof {
                        lemma_filter_unnamed(before, role@);
                    }
                    Vec::new()
                },
            };
            assert(grants.deep_view() =~= before.filter(of_role(role@)));
            let ghost held = grants.deep_view();
            grants.push(grant);
            assert(grants.deep_view() =~= held.push(all[i as int]));
            role_map_insert(&mut by_role, role, grants);
            proof {
                lemma_grouped_push(before, all[i as int]);
                assert(all.take(i + 1) =~= before.push(all[i as int]));
            }
            i += 1;
        }
        assert(all.take(loaded.len() as int) =~= all);
        PermissionTable { by_role }
    }

    /// The grants of `role`, or `None` if the table has none for it. A list
    /// that is found is never empty and holds grants of `role` only.
    pub fn get(&self, role: &str) -> (found: Option<Vec<RoleRelPathDto>>)
        ensures
            match found {
                Some(grants) => {
                    &&& self@.contains_key(role@)
                    &&& grants.deep_view() == self@[role@]
                    &&& grants.len() > 0
                    &&& forall|i: int|
                        0 <= i < grants.len() ==> (#[trigger] grants[i]).role_name@ == role@
                },
                None => !self@.contains_key(role@),
            },
    {
        let found = role_map_get(&self.by_role, role);
        proof {
            use_type_invariant(self);
            if found is Some {
                let grants = found->Some_0;
                let loaded = choose|loaded: Seq<RoleRelPath>|
                    role_map_entries(self.by_role) == grouped(loaded);
                lemma_grouped_lists(loaded, role@);
                assert forall|i: int| 0 <= i < grants.len() implies (
                #[trigger] grants[i]).role_name@ == role@ by {
                    assert(grants.deep_view()[i].role_name == role@);
                }
            }
        }
        found
    }

    /// A table of its own that holds what this one holds now. Whatever
    /// happens to this table afterwards, the snapshot stays as it is.
    pub fn snapshot(&self) -> (copy: Self)
        ensures
            copy@ == self@,
    {
        proof {
            use_type_invariant(self);
        }
        PermissionTable { by_role: role_map_copy(&self.by_role) }
    }

    /// Puts `new_table` in the place of this table, as a whole.
    pub fn replace(&mut self, new_table: PermissionTable)
        ensures
            *final(self) == new_table,
    {
        *self = new_table;
    }

    /// Every role of the table with its grants, each role once. The order of
    /// the roles is not fixed.
    pub fn export(&self) -> (pairs: Vec<(String, Vec<RoleRelPathDto>)>)
        ensures
            lists_exactly(pairs.deep_view(), self@),
    {
        role_map_pairs(&self.by_role)
    }
}

} // verus!
