//! The permission guard: access levels, the per-resource map from users to
//! levels, and the check made before any mutating action.

use vstd::prelude::*;
use crate::text::{owned, same_text};

verus! {

/// How much a user may do to a resource, lowest first.
#[derive(Clone, Copy, Debug, PartialEq, Eq, Structural, Hash)]
pub enum PermissionLevel {
    NoAccess,
    Read,
    Execute,
    Write,
}

impl PermissionLevel {
    /// Position of the level on the scale `NoAccess < Read < Execute < Write`.
    pub open spec fn rank(self) -> nat {
        match self {
            PermissionLevel::NoAccess => 0,
            PermissionLevel::Read => 1,
            PermissionLevel::Execute => 2,
            PermissionLevel::Write => 3,
        }
    }

    /// Whether this level is enough where `required` is asked for.
    pub open spec fn covers(self, required: PermissionLevel) -> bool {
        self.rank() >= required.rank()
    }

    /// Position of the level on the scale, as a number.
    pub fn rank_number(&self) -> (rank: u8)
        ensures
            rank == self.rank(),
    {
        match self {
            PermissionLevel::NoAccess => 0,
            PermissionLevel::Read => 1,
            PermissionLevel::Execute => 2,
            PermissionLevel::Write => 3,
        }
    }

    /// Whether this level is enough where `required` is asked for.
    pub fn at_least(&self, required: PermissionLevel) -> (enough: bool)
        ensures
            enough == self.covers(required),
    {
        self.rank_number() >= required.rank_number()
    }
}

/// One entry of a permissions map.
#[derive(Debug)]
pub struct Grant {
    pub user: String,
    pub level: PermissionLevel,
}

/// The access-control data of one resource: at most one level per user.
#[derive(Debug)]
pub struct PermissionsMap {
    grants: Vec<Grant>,
}

/// The level that `user` has under `map`: the one recorded, or the lowest
/// for a user that the map does not name.
pub open spec fn effective_level(
    map: Map<Seq<char>, PermissionLevel>,
    user: Seq<char>,
) -> PermissionLevel {
    if map.contains_key(user) {
        map[user]
    } else {
        PermissionLevel::NoAccess
    }
}

/// Whether `user` may do under `map` what asks for `required`.
pub open spec fn permits(
    map: Map<Seq<char>, PermissionLevel>,
    user: Seq<char>,
    required: PermissionLevel,
) -> bool {
    effective_level(map, user).covers(required)
}

/// The refusal of an action for want of access.
#[derive(Debug)]
pub struct Denied {
    pub user: String,
    pub required: PermissionLevel,
    pub held: PermissionLevel,
}

/// The entry at `i` of `grants` is that of `user`.
spec fn held_at(grants: Seq<Grant>, i: int, user: Seq<char>) -> bool {
    0 <= i < grants.len() && grants[i].user@ == user
}

/// Some entry of `grants` is that of `user`.
spec fn names(grants: Seq<Grant>, user: Seq<char>) -> bool {
    exists|i: int| held_at(grants, i, user)
}

/// The place of an entry of `user` in `grants`.
spec fn place(grants: Seq<Grant>, user: Seq<char>) -> int {
    choose|i: int| held_at(grants, i, user)
}

/// No user is named twice in `grants`.
spec fn distinct(grants: Seq<Grant>) -> bool {
    forall|i: int, j: int| 0 <= i < j < grants.len() ==> grants[i].user@ != grants[j].user@
}

/// The map that `grants` stand for.
spec fn model(grants: Seq<Grant>) -> Map<Seq<char>, PermissionLevel> {
    Map::new(|user: Seq<char>| names(grants, user), |user: Seq<char>| grants[place(grants, user)].level)
}

/// The users named by the first `n` entries of `grants`.
spec fn named_below(grants: Seq<Grant>, n: int) -> Set<Seq<char>> {
    Set::new(|user: Seq<char>| exists|i: int| 0 <= i < n && held_at(grants, i, user))
}

/// Where no user is named twice, the entry of a user is the only one.
proof fn lemma_place(grants: Seq<Grant>, i: int)
    requires
        distinct(grants),
        0 <= i < grants.len(),
    ensures
        names(grants, grants[i].user@),
        place(grants, grants[i].user@) == i,
        model(grants).contains_key(grants[i].user@),
        model(grants)[grants[i].user@] == grants[i].level,
{
    assert(held_at(grants, i, grants[i].user@));
}

/// Replacing the entry of a user by another entry of that user records the
/// new level for the user and changes nothing else.
proof fn lemma_replaced(grants: Seq<Grant>, i: int, grant: Grant)
    requires
        distinct(grants),
        0 <= i < grants.len(),
        grant.user@ == grants[i].user@,
    ensures
        distinct(grants.update(i, grant)),
        model(grants.update(i, grant)) == model(grants).insert(grant.user@, grant.level),
{
    let after = grants.update(i, grant);
    assert forall|k: int| 0 <= k < after.len() implies (#[trigger] after[k]).user@
        == grants[k].user@ by {}
    assert(distinct(after));
    assert forall|user: Seq<char>| #[trigger] names(after, user) == names(grants, user) by {
        if names(after, user) {
            assert(held_at(grants, place(after, user), user));
        }
        if names(grants, user) {
            assert(held_at(after, place(grants, user), user));
        }
    }
    assert forall|user: Seq<char>| #[trigger] names(after, user) implies model(after)[user]
        == model(grants).insert(grant.user@, grant.level)[user] by {
        let k = place(after, user);
        assert(held_at(after, k, user));
        lemma_place(after, k);
        lemma_place(grants, k);
    }
    lemma_place(grants, i);
    assert(model(after) =~= model(grants).insert(grant.user@, grant.level));
}

/// Adding an entry for a user that is not named yet records its level for
/// the user and changes nothing else.
proof fn lemma_added(grants: Seq<Grant>, grant: Grant)
    requires
        distinct(grants),
        !names(grants, grant.user@),
    ensures
        distinct(grants.push(grant)),
        model(grants.push(grant)) == model(grants).insert(grant.user@, grant.level),
{
    let after = grants.push(grant);
    let n = grants.len() as int;
    assert forall|i: int, j: int| 0 <= i < j < after.len() implies after[i].user@
        != after[j].user@ by {
        if j == n {
            assert(!held_at(grants, i, grant.user@));
        }
    }
    assert(held_at(after, n, grant.user@));
    assert forall|user: Seq<char>| #[trigger] names(after, user) == (names(grants, user) || user
        == grant.user@) by {
        if names(after, user) && user != grant.user@ {
            assert(held_at(grants, place(after, user), user));
        }
        if names(grants, user) {
            assert(held_at(after, place(grants, user), user));
        }
    }
    assert forall|user: Seq<char>| #[trigger] names(after, user) implies model(after)[user]
        == model(grants).insert(grant.user@, grant.level)[user] by {
        let k = place(after, user);
        assert(held_at(after, k, user));
        lemma_place(after, k);
        if k < n {
            lemma_place(grants, k);
        }
    }
    assert(model(after) =~= model(grants).insert(grant.user@, grant.level));
}

/// Where no user is named twice, the first `n` entries name `n` users.
proof fn lemma_counted(grants: Seq<Grant>, n: int)
    requires
        distinct(grants),
        0 <= n <= grants.len(),
    ensures
        named_below(grants, n).finite(),
        named_below(grants, n).len() == n,
    decreases n,
{
    if n == 0 {
        assert(named_below(grants, 0) =~= Set::<Seq<char>>::empty());
    } else {
        lemma_counted(grants, n - 1);
        let last = grants[n - 1].user@;
        assert(held_at(grants, n - 1, last));
        assert(named_below(grants, n) =~= named_below(grants, n - 1).insert(last));
        assert(!named_below(grants, n - 1).contains(last));
    }
}

impl View for PermissionsMap {
    type V = Map<Seq<char>, PermissionLevel>;

    closed spec fn view(&self) -> Map<Seq<char>, PermissionLevel> {
        model(self.grants@)
    }
}

impl PermissionsMap {
    /// No user is named twice.
    #[verifier::type_invariant]
    pub closed spec fn wf(&self) -> bool {
        distinct(self.grants@)
    }

    /// A map that names nobody.
    pub fn new() -> (map: PermissionsMap)
        ensures
            map@ == Map::<Seq<char>, PermissionLevel>::empty(),
    {
        let map = PermissionsMap { grants: Vec::new() };
        assert(map@ =~= Map::<Seq<char>, PermissionLevel>::empty());
        map
    }

    /// A map that names `user` alone, at `level`.
    pub fn single(user: &str, level: PermissionLevel) -> (map: PermissionsMap)
        ensures
            map@ == Map::<Seq<char>, PermissionLevel>::empty().insert(user@, level),
    {
        let mut map = PermissionsMap::new();
        map.set(user, level);
        map
    }

    /// Number of users that the map names.
    pub fn len(&self) -> (count: usize)
        ensures
            count == self@.dom().len(),
            self@.dom().finite(),
    {
        proof {
            use_type_invariant(self);
            lemma_counted(self.grants@, self.grants@.len() as int);
            assert(named_below(self.grants@, self.grants@.len() as int) =~= self@.dom());
        }
        self.grants.len()
    }

    /// The place of the entry of `user`, if the map names the user.
    fn find(&self, user: &str) -> (at: Option<usize>)
        ensures
            at matches Some(i) ==> held_at(self.grants@, i as int, user@),
            at is None ==> !names(self.grants@, user@),
    {
        let mut i: usize = 0;
        while i < self.grants.len()
            invariant
                i <= self.grants@.len(),
                forall|j: int| 0 <= j < i ==> !held_at(self.grants@, j, user@),
            decreases self.grants@.len() - i,
        {
            if same_text(self.grants[i].user.as_str(), user) {
                return Some(i);
            }
            i = i + 1;
        }
        None
    }

    /// Records `level` for `user`, in place of any level recorded before.
    pub fn set(&mut self, user: &str, level: PermissionLevel)
        ensures
            final(self)@ == old(self)@.insert(user@, level),
    {
        proof {
            use_type_invariant(&*self);
        }
        let at = self.find(user);
        let grant = Grant { user: owned(user), level };
        let mut grants: Vec<Grant> = Vec::new();
        core::mem::swap(&mut self.grants, &mut grants);
        match at {
            Some(i) => {
                proof {
                    lemma_replaced(grants@, i as int, grant);
                }
                grants.set(i, grant);
            },
            None => {
                proof {
                    lemma_added(grants@, grant);
                }
                grants.push(grant);
            },
        }
        self.grants = grants;
    }

    /// The level that `user` has on the resource: the one recorded, or the
    /// lowest for a user that the map does not name.
    pub fn get_user_permissions(&self, user: &str) -> (level: PermissionLevel)
        ensures
            level == effective_level(self@, user@),
    {
        proof {
            use_type_invariant(self);
        }
        match self.find(user) {
            Some(i) => {
                proof {
                    lemma_place(self.grants@, i as int);
                }
                self.grants[i].level
            },
            None => PermissionLevel::NoAccess,
        }
    }

    /// The guard before an action that asks for `required`: passes exactly
    /// when the user's level covers it, and else reports what was held.
    pub fn require(&self, user: &str, required: PermissionLevel) -> (verdict: Result<(), Denied>)
        ensures
            verdict.is_ok() <==> permits(self@, user@, required),
            verdict.is_err() ==> {
                &&& verdict.unwrap_err().user@ == user@
                &&& verdict.unwrap_err().required == required
                &&& verdict.unwrap_err().held == effective_level(self@, user@)
            },
    {
        let held = self.get_user_permissions(user);
        if held.at_least(required) {
            Ok(())
        } else {
            Err(Denied { user: owned(user), required, held })
        }
    }
}

/// A user whom the map does not name is refused every action that asks for
/// more than the lowest level.
pub proof fn absent_user_is_denied(
    map: Map<Seq<char>, PermissionLevel>,
    user: Seq<char>,
    required: PermissionLevel,
)
    requires
        !map.contains_key(user),
        required != PermissionLevel::NoAccess,
    ensures
        effective_level(map, user) == PermissionLevel::NoAccess,
        !permits(map, user, required),
{
}

/// A level covers every level at or below it on the scale, and no other.
pub proof fn scale_is_ordered(held: PermissionLevel, required: PermissionLevel)
    ensures
        PermissionLevel::Write.covers(required),
        held.covers(PermissionLevel::NoAccess),
        held.covers(held),
        held.covers(required) && required.covers(held) ==> held == required,
        held.covers(required) || required.covers(held),
{
}

} // verus!
