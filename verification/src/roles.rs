//! Roles and role sets. A role grants a fixed set of permissions.

use vstd::prelude::*;
use crate::permissions::{all_permission_values, all_permissions, lemma_all_permissions_listed, Permission, PermissionSet};
use crate::text::text_eq;

verus! {

/// A role a user can hold.
#[derive(Clone, Copy, Debug, PartialEq, Eq, Structural, Hash)]
pub enum Role {
    User,
    Administrator,
}

/// The external name of a role.
pub open spec fn role_name(r: Role) -> Seq<char> {
    match r {
        Role::User => seq!['u', 's', 'e', 'r'],
        Role::Administrator => seq!['a', 'd', 'm', 'i', 'n', 'i', 's', 't', 'r', 'a', 't', 'o', 'r'],
    }
}

/// The role whose name is `s`, if there is one.
pub open spec fn role_from_name(s: Seq<char>) -> Option<Role> {
    if s == role_name(Role::User) {
        Some(Role::User)
    } else if s == role_name(Role::Administrator) {
        Some(Role::Administrator)
    } else {
        None
    }
}

/// Whether holding role `r` grants permission `p`.
///
/// A plain user may read and change their own account, read other accounts,
/// and read words and categories; an administrator holds every permission.
pub open spec fn role_grants(r: Role, p: Permission) -> bool {
    match r {
        Role::User => p == Permission::UserSelfRead || p == Permission::UserSelfWrite
            || p == Permission::UserAnyRead || p == Permission::WordRead
            || p == Permission::CategoryRead,
        Role::Administrator => true,
    }
}

/// The permissions granted by holding all roles of `roles`.
pub open spec fn permissions_granted_by(roles: Set<Role>) -> Set<Permission> {
    Set::new(|p: Permission| exists|r: Role| roles.contains(r) && role_grants(r, p))
}

/// Granting is monotonic in the roles held: holding more roles never takes a
/// permission away, and whoever holds the administrator role holds every
/// permission.
pub proof fn lemma_more_roles_grant_more(fewer: Set<Role>, more: Set<Role>, p: Permission)
    requires
        fewer.subset_of(more),
    ensures
        permissions_granted_by(fewer).contains(p) ==> permissions_granted_by(more).contains(p),
        more.contains(Role::Administrator) ==> permissions_granted_by(more).contains(p),
{
    if more.contains(Role::Administrator) {
        assert(role_grants(Role::Administrator, p));
    }
}

/// Looking a role up by its own name gives the role back.
pub proof fn lemma_role_name_roundtrip(r: Role)
    ensures
        role_from_name(role_name(r)) == Some(r),
{
    assert(role_name(Role::User).len() != role_name(Role::Administrator).len());
}

impl Role {
    /// The external name of this role.
    pub fn name(&self) -> (r: &'static str)
        ensures
            r@ == role_name(*self),
    {
        match self {
            Role::User => { proof { reveal_strlit("user"); } "user" }
            Role::Administrator => { proof { reveal_strlit("administrator"); } "administrator" }
        }
    }

    /// Looks a role up by its external name.
    pub fn from_name(name: &str) -> (r: Option<Role>)
        ensures
            r == role_from_name(name@),
    {
        if text_eq(Role::User.name(), name) {
            Some(Role::User)
        } else if text_eq(Role::Administrator.name(), name) {
            Some(Role::Administrator)
        } else {
            None
        }
    }

    /// The permissions this role grants.
    pub fn granted_permissions(&self) -> (r: PermissionSet)
        ensures
            forall|p: Permission| r@.contains(p) <==> role_grants(*self, p),
    {
        match self {
            Role::User => {
                let listed = [
                    Permission::UserSelfRead,
                    Permission::UserSelfWrite,
                    Permission::UserAnyRead,
                    Permission::WordRead,
                    Permission::CategoryRead,
                ];
                let r = PermissionSet::from_permissions(&listed);
                proof {
                    assert forall|p: Permission| r@.contains(p) <==> role_grants(*self, p) by {
                        if role_grants(*self, p) {
                            if p == Permission::UserSelfRead { assert(listed@[0] == p); }
                            if p == Permission::UserSelfWrite { assert(listed@[1] == p); }
                            if p == Permission::UserAnyRead { assert(listed@[2] == p); }
                            if p == Permission::WordRead { assert(listed@[3] == p); }
                            if p == Permission::CategoryRead { assert(listed@[4] == p); }
                        }
                    }
                }
                r
            },
            Role::Administrator => {
                let all = all_permission_values();
                let r = PermissionSet::from_permissions(all.as_slice());
                proof {
                    assert forall|p: Permission| r@.contains(p) <==> role_grants(*self, p) by {
                        lemma_all_permissions_listed(p);
                        let k = choose|k: int| 0 <= k < 16 && all_permissions()[k] == p;
                        assert(all@[k] == p);
                    }
                }
                r
            },
        }
    }

    /// Whether this role grants `permission`.
    pub fn grants(&self, permission: Permission) -> (r: bool)
        ensures
            r == role_grants(*self, permission),
    {
        match self {
            Role::User => match permission {
                Permission::UserSelfRead | Permission::UserSelfWrite | Permission::UserAnyRead
                | Permission::WordRead | Permission::CategoryRead => true,
                _ => false,
            },
            Role::Administrator => true,
        }
    }
}

/// The names of the members of `set`, in canonical role order.
pub open spec fn role_names_of(set: Set<Role>) -> Seq<Seq<char>> {
    let users: Seq<Seq<char>> = if set.contains(Role::User) { seq![role_name(Role::User)] } else { seq![] };
    if set.contains(Role::Administrator) { users.push(role_name(Role::Administrator)) } else { users }
}

/// A set of roles.
pub struct RoleSet {
    members: Vec<Role>,
}

impl View for RoleSet {
    type V = Set<Role>;

    closed spec fn view(&self) -> Set<Role> {
        Set::new(|r: Role| self.members@.contains(r))
    }
}

impl RoleSet {
    /// The empty set.
    pub fn new_empty() -> (r: RoleSet)
        ensures
            r@ == Set::<Role>::empty(),
    {
        let r = RoleSet { members: Vec::new() };
        assert(r@ =~= Set::<Role>::empty());
        r
    }

    /// Whether `role` is in the set.
    pub fn has_role(&self, role: Role) -> (r: bool)
        ensures
            r == self@.contains(role),
    {
        let mut i: usize = 0;
        while i < self.members.len()
            invariant
                i <= self.members@.len(),
                forall|k: int| 0 <= k < i ==> self.members@[k] != role,
            decreases self.members@.len() - i,
        {
            if self.members[i] == role {
                assert(self.members@.contains(role));
                return true;
            }
            i = i + 1;
        }
        false
    }

    /// Adds `role` to the set.
    pub fn insert(&mut self, role: Role)
        ensures
            final(self)@ == old(self)@.insert(role),
    {
        if !self.has_role(role) {
            self.members.push(role);
            assert forall|x: Role| self.members@.contains(x) <==> (old(self).members@.contains(x) || x == role) by {
                if old(self).members@.contains(x) {
                    let k = choose|k: int| 0 <= k < old(self).members@.len() && old(self).members@[k] == x;
                    assert(self.members@[k] == x);
                }
                if x == role {
                    assert(self.members@[self.members@.len() - 1] == x);
                }
            }
        }
        assert(self@ =~= old(self)@.insert(role));
    }

    /// The set holding exactly the given roles.
    pub fn from_roles(roles: &[Role]) -> (r: RoleSet)
        ensures
            r@ == roles@.to_set(),
    {
        let mut r = RoleSet::new_empty();
        let mut i: usize = 0;
        while i < roles.len()
            invariant
                i <= roles@.len(),
                r@ == roles@.subrange(0, i as int).to_set(),
            decreases roles@.len() - i,
        {
            r.insert(roles[i]);
            assert(roles@.subrange(0, i + 1) =~= roles@.subrange(0, i as int).push(roles@[i as int]));
            proof { roles@.subrange(0, i as int).lemma_push_to_set_commute(roles@[i as int]); }
            assert(r@ =~= roles@.subrange(0, i + 1).to_set());
            i = i + 1;
        }
        assert(roles@.subrange(0, roles@.len() as int) =~= roles@);
        r
    }

    /// Whether the set is empty.
    pub fn is_empty(&self) -> (r: bool)
        ensures
            r == (self@ == Set::<Role>::empty()),
    {
        if self.members.len() == 0 {
            assert(self@ =~= Set::<Role>::empty());
            true
        } else {
            assert(self@.contains(self.members@[0]));
            false
        }
    }

    /// The permissions granted by the roles in this set.
    pub fn granted_permission_set(&self) -> (r: PermissionSet)
        ensures
            r@ == permissions_granted_by(self@),
    {
        let mut r = PermissionSet::new_empty();
        let mut i: usize = 0;
        while i < self.members.len()
            invariant
                i <= self.members@.len(),
                forall|p: Permission| r@.contains(p) <==> exists|k: int| 0 <= k < i && role_grants(self.members@[k], p),
            decreases self.members@.len() - i,
        {
            let granted = self.members[i].granted_permissions();
            r.extend(&granted);
            proof {
                assert forall|p: Permission| r@.contains(p) <==> exists|k: int| 0 <= k < i + 1 && role_grants(self.members@[k], p) by {
                    if exists|k: int| 0 <= k < i + 1 && role_grants(self.members@[k], p) {
                        let k = choose|k: int| 0 <= k < i + 1 && role_grants(self.members@[k], p);
                        if k < i {
                            assert(exists|k: int| 0 <= k < i && role_grants(self.members@[k], p));
                        }
                    }
                }
            }
            i = i + 1;
        }
        proof {
            assert forall|p: Permission| r@.contains(p) <==> permissions_granted_by(self@).contains(p) by {
                if r@.contains(p) {
                    let k = choose|k: int| 0 <= k < self.members@.len() && role_grants(self.members@[k], p);
                    assert(self@.contains(self.members@[k]));
                }
                if permissions_granted_by(self@).contains(p) {
                    let role = choose|role: Role| self@.contains(role) && role_grants(role, p);
                    let k = choose|k: int| 0 <= k < self.members@.len() && self.members@[k] == role;
                    assert(role_grants(self.members@[k], p));
                }
            }
            assert(r@ =~= permissions_granted_by(self@));
        }
        r
    }

    /// The names of the roles in this set, in canonical order.
    pub fn role_names(&self) -> (r: Vec<String>)
        ensures
            r@.map_values(|s: String| s@) == role_names_of(self@),
    {
        let mut r: Vec<String> = Vec::new();
        if self.has_role(Role::User) {
            r.push(String::from_str(Role::User.name()));
        }
        if self.has_role(Role::Administrator) {
            r.push(String::from_str(Role::Administrator.name()));
        }
        assert(r@.map_values(|s: String| s@) =~= role_names_of(self@));
        r
    }
}

} // verus!
