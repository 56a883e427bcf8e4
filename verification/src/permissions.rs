//! Permissions, permission sets, roles and role sets.
//!
//! A permission names one kind of action on the API (for example reading
//! any user's profile); a role bundles a fixed set of permissions. Users
//! hold roles, and the permissions they effectively have are the union of
//! what their roles grant.

use vstd::prelude::*;
use crate::text::text_eq;

verus! {

/// One permission of the API.
#[derive(Clone, Copy, Debug, PartialEq, Eq, Structural, Hash)]
pub enum Permission {
    UserSelfRead,
    UserSelfWrite,
    UserAnyRead,
    UserAnyWrite,
    WordCreate,
    WordRead,
    WordUpdate,
    WordDelete,
    SuggestionCreate,
    SuggestionDelete,
    TranslationCreate,
    TranslationDelete,
    CategoryCreate,
    CategoryRead,
    CategoryUpdate,
    CategoryDelete,
}

/// The external (API-visible) name of a permission, e.g. `user.self:read`.
pub open spec fn permission_name(p: Permission) -> Seq<char> {
    match p {
        Permission::UserSelfRead => seq!['u','s','e','r','.','s','e','l','f',':','r','e','a','d'],
        Permission::UserSelfWrite => seq!['u','s','e','r','.','s','e','l','f',':','w','r','i','t','e'],
        Permission::UserAnyRead => seq!['u','s','e','r','.','a','n','y',':','r','e','a','d'],
        Permission::UserAnyWrite => seq!['u','s','e','r','.','a','n','y',':','w','r','i','t','e'],
        Permission::WordCreate => seq!['w','o','r','d',':','c','r','e','a','t','e'],
        Permission::WordRead => seq!['w','o','r','d',':','r','e','a','d'],
        Permission::WordUpdate => seq!['w','o','r','d',':','u','p','d','a','t','e'],
        Permission::WordDelete => seq!['w','o','r','d',':','d','e','l','e','t','e'],
        Permission::SuggestionCreate => seq!['s','u','g','g','e','s','t','i','o','n',':','c','r','e','a','t','e'],
        Permission::SuggestionDelete => seq!['s','u','g','g','e','s','t','i','o','n',':','d','e','l','e','t','e'],
        Permission::TranslationCreate => seq!['t','r','a','n','s','l','a','t','i','o','n',':','c','r','e','a','t','e'],
        Permission::TranslationDelete => seq!['t','r','a','n','s','l','a','t','i','o','n',':','d','e','l','e','t','e'],
        Permission::CategoryCreate => seq!['c','a','t','e','g','o','r','y',':','c','r','e','a','t','e'],
        Permission::CategoryRead => seq!['c','a','t','e','g','o','r','y',':','r','e','a','d'],
        Permission::CategoryUpdate => seq!['c','a','t','e','g','o','r','y',':','u','p','d','a','t','e'],
        Permission::CategoryDelete => seq!['c','a','t','e','g','o','r','y',':','d','e','l','e','t','e'],
    }
}

/// All permissions, in their canonical order.
pub open spec fn all_permissions() -> Seq<Permission> {
    seq![
        Permission::UserSelfRead, Permission::UserSelfWrite, Permission::UserAnyRead,
        Permission::UserAnyWrite, Permission::WordCreate, Permission::WordRead,
        Permission::WordUpdate, Permission::WordDelete, Permission::SuggestionCreate,
        Permission::SuggestionDelete, Permission::TranslationCreate,
        Permission::TranslationDelete, Permission::CategoryCreate, Permission::CategoryRead,
        Permission::CategoryUpdate, Permission::CategoryDelete,
    ]
}

/// The permission whose name is `s`, if there is one.
pub open spec fn permission_from_name(s: Seq<char>) -> Option<Permission> {
    if exists|i: int| 0 <= i < 16 && permission_name(#[trigger] all_permissions()[i]) == s {
        Some(all_permissions()[choose|i: int| 0 <= i < 16 && permission_name(#[trigger] all_permissions()[i]) == s])
    } else {
        None
    }
}

/// Permissions granted to every API caller, authenticated or not.
pub open spec fn blanket_granted(p: Permission) -> bool {
    p == Permission::UserAnyRead || p == Permission::WordRead || p == Permission::CategoryRead
}

/// Distinguishing features of a permission name (length and a few characters).
spec fn name_key(s: Seq<char>) -> (nat, char, char, char, char, char) {
    (s.len(), s[0], s[5], s[9], s[11], s[12])
}

proof fn lemma_name_key_distinct(p: Permission, q: Permission)
    ensures
        p != q ==> name_key(permission_name(p)) != name_key(permission_name(q)),
{
}

/// Distinct permissions have distinct names.
pub proof fn lemma_permission_names_distinct(p: Permission, q: Permission)
    ensures
        p != q ==> permission_name(p) != permission_name(q),
{
    lemma_name_key_distinct(p, q);
}

/// Every permission is listed in the canonical order.
pub proof fn lemma_all_permissions_listed(p: Permission)
    ensures
        exists|i: int| 0 <= i < 16 && all_permissions()[i] == p,
{
    let i: int = match p {
        Permission::UserSelfRead => 0,
        Permission::UserSelfWrite => 1,
        Permission::UserAnyRead => 2,
        Permission::UserAnyWrite => 3,
        Permission::WordCreate => 4,
        Permission::WordRead => 5,
        Permission::WordUpdate => 6,
        Permission::WordDelete => 7,
        Permission::SuggestionCreate => 8,
        Permission::SuggestionDelete => 9,
        Permission::TranslationCreate => 10,
        Permission::TranslationDelete => 11,
        Permission::CategoryCreate => 12,
        Permission::CategoryRead => 13,
        Permission::CategoryUpdate => 14,
        Permission::CategoryDelete => 15,
    };
    assert(all_permissions()[i] == p);
}

/// Looking a permission up by its own name gives the permission back.
pub proof fn lemma_permission_name_roundtrip(p: Permission)
    ensures
        permission_from_name(permission_name(p)) == Some(p),
{
    lemma_all_permissions_listed(p);
    let i = choose|i: int| 0 <= i < 16 && all_permissions()[i] == p;
    assert(permission_name(all_permissions()[i]) == permission_name(p));
    let j = choose|j: int| 0 <= j < 16 && permission_name(#[trigger] all_permissions()[j]) == permission_name(p);
    lemma_permission_names_distinct(all_permissions()[j], p);
}

impl Permission {
    /// The external name of this permission.
    pub fn name(&self) -> (r: &'static str)
        ensures
            r@ == permission_name(*self),
    {
        match self {
            Permission::UserSelfRead => { proof { reveal_strlit("user.self:read"); } "user.self:read" }
            Permission::UserSelfWrite => { proof { reveal_strlit("user.self:write"); } "user.self:write" }
            Permission::UserAnyRead => { proof { reveal_strlit("user.any:read"); } "user.any:read" }
            Permission::UserAnyWrite => { proof { reveal_strlit("user.any:write"); } "user.any:write" }
            Permission::WordCreate => { proof { reveal_strlit("word:create"); } "word:create" }
            Permission::WordRead => { proof { reveal_strlit("word:read"); } "word:read" }
            Permission::WordUpdate => { proof { reveal_strlit("word:update"); } "word:update" }
            Permission::WordDelete => { proof { reveal_strlit("word:delete"); } "word:delete" }
            Permission::SuggestionCreate => { proof { reveal_strlit("suggestion:create"); } "suggestion:create" }
            Permission::SuggestionDelete => { proof { reveal_strlit("suggestion:delete"); } "suggestion:delete" }
            Permission::TranslationCreate => { proof { reveal_strlit("translation:create"); } "translation:create" }
            Permission::TranslationDelete => { proof { reveal_strlit("translation:delete"); } "translation:delete" }
            Permission::CategoryCreate => { proof { reveal_strlit("category:create"); } "category:create" }
            Permission::CategoryRead => { proof { reveal_strlit("category:read"); } "category:read" }
            Permission::CategoryUpdate => { proof { reveal_strlit("category:update"); } "category:update" }
            Permission::CategoryDelete => { proof { reveal_strlit("category:delete"); } "category:delete" }
        }
    }
}


/// All permissions, in their canonical order.
pub fn all_permission_values() -> (r: Vec<Permission>)
    ensures
        r@ == all_permissions(),
{
    let r = vec![
        Permission::UserSelfRead, Permission::UserSelfWrite, Permission::UserAnyRead,
        Permission::UserAnyWrite, Permission::WordCreate, Permission::WordRead,
        Permission::WordUpdate, Permission::WordDelete, Permission::SuggestionCreate,
        Permission::SuggestionDelete, Permission::TranslationCreate,
        Permission::TranslationDelete, Permission::CategoryCreate, Permission::CategoryRead,
        Permission::CategoryUpdate, Permission::CategoryDelete,
    ];
    assert(r@ =~= all_permissions());
    r
}

impl Permission {
    /// Looks a permission up by its external name.
    pub fn from_name(name: &str) -> (r: Option<Permission>)
        ensures
            r == permission_from_name(name@),
    {
        let all = all_permission_values();
        let mut i: usize = 0;
        while i < all.len()
            invariant
                all@ == all_permissions(),
                i <= 16,
                forall|k: int| 0 <= k < i ==> permission_name(#[trigger] all_permissions()[k]) != name@,
            decreases 16 - i,
        {
            let candidate = all[i];
            if text_eq(candidate.name(), name) {
                proof {
                    let j = choose|j: int| 0 <= j < 16 && permission_name(#[trigger] all_permissions()[j]) == name@;
                    lemma_permission_names_distinct(all_permissions()[j], candidate);
                }
                return Some(candidate);
            }
            i = i + 1;
        }
        None
    }

    /// Whether this permission is granted to every caller, authenticated or not.
    pub fn is_blanket_granted(&self) -> (r: bool)
        ensures
            r == blanket_granted(*self),
    {
        match self {
            Permission::UserAnyRead | Permission::WordRead | Permission::CategoryRead => true,
            _ => false,
        }
    }
}

/// The names of the members of `set`, in canonical permission order,
/// considering only the first `upto` permissions of that order.
pub open spec fn listed_permission_names(set: Set<Permission>, upto: int) -> Seq<Seq<char>>
    decreases upto,
{
    if upto <= 0 {
        seq![]
    } else {
        let prev = listed_permission_names(set, upto - 1);
        let p = all_permissions()[upto - 1];
        if set.contains(p) { prev.push(permission_name(p)) } else { prev }
    }
}

/// The names of all members of `set`, in canonical permission order.
pub open spec fn permission_names_of(set: Set<Permission>) -> Seq<Seq<char>> {
    listed_permission_names(set, 16)
}

/// A set of permissions.
pub struct PermissionSet {
    members: Vec<Permission>,
}

impl View for PermissionSet {
    type V = Set<Permission>;

    closed spec fn view(&self) -> Set<Permission> {
        Set::new(|p: Permission| self.members@.contains(p))
    }
}

impl PermissionSet {
    /// The empty set.
    pub fn new_empty() -> (r: PermissionSet)
        ensures
            r@ == Set::<Permission>::empty(),
    {
        let r = PermissionSet { members: Vec::new() };
        assert(r@ =~= Set::<Permission>::empty());
        r
    }

    /// Whether `permission` is in the set.
    pub fn contains(&self, permission: Permission) -> (r: bool)
        ensures
            r == self@.contains(permission),
    {
        let mut i: usize = 0;
        while i < self.members.len()
            invariant
                i <= self.members@.len(),
                forall|k: int| 0 <= k < i ==> self.members@[k] != permission,
            decreases self.members@.len() - i,
        {
            if self.members[i] == permission {
                assert(self.members@.contains(permission));
                return true;
            }
            i = i + 1;
        }
        false
    }

    /// Adds `permission` to the set.
    pub fn insert(&mut self, permission: Permission)
        ensures
            final(self)@ == old(self)@.insert(permission),
    {
        if !self.contains(permission) {
            self.members.push(permission);
            assert forall|p: Permission| self.members@.contains(p) <==> (old(self).members@.contains(p) || p == permission) by {
                if old(self).members@.contains(p) {
                    let k = choose|k: int| 0 <= k < old(self).members@.len() && old(self).members@[k] == p;
                    assert(self.members@[k] == p);
                }
                if p == permission {
                    assert(self.members@[self.members@.len() - 1] == p);
                }
            }
        }
        assert(self@ =~= old(self)@.insert(permission));
    }

    /// The set holding exactly the given permissions.
    pub fn from_permissions(permissions: &[Permission]) -> (r: PermissionSet)
        ensures
            r@ == permissions@.to_set(),
    {
        let mut r = PermissionSet::new_empty();
        let mut i: usize = 0;
        while i < permissions.len()
            invariant
                i <= permissions@.len(),
                r@ == permissions@.subrange(0, i as int).to_set(),
            decreases permissions@.len() - i,
        {
            r.insert(permissions[i]);
            assert(permissions@.subrange(0, i + 1) =~= permissions@.subrange(0, i as int).push(permissions@[i as int]));
            proof { permissions@.subrange(0, i as int).lemma_push_to_set_commute(permissions@[i as int]); }
            assert(r@ =~= permissions@.subrange(0, i + 1).to_set());
            i = i + 1;
        }
        assert(permissions@.subrange(0, permissions@.len() as int) =~= permissions@);
        r
    }

    /// Adds every member of `other` to this set.
    pub fn extend(&mut self, other: &PermissionSet)
        ensures
            final(self)@ == old(self)@.union(other@),
    {
        let mut i: usize = 0;
        while i < other.members.len()
            invariant
                i <= other.members@.len(),
                self@ == old(self)@.union(other.members@.subrange(0, i as int).to_set()),
            decreases other.members@.len() - i,
        {
            self.insert(other.members[i]);
            assert(other.members@.subrange(0, i + 1) =~= other.members@.subrange(0, i as int).push(other.members@[i as int]));
            proof { other.members@.subrange(0, i as int).lemma_push_to_set_commute(other.members@[i as int]); }
            assert(self@ =~= old(self)@.union(other.members@.subrange(0, i + 1).to_set()));
            i = i + 1;
        }
        assert(other.members@.subrange(0, other.members@.len() as int) =~= other.members@);
    }

    /// Whether `permission` is in the set or granted to every caller anyway.
    pub fn has_permission_or_is_blanket_granted(&self, permission: Permission) -> (r: bool)
        ensures
            r == (self@.contains(permission) || blanket_granted(permission)),
    {
        self.contains(permission) || permission.is_blanket_granted()
    }

    /// The names of the permissions in this set, in canonical order.
    pub fn permission_names(&self) -> (r: Vec<String>)
        ensures
            r@.map_values(|s: String| s@) == permission_names_of(self@),
    {
        let all = all_permission_values();
        let mut r: Vec<String> = Vec::new();
        let mut i: usize = 0;
        while i < all.len()
            invariant
                all@ == all_permissions(),
                i <= 16,
                r@.map_values(|s: String| s@) == listed_permission_names(self@, i as int),
            decreases 16 - i,
        {
            let p = all[i];
            if self.contains(p) {
                let name = String::from_str(p.name());
                r.push(name);
            }
            proof {
                assert(r@.map_values(|s: String| s@) =~= listed_permission_names(self@, i + 1));
            }
            i = i + 1;
        }
        r
    }
}

} // verus!
