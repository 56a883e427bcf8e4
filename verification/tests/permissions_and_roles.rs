use kolomoni::permissions::{all_permission_values, Permission, PermissionSet};
use kolomoni::roles::{Role, RoleSet};

#[test]
fn every_permission_name_reads_back_as_the_permission() {
    for permission in all_permission_values() {
        assert_eq!(Permission::from_name(permission.name()), Some(permission));
    }
    assert_eq!(all_permission_values().len(), 16);
}

#[test]
fn permission_names_are_the_documented_ones() {
    assert_eq!(Permission::UserSelfRead.name(), "user.self:read");
    assert_eq!(Permission::UserAnyWrite.name(), "user.any:write");
    assert_eq!(Permission::WordCreate.name(), "word:create");
    assert_eq!(Permission::SuggestionDelete.name(), "suggestion:delete");
    assert_eq!(Permission::TranslationCreate.name(), "translation:create");
    assert_eq!(Permission::CategoryDelete.name(), "category:delete");
    assert_eq!(Permission::from_name("word:update"), Some(Permission::WordUpdate));
    assert_eq!(Permission::from_name("word:upgrade"), None);
    assert_eq!(Permission::from_name(""), None);
}

#[test]
fn blanket_grants_are_reads_of_users_words_and_categories() {
    let blanket: Vec<Permission> = all_permission_values().into_iter().filter(|p| p.is_blanket_granted()).collect();
    assert_eq!(blanket, vec![Permission::UserAnyRead, Permission::WordRead, Permission::CategoryRead]);
}

#[test]
fn permission_set_insert_contains_and_names() {
    let mut set = PermissionSet::new_empty();
    assert!(!set.contains(Permission::WordCreate));
    set.insert(Permission::WordCreate);
    set.insert(Permission::UserSelfRead);
    set.insert(Permission::WordCreate);
    assert!(set.contains(Permission::WordCreate));
    assert!(set.contains(Permission::UserSelfRead));
    assert!(!set.contains(Permission::WordDelete));
    assert_eq!(set.permission_names(), vec!["user.self:read".to_string(), "word:create".to_string()]);
    assert!(set.has_permission_or_is_blanket_granted(Permission::CategoryRead));
    assert!(!set.has_permission_or_is_blanket_granted(Permission::CategoryCreate));
}

#[test]
fn permission_set_from_and_extend() {
    let mut set = PermissionSet::from_permissions(&[Permission::CategoryUpdate]);
    let other = PermissionSet::from_permissions(&[Permission::CategoryDelete, Permission::CategoryUpdate]);
    set.extend(&other);
    assert_eq!(set.permission_names(), vec!["category:update".to_string(), "category:delete".to_string()]);
}

#[test]
fn role_names_read_back() {
    assert_eq!(Role::from_name(Role::User.name()), Some(Role::User));
    assert_eq!(Role::from_name(Role::Administrator.name()), Some(Role::Administrator));
    assert_eq!(Role::User.name(), "user");
    assert_eq!(Role::Administrator.name(), "administrator");
    assert_eq!(Role::from_name("admin"), None);
}

#[test]
fn user_role_grants_reading_and_own_account() {
    let granted = Role::User.granted_permissions();
    assert_eq!(
        granted.permission_names(),
        vec!["user.self:read", "user.self:write", "user.any:read", "word:read", "category:read"]
            .into_iter()
            .map(String::from)
            .collect::<Vec<_>>()
    );
    assert!(Role::User.grants(Permission::UserSelfWrite));
    assert!(!Role::User.grants(Permission::WordCreate));
}

#[test]
fn administrator_role_grants_everything() {
    for permission in all_permission_values() {
        assert!(Role::Administrator.grants(permission));
    }
    let set = RoleSet::from_roles(&[Role::Administrator]).granted_permission_set();
    assert_eq!(set.permission_names().len(), 16);
}

#[test]
fn role_set_operations() {
    let mut roles = RoleSet::new_empty();
    assert!(roles.is_empty());
    roles.insert(Role::Administrator);
    assert!(!roles.is_empty());
    assert!(roles.has_role(Role::Administrator));
    assert!(!roles.has_role(Role::User));
    roles.insert(Role::User);
    assert_eq!(roles.role_names(), vec!["user".to_string(), "administrator".to_string()]);
}

#[test]
fn more_roles_grant_more_permissions() {
    let user = RoleSet::from_roles(&[Role::User]).granted_permission_set();
    let both = RoleSet::from_roles(&[Role::User, Role::Administrator]).granted_permission_set();
    for permission in all_permission_values() {
        if user.contains(permission) {
            assert!(both.contains(permission));
        }
        assert!(both.contains(permission));
    }
}
