//! User endpoints: registration, the caller's own account, other users'
//! accounts, and changes to their roles and permissions.
//!
//! Changing another user's roles or permissions is guarded so that a caller
//! can only hand out, or take away, what they hold themselves
//! ([`lemma_role_change_only_moves_owned_roles`]).

use vstd::prelude::*;
use vstd::string::*;
use crate::authentication::{
    any_caller_has, authenticated_caller_has, authentication_and_permission_guards, lemma_access_checks_hold, authentication_guard, missing_permission_reply,
    optional_authentication_permission_guard, require_permission_with_optional_authentication,
    require_user_authentication, require_user_authentication_and_permission, UserAuthenticationExtractor,
};
use crate::conditional::{not_modified_since, OptionalIfModifiedSince};
use crate::models::{
    RegisteredUsersListResponse, UserDisplayNameChangeRequest, UserDisplayNameChangeResponse, UserInfoResponse,
    UserInformation, UserPermissionsResponse, UserRegistrationRequest, UserRegistrationResponse, UserRolesResponse,
};
use crate::permissions::{blanket_granted, permission_from_name, permission_name, permission_names_of, Permission, PermissionSet};
use crate::plan::{ask_guard, guard_holds, holds_guard, lemma_all_hold_concat, lemma_all_hold_small, lemma_plan_proceeds_iff_all_guards_hold, lemma_proceeds_iff_all_hold, lemma_skip_holding_prefix, lemma_uuid_guards_hold, lemma_proceeding_means_all_guards_hold, plan_outcome, push_ask, push_holds, push_uuid_guard, uuid_guards, Guard, Probe};
use crate::reasons::{ErrorReason, UsersErrorReason};
use crate::responses::{
    body_reply, reason_reply, EndpointError, EndpointResult, Reply, ReplyBody, STATUS_BAD_REQUEST,
    STATUS_CONFLICT, STATUS_FORBIDDEN, STATUS_NOT_FOUND, STATUS_NOT_MODIFIED, STATUS_OK,
};
use crate::roles::{permissions_granted_by, role_from_name, role_names_of, Role, RoleSet};

verus! {

/// The reply for a user that does not exist.
pub open spec fn user_not_found_reply() -> Reply {
    reason_reply(STATUS_NOT_FOUND, ErrorReason::Users(UsersErrorReason::UserNotFound))
}

/// The reply refusing a display name another user already has.
pub open spec fn display_name_taken_reply() -> Reply {
    reason_reply(STATUS_CONFLICT, ErrorReason::Users(UsersErrorReason::DisplayNameAlreadyExists))
}

/// The reply refusing to modify the caller's own account through `/users/{id}` endpoints.
pub open spec fn cannot_modify_yourself_reply() -> Reply {
    reason_reply(STATUS_FORBIDDEN, ErrorReason::Users(UsersErrorReason::CannotModifyYourOwnAccount))
}

/// Whether `r` is a `200 OK` reply listing the role names `names`.
pub open spec fn is_role_names_reply(r: EndpointResult, names: Seq<Seq<char>>) -> bool {
    match r {
        Ok(reply) => reply.status == STATUS_OK && reply.last_modified is None && match reply.body {
            ReplyBody::UserRoles(body) => body.role_names@.map_values(|s: String| s@) == names,
            _ => false,
        },
        Err(_) => false,
    }
}

/// Whether `r` is a `200 OK` reply listing the permission names `names`.
pub open spec fn is_permission_names_reply(r: EndpointResult, names: Seq<Seq<char>>) -> bool {
    match r {
        Ok(reply) => reply.status == STATUS_OK && reply.last_modified is None && match reply.body {
            ReplyBody::UserPermissions(body) => body.permissions@.map_values(|s: String| s@) == names,
            _ => false,
        },
        Err(_) => false,
    }
}

/// The guard requiring that user `id` exists.
pub open spec fn user_exists_guard(id: u128) -> Guard {
    ask_guard(Probe::UserExists { user_id: id }, true, Ok(user_not_found_reply()))
}

/// The guard refusing a display name another user already has.
pub open spec fn display_name_free_guard(name: String) -> Guard {
    ask_guard(Probe::DisplayNameTaken { display_name: name }, false, Ok(display_name_taken_reply()))
}

// ---------------------------------------------------------------- registration

/// Guards of registration: neither the username nor the display name is taken.
pub open spec fn register_user_guards(request: UserRegistrationRequest) -> Seq<Guard> {
    seq![
        ask_guard(
            Probe::UsernameTaken { username: request.username },
            false,
            Ok(reason_reply(STATUS_CONFLICT, ErrorReason::Users(UsersErrorReason::UsernameAlreadyExists))),
        ),
        display_name_free_guard(request.display_name),
    ]
}

/// The guards of registering a user.
pub fn register_user_plan(request: &UserRegistrationRequest) -> (r: Vec<Guard>)
    ensures
        r@ == register_user_guards(*request),
{
    let mut guards: Vec<Guard> = Vec::new();
    push_ask(
        &mut guards,
        Probe::UsernameTaken { username: request.username.clone() },
        false,
        Ok(Reply::with_reason(STATUS_CONFLICT, ErrorReason::Users(UsersErrorReason::UsernameAlreadyExists))),
    );
    push_ask(
        &mut guards,
        Probe::DisplayNameTaken { display_name: request.display_name.clone() },
        false,
        Ok(Reply::with_reason(STATUS_CONFLICT, ErrorReason::Users(UsersErrorReason::DisplayNameAlreadyExists))),
    );
    assert(guards@ =~= register_user_guards(*request));
    guards
}

/// Registration goes ahead exactly when neither the username nor the display
/// name is taken: both must be unique across all users.
pub proof fn lemma_registration_requires_unique_names(request: UserRegistrationRequest, db: spec_fn(Probe) -> bool)
    ensures
        plan_outcome(register_user_guards(request), 0, db) is None
            <==> !db(Probe::UsernameTaken { username: request.username })
                && !db(Probe::DisplayNameTaken { display_name: request.display_name }),
{
    let guards = register_user_guards(request);
    lemma_plan_proceeds_iff_all_guards_hold(guards, db);
    if !db(Probe::UsernameTaken { username: request.username }) && !db(Probe::DisplayNameTaken { display_name: request.display_name }) {
        assert forall|i: int| 0 <= i < guards.len() implies guard_holds(#[trigger] guards[i], db) by {}
    } else {
        if db(Probe::UsernameTaken { username: request.username }) {
            assert(!guard_holds(guards[0], db));
        } else {
            assert(!guard_holds(guards[1], db));
        }
    }
}

/// The database state after a user with `username` and `display_name` was stored.
pub open spec fn with_user(db: spec_fn(Probe) -> bool, username: String, display_name: String) -> spec_fn(Probe) -> bool {
    |p: Probe| if p == (Probe::UsernameTaken { username }) || p == (Probe::DisplayNameTaken { display_name }) {
        true
    } else {
        db(p)
    }
}

/// Usernames and display names stay unique: once a registration went ahead
/// and its user was stored, any later registration with the same username,
/// or the same display name, is refused with `409 Conflict` (for its username
/// when that clashes with any user, for its display name otherwise).
pub proof fn lemma_registered_names_stay_unique(
    registered: UserRegistrationRequest,
    later: UserRegistrationRequest,
    db: spec_fn(Probe) -> bool,
)
    requires
        plan_outcome(register_user_guards(registered), 0, db) is None,
        later.username == registered.username || later.display_name == registered.display_name,
    ensures
        ({
            let after = with_user(db, registered.username, registered.display_name);
            let outcome = plan_outcome(register_user_guards(later), 0, after);
            &&& later.username == registered.username ==> outcome == Some(Ok::<Reply, EndpointError>(
                reason_reply(STATUS_CONFLICT, ErrorReason::Users(UsersErrorReason::UsernameAlreadyExists))))
            &&& later.username != registered.username && !db(Probe::UsernameTaken { username: later.username })
                ==> outcome == Some(Ok::<Reply, EndpointError>(display_name_taken_reply()))
            &&& outcome is Some
        }),
{
    let after = with_user(db, registered.username, registered.display_name);
    let guards = register_user_guards(later);
    if later.username == registered.username {
        assert(after(Probe::UsernameTaken { username: later.username }));
        assert(plan_outcome(guards, 0, after) == Some(guards[0].rejection));
    } else {
        assert(later.display_name == registered.display_name);
        assert(after(Probe::DisplayNameTaken { display_name: later.display_name }));
        if after(Probe::UsernameTaken { username: later.username }) {
            assert(plan_outcome(guards, 0, after) == Some(guards[0].rejection));
        } else {
            assert(plan_outcome(guards, 1, after) == Some(guards[1].rejection));
            assert(plan_outcome(guards, 0, after) == plan_outcome(guards, 1, after));
        }
    }
}

/// The reply once the user was created.
pub fn register_user_reply(created: UserInformation) -> (r: EndpointResult)
    ensures
        r == Ok::<Reply, EndpointError>(body_reply(STATUS_OK, ReplyBody::UserRegistered(UserRegistrationResponse { user: created }))),
{
    Ok(Reply::with_body(STATUS_OK, ReplyBody::UserRegistered(UserRegistrationResponse { user: created })))
}

// ---------------------------------------------------------------- all users

/// Guards of listing all users: an authenticated caller with `user.any:read`.
pub open spec fn get_all_registered_users_guards(auth: UserAuthenticationExtractor) -> Seq<Guard> {
    authentication_and_permission_guards(auth, Permission::UserAnyRead)
}

/// The guards of listing all users.
pub fn get_all_registered_users_plan(auth: &UserAuthenticationExtractor) -> (r: Vec<Guard>)
    ensures
        r@ == get_all_registered_users_guards(*auth),
{
    let mut guards: Vec<Guard> = Vec::new();
    require_user_authentication_and_permission(&mut guards, auth, Permission::UserAnyRead);
    assert(guards@ =~= get_all_registered_users_guards(*auth));
    guards
}

/// Listing all users, and reading one's own information, go ahead exactly
/// when the caller is authenticated with `user.any:read` and `user.self:read`
/// respectively.
pub proof fn lemma_user_listing_and_self_read_law(auth: UserAuthenticationExtractor, db: spec_fn(Probe) -> bool)
    ensures
        plan_outcome(get_all_registered_users_guards(auth), 0, db) is None <==> authenticated_caller_has(auth, Permission::UserAnyRead, db),
        plan_outcome(current_user_read_guards(auth), 0, db) is None <==> authenticated_caller_has(auth, Permission::UserSelfRead, db),
{
    lemma_proceeds_iff_all_hold(get_all_registered_users_guards(auth), db);
    lemma_proceeds_iff_all_hold(current_user_read_guards(auth), db);
    lemma_access_checks_hold(auth, Permission::UserAnyRead, db);
    lemma_access_checks_hold(auth, Permission::UserSelfRead, db);
}

/// The reply listing all users.
pub fn get_all_registered_users_reply(users: Vec<UserInformation>) -> (r: EndpointResult)
    ensures
        r == Ok::<Reply, EndpointError>(body_reply(STATUS_OK, ReplyBody::UsersList(RegisteredUsersListResponse { users }))),
{
    Ok(Reply::with_body(STATUS_OK, ReplyBody::UsersList(RegisteredUsersListResponse { users })))
}

// ---------------------------------------------------------------- the caller's account

/// Guards of the caller's own information and roles: an authenticated caller
/// with `user.self:read`.
pub open spec fn current_user_read_guards(auth: UserAuthenticationExtractor) -> Seq<Guard> {
    authentication_and_permission_guards(auth, Permission::UserSelfRead)
}

/// The guards of reading the caller's own information or roles.
pub fn current_user_read_plan(auth: &UserAuthenticationExtractor) -> (r: Vec<Guard>)
    ensures
        r@ == current_user_read_guards(*auth),
{
    let mut guards: Vec<Guard> = Vec::new();
    require_user_authentication_and_permission(&mut guards, auth, Permission::UserSelfRead);
    assert(guards@ =~= current_user_read_guards(*auth));
    guards
}

/// The reply with the caller's information: `404` when the account is gone,
/// `304` (with the modification time) when it has not changed since the time
/// the client sent, and the information with its modification time otherwise.
pub open spec fn current_user_info_outcome(user: Option<UserInformation>, condition: OptionalIfModifiedSince) -> Reply {
    match user {
        None => user_not_found_reply(),
        Some(u) => if not_modified_since(condition, u.last_modified_at) {
            Reply { status: STATUS_NOT_MODIFIED, body: ReplyBody::Empty, last_modified: Some(u.last_modified_at) }
        } else {
            Reply { status: STATUS_OK, body: ReplyBody::UserInfo(UserInfoResponse { user: u }), last_modified: Some(u.last_modified_at) }
        },
    }
}

/// The reply with the caller's information (see [`current_user_info_outcome`]).
pub fn get_current_user_info_reply(user: Option<UserInformation>, condition: &OptionalIfModifiedSince) -> (r: EndpointResult)
    ensures
        r == Ok::<Reply, EndpointError>(current_user_info_outcome(user, *condition)),
{
    match user {
        None => Ok(Reply::with_reason(STATUS_NOT_FOUND, ErrorReason::Users(UsersErrorReason::UserNotFound))),
        Some(u) => {
            let last_modified = u.last_modified_at;
            if condition.enabled_and_has_not_changed_since(&last_modified) {
                Ok(Reply { status: STATUS_NOT_MODIFIED, body: ReplyBody::Empty, last_modified: Some(last_modified) })
            } else {
                Ok(Reply { status: STATUS_OK, body: ReplyBody::UserInfo(UserInfoResponse { user: u }), last_modified: Some(last_modified) })
            }
        },
    }
}

/// The reply with the roles of a user, given whether the user exists and their roles.
pub fn user_roles_reply(user_exists: bool, roles: &RoleSet) -> (r: EndpointResult)
    ensures
        !user_exists ==> r == Ok::<Reply, EndpointError>(user_not_found_reply()),
        user_exists ==> is_role_names_reply(r, role_names_of(roles@)),
{
    if !user_exists {
        return Ok(Reply::with_reason(STATUS_NOT_FOUND, ErrorReason::Users(UsersErrorReason::UserNotFound)));
    }
    Ok(Reply::with_body(STATUS_OK, ReplyBody::UserRoles(UserRolesResponse { role_names: roles.role_names() })))
}

/// The outcome of listing the caller's effective permissions: the caller must
/// have `user.self:read` (counting blanket grants) among them.
pub fn current_user_effective_permissions_reply(permissions: &PermissionSet) -> (r: EndpointResult)
    ensures
        !(permissions@.contains(Permission::UserSelfRead) || blanket_granted(Permission::UserSelfRead))
            ==> r == Ok::<Reply, EndpointError>(missing_permission_reply(Permission::UserSelfRead)),
        (permissions@.contains(Permission::UserSelfRead) || blanket_granted(Permission::UserSelfRead))
            ==> is_permission_names_reply(r, permission_names_of(permissions@)),
{
    if !permissions.has_permission_or_is_blanket_granted(Permission::UserSelfRead) {
        return Ok(Reply::with_reason(STATUS_FORBIDDEN, ErrorReason::MissingPermission { permission: Permission::UserSelfRead }));
    }
    Ok(Reply::with_body(
        STATUS_OK,
        ReplyBody::UserPermissions(UserPermissionsResponse::from_permission_names(permissions.permission_names())),
    ))
}

/// Guards of changing the caller's own display name: an authenticated caller
/// with `user.self:write`, and a display name nobody has.
pub open spec fn update_current_user_display_name_guards(auth: UserAuthenticationExtractor, request: UserDisplayNameChangeRequest) -> Seq<Guard> {
    authentication_and_permission_guards(auth, Permission::UserSelfWrite) + seq![display_name_free_guard(request.new_display_name)]
}

/// The guards of changing the caller's own display name.
pub fn update_current_user_display_name_plan(auth: &UserAuthenticationExtractor, request: &UserDisplayNameChangeRequest) -> (r: Vec<Guard>)
    ensures
        r@ == update_current_user_display_name_guards(*auth, *request),
{
    let mut guards: Vec<Guard> = Vec::new();
    require_user_authentication_and_permission(&mut guards, auth, Permission::UserSelfWrite);
    push_ask(
        &mut guards,
        Probe::DisplayNameTaken { display_name: request.new_display_name.clone() },
        false,
        Ok(Reply::with_reason(STATUS_CONFLICT, ErrorReason::Users(UsersErrorReason::DisplayNameAlreadyExists))),
    );
    assert(guards@ =~= update_current_user_display_name_guards(*auth, *request));
    guards
}

/// Changing one's own display name goes ahead exactly when the caller is
/// authenticated with `user.self:write` and no user has the new display name;
/// a permitted caller asking for a taken name is refused with `409`.
pub proof fn lemma_own_display_name_change_law(
    auth: UserAuthenticationExtractor,
    request: UserDisplayNameChangeRequest,
    db: spec_fn(Probe) -> bool,
)
    ensures
        plan_outcome(update_current_user_display_name_guards(auth, request), 0, db) is None
            <==> authenticated_caller_has(auth, Permission::UserSelfWrite, db)
                && !db(Probe::DisplayNameTaken { display_name: request.new_display_name }),
        authenticated_caller_has(auth, Permission::UserSelfWrite, db) && db(Probe::DisplayNameTaken { display_name: request.new_display_name })
            ==> plan_outcome(update_current_user_display_name_guards(auth, request), 0, db) == Some(Ok::<Reply, EndpointError>(
                reason_reply(STATUS_CONFLICT, ErrorReason::Users(UsersErrorReason::DisplayNameAlreadyExists)))),
{
    let access = authentication_and_permission_guards(auth, Permission::UserSelfWrite);
    let g = display_name_free_guard(request.new_display_name);
    let gs = update_current_user_display_name_guards(auth, request);
    lemma_proceeds_iff_all_hold(gs, db);
    lemma_access_checks_hold(auth, Permission::UserSelfWrite, db);
    lemma_all_hold_concat(access, seq![g], db);
    lemma_all_hold_small(g, g, g, db);
    if authenticated_caller_has(auth, Permission::UserSelfWrite, db) {
        lemma_skip_holding_prefix(access, seq![g], db);
        assert(seq![g][0] == g);
    }
}

/// Changing another user's display name goes ahead exactly when the caller is
/// authenticated with `user.any:write`, the ID is well formed and names an
/// existing user other than the caller, and no user has the new display name.
pub proof fn lemma_other_display_name_change_law(
    auth: UserAuthenticationExtractor,
    id: Result<u128, EndpointError>,
    request: UserDisplayNameChangeRequest,
    db: spec_fn(Probe) -> bool,
)
    ensures
        plan_outcome(update_specific_user_display_name_guards(auth, id, request), 0, db) is None
            <==> authenticated_caller_has(auth, Permission::UserAnyWrite, db) && (auth matches UserAuthenticationExtractor::Authenticated { token }
                && id matches Ok(target) && token.user_id != target && db(Probe::UserExists { user_id: target })
                && !db(Probe::DisplayNameTaken { display_name: request.new_display_name })),
{
    let access = authentication_and_permission_guards(auth, Permission::UserAnyWrite);
    let gs = update_specific_user_display_name_guards(auth, id, request);
    lemma_proceeds_iff_all_hold(gs, db);
    lemma_access_checks_hold(auth, Permission::UserAnyWrite, db);
    match auth {
        UserAuthenticationExtractor::Unauthenticated => {
            lemma_all_hold_concat(access, Seq::<Guard>::empty(), db);
            assert(gs == access + Seq::<Guard>::empty());
        },
        UserAuthenticationExtractor::Authenticated { token } => {
            lemma_uuid_guards_hold(id, db);
            match id {
                Ok(target) => {
                    let tail = seq![
                        holds_guard(token.user_id != target, Ok(cannot_modify_yourself_reply())),
                        user_exists_guard(target),
                        display_name_free_guard(request.new_display_name),
                    ];
                    assert(gs == access + (uuid_guards(id) + tail));
                    lemma_all_hold_concat(access, uuid_guards(id) + tail, db);
                    lemma_all_hold_concat(uuid_guards(id), tail, db);
                    lemma_all_hold_small(tail[0], tail[1], tail[2], db);
                    assert(tail =~= seq![tail[0], tail[1], tail[2]]);
                },
                Err(_) => {
                    assert(gs == access + (uuid_guards(id) + Seq::<Guard>::empty()));
                    lemma_all_hold_concat(access, uuid_guards(id) + Seq::<Guard>::empty(), db);
                    lemma_all_hold_concat(uuid_guards(id), Seq::<Guard>::empty(), db);
                },
            }
        },
    }
}

/// The reply once a display name was changed.
pub fn display_name_changed_reply(updated: UserInformation) -> (r: EndpointResult)
    ensures
        r == Ok::<Reply, EndpointError>(body_reply(STATUS_OK, ReplyBody::UserDisplayNameChanged(UserDisplayNameChangeResponse { user: updated }))),
{
    Ok(Reply::with_body(STATUS_OK, ReplyBody::UserDisplayNameChanged(UserDisplayNameChangeResponse { user: updated })))
}

// ---------------------------------------------------------------- other users' accounts

/// Guards of reading another user's information or roles: `user.any:read`
/// (authenticated or not), a well-formed ID and, for roles, an existing user.
pub open spec fn specific_user_read_guards(auth: UserAuthenticationExtractor, id: Result<u128, EndpointError>, require_existence: bool) -> Seq<Guard> {
    seq![optional_authentication_permission_guard(auth, Permission::UserAnyRead)] + uuid_guards(id) + match id {
        Ok(user_id) => if require_existence { seq![user_exists_guard(user_id)] } else { seq![] },
        Err(_) => seq![],
    }
}

/// The guards of reading another user's information (`require_existence`
/// false: the lookup itself answers `404`) or roles (`require_existence` true).
pub fn specific_user_read_plan(auth: &UserAuthenticationExtractor, id: &Result<u128, EndpointError>, require_existence: bool) -> (r: Vec<Guard>)
    ensures
        r@ == specific_user_read_guards(*auth, *id, require_existence),
{
    let mut guards: Vec<Guard> = Vec::new();
    guards.push(require_permission_with_optional_authentication(auth, Permission::UserAnyRead));
    match push_uuid_guard(&mut guards, id) {
        Some(user_id) => {
            if require_existence {
                push_ask(
                    &mut guards,
                    Probe::UserExists { user_id },
                    true,
                    Ok(Reply::with_reason(STATUS_NOT_FOUND, ErrorReason::Users(UsersErrorReason::UserNotFound))),
                );
            }
        },
        None => {},
    }
    assert(guards@ =~= specific_user_read_guards(*auth, *id, require_existence));
    guards
}

/// The reply with another user's information, or `404` when there is none.
pub fn specific_user_info_reply(user: Option<UserInformation>) -> (r: EndpointResult)
    ensures
        r == match user {
            Some(u) => Ok::<Reply, EndpointError>(body_reply(STATUS_OK, ReplyBody::UserInfo(UserInfoResponse { user: u }))),
            None => Ok(user_not_found_reply()),
        },
{
    match user {
        Some(u) => Ok(Reply::with_body(STATUS_OK, ReplyBody::UserInfo(UserInfoResponse { user: u }))),
        None => Ok(Reply::with_reason(STATUS_NOT_FOUND, ErrorReason::Users(UsersErrorReason::UserNotFound))),
    }
}

/// Guards of reading another user's effective permissions: an authenticated
/// caller with `user.any:read`, a well-formed ID and an existing user.
pub open spec fn specific_user_permissions_guards(auth: UserAuthenticationExtractor, id: Result<u128, EndpointError>) -> Seq<Guard> {
    authentication_and_permission_guards(auth, Permission::UserAnyRead) + uuid_guards(id) + match id {
        Ok(user_id) => seq![user_exists_guard(user_id)],
        Err(_) => seq![],
    }
}

/// Reading another user's information or roles goes ahead exactly when the
/// caller (authenticated or not) has `user.any:read`, the ID is well formed
/// and, where existence is required, the user exists; reading their effective
/// permissions needs an authenticated caller with `user.any:read` and an
/// existing user.
pub proof fn lemma_other_user_read_law(
    auth: UserAuthenticationExtractor,
    id: Result<u128, EndpointError>,
    require_existence: bool,
    db: spec_fn(Probe) -> bool,
)
    ensures
        plan_outcome(specific_user_read_guards(auth, id, require_existence), 0, db) is None
            <==> any_caller_has(auth, Permission::UserAnyRead, db)
                && (id matches Ok(u) && (require_existence ==> db(Probe::UserExists { user_id: u }))),
        plan_outcome(specific_user_permissions_guards(auth, id), 0, db) is None
            <==> authenticated_caller_has(auth, Permission::UserAnyRead, db) && (id matches Ok(u) && db(Probe::UserExists { user_id: u })),
{
    let og = optional_authentication_permission_guard(auth, Permission::UserAnyRead);
    let access = authentication_and_permission_guards(auth, Permission::UserAnyRead);
    let rs = specific_user_read_guards(auth, id, require_existence);
    let ps = specific_user_permissions_guards(auth, id);
    lemma_proceeds_iff_all_hold(rs, db);
    lemma_proceeds_iff_all_hold(ps, db);
    lemma_access_checks_hold(auth, Permission::UserAnyRead, db);
    lemma_uuid_guards_hold(id, db);
    lemma_all_hold_small(og, og, og, db);
    lemma_all_hold_concat(seq![og], uuid_guards(id), db);
    lemma_all_hold_concat(access, uuid_guards(id), db);
    match id {
        Ok(u) => {
            let ue = user_exists_guard(u);
            let tail: Seq<Guard> = if require_existence { seq![ue] } else { seq![] };
            assert(rs == seq![og] + uuid_guards(id) + tail);
            assert(ps == access + uuid_guards(id) + seq![ue]);
            lemma_all_hold_concat(seq![og] + uuid_guards(id), tail, db);
            lemma_all_hold_concat(access + uuid_guards(id), seq![ue], db);
            lemma_all_hold_small(ue, ue, ue, db);
        },
        Err(_) => {
            assert(rs == seq![og] + uuid_guards(id) + Seq::<Guard>::empty());
            assert(ps == access + uuid_guards(id) + Seq::<Guard>::empty());
            lemma_all_hold_concat(seq![og] + uuid_guards(id), Seq::<Guard>::empty(), db);
            lemma_all_hold_concat(access + uuid_guards(id), Seq::<Guard>::empty(), db);
        },
    }
}

/// The guards of reading another user's effective permissions.
pub fn specific_user_permissions_plan(auth: &UserAuthenticationExtractor, id: &Result<u128, EndpointError>) -> (r: Vec<Guard>)
    ensures
        r@ == specific_user_permissions_guards(*auth, *id),
{
    let mut guards: Vec<Guard> = Vec::new();
    require_user_authentication_and_permission(&mut guards, auth, Permission::UserAnyRead);
    match push_uuid_guard(&mut guards, id) {
        Some(user_id) => {
            push_ask(
                &mut guards,
                Probe::UserExists { user_id },
                true,
                Ok(Reply::with_reason(STATUS_NOT_FOUND, ErrorReason::Users(UsersErrorReason::UserNotFound))),
            );
        },
        None => {},
    }
    assert(guards@ =~= specific_user_permissions_guards(*auth, *id));
    guards
}

/// The reply listing a user's effective permissions.
pub fn user_permissions_reply(permissions: &PermissionSet) -> (r: EndpointResult)
    ensures
        is_permission_names_reply(r, permission_names_of(permissions@)),
{
    Ok(Reply::with_body(
        STATUS_OK,
        ReplyBody::UserPermissions(UserPermissionsResponse::from_permission_names(permissions.permission_names())),
    ))
}

/// Guards of changing another user's display name, in order: an authenticated
/// caller with `user.any:write`; a well-formed ID; not the caller's own
/// account; an existing user; a display name nobody has.
pub open spec fn update_specific_user_display_name_guards(
    auth: UserAuthenticationExtractor,
    id: Result<u128, EndpointError>,
    request: UserDisplayNameChangeRequest,
) -> Seq<Guard> {
    authentication_and_permission_guards(auth, Permission::UserAnyWrite) + match auth {
        UserAuthenticationExtractor::Unauthenticated => seq![],
        UserAuthenticationExtractor::Authenticated { token } => uuid_guards(id) + match id {
            Err(_) => seq![],
            Ok(target) => seq![
                holds_guard(token.user_id != target, Ok(cannot_modify_yourself_reply())),
                user_exists_guard(target),
                display_name_free_guard(request.new_display_name),
            ],
        },
    }
}

/// The guards of changing another user's display name.
pub fn update_specific_user_display_name_plan(
    auth: &UserAuthenticationExtractor,
    id: &Result<u128, EndpointError>,
    request: &UserDisplayNameChangeRequest,
) -> (r: Vec<Guard>)
    ensures
        r@ == update_specific_user_display_name_guards(*auth, *id, *request),
{
    let mut guards: Vec<Guard> = Vec::new();
    require_user_authentication_and_permission(&mut guards, auth, Permission::UserAnyWrite);
    match auth {
        UserAuthenticationExtractor::Unauthenticated => {},
        UserAuthenticationExtractor::Authenticated { token } => {
            match push_uuid_guard(&mut guards, id) {
                None => {},
                Some(target) => {
                    push_holds(
                        &mut guards,
                        token.user_id != target,
                        Ok(Reply::with_reason(STATUS_FORBIDDEN, ErrorReason::Users(UsersErrorReason::CannotModifyYourOwnAccount))),
                    );
                    push_ask(
                        &mut guards,
                        Probe::UserExists { user_id: target },
                        true,
                        Ok(Reply::with_reason(STATUS_NOT_FOUND, ErrorReason::Users(UsersErrorReason::UserNotFound))),
                    );
                    push_ask(
                        &mut guards,
                        Probe::DisplayNameTaken { display_name: request.new_display_name.clone() },
                        false,
                        Ok(Reply::with_reason(STATUS_CONFLICT, ErrorReason::Users(UsersErrorReason::DisplayNameAlreadyExists))),
                    );
                },
            }
        },
    }
    assert(guards@ =~= update_specific_user_display_name_guards(*auth, *id, *request));
    guards
}

// ---------------------------------------------------------------- role changes

/// Whether roles are given to, or taken away from, a user.
#[derive(Clone, Copy, Debug, PartialEq, Eq, Structural)]
pub enum RoleChange {
    Add,
    Remove,
}

/// Whether every name among `names` is a role name.
pub open spec fn all_role_names(names: Seq<String>) -> bool {
    forall|i: int| 0 <= i < names.len() ==> (#[trigger] role_from_name(names[i]@)) is Some
}

/// The roles named by `names`.
pub open spec fn named_roles(names: Seq<String>) -> Set<Role> {
    Set::new(|r: Role| exists|i: int| 0 <= i < names.len() && role_from_name(names[i]@) == Some(r))
}

/// Whether `bad` is the first name among `names` that is not a role name.
pub open spec fn is_first_invalid_role_name(names: Seq<String>, bad: String) -> bool {
    exists|i: int| #![trigger names[i]]
        0 <= i < names.len() && role_from_name(names[i]@) is None && names[i] == bad
            && forall|j: int| 0 <= j < i ==> (#[trigger] role_from_name(names[j]@)) is Some
}

/// Reads the roles named in a request: the set of them, or the first name
/// that is not a role name.
pub fn parse_role_names(names: &Vec<String>) -> (r: Result<RoleSet, String>)
    ensures
        match r {
            Ok(set) => all_role_names(names@) && set@ == named_roles(names@),
            Err(bad) => is_first_invalid_role_name(names@, bad),
        },
{
    let mut set = RoleSet::new_empty();
    let mut i: usize = 0;
    while i < names.len()
        invariant
            i <= names@.len(),
            forall|j: int| 0 <= j < i ==> (#[trigger] role_from_name(names@[j]@)) is Some,
            set@ == Set::new(|r: Role| exists|j: int| 0 <= j < i && role_from_name(names@[j]@) == Some(r)),
        decreases names@.len() - i,
    {
        match Role::from_name(names[i].as_str()) {
            None => {
                let bad = names[i].clone();
                assert(names@[i as int] == bad);
                return Err(bad);
            },
            Some(role) => {
                let ghost before = set@;
                set.insert(role);
                assert(set@ =~= Set::new(|r: Role| exists|j: int| 0 <= j < i + 1 && role_from_name(names@[j]@) == Some(r))) by {
                    assert forall|r: Role| set@.contains(r) <==> exists|j: int| 0 <= j < i + 1 && role_from_name(names@[j]@) == Some(r) by {
                        if set@.contains(r) && r != role {
                            assert(before.contains(r));
                        }
                        if r == role {
                            assert(role_from_name(names@[i as int]@) == Some(r));
                        }
                        if exists|j: int| 0 <= j < i + 1 && role_from_name(names@[j]@) == Some(r) {
                            let j = choose|j: int| 0 <= j < i + 1 && role_from_name(names@[j]@) == Some(r);
                            if j < i {
                                assert(before.contains(r));
                            }
                        }
                    }
                }
            },
        }
        i = i + 1;
    }
    assert(set@ =~= named_roles(names@));
    Ok(set)
}

/// The first role (in canonical role order) among `requested` that `owned` lacks.
pub open spec fn first_unowned_role(requested: Set<Role>, owned: Set<Role>) -> Option<Role> {
    if requested.contains(Role::User) && !owned.contains(Role::User) {
        Some(Role::User)
    } else if requested.contains(Role::Administrator) && !owned.contains(Role::Administrator) {
        Some(Role::Administrator)
    } else {
        None
    }
}

/// The reason given for refusing to move a role the caller does not have.
pub open spec fn unowned_role_reason(change: RoleChange, role: Role) -> UsersErrorReason {
    match change {
        RoleChange::Add => UsersErrorReason::UnableToGiveOutUnownedRole { role },
        RoleChange::Remove => UsersErrorReason::UnableToTakeAwayUnownedRole { role },
    }
}

/// The first role (in canonical role order) of `requested` that is not in `owned`.
pub fn find_unowned_role(requested: &RoleSet, owned: &RoleSet) -> (r: Option<Role>)
    ensures
        r == first_unowned_role(requested@, owned@),
{
    if requested.has_role(Role::User) && !owned.has_role(Role::User) {
        Some(Role::User)
    } else if requested.has_role(Role::Administrator) && !owned.has_role(Role::Administrator) {
        Some(Role::Administrator)
    } else {
        None
    }
}

/// The requested roles, read as a set of roles or the first invalid name.
pub open spec fn requested_roles_view(requested: Result<RoleSet, String>) -> Result<Set<Role>, String> {
    match requested {
        Ok(set) => Ok(set@),
        Err(name) => Err(name),
    }
}

/// Guards of giving roles to, or taking roles away from, another user, once the
/// caller (`caller_id`, holding `caller_roles`) is authenticated, in order:
/// the caller's roles grant `user.any:write`; a well-formed ID; not the caller's
/// own account; every requested name is a role; the caller has every requested
/// role; the user exists.
pub open spec fn role_change_guards(
    caller_id: u128,
    caller_roles: Set<Role>,
    id: Result<u128, EndpointError>,
    requested: Result<Set<Role>, String>,
    change: RoleChange,
) -> Seq<Guard> {
    seq![holds_guard(
        permissions_granted_by(caller_roles).contains(Permission::UserAnyWrite) || blanket_granted(Permission::UserAnyWrite),
        Ok(missing_permission_reply(Permission::UserAnyWrite)),
    )] + uuid_guards(id) + match id {
        Err(_) => seq![],
        Ok(target) => seq![holds_guard(caller_id != target, Ok(cannot_modify_yourself_reply()))] + match requested {
            Err(name) => seq![holds_guard(
                false,
                Ok(reason_reply(STATUS_BAD_REQUEST, ErrorReason::Users(UsersErrorReason::InvalidRoleName { role_name: name }))),
            )],
            Ok(roles) => match first_unowned_role(roles, caller_roles) {
                Some(role) => seq![holds_guard(false, Ok(reason_reply(STATUS_FORBIDDEN, ErrorReason::Users(unowned_role_reason(change, role)))))],
                None => seq![],
            },
        } + seq![user_exists_guard(target)],
    }
}

/// The guards of a role change (see [`role_change_guards`]).
pub fn role_change_plan(
    caller_id: u128,
    caller_roles: &RoleSet,
    id: &Result<u128, EndpointError>,
    requested: &Result<RoleSet, String>,
    change: RoleChange,
) -> (r: Vec<Guard>)
    ensures
        r@ == role_change_guards(caller_id, caller_roles@, *id, requested_roles_view(*requested), change),
{
    let mut guards: Vec<Guard> = Vec::new();
    let permissions = caller_roles.granted_permission_set();
    push_holds(
        &mut guards,
        permissions.has_permission_or_is_blanket_granted(Permission::UserAnyWrite),
        Ok(Reply::with_reason(STATUS_FORBIDDEN, ErrorReason::MissingPermission { permission: Permission::UserAnyWrite })),
    );
    match push_uuid_guard(&mut guards, id) {
        None => {},
        Some(target) => {
            push_holds(
                &mut guards,
                caller_id != target,
                Ok(Reply::with_reason(STATUS_FORBIDDEN, ErrorReason::Users(UsersErrorReason::CannotModifyYourOwnAccount))),
            );
            match requested {
                Err(name) => {
                    push_holds(
                        &mut guards,
                        false,
                        Ok(Reply::with_reason(
                            STATUS_BAD_REQUEST,
                            ErrorReason::Users(UsersErrorReason::InvalidRoleName { role_name: name.clone() }),
                        )),
                    );
                },
                Ok(roles) => match find_unowned_role(roles, caller_roles) {
                    Some(role) => {
                        let reason = match change {
                            RoleChange::Add => UsersErrorReason::UnableToGiveOutUnownedRole { role },
                            RoleChange::Remove => UsersErrorReason::UnableToTakeAwayUnownedRole { role },
                        };
                        push_holds(&mut guards, false, Ok(Reply::with_reason(STATUS_FORBIDDEN, ErrorReason::Users(reason))));
                    },
                    None => {},
                },
            }
            push_ask(
                &mut guards,
                Probe::UserExists { user_id: target },
                true,
                Ok(Reply::with_reason(STATUS_NOT_FOUND, ErrorReason::Users(UsersErrorReason::UserNotFound))),
            );
        },
    }
    assert(guards@ =~= role_change_guards(caller_id, caller_roles@, *id, requested_roles_view(*requested), change));
    guards
}

/// A role change goes ahead only when the caller's roles grant
/// `user.any:write`, the target is another user, every requested name is a
/// role, and the caller holds every role they give out or take away: no caller
/// can hand out or strip a role they do not have.
pub proof fn lemma_role_change_only_moves_owned_roles(
    caller_id: u128,
    caller_roles: Set<Role>,
    id: Result<u128, EndpointError>,
    requested: Result<Set<Role>, String>,
    change: RoleChange,
    db: spec_fn(Probe) -> bool,
)
    requires
        plan_outcome(role_change_guards(caller_id, caller_roles, id, requested, change), 0, db) is None,
    ensures
        permissions_granted_by(caller_roles).contains(Permission::UserAnyWrite) || blanket_granted(Permission::UserAnyWrite),
        id matches Ok(target) && target != caller_id && db(Probe::UserExists { user_id: target }),
        requested matches Ok(roles) && roles.subset_of(caller_roles),
{
    let guards = role_change_guards(caller_id, caller_roles, id, requested, change);
    lemma_proceeding_means_all_guards_hold(guards, 0, db);
    assert(guard_holds(guards[0], db));
    match id {
        Err(e) => {
            assert(guards[1] == holds_guard(false, Err(e)));
            assert(guard_holds(guards[1], db));
        },
        Ok(target) => {
            assert(guards[1] == holds_guard(caller_id != target, Ok(cannot_modify_yourself_reply())));
            assert(guard_holds(guards[1], db));
            assert(guards[guards.len() - 1] == user_exists_guard(target));
            assert(guard_holds(guards[guards.len() - 1], db));
            match requested {
                Err(name) => {
                    assert(guard_holds(guards[2], db));
                },
                Ok(roles) => {
                    match first_unowned_role(roles, caller_roles) {
                        Some(role) => {
                            assert(guard_holds(guards[2], db));
                        },
                        None => {
                            assert forall|r: Role| roles.contains(r) implies caller_roles.contains(r) by {
                                match r {
                                    Role::User => {},
                                    Role::Administrator => {},
                                }
                            }
                        },
                    }
                },
            }
        },
    }
}

/// Conversely, a role change by a caller whose roles grant `user.any:write`,
/// on an existing user other than the caller, with valid role names that the
/// caller all holds, goes ahead.
pub proof fn lemma_role_change_goes_ahead_when_allowed(
    caller_id: u128,
    caller_roles: Set<Role>,
    target: u128,
    roles: Set<Role>,
    change: RoleChange,
    db: spec_fn(Probe) -> bool,
)
    requires
        permissions_granted_by(caller_roles).contains(Permission::UserAnyWrite) || blanket_granted(Permission::UserAnyWrite),
        target != caller_id,
        db(Probe::UserExists { user_id: target }),
        roles.subset_of(caller_roles),
    ensures
        plan_outcome(role_change_guards(caller_id, caller_roles, Ok(target), Ok(roles), change), 0, db) is None,
{
    let id: Result<u128, EndpointError> = Ok(target);
    let guards = role_change_guards(caller_id, caller_roles, id, Ok(roles), change);
    assert(first_unowned_role(roles, caller_roles) is None);
    let g0 = holds_guard(
        permissions_granted_by(caller_roles).contains(Permission::UserAnyWrite) || blanket_granted(Permission::UserAnyWrite),
        Ok(missing_permission_reply(Permission::UserAnyWrite)),
    );
    let tail = seq![holds_guard(caller_id != target, Ok(cannot_modify_yourself_reply()))] + Seq::<Guard>::empty() + seq![user_exists_guard(target)];
    assert(guards == seq![g0] + uuid_guards(id) + tail);
    lemma_uuid_guards_hold(id, db);
    lemma_all_hold_concat(seq![g0] + uuid_guards(id), tail, db);
    lemma_all_hold_concat(seq![g0], uuid_guards(id), db);
    lemma_all_hold_small(g0, g0, g0, db);
    assert(tail =~= seq![tail[0], tail[1]]);
    lemma_all_hold_small(tail[0], tail[1], tail[0], db);
    lemma_proceeds_iff_all_hold(guards, db);
}

/// The reply with the user's roles after the change.
pub fn role_change_reply(updated_roles: &RoleSet) -> (r: EndpointResult)
    ensures
        is_role_names_reply(r, role_names_of(updated_roles@)),
{
    Ok(Reply::with_body(STATUS_OK, ReplyBody::UserRoles(UserRolesResponse { role_names: updated_roles.role_names() })))
}

// ---------------------------------------------------------------- direct permission changes

/// Whether permissions are given to, or taken away from, a user.
#[derive(Clone, Copy, Debug, PartialEq, Eq, Structural)]
pub enum PermissionChange {
    Add,
    Remove,
}

/// Whether `bad` is the first name among `names` that is not a permission name.
pub open spec fn is_first_invalid_permission_name(names: Seq<String>, bad: String) -> bool {
    exists|i: int| #![trigger names[i]]
        0 <= i < names.len() && permission_from_name(names[i]@) is None && names[i] == bad
            && forall|j: int| 0 <= j < i ==> (#[trigger] permission_from_name(names[j]@)) is Some
}

/// Reads the permissions named in a request, in request order, or the first
/// name that is not a permission name.
pub fn parse_permission_names(names: &Vec<String>) -> (r: Result<Vec<Permission>, String>)
    ensures
        match r {
            Ok(permissions) => permissions@.len() == names@.len()
                && forall|i: int| 0 <= i < names@.len() ==> permission_from_name(#[trigger] names@[i]@) == Some(permissions@[i]),
            Err(bad) => is_first_invalid_permission_name(names@, bad),
        },
{
    let mut permissions: Vec<Permission> = Vec::new();
    let mut i: usize = 0;
    while i < names.len()
        invariant
            i <= names@.len(),
            permissions@.len() == i,
            forall|j: int| 0 <= j < i ==> permission_from_name(#[trigger] names@[j]@) == Some(permissions@[j]),
        decreases names@.len() - i,
    {
        match Permission::from_name(names[i].as_str()) {
            None => {
                let bad = names[i].clone();
                assert(names@[i as int] == bad);
                assert forall|j: int| 0 <= j < i implies (#[trigger] permission_from_name(names@[j]@)) is Some by {
                    assert(permission_from_name(names@[j]@) == Some(permissions@[j]));
                }
                return Err(bad);
            },
            Some(p) => {
                permissions.push(p);
            },
        }
        i = i + 1;
    }
    Ok(permissions)
}

/// Whether `p` is the first permission of `requested` that `owned` lacks.
pub open spec fn is_first_unowned_permission(requested: Seq<Permission>, owned: Set<Permission>, p: Permission) -> bool {
    exists|i: int| #![trigger requested[i]]
        0 <= i < requested.len() && requested[i] == p && !owned.contains(p)
            && forall|j: int| 0 <= j < i ==> owned.contains(#[trigger] requested[j])
}

/// The first permission of `requested` that `owned` lacks, if any.
pub fn find_unowned_permission(requested: &Vec<Permission>, owned: &PermissionSet) -> (r: Option<Permission>)
    ensures
        match r {
            None => forall|i: int| 0 <= i < requested@.len() ==> owned@.contains(#[trigger] requested@[i]),
            Some(p) => is_first_unowned_permission(requested@, owned@, p),
        },
{
    let mut i: usize = 0;
    while i < requested.len()
        invariant
            i <= requested@.len(),
            forall|j: int| 0 <= j < i ==> owned@.contains(#[trigger] requested@[j]),
        decreases requested@.len() - i,
    {
        if !owned.contains(requested[i]) {
            assert(requested@[i as int] == requested[i as int]);
            return Some(requested[i]);
        }
        i = i + 1;
    }
    None
}

/// The text refusing an unknown permission name.
pub open spec fn no_such_permission_message(change: PermissionChange, name: Seq<char>) -> Seq<char> {
    match change {
        PermissionChange::Add => "No such permission: \""@ + name + "\"."@,
        PermissionChange::Remove => "No such permission: "@ + name,
    }
}

/// The text refusing to move a permission the caller does not have.
pub open spec fn unowned_permission_message(change: PermissionChange, p: Permission) -> Seq<char> {
    match change {
        PermissionChange::Add => "You are not allowed to add the "@ + permission_name(p) + " permission to other users."@,
        PermissionChange::Remove => "You are not allowed to remove the "@ + permission_name(p) + " permission from other users."@,
    }
}

/// Whether `r` is a reply with status `status` and a free-text reason `message`.
pub open spec fn is_message_reply(r: EndpointResult, status: u16, message: Seq<char>) -> bool {
    match r {
        Ok(reply) => reply.status == status && reply.last_modified is None && match reply.body {
            ReplyBody::Message(text) => text@ == message,
            _ => false,
        },
        Err(_) => false,
    }
}

/// A reply with a free-text reason.
fn message_reply(status: u16, message: String) -> (r: EndpointResult)
    ensures
        is_message_reply(r, status, message@),
{
    Ok(Reply { status, body: ReplyBody::Message(message), last_modified: None })
}

/// Decides a direct permission change once the caller is authenticated and
/// their permissions (`caller_permissions`) and account (`caller_id`, `None`
/// when it could not be found) are known. In order: the caller must have
/// `user.any:write`; their account must exist; the target must be another
/// user; every name must be a permission; the caller must have every
/// requested permission. Gives the permissions to change, or the reply.
pub fn permission_change_decision(
    caller_permissions: &PermissionSet,
    caller_id: Option<u128>,
    target: u128,
    names: &Vec<String>,
    change: PermissionChange,
) -> (r: Result<Vec<Permission>, EndpointResult>)
    ensures
        !caller_permissions@.contains(Permission::UserAnyWrite)
            ==> r == Err::<Vec<Permission>, EndpointResult>(Ok(missing_permission_reply(Permission::UserAnyWrite))),
        caller_permissions@.contains(Permission::UserAnyWrite) && caller_id is None
            ==> (r matches Err(Err(EndpointError::InternalErrorWithReason { reason })) && reason@ == "BUG: Current user does not exist."@),
        caller_permissions@.contains(Permission::UserAnyWrite) && caller_id == Some(target)
            ==> (r matches Err(reply) && is_message_reply(reply, STATUS_FORBIDDEN, "Can't modify your own account on this endpoint."@)),
        caller_permissions@.contains(Permission::UserAnyWrite) && caller_id is Some && caller_id != Some(target) ==> match r {
            Ok(permissions) => permissions@.len() == names@.len()
                && (forall|i: int| 0 <= i < names@.len() ==> permission_from_name(#[trigger] names@[i]@) == Some(permissions@[i]))
                && (forall|i: int| 0 <= i < permissions@.len() ==> caller_permissions@.contains(#[trigger] permissions@[i])),
            Err(reply) =>
                (exists|bad: String| is_first_invalid_permission_name(names@, bad)
                    && is_message_reply(reply, STATUS_BAD_REQUEST, no_such_permission_message(change, bad@)))
                || (exists|requested: Seq<Permission>, p: Permission|
                    requested.len() == names@.len()
                    && (forall|i: int| 0 <= i < names@.len() ==> permission_from_name(#[trigger] names@[i]@) == Some(requested[i]))
                    && is_first_unowned_permission(requested, caller_permissions@, p)
                    && is_message_reply(reply, STATUS_FORBIDDEN, unowned_permission_message(change, p))),
        },
{
    if !caller_permissions.contains(Permission::UserAnyWrite) {
        return Err(Ok(Reply::with_reason(STATUS_FORBIDDEN, ErrorReason::MissingPermission { permission: Permission::UserAnyWrite })));
    }
    let caller = match caller_id {
        None => {
            return Err(Err(EndpointError::internal_error_with_reason("BUG: Current user does not exist.")));
        },
        Some(id) => id,
    };
    if caller == target {
        return Err(message_reply(STATUS_FORBIDDEN, String::from_str("Can't modify your own account on this endpoint.")));
    }
    let permissions = match parse_permission_names(names) {
        Err(bad) => {
            let mut message = String::from_str("No such permission: ");
            match change {
                PermissionChange::Add => {
                    message.append("\"");
                    message.append(bad.as_str());
                    message.append("\".");
                    assert(message@ =~= no_such_permission_message(change, bad@)) by {
                        assert("No such permission: "@ + "\""@ =~= "No such permission: \""@) by {
                            reveal_strlit("No such permission: ");
                            reveal_strlit("\"");
                            reveal_strlit("No such permission: \"");
                        }
                    }
                },
                PermissionChange::Remove => {
                    message.append(bad.as_str());
                },
            }
            return Err(message_reply(STATUS_BAD_REQUEST, message));
        },
        Ok(permissions) => permissions,
    };
    match find_unowned_permission(&permissions, caller_permissions) {
        Some(p) => {
            let message = match change {
                PermissionChange::Add => {
                    let mut m = String::from_str("You are not allowed to add the ");
                    m.append(p.name());
                    m.append(" permission to other users.");
                    m
                },
                PermissionChange::Remove => {
                    let mut m = String::from_str("You are not allowed to remove the ");
                    m.append(p.name());
                    m.append(" permission from other users.");
                    m
                },
            };
            return Err(message_reply(STATUS_FORBIDDEN, message));
        },
        None => {},
    }
    Ok(permissions)
}

/// The reply with the user's permissions after the change, or an internal
/// error when they could not be read back.
pub fn permission_change_reply(updated: Option<PermissionSet>) -> (r: EndpointResult)
    ensures
        updated matches Some(set) ==> is_permission_names_reply(r, permission_names_of(set@)),
        updated is None ==> (r matches Err(EndpointError::InternalErrorWithReason { reason })
            && reason@ == "BUG: Could not fetch updated permission list, user vanished from database?!"@),
{
    match updated {
        Some(set) => user_permissions_reply(&set),
        None => Err(EndpointError::internal_error_with_reason(
            "BUG: Could not fetch updated permission list, user vanished from database?!",
        )),
    }
}

} // verus!
