//! Category endpoints: create, list, fetch, update and delete categories.

use vstd::prelude::*;
use crate::authentication::{
    any_caller_has, authenticated_caller_has, authentication_and_permission_guards, lemma_access_checks_hold, optional_authentication_permission_guard,
    require_permission_with_optional_authentication, require_user_authentication_and_permission,
    UserAuthenticationExtractor,
};
use crate::models::{Category, CategoriesResponse, CategoryCreationRequest, CategoryCreationResponse, CategoryResponse, CategoryUpdateRequest};
use crate::permissions::{blanket_granted, Permission};
use crate::plan::{ask_guard, guard_holds, holds_guard, lemma_all_hold_concat, lemma_all_hold_small, lemma_plan_proceeds_iff_all_guards_hold, lemma_proceeds_iff_all_hold, lemma_skip_holding_prefix, lemma_uuid_guards_hold, plan_outcome, push_ask, push_holds, push_uuid_guard, uuid_guards, Guard, Probe};
use crate::reasons::{CategoryErrorReason, ErrorReason};
use crate::responses::{
    body_reply, reason_reply, require_mutation_applied, EndpointError, EndpointResult, Reply, ReplyBody,
    STATUS_BAD_REQUEST, STATUS_CONFLICT, STATUS_NOT_FOUND, STATUS_OK,
};

verus! {

/// The reply for a category that does not exist.
pub open spec fn category_not_found_reply() -> Reply {
    reason_reply(STATUS_NOT_FOUND, ErrorReason::Category(CategoryErrorReason::CategoryNotFound))
}

/// The guard refusing a Slovene name that another category already has.
pub open spec fn slovene_name_free_guard(name: String) -> Guard {
    ask_guard(
        Probe::CategorySloveneNameTaken { name },
        false,
        Ok(reason_reply(STATUS_CONFLICT, ErrorReason::Category(CategoryErrorReason::SloveneNameAlreadyExists))),
    )
}

/// The guard refusing an English name that another category already has.
pub open spec fn english_name_free_guard(name: String) -> Guard {
    ask_guard(
        Probe::CategoryEnglishNameTaken { name },
        false,
        Ok(reason_reply(STATUS_CONFLICT, ErrorReason::Category(CategoryErrorReason::EnglishNameAlreadyExists))),
    )
}

/// The guard requiring that category `id` exists.
pub open spec fn category_exists_guard(id: u128) -> Guard {
    ask_guard(Probe::CategoryExists { category_id: id }, true, Ok(category_not_found_reply()))
}

// ---------------------------------------------------------------- create

/// Guards of category creation: an authenticated caller with `category:create`,
/// and neither name taken by an existing category.
pub open spec fn create_category_guards(auth: UserAuthenticationExtractor, request: CategoryCreationRequest) -> Seq<Guard> {
    authentication_and_permission_guards(auth, Permission::CategoryCreate)
        + seq![slovene_name_free_guard(request.slovene_name), english_name_free_guard(request.english_name)]
}

/// The guards of category creation.
pub fn create_category_plan(auth: &UserAuthenticationExtractor, request: &CategoryCreationRequest) -> (r: Vec<Guard>)
    ensures
        r@ == create_category_guards(*auth, *request),
{
    let mut guards: Vec<Guard> = Vec::new();
    require_user_authentication_and_permission(&mut guards, auth, Permission::CategoryCreate);
    push_ask(
        &mut guards,
        Probe::CategorySloveneNameTaken { name: request.slovene_name.clone() },
        false,
        Ok(Reply::with_reason(STATUS_CONFLICT, ErrorReason::Category(CategoryErrorReason::SloveneNameAlreadyExists))),
    );
    push_ask(
        &mut guards,
        Probe::CategoryEnglishNameTaken { name: request.english_name.clone() },
        false,
        Ok(Reply::with_reason(STATUS_CONFLICT, ErrorReason::Category(CategoryErrorReason::EnglishNameAlreadyExists))),
    );
    assert(guards@ =~= create_category_guards(*auth, *request));
    guards
}

/// A category is created only for an authenticated caller who has
/// `category:create` (or for whom it is blanket-granted), and only when no
/// category has either of the new names; when all of that holds, creation goes
/// ahead.
pub proof fn lemma_category_creation_requirements(
    auth: UserAuthenticationExtractor,
    request: CategoryCreationRequest,
    db: spec_fn(Probe) -> bool,
)
    ensures
        plan_outcome(create_category_guards(auth, request), 0, db) is None <==> {
            &&& auth matches UserAuthenticationExtractor::Authenticated { token }
            &&& (blanket_granted(Permission::CategoryCreate)
                || db(Probe::UserHasPermission { user_id: token.user_id, permission: Permission::CategoryCreate }))
            &&& !db(Probe::CategorySloveneNameTaken { name: request.slovene_name })
            &&& !db(Probe::CategoryEnglishNameTaken { name: request.english_name })
        },
{
    let guards = create_category_guards(auth, request);
    lemma_plan_proceeds_iff_all_guards_hold(guards, db);
    match auth {
        UserAuthenticationExtractor::Unauthenticated => {
            assert(!guard_holds(guards[0], db));
        },
        UserAuthenticationExtractor::Authenticated { token } => {
            assert(guards.len() == 4);
            if forall|i: int| 0 <= i < guards.len() ==> guard_holds(#[trigger] guards[i], db) {
                assert(guard_holds(guards[1], db));
                assert(guard_holds(guards[2], db));
                assert(guard_holds(guards[3], db));
            }
        },
    }
}

/// The reply once the category was created.
pub fn create_category_reply(created: Category) -> (r: EndpointResult)
    ensures
        r == Ok::<Reply, EndpointError>(body_reply(STATUS_OK, ReplyBody::CategoryCreated(CategoryCreationResponse { category: created }))),
{
    Ok(Reply::with_body(STATUS_OK, ReplyBody::CategoryCreated(CategoryCreationResponse { category: created })))
}

// ---------------------------------------------------------------- list

/// Guards of listing categories: `category:read`, which every caller has.
pub open spec fn get_all_categories_guards(auth: UserAuthenticationExtractor) -> Seq<Guard> {
    seq![optional_authentication_permission_guard(auth, Permission::CategoryRead)]
}

/// The guards of listing categories.
pub fn get_all_categories_plan(auth: &UserAuthenticationExtractor) -> (r: Vec<Guard>)
    ensures
        r@ == get_all_categories_guards(*auth),
{
    let mut guards: Vec<Guard> = Vec::new();
    guards.push(require_permission_with_optional_authentication(auth, Permission::CategoryRead));
    assert(guards@ =~= get_all_categories_guards(*auth));
    guards
}

/// The reply listing the categories.
pub fn get_all_categories_reply(categories: Vec<Category>) -> (r: EndpointResult)
    ensures
        r == Ok::<Reply, EndpointError>(body_reply(STATUS_OK, ReplyBody::Categories(CategoriesResponse { categories }))),
{
    Ok(Reply::with_body(STATUS_OK, ReplyBody::Categories(CategoriesResponse { categories })))
}

// ---------------------------------------------------------------- fetch one

/// Guards of fetching one category: `category:read` and a well-formed ID.
pub open spec fn get_specific_category_guards(auth: UserAuthenticationExtractor, id: Result<u128, EndpointError>) -> Seq<Guard> {
    seq![optional_authentication_permission_guard(auth, Permission::CategoryRead)] + uuid_guards(id)
}

/// The guards of fetching one category.
pub fn get_specific_category_plan(auth: &UserAuthenticationExtractor, id: &Result<u128, EndpointError>) -> (r: Vec<Guard>)
    ensures
        r@ == get_specific_category_guards(*auth, *id),
{
    let mut guards: Vec<Guard> = Vec::new();
    guards.push(require_permission_with_optional_authentication(auth, Permission::CategoryRead));
    push_uuid_guard(&mut guards, id);
    assert(guards@ =~= get_specific_category_guards(*auth, *id));
    guards
}

/// The reply for the fetched category, or `404` when there is none.
pub fn get_specific_category_reply(category: Option<Category>) -> (r: EndpointResult)
    ensures
        r == match category {
            Some(c) => Ok::<Reply, EndpointError>(body_reply(STATUS_OK, ReplyBody::Category(CategoryResponse { category: c }))),
            None => Ok(category_not_found_reply()),
        },
{
    match category {
        Some(c) => Ok(Reply::with_body(STATUS_OK, ReplyBody::Category(CategoryResponse { category: c }))),
        None => Ok(Reply::with_reason(STATUS_NOT_FOUND, ErrorReason::Category(CategoryErrorReason::CategoryNotFound))),
    }
}

// ---------------------------------------------------------------- update

/// Whether an update request changes nothing at all.
pub open spec fn has_no_fields_to_update(request: CategoryUpdateRequest) -> bool {
    request.new_parent_category_id is None && request.new_slovene_name is None && request.new_english_name is None
}

/// Guards of updating a category, in order: an authenticated caller with
/// `category:update`; a well-formed ID; at least one field to update; the
/// category exists; a new Slovene name, if given, is not the name of another
/// category; a new English name, if given, is not the name of another category
/// (a category keeps its own names without conflict).
pub open spec fn update_specific_category_guards(
    auth: UserAuthenticationExtractor,
    id: Result<u128, EndpointError>,
    request: CategoryUpdateRequest,
) -> Seq<Guard> {
    authentication_and_permission_guards(auth, Permission::CategoryUpdate) + uuid_guards(id) + match id {
        Err(_) => seq![],
        Ok(category_id) => seq![
            holds_guard(
                !has_no_fields_to_update(request),
                Ok(reason_reply(STATUS_BAD_REQUEST, ErrorReason::Category(CategoryErrorReason::NoFieldsToUpdate))),
            ),
            category_exists_guard(category_id),
        ] + match request.new_slovene_name {
            Some(name) => seq![ask_guard(
                Probe::CategorySloveneNameTakenByOther { name, category_id },
                false,
                Ok(reason_reply(STATUS_CONFLICT, ErrorReason::Category(CategoryErrorReason::SloveneNameAlreadyExists))),
            )],
            None => seq![],
        } + match request.new_english_name {
            Some(name) => seq![ask_guard(
                Probe::CategoryEnglishNameTakenByOther { name, category_id },
                false,
                Ok(reason_reply(STATUS_CONFLICT, ErrorReason::Category(CategoryErrorReason::EnglishNameAlreadyExists))),
            )],
            None => seq![],
        },
    }
}

/// Updating a category goes ahead exactly when the caller is authenticated
/// with `category:update`, the ID is well formed, the request sets at least
/// one of the parent, the Slovene name and the English name, the category
/// exists, and no other category has a new name that the request gives. A
/// permitted request with a well-formed ID that sets none of the three is
/// refused with `400`.
pub proof fn lemma_category_update_law(
    auth: UserAuthenticationExtractor,
    id: Result<u128, EndpointError>,
    request: CategoryUpdateRequest,
    db: spec_fn(Probe) -> bool,
)
    ensures
        plan_outcome(update_specific_category_guards(auth, id, request), 0, db) is None
            <==> authenticated_caller_has(auth, Permission::CategoryUpdate, db) && (id matches Ok(c) && {
                &&& request.new_parent_category_id is Some || request.new_slovene_name is Some || request.new_english_name is Some
                &&& db(Probe::CategoryExists { category_id: c })
                &&& (request.new_slovene_name matches Some(n) ==> !db(Probe::CategorySloveneNameTakenByOther { name: n, category_id: c }))
                &&& (request.new_english_name matches Some(n) ==> !db(Probe::CategoryEnglishNameTakenByOther { name: n, category_id: c }))
            }),
        authenticated_caller_has(auth, Permission::CategoryUpdate, db) && id is Ok
            && request.new_parent_category_id is None && request.new_slovene_name is None && request.new_english_name is None
            ==> plan_outcome(update_specific_category_guards(auth, id, request), 0, db) == Some(Ok::<Reply, EndpointError>(
                reason_reply(STATUS_BAD_REQUEST, ErrorReason::Category(CategoryErrorReason::NoFieldsToUpdate)))),
{
    let access = authentication_and_permission_guards(auth, Permission::CategoryUpdate);
    let gs = update_specific_category_guards(auth, id, request);
    lemma_proceeds_iff_all_hold(gs, db);
    lemma_access_checks_hold(auth, Permission::CategoryUpdate, db);
    lemma_uuid_guards_hold(id, db);
    lemma_all_hold_concat(access, uuid_guards(id), db);
    match id {
        Ok(c) => {
            let nf = holds_guard(
                !has_no_fields_to_update(request),
                Ok(reason_reply(STATUS_BAD_REQUEST, ErrorReason::Category(CategoryErrorReason::NoFieldsToUpdate))),
            );
            let ce = category_exists_guard(c);
            let sl: Seq<Guard> = match request.new_slovene_name {
                Some(name) => seq![ask_guard(
                    Probe::CategorySloveneNameTakenByOther { name, category_id: c },
                    false,
                    Ok(reason_reply(STATUS_CONFLICT, ErrorReason::Category(CategoryErrorReason::SloveneNameAlreadyExists))),
                )],
                None => seq![],
            };
            let en: Seq<Guard> = match request.new_english_name {
                Some(name) => seq![ask_guard(
                    Probe::CategoryEnglishNameTakenByOther { name, category_id: c },
                    false,
                    Ok(reason_reply(STATUS_CONFLICT, ErrorReason::Category(CategoryErrorReason::EnglishNameAlreadyExists))),
                )],
                None => seq![],
            };
            let tail = seq![nf, ce] + sl + en;
            assert(gs == access + uuid_guards(id) + tail);
            lemma_all_hold_concat(access + uuid_guards(id), tail, db);
            lemma_all_hold_concat(seq![nf, ce] + sl, en, db);
            lemma_all_hold_concat(seq![nf, ce], sl, db);
            lemma_all_hold_small(nf, ce, nf, db);
            match request.new_slovene_name {
                Some(name) => { lemma_all_hold_small(sl[0], sl[0], sl[0], db); assert(sl =~= seq![sl[0]]); },
                None => {},
            }
            match request.new_english_name {
                Some(name) => { lemma_all_hold_small(en[0], en[0], en[0], db); assert(en =~= seq![en[0]]); },
                None => {},
            }
            if authenticated_caller_has(auth, Permission::CategoryUpdate, db) {
                lemma_skip_holding_prefix(access + uuid_guards(id), tail, db);
                assert(tail[0] == nf);
            }
        },
        Err(_) => {
            assert(gs == access + uuid_guards(id) + Seq::<Guard>::empty());
            lemma_all_hold_concat(access + uuid_guards(id), Seq::<Guard>::empty(), db);
        },
    }
}

/// The guards of updating a category.
pub fn update_specific_category_plan(
    auth: &UserAuthenticationExtractor,
    id: &Result<u128, EndpointError>,
    request: &CategoryUpdateRequest,
) -> (r: Vec<Guard>)
    ensures
        r@ == update_specific_category_guards(*auth, *id, *request),
{
    let mut guards: Vec<Guard> = Vec::new();
    require_user_authentication_and_permission(&mut guards, auth, Permission::CategoryUpdate);
    let parsed = push_uuid_guard(&mut guards, id);
    match parsed {
        None => {},
        Some(category_id) => {
            let no_fields = request.new_parent_category_id.is_none() && request.new_slovene_name.is_none()
                && request.new_english_name.is_none();
            push_holds(
                &mut guards,
                !no_fields,
                Ok(Reply::with_reason(STATUS_BAD_REQUEST, ErrorReason::Category(CategoryErrorReason::NoFieldsToUpdate))),
            );
            push_ask(
                &mut guards,
                Probe::CategoryExists { category_id },
                true,
                Ok(Reply::with_reason(STATUS_NOT_FOUND, ErrorReason::Category(CategoryErrorReason::CategoryNotFound))),
            );
            match &request.new_slovene_name {
                Some(name) => {
                    push_ask(
                        &mut guards,
                        Probe::CategorySloveneNameTakenByOther { name: name.clone(), category_id },
                        false,
                        Ok(Reply::with_reason(STATUS_CONFLICT, ErrorReason::Category(CategoryErrorReason::SloveneNameAlreadyExists))),
                    );
                },
                None => {},
            }
            match &request.new_english_name {
                Some(name) => {
                    push_ask(
                        &mut guards,
                        Probe::CategoryEnglishNameTakenByOther { name: name.clone(), category_id },
                        false,
                        Ok(Reply::with_reason(STATUS_CONFLICT, ErrorReason::Category(CategoryErrorReason::EnglishNameAlreadyExists))),
                    );
                },
                None => {},
            }
        },
    }
    assert(guards@ =~= update_specific_category_guards(*auth, *id, *request));
    guards
}

/// Checks the outcome of applying the update.
pub fn update_specific_category_after_update(updated: bool) -> (r: Result<(), EndpointError>)
    ensures
        updated ==> r is Ok,
        !updated ==> (r matches Err(EndpointError::InvalidDatabaseState { problem })
            && problem@ == "failed to update a category that existed in a previous call inside the same transaction"@),
{
    require_mutation_applied(updated, "failed to update a category that existed in a previous call inside the same transaction")
}

/// The reply with the category as it is after the update.
pub fn update_specific_category_reply(updated: Option<Category>) -> (r: EndpointResult)
    ensures
        updated matches Some(c) ==> r == Ok::<Reply, EndpointError>(body_reply(STATUS_OK, ReplyBody::Category(CategoryResponse { category: c }))),
        updated is None ==> (r matches Err(EndpointError::InvalidDatabaseState { problem })
            && problem@ == "failed to fetch a category that was just updated in a previous call inside the same transaction"@),
{
    match updated {
        Some(c) => Ok(Reply::with_body(STATUS_OK, ReplyBody::Category(CategoryResponse { category: c }))),
        None => Err(EndpointError::invalid_database_state(
            "failed to fetch a category that was just updated in a previous call inside the same transaction",
        )),
    }
}

// ---------------------------------------------------------------- delete

/// Guards of deleting a category: an authenticated caller with
/// `category:delete`, a well-formed ID, and an existing category.
pub open spec fn delete_specific_category_guards(auth: UserAuthenticationExtractor, id: Result<u128, EndpointError>) -> Seq<Guard> {
    authentication_and_permission_guards(auth, Permission::CategoryDelete) + uuid_guards(id) + match id {
        Err(_) => seq![],
        Ok(category_id) => seq![category_exists_guard(category_id)],
    }
}

/// Listing categories goes ahead exactly when the caller (authenticated or
/// not) has `category:read`; fetching one also needs a well-formed ID; deleting
/// one needs an authenticated caller with `category:delete`, a well-formed ID
/// and an existing category.
pub proof fn lemma_category_read_and_delete_law(
    auth: UserAuthenticationExtractor,
    id: Result<u128, EndpointError>,
    db: spec_fn(Probe) -> bool,
)
    ensures
        plan_outcome(get_all_categories_guards(auth), 0, db) is None <==> any_caller_has(auth, Permission::CategoryRead, db),
        plan_outcome(get_specific_category_guards(auth, id), 0, db) is None
            <==> any_caller_has(auth, Permission::CategoryRead, db) && id is Ok,
        plan_outcome(delete_specific_category_guards(auth, id), 0, db) is None
            <==> authenticated_caller_has(auth, Permission::CategoryDelete, db)
                && (id matches Ok(c) && db(Probe::CategoryExists { category_id: c })),
{
    let og = optional_authentication_permission_guard(auth, Permission::CategoryRead);
    let access = authentication_and_permission_guards(auth, Permission::CategoryDelete);
    let ds = delete_specific_category_guards(auth, id);
    lemma_proceeds_iff_all_hold(get_all_categories_guards(auth), db);
    lemma_proceeds_iff_all_hold(get_specific_category_guards(auth, id), db);
    lemma_proceeds_iff_all_hold(ds, db);
    lemma_access_checks_hold(auth, Permission::CategoryRead, db);
    lemma_access_checks_hold(auth, Permission::CategoryDelete, db);
    lemma_uuid_guards_hold(id, db);
    lemma_all_hold_small(og, og, og, db);
    lemma_all_hold_concat(seq![og], uuid_guards(id), db);
    lemma_all_hold_concat(access, uuid_guards(id), db);
    match id {
        Ok(c) => {
            let ce = category_exists_guard(c);
            assert(ds == access + uuid_guards(id) + seq![ce]);
            lemma_all_hold_concat(access + uuid_guards(id), seq![ce], db);
            lemma_all_hold_small(ce, ce, ce, db);
        },
        Err(_) => {
            assert(ds == access + uuid_guards(id) + Seq::<Guard>::empty());
            lemma_all_hold_concat(access + uuid_guards(id), Seq::<Guard>::empty(), db);
        },
    }
}

/// The guards of deleting a category.
pub fn delete_specific_category_plan(auth: &UserAuthenticationExtractor, id: &Result<u128, EndpointError>) -> (r: Vec<Guard>)
    ensures
        r@ == delete_specific_category_guards(*auth, *id),
{
    let mut guards: Vec<Guard> = Vec::new();
    require_user_authentication_and_permission(&mut guards, auth, Permission::CategoryDelete);
    match push_uuid_guard(&mut guards, id) {
        None => {},
        Some(category_id) => {
            push_ask(
                &mut guards,
                Probe::CategoryExists { category_id },
                true,
                Ok(Reply::with_reason(STATUS_NOT_FOUND, ErrorReason::Category(CategoryErrorReason::CategoryNotFound))),
            );
        },
    }
    assert(guards@ =~= delete_specific_category_guards(*auth, *id));
    guards
}

/// The reply once the deletion was attempted.
pub fn delete_specific_category_reply(deleted: bool) -> (r: EndpointResult)
    ensures
        deleted ==> r == Ok::<Reply, EndpointError>(body_reply(STATUS_OK, ReplyBody::Empty)),
        !deleted ==> (r matches Err(EndpointError::InvalidDatabaseState { problem })
            && problem@ == "failed to delete a category that just existed in the same transaction"@),
{
    match require_mutation_applied(deleted, "failed to delete a category that just existed in the same transaction") {
        Ok(()) => Ok(Reply::ok_empty()),
        Err(e) => Err(e),
    }
}

} // verus!
