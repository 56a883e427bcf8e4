use kolomoni::authentication::{JwtClaims, JwtTokenType, UserAuthenticationExtractor};
use kolomoni::endpoints::categories::{
    create_category_plan, delete_specific_category_plan, delete_specific_category_reply, get_all_categories_plan,
    get_specific_category_reply, update_specific_category_plan,
};
use kolomoni::endpoints::translations::{create_translation_plan, delete_translation_plan, suggestion_plan, translation_deleted_reply, translation_to_create};
use kolomoni::endpoints::users::{
    find_unowned_role, get_current_user_info_reply, parse_permission_names, parse_role_names, permission_change_decision,
    register_user_plan, role_change_plan, specific_user_read_plan, update_specific_user_display_name_plan, PermissionChange,
    RoleChange,
};
use kolomoni::endpoints::words::{
    create_word_plan, meaning_change_plan, meaning_delete_reply, meaning_update_reply, word_change_plan, word_delete_reply,
    word_update_reply, words_modified_after,
};
use kolomoni::conditional::OptionalIfModifiedSince;
use kolomoni::ids::parse_uuid;
use kolomoni::models::{
    CategoryCreationRequest, CategoryUpdateRequest, Timestamp, TranslationCreationRequest, TranslationDeletionRequest,
    UserDisplayNameChangeRequest, UserInformation, UserRegistrationRequest, WordFilters, WordsListRequest,
};
use kolomoni::permissions::{Permission, PermissionSet};
use kolomoni::plan::{first_step, probe_of, rejection_of, step_after_answer, Guard, PlanStep, Probe};
use kolomoni::reasons::{CategoryErrorReason, ErrorReason, TranslationsErrorReason, UsersErrorReason, WordErrorReason};
use kolomoni::responses::{EndpointError, EndpointResult, Reply, ReplyBody};
use kolomoni::roles::{Role, RoleSet};
use kolomoni::search::WordLanguage;

/// Runs a plan against a database that answers questions with `db`;
/// `None` means every guard held.
fn run_plan(guards: Vec<Guard>, db: impl Fn(&Probe) -> bool) -> Option<EndpointResult> {
    let mut step = first_step(&guards, 0);
    loop {
        match step {
            PlanStep::Proceed => return None,
            PlanStep::Reject { index } => return Some(rejection_of(guards, index)),
            PlanStep::Ask { index } => {
                let answer = db(probe_of(&guards, index));
                step = step_after_answer(&guards, index, answer);
            }
        }
    }
}

fn caller(user_id: u128) -> UserAuthenticationExtractor {
    let at = Timestamp { unix_seconds: 1_700_000_000, subsec_nanos: 0 };
    UserAuthenticationExtractor::Authenticated {
        token: JwtClaims { user_id, issued_at: at, expires_at: at, token_type: JwtTokenType::Access },
    }
}

fn reason(status: u16, reason: ErrorReason) -> Option<EndpointResult> {
    Some(Ok(Reply { status, body: ReplyBody::Reason(reason), last_modified: None }))
}

fn has_everything(_: &Probe) -> bool {
    true
}

#[test]
fn unauthenticated_category_creation_is_refused_with_401() {
    let request = CategoryCreationRequest { parent_category_id: None, slovene_name: "živali".into(), english_name: "animals".into() };
    let plan = create_category_plan(&UserAuthenticationExtractor::Unauthenticated, &request);
    assert_eq!(run_plan(plan, has_everything), reason(401, ErrorReason::MissingAuthentication));
}

#[test]
fn category_creation_without_permission_is_refused_with_403() {
    let request = CategoryCreationRequest { parent_category_id: None, slovene_name: "živali".into(), english_name: "animals".into() };
    let plan = create_category_plan(&caller(7), &request);
    let outcome = run_plan(plan, |probe| !matches!(probe, Probe::UserHasPermission { .. }));
    assert_eq!(outcome, reason(403, ErrorReason::MissingPermission { permission: Permission::CategoryCreate }));
}

#[test]
fn category_creation_refuses_taken_names_in_order() {
    let request = CategoryCreationRequest { parent_category_id: None, slovene_name: "živali".into(), english_name: "animals".into() };
    let both_taken = run_plan(create_category_plan(&caller(7), &request), has_everything);
    assert_eq!(both_taken, reason(409, ErrorReason::Category(CategoryErrorReason::SloveneNameAlreadyExists)));
    let english_taken = run_plan(create_category_plan(&caller(7), &request), |probe| {
        matches!(probe, Probe::UserHasPermission { .. } | Probe::CategoryEnglishNameTaken { .. })
    });
    assert_eq!(english_taken, reason(409, ErrorReason::Category(CategoryErrorReason::EnglishNameAlreadyExists)));
    let free = run_plan(create_category_plan(&caller(7), &request), |probe| matches!(probe, Probe::UserHasPermission { .. }));
    assert_eq!(free, None);
}

#[test]
fn listing_categories_needs_no_authentication() {
    let plan = get_all_categories_plan(&UserAuthenticationExtractor::Unauthenticated);
    assert_eq!(run_plan(plan, |_| false), None);
}

#[test]
fn malformed_category_id_is_refused_with_400() {
    let id = parse_uuid("not-a-uuid");
    assert!(matches!(id, Err(EndpointError::InvalidUuidFormat { .. })));
    let plan = delete_specific_category_plan(&caller(1), &id);
    let outcome = run_plan(plan, has_everything).unwrap();
    assert!(matches!(outcome, Err(EndpointError::InvalidUuidFormat { .. })));
}

#[test]
fn category_update_without_fields_is_refused() {
    let id = parse_uuid("67e55044-10b1-426f-9247-bb680e5fe0c8");
    let request = CategoryUpdateRequest { new_parent_category_id: None, new_slovene_name: None, new_english_name: None };
    let plan = update_specific_category_plan(&caller(1), &id, &request);
    assert_eq!(run_plan(plan, has_everything), reason(400, ErrorReason::Category(CategoryErrorReason::NoFieldsToUpdate)));
    let request = CategoryUpdateRequest { new_parent_category_id: None, new_slovene_name: None, new_english_name: Some("plants".into()) };
    let plan = update_specific_category_plan(&caller(1), &id, &request);
    let outcome = run_plan(plan, |probe| !matches!(probe, Probe::CategoryExists { .. }));
    assert_eq!(outcome, reason(404, ErrorReason::Category(CategoryErrorReason::CategoryNotFound)));
}

#[test]
fn renaming_a_category_to_its_own_name_does_not_conflict() {
    let id = parse_uuid("67e55044-10b1-426f-9247-bb680e5fe0c8");
    let target = *id.as_ref().unwrap();
    let request = CategoryUpdateRequest { new_parent_category_id: None, new_slovene_name: Some("živali".into()), new_english_name: Some("animals".into()) };
    // Only the category being updated has these names.
    let db = |probe: &Probe| match probe {
        Probe::UserHasPermission { .. } | Probe::CategoryExists { .. } => true,
        Probe::CategorySloveneNameTakenByOther { category_id, .. } | Probe::CategoryEnglishNameTakenByOther { category_id, .. } => *category_id != target,
        _ => false,
    };
    assert_eq!(run_plan(update_specific_category_plan(&caller(1), &id, &request), db), None);
    let taken_elsewhere = |probe: &Probe| !matches!(probe, Probe::CategoryEnglishNameTakenByOther { .. });
    assert_eq!(
        run_plan(update_specific_category_plan(&caller(1), &id, &request), taken_elsewhere),
        reason(409, ErrorReason::Category(CategoryErrorReason::SloveneNameAlreadyExists))
    );
}

#[test]
fn category_replies() {
    assert_eq!(get_specific_category_reply(None), reason(404, ErrorReason::Category(CategoryErrorReason::CategoryNotFound)).unwrap());
    assert_eq!(delete_specific_category_reply(true), Ok(Reply::ok_empty()));
    assert_eq!(
        delete_specific_category_reply(false),
        Err(EndpointError::InvalidDatabaseState {
            problem: "failed to delete a category that just existed in the same transaction".into()
        })
    );
}

#[test]
fn registration_refuses_taken_username_then_display_name() {
    let request = UserRegistrationRequest { username: "ana".into(), display_name: "Ana".into(), password: "secret".into() };
    assert_eq!(run_plan(register_user_plan(&request), has_everything), reason(409, ErrorReason::Users(UsersErrorReason::UsernameAlreadyExists)));
    let outcome = run_plan(register_user_plan(&request), |probe| matches!(probe, Probe::DisplayNameTaken { .. }));
    assert_eq!(outcome, reason(409, ErrorReason::Users(UsersErrorReason::DisplayNameAlreadyExists)));
    assert_eq!(run_plan(register_user_plan(&request), |_| false), None);
}

#[test]
fn reading_a_user_is_open_to_everyone() {
    let id = parse_uuid("67e55044-10b1-426f-9247-bb680e5fe0c8");
    let plan = specific_user_read_plan(&UserAuthenticationExtractor::Unauthenticated, &id, true);
    let outcome = run_plan(plan, |_| false);
    assert_eq!(outcome, reason(404, ErrorReason::Users(UsersErrorReason::UserNotFound)));
}

#[test]
fn changing_your_own_display_name_through_the_user_endpoint_is_forbidden() {
    let id = parse_uuid("00000000-0000-0000-0000-000000000007");
    let request = UserDisplayNameChangeRequest { new_display_name: "New".into() };
    let plan = update_specific_user_display_name_plan(&caller(7), &id, &request);
    assert_eq!(run_plan(plan, has_everything), reason(403, ErrorReason::Users(UsersErrorReason::CannotModifyYourOwnAccount)));
}

#[test]
fn current_user_info_honours_if_modified_since() {
    let modified = Timestamp { unix_seconds: 1_000, subsec_nanos: 500 };
    let user = UserInformation {
        id: 1,
        username: "ana".into(),
        display_name: "Ana".into(),
        joined_at: modified,
        last_modified_at: modified,
        last_active_at: modified,
    };
    let unchanged = OptionalIfModifiedSince::new_specified(Timestamp { unix_seconds: 1_000, subsec_nanos: 0 });
    let reply = get_current_user_info_reply(Some(user.clone()), &unchanged).unwrap();
    assert_eq!(reply.status, 304);
    assert_eq!(reply.body, ReplyBody::Empty);
    assert_eq!(reply.last_modified, Some(modified));
    let older = OptionalIfModifiedSince::new_specified(Timestamp { unix_seconds: 999, subsec_nanos: 999_999_999 });
    let reply = get_current_user_info_reply(Some(user.clone()), &older).unwrap();
    assert_eq!(reply.status, 200);
    let reply = get_current_user_info_reply(Some(user), &OptionalIfModifiedSince::new_unspecified()).unwrap();
    assert_eq!(reply.status, 200);
    let reply = get_current_user_info_reply(None, &OptionalIfModifiedSince::new_unspecified()).unwrap();
    assert_eq!(reply.status, 404);
}

#[test]
fn role_names_are_parsed_or_the_first_bad_one_reported() {
    let names = vec!["user".to_string(), "administrator".to_string()];
    let roles = parse_role_names(&names).unwrap();
    assert!(roles.has_role(Role::User) && roles.has_role(Role::Administrator));
    let names = vec!["user".to_string(), "moderator".to_string(), "god".to_string()];
    assert_eq!(parse_role_names(&names).err(), Some("moderator".to_string()));
}

#[test]
fn callers_cannot_give_out_roles_they_do_not_have() {
    let caller_roles = RoleSet::from_roles(&[Role::User]);
    let requested = parse_role_names(&vec!["administrator".to_string()]);
    assert_eq!(find_unowned_role(requested.as_ref().unwrap(), &caller_roles), Some(Role::Administrator));
    let target = parse_uuid("00000000-0000-0000-0000-000000000002");
    let plan = role_change_plan(1, &caller_roles, &target, &requested, RoleChange::Add);
    // A plain user lacks `user.any:write` in the first place.
    assert_eq!(run_plan(plan, has_everything), reason(403, ErrorReason::MissingPermission { permission: Permission::UserAnyWrite }));

    let admin = RoleSet::from_roles(&[Role::Administrator]);
    let requested = parse_role_names(&vec!["user".to_string()]);
    let plan = role_change_plan(1, &admin, &target, &requested, RoleChange::Remove);
    assert_eq!(
        run_plan(plan, has_everything),
        reason(403, ErrorReason::Users(UsersErrorReason::UnableToTakeAwayUnownedRole { role: Role::User }))
    );

    let requested = parse_role_names(&vec!["administrator".to_string()]);
    let plan = role_change_plan(1, &admin, &target, &requested, RoleChange::Add);
    assert_eq!(run_plan(plan, has_everything), None);
    let plan = role_change_plan(1, &admin, &target, &requested, RoleChange::Add);
    assert_eq!(run_plan(plan, |_| false), reason(404, ErrorReason::Users(UsersErrorReason::UserNotFound)));

    let requested = parse_role_names(&vec!["wizard".to_string()]);
    let plan = role_change_plan(1, &admin, &target, &requested, RoleChange::Add);
    assert_eq!(
        run_plan(plan, has_everything),
        reason(400, ErrorReason::Users(UsersErrorReason::InvalidRoleName { role_name: "wizard".into() }))
    );

    let myself = parse_uuid("00000000-0000-0000-0000-000000000001");
    let plan = role_change_plan(1, &admin, &myself, &requested, RoleChange::Add);
    assert_eq!(run_plan(plan, has_everything), reason(403, ErrorReason::Users(UsersErrorReason::CannotModifyYourOwnAccount)));
}

fn message(status: u16, text: &str) -> EndpointResult {
    Ok(Reply { status, body: ReplyBody::Message(text.to_string()), last_modified: None })
}

#[test]
fn direct_permission_changes() {
    let mut caller_permissions = PermissionSet::from_permissions(&[Permission::UserAnyWrite, Permission::WordRead]);
    let names = vec!["word:read".to_string()];
    assert_eq!(
        permission_change_decision(&caller_permissions, Some(1), 2, &names, PermissionChange::Add),
        Ok(vec![Permission::WordRead])
    );
    let names = vec!["word:create".to_string()];
    assert_eq!(
        permission_change_decision(&caller_permissions, Some(1), 2, &names, PermissionChange::Add),
        Err(message(403, "You are not allowed to add the word:create permission to other users."))
    );
    assert_eq!(
        permission_change_decision(&caller_permissions, Some(1), 2, &names, PermissionChange::Remove),
        Err(message(403, "You are not allowed to remove the word:create permission from other users."))
    );
    let names = vec!["word:read".to_string(), "nope".to_string()];
    assert_eq!(
        permission_change_decision(&caller_permissions, Some(1), 2, &names, PermissionChange::Add),
        Err(message(400, "No such permission: \"nope\"."))
    );
    assert_eq!(
        permission_change_decision(&caller_permissions, Some(1), 2, &names, PermissionChange::Remove),
        Err(message(400, "No such permission: nope"))
    );
    assert_eq!(
        permission_change_decision(&caller_permissions, Some(2), 2, &names, PermissionChange::Add),
        Err(message(403, "Can't modify your own account on this endpoint."))
    );
    assert_eq!(
        permission_change_decision(&caller_permissions, None, 2, &names, PermissionChange::Add),
        Err(Err(EndpointError::InternalErrorWithReason { reason: "BUG: Current user does not exist.".into() }))
    );
    caller_permissions = PermissionSet::from_permissions(&[Permission::WordRead]);
    assert_eq!(
        permission_change_decision(&caller_permissions, Some(1), 2, &names, PermissionChange::Add),
        Err(Ok(Reply {
            status: 403,
            body: ReplyBody::Reason(ErrorReason::MissingPermission { permission: Permission::UserAnyWrite }),
            last_modified: None
        }))
    );
    assert_eq!(parse_permission_names(&vec!["word:read".to_string(), "x".to_string()]), Err("x".to_string()));
}

#[test]
fn word_creation_refuses_taken_lemma() {
    let plan = create_word_plan(&caller(3), WordLanguage::Slovene, &"hiša".to_string());
    let outcome = run_plan(plan, |probe| matches!(probe, Probe::UserHasPermission { .. } | Probe::SloveneLemmaTaken { .. }));
    assert_eq!(outcome, reason(409, ErrorReason::Word(WordErrorReason::WordWithGivenLemmaAlreadyExists)));
}

#[test]
fn word_deletion_and_update_outcomes() {
    let id = parse_uuid("67e55044-10b1-426f-9247-bb680e5fe0c8");
    let plan = word_change_plan(&caller(3), Permission::WordDelete, WordLanguage::English, &id);
    let outcome = run_plan(plan, |probe| !matches!(probe, Probe::EnglishWordExists { .. }));
    assert_eq!(outcome, reason(404, ErrorReason::Word(WordErrorReason::WordNotFound)));
    assert_eq!(word_delete_reply(WordLanguage::English, true), Ok(Reply::ok_empty()));
    assert_eq!(
        word_delete_reply(WordLanguage::Slovene, false),
        Err(EndpointError::InvalidDatabaseState {
            problem: "failed to delete slovene word after just having checked that it exists in the same transaction".into()
        })
    );
    assert_eq!(
        word_update_reply(WordLanguage::English, false, None),
        Err(EndpointError::InternalErrorWithReason { reason: "Failed to update english word.".into() })
    );
    assert_eq!(
        word_update_reply(WordLanguage::English, true, None),
        Err(EndpointError::InternalErrorWithReason { reason: "Database inconsistency: word did not exist after being updated.".into() })
    );
}

#[test]
fn meaning_outcomes_differ_by_language() {
    assert_eq!(
        meaning_update_reply(WordLanguage::Slovene, false, None),
        reason(404, ErrorReason::Word(WordErrorReason::WordMeaningNotFound)).unwrap()
    );
    assert_eq!(
        meaning_update_reply(WordLanguage::English, false, None),
        Err(EndpointError::InvalidDatabaseState { problem: "english word mutation should have updated at least one row".into() })
    );
    assert!(meaning_delete_reply(WordLanguage::English, false).is_err());
    let word = parse_uuid("67e55044-10b1-426f-9247-bb680e5fe0c8");
    let meaning = parse_uuid("77e55044-10b1-426f-9247-bb680e5fe0c8");
    // Deleting a Slovene meaning does not check the word first.
    let plan = meaning_change_plan(&caller(3), WordLanguage::Slovene, &word, &meaning, true);
    let outcome = run_plan(plan, |probe| matches!(probe, Probe::UserHasPermission { .. }));
    assert_eq!(outcome, reason(404, ErrorReason::Word(WordErrorReason::WordMeaningNotFound)));
    let plan = meaning_change_plan(&caller(3), WordLanguage::English, &word, &meaning, true);
    let outcome = run_plan(plan, |probe| matches!(probe, Probe::UserHasPermission { .. }));
    assert_eq!(outcome, reason(404, ErrorReason::Word(WordErrorReason::WordNotFound)));
}

#[test]
fn word_list_filters() {
    let after = Timestamp { unix_seconds: 5, subsec_nanos: 0 };
    assert_eq!(words_modified_after(&None), None);
    assert_eq!(words_modified_after(&Some(WordsListRequest { filters: None })), None);
    let request = WordsListRequest { filters: Some(WordFilters { last_modified_after: Some(after) }) };
    assert_eq!(words_modified_after(&Some(request)), Some(after));
}

fn request_for_link() -> TranslationCreationRequest {
    TranslationCreationRequest { english_word_meaning_id: 1, slovene_word_meaning_id: 2 }
}

#[test]
fn translations_are_created_once_and_deleted_when_present() {
    let request = TranslationCreationRequest { english_word_meaning_id: 1, slovene_word_meaning_id: 2 };
    let outcome = run_plan(create_translation_plan(&caller(3), &request), has_everything);
    assert_eq!(outcome, reason(409, ErrorReason::Translations(TranslationsErrorReason::TranslationRelationshipAlreadyExists)));
    let outcome = run_plan(create_translation_plan(&caller(3), &request), |probe| !matches!(probe, Probe::TranslationExists { .. }));
    assert_eq!(outcome, None);
    let outcome = run_plan(create_translation_plan(&caller(3), &request), |probe| !matches!(probe, Probe::SloveneMeaningExists { .. }));
    assert_eq!(outcome, reason(400, ErrorReason::Translations(TranslationsErrorReason::SloveneWordMeaningNotFound)));
    let outcome = run_plan(delete_translation_plan(&caller(3), &TranslationDeletionRequest { english_word_meaning_id: 1, slovene_word_meaning_id: 2 }), |probe| {
        !matches!(probe, Probe::SloveneMeaningExists { .. })
    });
    assert_eq!(outcome, reason(400, ErrorReason::Translations(TranslationsErrorReason::SloveneWordMeaningNotFound)));
    let outcome = run_plan(delete_translation_plan(&caller(3), &TranslationDeletionRequest { english_word_meaning_id: 1, slovene_word_meaning_id: 2 }), |probe| {
        !matches!(probe, Probe::EnglishMeaningExists { .. })
    });
    assert_eq!(outcome, reason(400, ErrorReason::Translations(TranslationsErrorReason::EnglishWordMeaningNotFound)));
    let link = translation_to_create(3, &request_for_link());
    assert_eq!(link.translated_by, Some(3));
    assert_eq!((link.english_meaning_id, link.slovene_meaning_id), (1, 2));
    let request = TranslationDeletionRequest { english_word_meaning_id: 1, slovene_word_meaning_id: 2 };
    let outcome = run_plan(delete_translation_plan(&caller(3), &request), |probe| !matches!(probe, Probe::TranslationExists { .. }));
    assert_eq!(outcome, reason(404, ErrorReason::Translations(TranslationsErrorReason::TranslationRelationshipNotFound)));
    assert!(translation_deleted_reply(false).is_err());
}

#[test]
fn suggestions_refuse_unknown_words() {
    let plan = suggestion_plan(&caller(3), Ok(1), Ok(2), true);
    let outcome = run_plan(plan, |probe| !matches!(probe, Probe::EnglishWordExists { .. }));
    assert_eq!(
        outcome,
        Some(Ok(Reply { status: 400, body: ReplyBody::Text("The provided english word does not exist."), last_modified: None }))
    );
    let plan = suggestion_plan(&caller(3), Ok(1), Ok(2), false);
    let outcome = run_plan(plan, |probe| !matches!(probe, Probe::SuggestionExists { .. }));
    assert_eq!(outcome, Some(Ok(Reply { status: 404, body: ReplyBody::Empty, last_modified: None })));
}
