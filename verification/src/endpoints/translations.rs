//! Translation endpoints: linking an English and a Slovene word meaning as
//! translations of each other and removing such links, and the older
//! word-level translation suggestions.

use vstd::prelude::*;
use crate::authentication::{authenticated_caller_has, authentication_and_permission_guards, require_user_authentication_and_permission, UserAuthenticationExtractor};
use crate::models::{TranslationCreationRequest, TranslationDeletionRequest};
use crate::permissions::Permission;
use crate::plan::{ask_guard, Check, push_ask, push_uuid_guard, uuid_guards, Guard, Probe};
use crate::reasons::{ErrorReason, TranslationsErrorReason};
use crate::responses::{
    body_reply, reason_reply, EndpointError, EndpointResult, Reply, ReplyBody, STATUS_BAD_REQUEST, STATUS_CONFLICT,
    STATUS_NOT_FOUND, STATUS_OK,
};

verus! {

/// The guards requiring that both meanings of a translation exist, English
/// first; a missing meaning is a `400 Bad Request`.
pub open spec fn translation_meanings_exist_guards(english_meaning_id: u128, slovene_meaning_id: u128) -> Seq<Guard> {
    seq![
        ask_guard(
            Probe::EnglishMeaningExists { meaning_id: english_meaning_id },
            true,
            Ok(reason_reply(STATUS_BAD_REQUEST, ErrorReason::Translations(TranslationsErrorReason::EnglishWordMeaningNotFound))),
        ),
        ask_guard(
            Probe::SloveneMeaningExists { meaning_id: slovene_meaning_id },
            true,
            Ok(reason_reply(STATUS_BAD_REQUEST, ErrorReason::Translations(TranslationsErrorReason::SloveneWordMeaningNotFound))),
        ),
    ]
}

fn push_translation_meanings_exist(guards: &mut Vec<Guard>, english_meaning_id: u128, slovene_meaning_id: u128)
    ensures
        final(guards)@ == old(guards)@ + translation_meanings_exist_guards(english_meaning_id, slovene_meaning_id),
{
    push_ask(
        guards,
        Probe::EnglishMeaningExists { meaning_id: english_meaning_id },
        true,
        Ok(Reply::with_reason(STATUS_BAD_REQUEST, ErrorReason::Translations(TranslationsErrorReason::EnglishWordMeaningNotFound))),
    );
    push_ask(
        guards,
        Probe::SloveneMeaningExists { meaning_id: slovene_meaning_id },
        true,
        Ok(Reply::with_reason(STATUS_BAD_REQUEST, ErrorReason::Translations(TranslationsErrorReason::SloveneWordMeaningNotFound))),
    );
    assert(guards@ =~= old(guards)@ + translation_meanings_exist_guards(english_meaning_id, slovene_meaning_id));
}

/// Guards of creating a translation, in order: an authenticated caller with
/// `translation:create`; an existing English meaning; an existing Slovene
/// meaning; no such translation yet.
pub open spec fn create_translation_guards(auth: UserAuthenticationExtractor, request: TranslationCreationRequest) -> Seq<Guard> {
    authentication_and_permission_guards(auth, Permission::TranslationCreate)
        + translation_meanings_exist_guards(request.english_word_meaning_id, request.slovene_word_meaning_id)
        + seq![ask_guard(
            Probe::TranslationExists {
                english_meaning_id: request.english_word_meaning_id,
                slovene_meaning_id: request.slovene_word_meaning_id,
            },
            false,
            Ok(reason_reply(STATUS_CONFLICT, ErrorReason::Translations(TranslationsErrorReason::TranslationRelationshipAlreadyExists))),
        )]
}

/// The guards of creating a translation.
pub fn create_translation_plan(auth: &UserAuthenticationExtractor, request: &TranslationCreationRequest) -> (r: Vec<Guard>)
    ensures
        r@ == create_translation_guards(*auth, *request),
{
    let mut guards: Vec<Guard> = Vec::new();
    require_user_authentication_and_permission(&mut guards, auth, Permission::TranslationCreate);
    push_translation_meanings_exist(&mut guards, request.english_word_meaning_id, request.slovene_word_meaning_id);
    push_ask(
        &mut guards,
        Probe::TranslationExists {
            english_meaning_id: request.english_word_meaning_id,
            slovene_meaning_id: request.slovene_word_meaning_id,
        },
        false,
        Ok(Reply::with_reason(
            STATUS_CONFLICT,
            ErrorReason::Translations(TranslationsErrorReason::TranslationRelationshipAlreadyExists),
        )),
    );
    assert(guards@ =~= create_translation_guards(*auth, *request));
    guards
}

/// Guards of deleting a translation, in order: an authenticated caller with
/// `translation:delete`; an existing English meaning; an existing Slovene
/// meaning; an existing translation between them.
pub open spec fn delete_translation_guards(auth: UserAuthenticationExtractor, request: TranslationDeletionRequest) -> Seq<Guard> {
    authentication_and_permission_guards(auth, Permission::TranslationDelete)
        + translation_meanings_exist_guards(request.english_word_meaning_id, request.slovene_word_meaning_id)
        + seq![ask_guard(
            Probe::TranslationExists {
                english_meaning_id: request.english_word_meaning_id,
                slovene_meaning_id: request.slovene_word_meaning_id,
            },
            true,
            Ok(reason_reply(STATUS_NOT_FOUND, ErrorReason::Translations(TranslationsErrorReason::TranslationRelationshipNotFound))),
        )]
}

/// The guards of deleting a translation.
pub fn delete_translation_plan(auth: &UserAuthenticationExtractor, request: &TranslationDeletionRequest) -> (r: Vec<Guard>)
    ensures
        r@ == delete_translation_guards(*auth, *request),
{
    let mut guards: Vec<Guard> = Vec::new();
    require_user_authentication_and_permission(&mut guards, auth, Permission::TranslationDelete);
    push_translation_meanings_exist(&mut guards, request.english_word_meaning_id, request.slovene_word_meaning_id);
    push_ask(
        &mut guards,
        Probe::TranslationExists {
            english_meaning_id: request.english_word_meaning_id,
            slovene_meaning_id: request.slovene_word_meaning_id,
        },
        true,
        Ok(Reply::with_reason(STATUS_NOT_FOUND, ErrorReason::Translations(TranslationsErrorReason::TranslationRelationshipNotFound))),
    );
    assert(guards@ =~= delete_translation_guards(*auth, *request));
    guards
}

/// Once the caller and both meanings pass, creating a translation is refused
/// with `409 Conflict` exactly when the link already exists, and goes ahead
/// otherwise: the same link is never created twice.
pub proof fn lemma_translation_creation_hinges_on_existing_link(
    auth: UserAuthenticationExtractor,
    english_meaning_id: u128,
    slovene_meaning_id: u128,
    db: spec_fn(Probe) -> bool,
)
    requires
        crate::plan::plan_outcome(
            authentication_and_permission_guards(auth, Permission::TranslationCreate)
                + translation_meanings_exist_guards(english_meaning_id, slovene_meaning_id),
            0,
            db,
        ) is None,
    ensures
        db(Probe::TranslationExists { english_meaning_id, slovene_meaning_id })
            ==> crate::plan::plan_outcome(
                create_translation_guards(auth, TranslationCreationRequest { english_word_meaning_id: english_meaning_id, slovene_word_meaning_id: slovene_meaning_id }),
                0,
                db,
            ) == Some(Ok::<Reply, EndpointError>(reason_reply(STATUS_CONFLICT, ErrorReason::Translations(TranslationsErrorReason::TranslationRelationshipAlreadyExists)))),
        !db(Probe::TranslationExists { english_meaning_id, slovene_meaning_id })
            ==> crate::plan::plan_outcome(
                create_translation_guards(auth, TranslationCreationRequest { english_word_meaning_id: english_meaning_id, slovene_word_meaning_id: slovene_meaning_id }),
                0,
                db,
            ) is None,
{
    let prefix = authentication_and_permission_guards(auth, Permission::TranslationCreate)
        + translation_meanings_exist_guards(english_meaning_id, slovene_meaning_id);
    let request = TranslationCreationRequest { english_word_meaning_id: english_meaning_id, slovene_word_meaning_id: slovene_meaning_id };
    let all = create_translation_guards(auth, request);
    crate::plan::lemma_proceeding_means_all_guards_hold(prefix, 0, db);
    assert(all =~= prefix.push(all[prefix.len() as int]));
    crate::plan::lemma_outcome_after_holding_prefix(all, prefix.len() as int, 0, db);
    let last = prefix.len() as int;
    assert(all.len() == last + 1);
    assert(crate::plan::plan_outcome(all, last + 1, db) is None);
    assert(crate::plan::plan_outcome(all, last, db) == if crate::plan::guard_holds(all[last], db) {
        crate::plan::plan_outcome(all, last + 1, db)
    } else {
        Some(all[last].rejection)
    });
}

/// The database state after the link between `english_meaning_id` and
/// `slovene_meaning_id` was stored.
pub open spec fn with_translation(db: spec_fn(Probe) -> bool, english_meaning_id: u128, slovene_meaning_id: u128) -> spec_fn(Probe) -> bool {
    |p: Probe| if p == (Probe::TranslationExists { english_meaning_id, slovene_meaning_id }) { true } else { db(p) }
}

/// Once a translation was created, the same request is refused with
/// `409 Conflict`: storing the link is all that changes, and the same caller
/// and meanings still pass every other check.
pub proof fn lemma_created_translation_is_refused_afterwards(
    auth: UserAuthenticationExtractor,
    request: TranslationCreationRequest,
    db: spec_fn(Probe) -> bool,
)
    requires
        crate::plan::plan_outcome(create_translation_guards(auth, request), 0, db) is None,
    ensures
        crate::plan::plan_outcome(
            create_translation_guards(auth, request),
            0,
            with_translation(db, request.english_word_meaning_id, request.slovene_word_meaning_id),
        ) == Some(Ok::<Reply, EndpointError>(reason_reply(STATUS_CONFLICT, ErrorReason::Translations(TranslationsErrorReason::TranslationRelationshipAlreadyExists)))),
{
    let e = request.english_word_meaning_id;
    let s = request.slovene_word_meaning_id;
    let after = with_translation(db, e, s);
    let all = create_translation_guards(auth, request);
    let last = all.len() - 1;
    crate::plan::lemma_proceeding_means_all_guards_hold(all, 0, db);
    assert forall|i: int| 0 <= i < last implies crate::plan::guard_holds(#[trigger] all[i], after) by {
        assert(crate::plan::guard_holds(all[i], db));
        match all[i].check {
            Check::Ask { probe, .. } => {
                assert(probe != (Probe::TranslationExists { english_meaning_id: e, slovene_meaning_id: s }));
            },
            Check::Holds(_) => {},
        }
    }
    crate::plan::lemma_outcome_after_holding_prefix(all, last, 0, after);
    assert(after(Probe::TranslationExists { english_meaning_id: e, slovene_meaning_id: s }));
    assert(crate::plan::plan_outcome(all, last, after) == Some(all[last].rejection));
}

/// A translation link to store: the two meanings and who linked them.
#[derive(Clone, Copy, Debug, PartialEq, Eq, Structural)]
pub struct NewTranslation {
    pub english_meaning_id: u128,
    pub slovene_meaning_id: u128,
    pub translated_by: Option<u128>,
}

/// The link a creation request stores: the requested meanings, linked by the caller.
pub fn translation_to_create(caller_id: u128, request: &TranslationCreationRequest) -> (r: NewTranslation)
    ensures
        r == (NewTranslation {
            english_meaning_id: request.english_word_meaning_id,
            slovene_meaning_id: request.slovene_word_meaning_id,
            translated_by: Some(caller_id),
        }),
{
    NewTranslation {
        english_meaning_id: request.english_word_meaning_id,
        slovene_meaning_id: request.slovene_word_meaning_id,
        translated_by: Some(caller_id),
    }
}

/// Creating a translation goes ahead exactly when the caller is authenticated
/// with `translation:create`, the requested English meaning exists, the
/// requested Slovene meaning exists, and they are not linked yet. A caller
/// who passes is refused with `400` naming the missing meaning, the English
/// one first.
pub proof fn lemma_translation_creation_law(
    auth: UserAuthenticationExtractor,
    request: TranslationCreationRequest,
    db: spec_fn(Probe) -> bool,
)
    ensures
        crate::plan::plan_outcome(create_translation_guards(auth, request), 0, db) is None <==> {
            &&& authenticated_caller_has(auth, Permission::TranslationCreate, db)
            &&& db(Probe::EnglishMeaningExists { meaning_id: request.english_word_meaning_id })
            &&& db(Probe::SloveneMeaningExists { meaning_id: request.slovene_word_meaning_id })
            &&& !db(Probe::TranslationExists {
                english_meaning_id: request.english_word_meaning_id,
                slovene_meaning_id: request.slovene_word_meaning_id,
            })
        },
        authenticated_caller_has(auth, Permission::TranslationCreate, db)
            && !db(Probe::EnglishMeaningExists { meaning_id: request.english_word_meaning_id })
            ==> crate::plan::plan_outcome(create_translation_guards(auth, request), 0, db) == Some(Ok::<Reply, EndpointError>(
                reason_reply(STATUS_BAD_REQUEST, ErrorReason::Translations(TranslationsErrorReason::EnglishWordMeaningNotFound)))),
        authenticated_caller_has(auth, Permission::TranslationCreate, db)
            && db(Probe::EnglishMeaningExists { meaning_id: request.english_word_meaning_id })
            && !db(Probe::SloveneMeaningExists { meaning_id: request.slovene_word_meaning_id })
            ==> crate::plan::plan_outcome(create_translation_guards(auth, request), 0, db) == Some(Ok::<Reply, EndpointError>(
                reason_reply(STATUS_BAD_REQUEST, ErrorReason::Translations(TranslationsErrorReason::SloveneWordMeaningNotFound)))),
{
    let e = request.english_word_meaning_id;
    let s = request.slovene_word_meaning_id;
    let access = authentication_and_permission_guards(auth, Permission::TranslationCreate);
    let meanings = translation_meanings_exist_guards(e, s);
    let last = seq![ask_guard(
        Probe::TranslationExists { english_meaning_id: e, slovene_meaning_id: s },
        false,
        Ok(reason_reply(STATUS_CONFLICT, ErrorReason::Translations(TranslationsErrorReason::TranslationRelationshipAlreadyExists))),
    )];
    let gs = create_translation_guards(auth, request);
    assert(gs == access + meanings + last);
    crate::plan::lemma_proceeds_iff_all_hold(gs, db);
    crate::plan::lemma_all_hold_concat(access + meanings, last, db);
    crate::plan::lemma_all_hold_concat(access, meanings, db);
    crate::authentication::lemma_access_checks_hold(auth, Permission::TranslationCreate, db);
    crate::plan::lemma_all_hold_small(meanings[0], meanings[1], last[0], db);
    assert(meanings == seq![meanings[0], meanings[1]]);
    assert(last == seq![last[0]]);
    if authenticated_caller_has(auth, Permission::TranslationCreate, db) {
        assert(access + meanings + last == access + (meanings + last));
        crate::plan::lemma_skip_holding_prefix(access, meanings + last, db);
        let rest = meanings + last;
        assert(rest[0] == meanings[0] && rest[1] == meanings[1]);
        if db(Probe::EnglishMeaningExists { meaning_id: e }) {
            assert(crate::plan::plan_outcome(rest, 0, db) == crate::plan::plan_outcome(rest, 1, db));
        }
    }
}

/// Deleting a translation goes ahead exactly when the caller is
/// authenticated with `translation:delete`, both requested meanings exist and
/// they are linked.
pub proof fn lemma_translation_deletion_law(
    auth: UserAuthenticationExtractor,
    request: TranslationDeletionRequest,
    db: spec_fn(Probe) -> bool,
)
    ensures
        crate::plan::plan_outcome(delete_translation_guards(auth, request), 0, db) is None <==> {
            &&& authenticated_caller_has(auth, Permission::TranslationDelete, db)
            &&& db(Probe::EnglishMeaningExists { meaning_id: request.english_word_meaning_id })
            &&& db(Probe::SloveneMeaningExists { meaning_id: request.slovene_word_meaning_id })
            &&& db(Probe::TranslationExists {
                english_meaning_id: request.english_word_meaning_id,
                slovene_meaning_id: request.slovene_word_meaning_id,
            })
        },
{
    let e = request.english_word_meaning_id;
    let s = request.slovene_word_meaning_id;
    let access = authentication_and_permission_guards(auth, Permission::TranslationDelete);
    let meanings = translation_meanings_exist_guards(e, s);
    let last = seq![ask_guard(
        Probe::TranslationExists { english_meaning_id: e, slovene_meaning_id: s },
        true,
        Ok(reason_reply(STATUS_NOT_FOUND, ErrorReason::Translations(TranslationsErrorReason::TranslationRelationshipNotFound))),
    )];
    let gs = delete_translation_guards(auth, request);
    assert(gs == access + meanings + last);
    crate::plan::lemma_proceeds_iff_all_hold(gs, db);
    crate::plan::lemma_all_hold_concat(access + meanings, last, db);
    crate::plan::lemma_all_hold_concat(access, meanings, db);
    crate::authentication::lemma_access_checks_hold(auth, Permission::TranslationDelete, db);
    crate::plan::lemma_all_hold_small(meanings[0], meanings[1], last[0], db);
    assert(meanings == seq![meanings[0], meanings[1]]);
    assert(last == seq![last[0]]);
}

/// The reply once a translation was created.
pub fn translation_created_reply() -> (r: EndpointResult)
    ensures
        r == Ok::<Reply, EndpointError>(body_reply(STATUS_OK, ReplyBody::Empty)),
{
    Ok(Reply::ok_empty())
}

/// The outcome of deleting a translation that was just checked to exist.
pub fn translation_deleted_reply(deleted: bool) -> (r: EndpointResult)
    ensures
        deleted ==> r == Ok::<Reply, EndpointError>(body_reply(STATUS_OK, ReplyBody::Empty)),
        !deleted ==> (r matches Err(EndpointError::InternalErrorWithReason { reason }) && reason@
            == "database inconsistency: failed to delete a translation relationship even though it previously existed inside the same transaction"@),
{
    if deleted {
        Ok(Reply::ok_empty())
    } else {
        Err(EndpointError::internal_error_with_reason(
            "database inconsistency: failed to delete a translation relationship even though it previously existed inside the same transaction",
        ))
    }
}

// ---------------------------------------------------------------- suggestions

/// A reply with a status and a fixed free-text reason.
pub open spec fn text_reply(status: u16, text: &'static str) -> Reply {
    Reply { status, body: ReplyBody::Text(text), last_modified: None }
}

/// The guards for a word ID read from the request: none when it parsed,
/// otherwise one that fails with the refusal.
pub open spec fn id_reply_guards(id: Result<u128, Reply>) -> Seq<Guard> {
    match id {
        Ok(_) => seq![],
        Err(reply) => seq![crate::plan::holds_guard(false, Ok(reply))],
    }
}

fn push_id_reply_guard(guards: &mut Vec<Guard>, id: Result<u128, Reply>) -> (r: Option<u128>)
    ensures
        final(guards)@ == old(guards)@ + id_reply_guards(id),
        r == match id { Ok(v) => Some(v), Err(_) => None::<u128> },
{
    let ghost given = id;
    match id {
        Ok(v) => {
            assert(guards@ =~= old(guards)@ + id_reply_guards(given));
            Some(v)
        },
        Err(reply) => {
            crate::plan::push_holds(guards, false, Ok(reply));
            assert(guards@ =~= old(guards)@ + id_reply_guards(given));
            None
        },
    }
}

/// Guards of suggesting (`creating` true, `suggestion:create`) or removing
/// (`suggestion:delete`) a translation suggestion, in order: an authenticated
/// caller with the permission; well-formed English and Slovene word IDs; an
/// existing English word; an existing Slovene word; no such suggestion yet
/// (when creating) or an existing one (when removing).
pub open spec fn suggestion_guards(
    auth: UserAuthenticationExtractor,
    english: Result<u128, Reply>,
    slovene: Result<u128, Reply>,
    creating: bool,
) -> Seq<Guard> {
    authentication_and_permission_guards(auth, if creating { Permission::SuggestionCreate } else { Permission::SuggestionDelete })
        + id_reply_guards(english) + id_reply_guards(slovene) + match (english, slovene) {
        (Ok(english_word_id), Ok(slovene_word_id)) => seq![
            ask_guard(
                Probe::EnglishWordExists { word_id: english_word_id },
                true,
                Ok(text_reply(STATUS_BAD_REQUEST, "The provided english word does not exist.")),
            ),
            ask_guard(
                Probe::SloveneWordExists { word_id: slovene_word_id },
                true,
                Ok(text_reply(STATUS_BAD_REQUEST, "The provided slovene word does not exist.")),
            ),
            if creating {
                ask_guard(
                    Probe::SuggestionExists { english_word_id, slovene_word_id },
                    false,
                    Ok(text_reply(STATUS_CONFLICT, "The translation suggestion already exists.")),
                )
            } else {
                ask_guard(
                    Probe::SuggestionExists { english_word_id, slovene_word_id },
                    true,
                    Ok(body_reply(STATUS_NOT_FOUND, ReplyBody::Empty)),
                )
            },
        ],
        _ => seq![],
    }
}

/// Suggesting a translation goes ahead exactly when the caller is
/// authenticated with `suggestion:create`, both word IDs are well formed and
/// name existing English and Slovene words, and the suggestion is new;
/// removing one needs `suggestion:delete` and an existing suggestion instead.
pub proof fn lemma_suggestion_law(
    auth: UserAuthenticationExtractor,
    english: Result<u128, Reply>,
    slovene: Result<u128, Reply>,
    creating: bool,
    db: spec_fn(Probe) -> bool,
)
    ensures
        crate::plan::plan_outcome(suggestion_guards(auth, english, slovene, creating), 0, db) is None <==> {
            &&& authenticated_caller_has(auth, if creating { Permission::SuggestionCreate } else { Permission::SuggestionDelete }, db)
            &&& english matches Ok(e)
            &&& slovene matches Ok(sl)
            &&& db(Probe::EnglishWordExists { word_id: e })
            &&& db(Probe::SloveneWordExists { word_id: sl })
            &&& db(Probe::SuggestionExists { english_word_id: e, slovene_word_id: sl }) != creating
        },
{
    let permission = if creating { Permission::SuggestionCreate } else { Permission::SuggestionDelete };
    let access = authentication_and_permission_guards(auth, permission);
    let gs = suggestion_guards(auth, english, slovene, creating);
    crate::plan::lemma_proceeds_iff_all_hold(gs, db);
    crate::authentication::lemma_access_checks_hold(auth, permission, db);
    let ids = id_reply_guards(english) + id_reply_guards(slovene);
    crate::plan::lemma_all_hold_concat(id_reply_guards(english), id_reply_guards(slovene), db);
    match english {
        Ok(_) => {},
        Err(r) => { assert(id_reply_guards(english)[0] == crate::plan::holds_guard(false, Ok(r))); },
    }
    match slovene {
        Ok(_) => {},
        Err(r) => { assert(id_reply_guards(slovene)[0] == crate::plan::holds_guard(false, Ok(r))); },
    }
    match (english, slovene) {
        (Ok(e), Ok(sl)) => {
            let tail = gs.subrange((access.len() + ids.len()) as int, gs.len() as int);
            assert(gs == access + ids + tail);
            crate::plan::lemma_all_hold_concat(access + ids, tail, db);
            crate::plan::lemma_all_hold_concat(access, ids, db);
            crate::plan::lemma_all_hold_small(tail[0], tail[1], tail[2], db);
            assert(tail == seq![tail[0], tail[1], tail[2]]);
        },
        _ => {
            assert(gs == access + ids + Seq::<Guard>::empty());
            crate::plan::lemma_all_hold_concat(access + ids, Seq::<Guard>::empty(), db);
            crate::plan::lemma_all_hold_concat(access, ids, db);
        },
    }
}

/// The guards of suggesting or removing a translation suggestion.
pub fn suggestion_plan(
    auth: &UserAuthenticationExtractor,
    english: Result<u128, Reply>,
    slovene: Result<u128, Reply>,
    creating: bool,
) -> (r: Vec<Guard>)
    ensures
        r@ == suggestion_guards(*auth, english, slovene, creating),
{
    let mut guards: Vec<Guard> = Vec::new();
    let permission = if creating { Permission::SuggestionCreate } else { Permission::SuggestionDelete };
    require_user_authentication_and_permission(&mut guards, auth, permission);
    let ghost (english_in, slovene_in) = (english, slovene);
    let english_id = push_id_reply_guard(&mut guards, english);
    let slovene_id = push_id_reply_guard(&mut guards, slovene);
    match (english_id, slovene_id) {
        (Some(english_word_id), Some(slovene_word_id)) => {
            push_ask(
                &mut guards,
                Probe::EnglishWordExists { word_id: english_word_id },
                true,
                Ok(Reply { status: STATUS_BAD_REQUEST, body: ReplyBody::Text("The provided english word does not exist."), last_modified: None }),
            );
            push_ask(
                &mut guards,
                Probe::SloveneWordExists { word_id: slovene_word_id },
                true,
                Ok(Reply { status: STATUS_BAD_REQUEST, body: ReplyBody::Text("The provided slovene word does not exist."), last_modified: None }),
            );
            if creating {
                push_ask(
                    &mut guards,
                    Probe::SuggestionExists { english_word_id, slovene_word_id },
                    false,
                    Ok(Reply { status: STATUS_CONFLICT, body: ReplyBody::Text("The translation suggestion already exists."), last_modified: None }),
                );
            } else {
                push_ask(
                    &mut guards,
                    Probe::SuggestionExists { english_word_id, slovene_word_id },
                    true,
                    Ok(Reply::with_body(STATUS_NOT_FOUND, ReplyBody::Empty)),
                );
            }
        },
        _ => {},
    }
    assert(guards@ =~= suggestion_guards(*auth, english_in, slovene_in, creating));
    guards
}

} // verus!
