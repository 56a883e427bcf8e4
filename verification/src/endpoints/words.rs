//! Dictionary word endpoints, for English and Slovene words alike: listing,
//! creating, fetching, updating and deleting words and their meanings.
//!
//! Both languages follow the same rules; where they differ (which failures
//! are reported how), the language decides.

use vstd::prelude::*;
use crate::authentication::{
    any_caller_has, authenticated_caller_has, lemma_access_checks_hold, authentication_and_permission_guards, optional_authentication_permission_guard,
    require_permission_with_optional_authentication, require_user_authentication_and_permission,
    UserAuthenticationExtractor,
};
use crate::models::{Timestamp, WordMeaningRecord, WordMeaningWithDetails, WordRecord, WordWithMeanings, WordsListRequest};
use crate::permissions::Permission;
use crate::plan::{
    ask_guard, lemma_all_hold_concat, lemma_all_hold_small, guard_holds, lemma_proceeds_iff_all_hold, lemma_skip_holding_prefix,
    lemma_uuid_guards_hold, plan_outcome, push_ask, push_uuid_guard, uuid_guards, Guard, Probe,
};
use crate::reasons::{ErrorReason, WordErrorReason};
use crate::responses::{
    body_reply, reason_reply, EndpointError, EndpointResult, Reply, ReplyBody, STATUS_CONFLICT, STATUS_NOT_FOUND, STATUS_OK,
};
use crate::search::WordLanguage;

verus! {

/// The reply for a word that does not exist.
pub open spec fn word_not_found_reply() -> Reply {
    reason_reply(STATUS_NOT_FOUND, ErrorReason::Word(WordErrorReason::WordNotFound))
}

/// The reply for a word meaning that does not exist (or belongs to another word).
pub open spec fn meaning_not_found_reply() -> Reply {
    reason_reply(STATUS_NOT_FOUND, ErrorReason::Word(WordErrorReason::WordMeaningNotFound))
}

/// The question whether word `id` of the language exists.
pub open spec fn word_exists_probe(language: WordLanguage, id: u128) -> Probe {
    match language {
        WordLanguage::English => Probe::EnglishWordExists { word_id: id },
        WordLanguage::Slovene => Probe::SloveneWordExists { word_id: id },
    }
}

/// The guard requiring that word `id` of the language exists.
pub open spec fn word_exists_guard(language: WordLanguage, id: u128) -> Guard {
    ask_guard(word_exists_probe(language, id), true, Ok(word_not_found_reply()))
}

/// The guard requiring that meaning `meaning_id` belongs to word `word_id`.
pub open spec fn meaning_of_word_guard(language: WordLanguage, word_id: u128, meaning_id: u128) -> Guard {
    ask_guard(
        match language {
            WordLanguage::English => Probe::EnglishMeaningOfWordExists { word_id, meaning_id },
            WordLanguage::Slovene => Probe::SloveneMeaningOfWordExists { word_id, meaning_id },
        },
        true,
        Ok(meaning_not_found_reply()),
    )
}

fn push_word_exists(guards: &mut Vec<Guard>, language: WordLanguage, id: u128)
    ensures
        final(guards)@ == old(guards)@.push(word_exists_guard(language, id)),
{
    let probe = match language {
        WordLanguage::English => Probe::EnglishWordExists { word_id: id },
        WordLanguage::Slovene => Probe::SloveneWordExists { word_id: id },
    };
    push_ask(guards, probe, true, Ok(Reply::with_reason(STATUS_NOT_FOUND, ErrorReason::Word(WordErrorReason::WordNotFound))));
}

fn push_meaning_of_word(guards: &mut Vec<Guard>, language: WordLanguage, word_id: u128, meaning_id: u128)
    ensures
        final(guards)@ == old(guards)@.push(meaning_of_word_guard(language, word_id, meaning_id)),
{
    let probe = match language {
        WordLanguage::English => Probe::EnglishMeaningOfWordExists { word_id, meaning_id },
        WordLanguage::Slovene => Probe::SloveneMeaningOfWordExists { word_id, meaning_id },
    };
    push_ask(guards, probe, true, Ok(Reply::with_reason(STATUS_NOT_FOUND, ErrorReason::Word(WordErrorReason::WordMeaningNotFound))));
}

// ---------------------------------------------------------------- reading words

/// Guards of reading words (listing them, or one by lemma): `word:read`,
/// which every caller has.
pub open spec fn word_read_guards(auth: UserAuthenticationExtractor) -> Seq<Guard> {
    seq![optional_authentication_permission_guard(auth, Permission::WordRead)]
}

/// The guards of reading words.
pub fn word_read_plan(auth: &UserAuthenticationExtractor) -> (r: Vec<Guard>)
    ensures
        r@ == word_read_guards(*auth),
{
    let mut guards: Vec<Guard> = Vec::new();
    guards.push(require_permission_with_optional_authentication(auth, Permission::WordRead));
    assert(guards@ =~= word_read_guards(*auth));
    guards
}

/// The time after which listed words must have been modified, if the request
/// asks for that.
pub fn words_modified_after(request: &Option<WordsListRequest>) -> (r: Option<Timestamp>)
    ensures
        r == match *request {
            Some(WordsListRequest { filters: Some(filters) }) => filters.last_modified_after,
            _ => None::<Timestamp>,
        },
{
    match request {
        Some(WordsListRequest { filters: Some(filters) }) => filters.last_modified_after,
        _ => None,
    }
}

/// The reply listing words with their meanings.
pub fn words_list_reply(words: Vec<WordWithMeanings>) -> (r: EndpointResult)
    ensures
        r == Ok::<Reply, EndpointError>(body_reply(STATUS_OK, ReplyBody::Words(words))),
{
    Ok(Reply::with_body(STATUS_OK, ReplyBody::Words(words)))
}

/// Guards of fetching one word by ID: `word:read` and a well-formed ID.
pub open spec fn word_by_id_guards(auth: UserAuthenticationExtractor, id: Result<u128, EndpointError>) -> Seq<Guard> {
    word_read_guards(auth) + uuid_guards(id)
}

/// The guards of fetching one word by ID.
pub fn word_by_id_plan(auth: &UserAuthenticationExtractor, id: &Result<u128, EndpointError>) -> (r: Vec<Guard>)
    ensures
        r@ == word_by_id_guards(*auth, *id),
{
    let mut guards = word_read_plan(auth);
    push_uuid_guard(&mut guards, id);
    guards
}

/// The reply with the fetched word, or `404` when there is none.
pub fn word_info_reply(word: Option<WordWithMeanings>) -> (r: EndpointResult)
    ensures
        r == match word {
            Some(w) => Ok::<Reply, EndpointError>(body_reply(STATUS_OK, ReplyBody::WordInfo(w))),
            None => Ok(word_not_found_reply()),
        },
{
    match word {
        Some(w) => Ok(Reply::with_body(STATUS_OK, ReplyBody::WordInfo(w))),
        None => Ok(Reply::with_reason(STATUS_NOT_FOUND, ErrorReason::Word(WordErrorReason::WordNotFound))),
    }
}

// ---------------------------------------------------------------- creating words

/// Guards of creating a word: an authenticated caller with `word:create`,
/// and a lemma no word of the language has.
pub open spec fn create_word_guards(auth: UserAuthenticationExtractor, language: WordLanguage, lemma: String) -> Seq<Guard> {
    authentication_and_permission_guards(auth, Permission::WordCreate) + seq![ask_guard(
        match language {
            WordLanguage::English => Probe::EnglishLemmaTaken { lemma },
            WordLanguage::Slovene => Probe::SloveneLemmaTaken { lemma },
        },
        false,
        Ok(reason_reply(STATUS_CONFLICT, ErrorReason::Word(WordErrorReason::WordWithGivenLemmaAlreadyExists))),
    )]
}

/// The guards of creating a word.
pub fn create_word_plan(auth: &UserAuthenticationExtractor, language: WordLanguage, lemma: &String) -> (r: Vec<Guard>)
    ensures
        r@ == create_word_guards(*auth, language, *lemma),
{
    let mut guards: Vec<Guard> = Vec::new();
    require_user_authentication_and_permission(&mut guards, auth, Permission::WordCreate);
    let probe = match language {
        WordLanguage::English => Probe::EnglishLemmaTaken { lemma: lemma.clone() },
        WordLanguage::Slovene => Probe::SloveneLemmaTaken { lemma: lemma.clone() },
    };
    push_ask(
        &mut guards,
        probe,
        false,
        Ok(Reply::with_reason(STATUS_CONFLICT, ErrorReason::Word(WordErrorReason::WordWithGivenLemmaAlreadyExists))),
    );
    assert(guards@ =~= create_word_guards(*auth, language, *lemma));
    guards
}

/// The reply with the newly created word.
pub fn word_created_reply(word: WordRecord) -> (r: EndpointResult)
    ensures
        r == Ok::<Reply, EndpointError>(body_reply(STATUS_OK, ReplyBody::WordCreated(word))),
{
    Ok(Reply::with_body(STATUS_OK, ReplyBody::WordCreated(word)))
}

// ---------------------------------------------------------------- updating and deleting words

/// Guards of changing (`permission` `word:update`) or deleting (`word:delete`)
/// a word: an authenticated caller with the permission, a well-formed ID and
/// an existing word.
pub open spec fn word_change_guards(
    auth: UserAuthenticationExtractor,
    permission: Permission,
    language: WordLanguage,
    id: Result<u128, EndpointError>,
) -> Seq<Guard> {
    authentication_and_permission_guards(auth, permission) + uuid_guards(id) + match id {
        Ok(word_id) => seq![word_exists_guard(language, word_id)],
        Err(_) => seq![],
    }
}

/// The guards of changing or deleting a word.
pub fn word_change_plan(
    auth: &UserAuthenticationExtractor,
    permission: Permission,
    language: WordLanguage,
    id: &Result<u128, EndpointError>,
) -> (r: Vec<Guard>)
    ensures
        r@ == word_change_guards(*auth, permission, language, *id),
{
    let mut guards: Vec<Guard> = Vec::new();
    require_user_authentication_and_permission(&mut guards, auth, permission);
    match push_uuid_guard(&mut guards, id) {
        Some(word_id) => push_word_exists(&mut guards, language, word_id),
        None => {},
    }
    assert(guards@ =~= word_change_guards(*auth, permission, language, *id));
    guards
}

/// The outcome of a word update: `updated` tells whether the update changed
/// the word, `refetched` is the word read back afterwards.
pub fn word_update_reply(language: WordLanguage, updated: bool, refetched: Option<WordWithMeanings>) -> (r: EndpointResult)
    ensures
        !updated && language == WordLanguage::English ==> (r matches Err(EndpointError::InternalErrorWithReason { reason })
            && reason@ == "Failed to update english word."@),
        !updated && language == WordLanguage::Slovene ==> (r matches Err(EndpointError::InvalidDatabaseState { problem })
            && problem@ == "failed to update slovene word, even though it previously existed inside the same transaction"@),
        updated && refetched is None && language == WordLanguage::English ==> (r matches Err(EndpointError::InternalErrorWithReason { reason })
            && reason@ == "Database inconsistency: word did not exist after being updated."@),
        updated && refetched is None && language == WordLanguage::Slovene ==> (r matches Err(EndpointError::InvalidDatabaseState { problem })
            && problem@ == "slovene word did not exist after just having updated it inside the same transaction"@),
        updated ==> (refetched matches Some(w) ==> r == Ok::<Reply, EndpointError>(body_reply(STATUS_OK, ReplyBody::WordInfo(w)))),
{
    if !updated {
        return match language {
            WordLanguage::English => Err(EndpointError::internal_error_with_reason("Failed to update english word.")),
            WordLanguage::Slovene => Err(EndpointError::invalid_database_state(
                "failed to update slovene word, even though it previously existed inside the same transaction",
            )),
        };
    }
    match refetched {
        Some(w) => Ok(Reply::with_body(STATUS_OK, ReplyBody::WordInfo(w))),
        None => match language {
            WordLanguage::English => Err(EndpointError::internal_error_with_reason(
                "Database inconsistency: word did not exist after being updated.",
            )),
            WordLanguage::Slovene => Err(EndpointError::invalid_database_state(
                "slovene word did not exist after just having updated it inside the same transaction",
            )),
        },
    }
}

/// The outcome of deleting a word that was just checked to exist.
pub fn word_delete_reply(language: WordLanguage, deleted: bool) -> (r: EndpointResult)
    ensures
        deleted ==> r == Ok::<Reply, EndpointError>(body_reply(STATUS_OK, ReplyBody::Empty)),
        !deleted && language == WordLanguage::English ==> (r matches Err(EndpointError::InternalErrorWithReason { reason })
            && reason@ == "database inconsistency: failed to delete english word that just existed in the same transaction"@),
        !deleted && language == WordLanguage::Slovene ==> (r matches Err(EndpointError::InvalidDatabaseState { problem })
            && problem@ == "failed to delete slovene word after just having checked that it exists in the same transaction"@),
{
    if deleted {
        return Ok(Reply::ok_empty());
    }
    match language {
        WordLanguage::English => Err(EndpointError::internal_error_with_reason(
            "database inconsistency: failed to delete english word that just existed in the same transaction",
        )),
        WordLanguage::Slovene => Err(EndpointError::invalid_database_state(
            "failed to delete slovene word after just having checked that it exists in the same transaction",
        )),
    }
}

// ---------------------------------------------------------------- meanings

/// Guards of listing a word's meanings: `word:read`, a well-formed ID and an existing word.
pub open spec fn meanings_read_guards(auth: UserAuthenticationExtractor, language: WordLanguage, id: Result<u128, EndpointError>) -> Seq<Guard> {
    word_read_guards(auth) + uuid_guards(id) + match id {
        Ok(word_id) => seq![word_exists_guard(language, word_id)],
        Err(_) => seq![],
    }
}

/// The guards of listing a word's meanings.
pub fn meanings_read_plan(auth: &UserAuthenticationExtractor, language: WordLanguage, id: &Result<u128, EndpointError>) -> (r: Vec<Guard>)
    ensures
        r@ == meanings_read_guards(*auth, language, *id),
{
    let mut guards = word_read_plan(auth);
    match push_uuid_guard(&mut guards, id) {
        Some(word_id) => push_word_exists(&mut guards, language, word_id),
        None => {},
    }
    assert(guards@ =~= meanings_read_guards(*auth, language, *id));
    guards
}

/// The reply listing a word's meanings.
pub fn meanings_list_reply(meanings: Vec<WordMeaningWithDetails>) -> (r: EndpointResult)
    ensures
        r == Ok::<Reply, EndpointError>(body_reply(STATUS_OK, ReplyBody::Meanings(meanings))),
{
    Ok(Reply::with_body(STATUS_OK, ReplyBody::Meanings(meanings)))
}

/// Guards of adding a meaning to a word: an authenticated caller with
/// `word:update`, a well-formed word ID, and no meaning with the same
/// distinguishing fields.
pub open spec fn create_meaning_guards(
    auth: UserAuthenticationExtractor,
    language: WordLanguage,
    id: Result<u128, EndpointError>,
    disambiguation: Option<String>,
    abbreviation: Option<String>,
    description: Option<String>,
) -> Seq<Guard> {
    authentication_and_permission_guards(auth, Permission::WordUpdate) + uuid_guards(id) + seq![ask_guard(
        match language {
            WordLanguage::English => Probe::IdenticalEnglishMeaningExists { disambiguation, abbreviation, description },
            WordLanguage::Slovene => Probe::IdenticalSloveneMeaningExists { disambiguation, abbreviation, description },
        },
        false,
        Ok(reason_reply(STATUS_CONFLICT, ErrorReason::Word(WordErrorReason::IdenticalWordMeaningAlreadyExists))),
    )]
}

/// The guards of adding a meaning to a word.
pub fn create_meaning_plan(
    auth: &UserAuthenticationExtractor,
    language: WordLanguage,
    id: &Result<u128, EndpointError>,
    disambiguation: &Option<String>,
    abbreviation: &Option<String>,
    description: &Option<String>,
) -> (r: Vec<Guard>)
    ensures
        r@ == create_meaning_guards(*auth, language, *id, *disambiguation, *abbreviation, *description),
{
    let mut guards: Vec<Guard> = Vec::new();
    require_user_authentication_and_permission(&mut guards, auth, Permission::WordUpdate);
    push_uuid_guard(&mut guards, id);
    let probe = match language {
        WordLanguage::English => Probe::IdenticalEnglishMeaningExists {
            disambiguation: disambiguation.clone(),
            abbreviation: abbreviation.clone(),
            description: description.clone(),
        },
        WordLanguage::Slovene => Probe::IdenticalSloveneMeaningExists {
            disambiguation: disambiguation.clone(),
            abbreviation: abbreviation.clone(),
            description: description.clone(),
        },
    };
    push_ask(
        &mut guards,
        probe,
        false,
        Ok(Reply::with_reason(STATUS_CONFLICT, ErrorReason::Word(WordErrorReason::IdenticalWordMeaningAlreadyExists))),
    );
    assert(guards@ =~= create_meaning_guards(*auth, language, *id, *disambiguation, *abbreviation, *description));
    guards
}

/// The reply with a newly created meaning.
pub fn meaning_created_reply(meaning: WordMeaningRecord) -> (r: EndpointResult)
    ensures
        r == Ok::<Reply, EndpointError>(body_reply(STATUS_OK, ReplyBody::MeaningCreated(meaning))),
{
    Ok(Reply::with_body(STATUS_OK, ReplyBody::MeaningCreated(meaning)))
}

/// Guards of changing or deleting a meaning of a word, in order: an
/// authenticated caller with `word:update`; well-formed word and meaning IDs;
/// an existing word (`check_word`: all but the deletion of Slovene meanings
/// check this); a meaning that belongs to that word.
pub open spec fn meaning_change_guards(
    auth: UserAuthenticationExtractor,
    language: WordLanguage,
    word: Result<u128, EndpointError>,
    meaning: Result<u128, EndpointError>,
    check_word: bool,
) -> Seq<Guard> {
    authentication_and_permission_guards(auth, Permission::WordUpdate) + uuid_guards(word) + uuid_guards(meaning) + match (word, meaning) {
        (Ok(word_id), Ok(meaning_id)) =>
            (if check_word { seq![word_exists_guard(language, word_id)] } else { seq![] })
                + seq![meaning_of_word_guard(language, word_id, meaning_id)],
        _ => seq![],
    }
}

/// Whether the existence of the word is checked before changing (`deleting`
/// false) or deleting (`deleting` true) one of its meanings.
pub open spec fn checks_word_before_meaning(language: WordLanguage, deleting: bool) -> bool {
    !(deleting && language == WordLanguage::Slovene)
}

/// The guards of changing or deleting a meaning of a word.
pub fn meaning_change_plan(
    auth: &UserAuthenticationExtractor,
    language: WordLanguage,
    word: &Result<u128, EndpointError>,
    meaning: &Result<u128, EndpointError>,
    deleting: bool,
) -> (r: Vec<Guard>)
    ensures
        r@ == meaning_change_guards(*auth, language, *word, *meaning, checks_word_before_meaning(language, deleting)),
{
    let check_word = !(deleting && language == WordLanguage::Slovene);
    let mut guards: Vec<Guard> = Vec::new();
    require_user_authentication_and_permission(&mut guards, auth, Permission::WordUpdate);
    let word_id = push_uuid_guard(&mut guards, word);
    let meaning_id = push_uuid_guard(&mut guards, meaning);
    match (word_id, meaning_id) {
        (Some(w), Some(m)) => {
            if check_word {
                push_word_exists(&mut guards, language, w);
            }
            push_meaning_of_word(&mut guards, language, w, m);
        },
        _ => {},
    }
    assert(guards@ =~= meaning_change_guards(*auth, language, *word, *meaning, checks_word_before_meaning(language, deleting)));
    guards
}

/// The outcome of changing a meaning: `updated` tells whether the update
/// changed it, `refetched` is the meaning read back afterwards. An update that
/// changed nothing is an inconsistency for English meanings and `404` for
/// Slovene ones.
pub fn meaning_update_reply(language: WordLanguage, updated: bool, refetched: Option<WordMeaningRecord>) -> (r: EndpointResult)
    ensures
        !updated && language == WordLanguage::English ==> (r matches Err(EndpointError::InvalidDatabaseState { problem })
            && problem@ == "english word mutation should have updated at least one row"@),
        !updated && language == WordLanguage::Slovene ==> r == Ok::<Reply, EndpointError>(meaning_not_found_reply()),
        updated && refetched is None && language == WordLanguage::English ==> (r matches Err(EndpointError::InvalidDatabaseState { problem })
            && problem@ == "after updating an english word meaning, we could not fetch the full (exact same) meaning inside the transaction"@),
        updated && refetched is None && language == WordLanguage::Slovene ==> (r matches Err(EndpointError::InvalidDatabaseState { problem })
            && problem@ == "after having just updated a slovene word meaning, we could not fetch the full (exact same) meaning inside the same transaction"@),
        updated ==> (refetched matches Some(m) ==> r == Ok::<Reply, EndpointError>(body_reply(STATUS_OK, ReplyBody::MeaningUpdated(m)))),
{
    if !updated {
        return match language {
            WordLanguage::English => Err(EndpointError::invalid_database_state(
                "english word mutation should have updated at least one row",
            )),
            WordLanguage::Slovene => Ok(Reply::with_reason(STATUS_NOT_FOUND, ErrorReason::Word(WordErrorReason::WordMeaningNotFound))),
        };
    }
    match refetched {
        Some(m) => Ok(Reply::with_body(STATUS_OK, ReplyBody::MeaningUpdated(m))),
        None => match language {
            WordLanguage::English => Err(EndpointError::invalid_database_state(
                "after updating an english word meaning, we could not fetch the full (exact same) meaning inside the transaction",
            )),
            WordLanguage::Slovene => Err(EndpointError::invalid_database_state(
                "after having just updated a slovene word meaning, we could not fetch the full (exact same) meaning inside the same transaction",
            )),
        },
    }
}

/// The outcome of deleting a meaning that was just checked to exist.
pub fn meaning_delete_reply(language: WordLanguage, deleted: bool) -> (r: EndpointResult)
    ensures
        deleted ==> r == Ok::<Reply, EndpointError>(body_reply(STATUS_OK, ReplyBody::Empty)),
        !deleted && language == WordLanguage::English ==> (r matches Err(EndpointError::InvalidDatabaseState { problem })
            && problem@ == "after checking that the english word meaning exists, we could not delete that very same meaning inside the same transaction"@),
        !deleted && language == WordLanguage::Slovene ==> (r matches Err(EndpointError::InvalidDatabaseState { problem })
            && problem@ == "after having just checked that a slovene word meaning exists, we could not delete it inside the same transaction"@),
{
    if deleted {
        return Ok(Reply::ok_empty());
    }
    match language {
        WordLanguage::English => Err(EndpointError::invalid_database_state(
            "after checking that the english word meaning exists, we could not delete that very same meaning inside the same transaction",
        )),
        WordLanguage::Slovene => Err(EndpointError::invalid_database_state(
            "after having just checked that a slovene word meaning exists, we could not delete it inside the same transaction",
        )),
    }
}

// ---------------------------------------------------------------- laws

/// Creating a word goes ahead exactly when the caller is authenticated with
/// `word:create` and no word of the same language has the lemma; a caller
/// who passes is refused with `409` when the lemma is taken in that language.
pub proof fn lemma_word_creation_law(auth: UserAuthenticationExtractor, language: WordLanguage, lemma: String, db: spec_fn(Probe) -> bool)
    ensures
        ({
            let taken = match language {
                WordLanguage::English => db(Probe::EnglishLemmaTaken { lemma }),
                WordLanguage::Slovene => db(Probe::SloveneLemmaTaken { lemma }),
            };
            &&& plan_outcome(create_word_guards(auth, language, lemma), 0, db) is None
                <==> authenticated_caller_has(auth, Permission::WordCreate, db) && !taken
            &&& authenticated_caller_has(auth, Permission::WordCreate, db) && taken
                ==> plan_outcome(create_word_guards(auth, language, lemma), 0, db) == Some(Ok::<Reply, EndpointError>(
                    reason_reply(STATUS_CONFLICT, ErrorReason::Word(WordErrorReason::WordWithGivenLemmaAlreadyExists))))
        }),
{
    let access = authentication_and_permission_guards(auth, Permission::WordCreate);
    let gs = create_word_guards(auth, language, lemma);
    let tail = gs.subrange(access.len() as int, gs.len() as int);
    assert(gs == access + tail);
    assert(tail == seq![tail[0]]);
    lemma_proceeds_iff_all_hold(gs, db);
    lemma_all_hold_concat(access, tail, db);
    lemma_all_hold_small(tail[0], tail[0], tail[0], db);
    lemma_access_checks_hold(auth, Permission::WordCreate, db);
    if authenticated_caller_has(auth, Permission::WordCreate, db) {
        lemma_skip_holding_prefix(access, tail, db);
    }
}

/// Reading words goes ahead exactly when the caller has `word:read`; fetching
/// one by ID also needs a well-formed ID.
pub proof fn lemma_word_read_law(auth: UserAuthenticationExtractor, id: Result<u128, EndpointError>, db: spec_fn(Probe) -> bool)
    ensures
        plan_outcome(word_read_guards(auth), 0, db) is None <==> any_caller_has(auth, Permission::WordRead, db),
        plan_outcome(word_by_id_guards(auth, id), 0, db) is None <==> any_caller_has(auth, Permission::WordRead, db) && id is Ok,
{
    let read = word_read_guards(auth);
    lemma_proceeds_iff_all_hold(read, db);
    lemma_proceeds_iff_all_hold(word_by_id_guards(auth, id), db);
    lemma_all_hold_small(read[0], read[0], read[0], db);
    assert(read == seq![read[0]]);
    lemma_access_checks_hold(auth, Permission::WordRead, db);
    lemma_all_hold_concat(read, uuid_guards(id), db);
    lemma_uuid_guards_hold(id, db);
}

/// Whether word `id` of the language exists, by the database `db`.
pub open spec fn word_exists_in(db: spec_fn(Probe) -> bool, language: WordLanguage, id: u128) -> bool {
    match language {
        WordLanguage::English => db(Probe::EnglishWordExists { word_id: id }),
        WordLanguage::Slovene => db(Probe::SloveneWordExists { word_id: id }),
    }
}

/// Changing or deleting a word goes ahead exactly when the caller is
/// authenticated with the permission, the ID is well formed and the word
/// exists; listing a word's meanings needs `word:read` instead.
pub proof fn lemma_word_change_law(
    auth: UserAuthenticationExtractor,
    permission: Permission,
    language: WordLanguage,
    id: Result<u128, EndpointError>,
    db: spec_fn(Probe) -> bool,
)
    ensures
        plan_outcome(word_change_guards(auth, permission, language, id), 0, db) is None
            <==> authenticated_caller_has(auth, permission, db) && (id matches Ok(w) && word_exists_in(db, language, w)),
        plan_outcome(meanings_read_guards(auth, language, id), 0, db) is None
            <==> any_caller_has(auth, Permission::WordRead, db) && (id matches Ok(w) && word_exists_in(db, language, w)),
{
    let access = authentication_and_permission_guards(auth, permission);
    let read = word_read_guards(auth);
    let tail = match id {
        Ok(w) => seq![word_exists_guard(language, w)],
        Err(_) => Seq::<Guard>::empty(),
    };
    lemma_proceeds_iff_all_hold(word_change_guards(auth, permission, language, id), db);
    lemma_proceeds_iff_all_hold(meanings_read_guards(auth, language, id), db);
    lemma_all_hold_concat(access + uuid_guards(id), tail, db);
    lemma_all_hold_concat(access, uuid_guards(id), db);
    lemma_all_hold_concat(read + uuid_guards(id), tail, db);
    lemma_all_hold_concat(read, uuid_guards(id), db);
    lemma_uuid_guards_hold(id, db);
    lemma_access_checks_hold(auth, permission, db);
    lemma_access_checks_hold(auth, Permission::WordRead, db);
    lemma_all_hold_small(read[0], read[0], read[0], db);
    assert(read == seq![read[0]]);
    match id {
        Ok(w) => { lemma_all_hold_small(word_exists_guard(language, w), read[0], read[0], db); },
        Err(_) => {},
    }
}

/// Adding a meaning goes ahead exactly when the caller is authenticated with
/// `word:update`, the word ID is well formed, and no meaning of the language
/// has the same distinguishing fields.
pub proof fn lemma_meaning_creation_law(
    auth: UserAuthenticationExtractor,
    language: WordLanguage,
    id: Result<u128, EndpointError>,
    disambiguation: Option<String>,
    abbreviation: Option<String>,
    description: Option<String>,
    db: spec_fn(Probe) -> bool,
)
    ensures
        plan_outcome(create_meaning_guards(auth, language, id, disambiguation, abbreviation, description), 0, db) is None
            <==> authenticated_caller_has(auth, Permission::WordUpdate, db) && id is Ok && !match language {
                WordLanguage::English => db(Probe::IdenticalEnglishMeaningExists { disambiguation, abbreviation, description }),
                WordLanguage::Slovene => db(Probe::IdenticalSloveneMeaningExists { disambiguation, abbreviation, description }),
            },
{
    let access = authentication_and_permission_guards(auth, Permission::WordUpdate);
    let gs = create_meaning_guards(auth, language, id, disambiguation, abbreviation, description);
    let tail = gs.subrange((access.len() + uuid_guards(id).len()) as int, gs.len() as int);
    assert(gs == access + uuid_guards(id) + tail);
    assert(tail == seq![tail[0]]);
    lemma_proceeds_iff_all_hold(gs, db);
    lemma_all_hold_concat(access + uuid_guards(id), tail, db);
    lemma_all_hold_concat(access, uuid_guards(id), db);
    lemma_uuid_guards_hold(id, db);
    lemma_access_checks_hold(auth, Permission::WordUpdate, db);
    lemma_all_hold_small(tail[0], tail[0], tail[0], db);
}

/// Changing (`deleting` false) or deleting (`deleting` true) a meaning goes
/// ahead exactly when the caller is authenticated with `word:update`, both IDs
/// are well formed, the word exists (not asked when deleting a Slovene
/// meaning) and the meaning belongs to that word.
pub proof fn lemma_meaning_change_law(
    auth: UserAuthenticationExtractor,
    language: WordLanguage,
    word: Result<u128, EndpointError>,
    meaning: Result<u128, EndpointError>,
    deleting: bool,
    db: spec_fn(Probe) -> bool,
)
    ensures
        plan_outcome(meaning_change_guards(auth, language, word, meaning, checks_word_before_meaning(language, deleting)), 0, db) is None
            <==> authenticated_caller_has(auth, Permission::WordUpdate, db) && (word matches Ok(w) && meaning matches Ok(m) && {
                &&& (deleting && language == WordLanguage::Slovene) || word_exists_in(db, language, w)
                &&& match language {
                    WordLanguage::English => db(Probe::EnglishMeaningOfWordExists { word_id: w, meaning_id: m }),
                    WordLanguage::Slovene => db(Probe::SloveneMeaningOfWordExists { word_id: w, meaning_id: m }),
                }
            }),
{
    let check_word = checks_word_before_meaning(language, deleting);
    let access = authentication_and_permission_guards(auth, Permission::WordUpdate);
    let ids = uuid_guards(word) + uuid_guards(meaning);
    let gs = meaning_change_guards(auth, language, word, meaning, check_word);
    lemma_proceeds_iff_all_hold(gs, db);
    lemma_access_checks_hold(auth, Permission::WordUpdate, db);
    lemma_all_hold_concat(uuid_guards(word), uuid_guards(meaning), db);
    lemma_uuid_guards_hold(word, db);
    lemma_uuid_guards_hold(meaning, db);
    lemma_all_hold_concat(access, ids, db);
    match (word, meaning) {
        (Ok(w), Ok(m)) => {
            let eg = word_exists_guard(language, w);
            let mg = meaning_of_word_guard(language, w, m);
            let first: Seq<Guard> = if check_word { seq![eg] } else { seq![] };
            let tail = first + seq![mg];
            assert(gs == access + ids + tail);
            lemma_all_hold_concat(access + ids, tail, db);
            lemma_all_hold_small(eg, mg, eg, db);
            lemma_all_hold_small(mg, eg, mg, db);
            if check_word {
                assert(tail =~= seq![eg, mg]);
            } else {
                assert(tail =~= seq![mg]);
            }
            assert(guard_holds(eg, db) <==> word_exists_in(db, language, w)) by {
                match language {
                    WordLanguage::English => {},
                    WordLanguage::Slovene => {},
                }
            }
            assert(guard_holds(mg, db) <==> match language {
                WordLanguage::English => db(Probe::EnglishMeaningOfWordExists { word_id: w, meaning_id: m }),
                WordLanguage::Slovene => db(Probe::SloveneMeaningOfWordExists { word_id: w, meaning_id: m }),
            }) by {
                match language {
                    WordLanguage::English => {},
                    WordLanguage::Slovene => {},
                }
            }
        },
        _ => {
            assert(gs == access + ids + Seq::<Guard>::empty());
            lemma_all_hold_concat(access + ids, Seq::<Guard>::empty(), db);
        },
    }
}

} // verus!
