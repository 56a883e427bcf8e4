//! Records as the database hands them over, and their conversion into the
//! models the API exposes.
//!
//! A word and a word meaning are stored as a language-independent part (the
//! ID and timestamps) and a language-specific part (the lemma, or the
//! distinguishing fields of the meaning).

use vstd::prelude::*;
use crate::models::{
    UserRegistrationRequest, Category, IntoApiModel, ShallowTranslation, Timestamp, UserInformation, WordMeaningRecord, WordMeaningWithDetails,
    WordRecord, WordWithMeanings,
};

verus! {

/// A stored user account.
#[derive(Clone, Debug, PartialEq, Eq)]
pub struct UserModel {
    pub id: u128,
    pub username: String,
    pub display_name: String,
    pub hashed_password: String,
    pub joined_at: Timestamp,
    pub last_modified_at: Timestamp,
    pub last_active_at: Timestamp,
}

impl IntoApiModel<UserInformation> for UserModel {
    /// The account as the API shows it: everything but the password hash.
    fn into_api_model(self) -> (r: UserInformation)
        ensures
            r == (UserInformation {
                id: self.id,
                username: self.username,
                display_name: self.display_name,
                joined_at: self.joined_at,
                last_modified_at: self.last_modified_at,
                last_active_at: self.last_active_at,
            }),
    {
        UserInformation {
            id: self.id,
            username: self.username,
            display_name: self.display_name,
            joined_at: self.joined_at,
            last_modified_at: self.last_modified_at,
            last_active_at: self.last_active_at,
        }
    }
}

/// What is needed to create a user account.
#[derive(Clone, Debug, PartialEq, Eq)]
pub struct UserRegistrationInfo {
    pub username: String,
    pub display_name: String,
    pub password: String,
}

impl From<UserRegistrationRequest> for UserRegistrationInfo {
    /// The account to create for a registration request, field by field.
    fn from(request: UserRegistrationRequest) -> (r: Self) {
        UserRegistrationInfo { username: request.username, display_name: request.display_name, password: request.password }
    }
}

impl vstd::std_specs::convert::FromSpecImpl<UserRegistrationRequest> for UserRegistrationInfo {
    open spec fn obeys_from_spec() -> bool {
        true
    }

    open spec fn from_spec(request: UserRegistrationRequest) -> Self {
        UserRegistrationInfo { username: request.username, display_name: request.display_name, password: request.password }
    }
}

/// A stored category.
#[derive(Clone, Debug, PartialEq, Eq)]
pub struct CategoryModel {
    pub id: u128,
    pub parent_category_id: Option<u128>,
    pub name_sl: String,
    pub name_en: String,
    pub created_at: Timestamp,
    pub last_modified_at: Timestamp,
}

impl IntoApiModel<Category> for CategoryModel {
    /// The category as the API shows it.
    fn into_api_model(self) -> (r: Category)
        ensures
            r == (Category {
                id: self.id,
                parent_category_id: self.parent_category_id,
                slovene_name: self.name_sl,
                english_name: self.name_en,
                created_at: self.created_at,
                last_modified_at: self.last_modified_at,
            }),
    {
        Category {
            id: self.id,
            parent_category_id: self.parent_category_id,
            slovene_name: self.name_sl,
            english_name: self.name_en,
            created_at: self.created_at,
            last_modified_at: self.last_modified_at,
        }
    }
}

/// The language-independent part of a stored word.
#[derive(Clone, Copy, Debug, PartialEq, Eq, Structural)]
pub struct WordBase {
    pub id: u128,
    pub created_at: Timestamp,
    pub last_modified_at: Timestamp,
}

/// A stored word: its common part and its lemma.
#[derive(Clone, Debug, PartialEq, Eq)]
pub struct WordModel {
    pub word: WordBase,
    pub lemma: String,
}

impl IntoApiModel<WordRecord> for WordModel {
    /// The word as the API shows it.
    fn into_api_model(self) -> (r: WordRecord)
        ensures
            r == (WordRecord {
                id: self.word.id,
                lemma: self.lemma,
                created_at: self.word.created_at,
                last_modified_at: self.word.last_modified_at,
            }),
    {
        WordRecord { id: self.word.id, lemma: self.lemma, created_at: self.word.created_at, last_modified_at: self.word.last_modified_at }
    }
}

/// A stored word meaning: its ID and timestamps and its distinguishing fields.
#[derive(Clone, Debug, PartialEq, Eq)]
pub struct WordMeaningModel {
    pub id: u128,
    pub created_at: Timestamp,
    pub last_modified_at: Timestamp,
    pub disambiguation: Option<String>,
    pub abbreviation: Option<String>,
    pub description: Option<String>,
}

/// The API model of a stored meaning.
pub open spec fn meaning_record_of(m: WordMeaningModel) -> WordMeaningRecord {
    WordMeaningRecord {
        word_meaning_id: m.id,
        disambiguation: m.disambiguation,
        abbreviation: m.abbreviation,
        description: m.description,
        created_at: m.created_at,
        last_modified_at: m.last_modified_at,
    }
}

impl IntoApiModel<WordMeaningRecord> for WordMeaningModel {
    /// The meaning as the API shows it.
    fn into_api_model(self) -> (r: WordMeaningRecord)
        ensures
            r == meaning_record_of(self),
    {
        WordMeaningRecord {
            word_meaning_id: self.id,
            disambiguation: self.disambiguation,
            abbreviation: self.abbreviation,
            description: self.description,
            created_at: self.created_at,
            last_modified_at: self.last_modified_at,
        }
    }
}

/// A stored translation link, seen from one of its meanings.
#[derive(Clone, Copy, Debug, PartialEq, Eq, Structural)]
pub struct TranslationModel {
    pub translated_meaning_id: u128,
    pub translated_at: Timestamp,
    pub translated_by: Option<u128>,
}

/// The API model of a stored translation link.
pub open spec fn shallow_translation_of(t: TranslationModel) -> ShallowTranslation {
    ShallowTranslation { word_meaning_id: t.translated_meaning_id, translated_at: t.translated_at, translated_by: t.translated_by }
}

impl IntoApiModel<ShallowTranslation> for TranslationModel {
    /// The translation as the API shows it.
    fn into_api_model(self) -> (r: ShallowTranslation)
        ensures
            r == shallow_translation_of(self),
    {
        ShallowTranslation { word_meaning_id: self.translated_meaning_id, translated_at: self.translated_at, translated_by: self.translated_by }
    }
}

/// A stored meaning with the categories it is in and its translations.
#[derive(Clone, Debug, PartialEq, Eq)]
pub struct WordMeaningModelWithDetails {
    pub meaning: WordMeaningModel,
    pub categories: Vec<u128>,
    pub translations: Vec<TranslationModel>,
}

/// The API model of a stored meaning with its details.
pub open spec fn meaning_with_details_of(m: WordMeaningModelWithDetails) -> (WordMeaningRecord, Seq<u128>, Seq<ShallowTranslation>) {
    (meaning_record_of(m.meaning), m.categories@, m.translations@.map_values(|t: TranslationModel| shallow_translation_of(t)))
}

impl IntoApiModel<WordMeaningWithDetails> for WordMeaningModelWithDetails {
    /// The meaning as the API shows it, with its categories and its
    /// translations in the same order.
    fn into_api_model(self) -> (r: WordMeaningWithDetails)
        ensures
            (r.meaning, r.categories@, r.translations@) == meaning_with_details_of(self),
    {
        let ghost given = self;
        let mut translations: Vec<ShallowTranslation> = Vec::new();
        let mut i: usize = 0;
        while i < self.translations.len()
            invariant
                self == given,
                i <= self.translations@.len(),
                translations@ == self.translations@.subrange(0, i as int).map_values(|t: TranslationModel| shallow_translation_of(t)),
            decreases self.translations@.len() - i,
        {
            let t = self.translations[i];
            translations.push(t.into_api_model());
            assert(self.translations@.subrange(0, i + 1) =~= self.translations@.subrange(0, i as int).push(t));
            assert(translations@ =~= self.translations@.subrange(0, i + 1).map_values(|t: TranslationModel| shallow_translation_of(t)));
            i = i + 1;
        }
        assert(self.translations@.subrange(0, self.translations@.len() as int) =~= self.translations@);
        WordMeaningWithDetails { meaning: self.meaning.into_api_model(), categories: self.categories, translations }
    }
}

/// A stored word with all of its meanings and their details.
#[derive(Clone, Debug, PartialEq, Eq)]
pub struct WordWithMeaningsModel {
    pub word: WordModel,
    pub meanings: Vec<WordMeaningModelWithDetails>,
}

impl IntoApiModel<WordWithMeanings> for WordWithMeaningsModel {
    /// The word as the API shows it, with its meanings in the same order.
    fn into_api_model(self) -> (r: WordWithMeanings)
        ensures
            r.word == (WordRecord {
                id: self.word.word.id,
                lemma: self.word.lemma,
                created_at: self.word.word.created_at,
                last_modified_at: self.word.word.last_modified_at,
            }),
            r.meanings@.len() == self.meanings@.len(),
            forall|i: int| 0 <= i < self.meanings@.len() ==> {
                let m = #[trigger] r.meanings@[i];
                (m.meaning, m.categories@, m.translations@) == meaning_with_details_of(self.meanings@[i])
            },
    {
        let ghost given = self;
        let mut meanings: Vec<WordMeaningWithDetails> = Vec::new();
        let mut source = self.meanings;
        let ghost all = source@;
        let mut converted: Vec<WordMeaningWithDetails> = Vec::new();
        // Take the meanings from the back, then restore their order.
        while source.len() > 0
            invariant
                all == given.meanings@,
                source@ == all.subrange(0, source@.len() as int),
                converted@.len() == all.len() - source@.len(),
                forall|k: int| 0 <= k < converted@.len() ==> {
                    let m = #[trigger] converted@[k];
                    (m.meaning, m.categories@, m.translations@) == meaning_with_details_of(all[all.len() - 1 - k])
                },
            decreases source@.len(),
        {
            let last = source.pop().unwrap();
            converted.push(last.into_api_model());
        }
        while converted.len() > 0
            invariant
                all == given.meanings@,
                meanings@.len() + converted@.len() == all.len(),
                forall|k: int| 0 <= k < converted@.len() ==> {
                    let m = #[trigger] converted@[k];
                    (m.meaning, m.categories@, m.translations@) == meaning_with_details_of(all[all.len() - 1 - k])
                },
                forall|k: int| 0 <= k < meanings@.len() ==> {
                    let m = #[trigger] meanings@[k];
                    (m.meaning, m.categories@, m.translations@) == meaning_with_details_of(all[k])
                },
            decreases converted@.len(),
        {
            let next = converted.pop().unwrap();
            meanings.push(next);
        }
        WordWithMeanings { word: self.word.into_api_model(), meanings }
    }
}

} // verus!
