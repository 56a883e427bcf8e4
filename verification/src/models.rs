//! Request and response models of the public API, and the records the
//! database hands to endpoint logic.
//!
//! Identifiers are UUIDs held as their 128-bit value; points in time are
//! [`Timestamp`]s (seconds since the UNIX epoch plus a sub-second part).

use vstd::prelude::*;

verus! {

/// A point in time: whole seconds since the UNIX epoch, plus nanoseconds.
#[derive(Clone, Copy, Debug, PartialEq, Eq, Structural)]
pub struct Timestamp {
    pub unix_seconds: i64,
    pub subsec_nanos: u32,
}

/// The first second (since the UNIX epoch) a point in time can lie at:
/// 1 January of the year -262143, 00:00:00 UTC.
pub const EARLIEST_TIMESTAMP_SECONDS: i64 = -8334601315200;
/// The last second (since the UNIX epoch) a point in time can lie at:
/// 31 December of the year 262142, 23:59:59 UTC.
pub const LATEST_TIMESTAMP_SECONDS: i64 = 8210266876799;

/// Whether `t` denotes a point in time of the calendar the server uses.
pub open spec fn is_representable(t: Timestamp) -> bool {
    EARLIEST_TIMESTAMP_SECONDS <= t.unix_seconds <= LATEST_TIMESTAMP_SECONDS && t.subsec_nanos < 1_000_000_000
}

/// Information about one user, as exposed through the API.
#[derive(Clone, Debug, PartialEq, Eq)]
pub struct UserInformation {
    pub id: u128,
    pub username: String,
    pub display_name: String,
    pub joined_at: Timestamp,
    pub last_modified_at: Timestamp,
    pub last_active_at: Timestamp,
}

/// Response: information about one user.
#[derive(Clone, Debug, PartialEq, Eq)]
pub struct UserInfoResponse {
    pub user: UserInformation,
}

/// Request: change a user's display name.
#[derive(Clone, Debug, PartialEq, Eq)]
pub struct UserDisplayNameChangeRequest {
    pub new_display_name: String,
}

/// Response: a display name was changed; holds the updated user.
#[derive(Clone, Debug, PartialEq, Eq)]
pub struct UserDisplayNameChangeResponse {
    pub user: UserInformation,
}

/// Response: the names of a user's roles.
#[derive(Clone, Debug, PartialEq, Eq)]
pub struct UserRolesResponse {
    pub role_names: Vec<String>,
}

/// Response: the names of a user's effective permissions.
#[derive(Clone, Debug, PartialEq, Eq)]
pub struct UserPermissionsResponse {
    pub permissions: Vec<String>,
}

impl UserPermissionsResponse {
    /// Wraps a list of permission names.
    pub fn from_permission_names(permission_names: Vec<String>) -> (r: Self)
        ensures
            r.permissions == permission_names,
    {
        UserPermissionsResponse { permissions: permission_names }
    }
}

/// Request: register a new user.
#[derive(Clone, Debug, PartialEq, Eq)]
pub struct UserRegistrationRequest {
    pub username: String,
    pub display_name: String,
    pub password: String,
}

/// Response: a user was registered.
#[derive(Clone, Debug, PartialEq, Eq)]
pub struct UserRegistrationResponse {
    pub user: UserInformation,
}

/// Request: add roles (by name) to a user.
#[derive(Clone, Debug, PartialEq, Eq)]
pub struct UserRoleAddRequest {
    pub roles_to_add: Vec<String>,
}

/// Request: remove roles (by name) from a user.
#[derive(Clone, Debug, PartialEq, Eq)]
pub struct UserRoleRemoveRequest {
    pub roles_to_remove: Vec<String>,
}

/// Request: add permissions (by name) to a user.
#[derive(Clone, Debug, PartialEq, Eq)]
pub struct UserPermissionsAddRequest {
    pub permissions_to_add: Vec<String>,
}

/// Request: remove permissions (by name) from a user.
#[derive(Clone, Debug, PartialEq, Eq)]
pub struct UserPermissionsRemoveRequest {
    pub permissions_to_remove: Vec<String>,
}

/// Response: all registered users.
#[derive(Clone, Debug, PartialEq, Eq)]
pub struct RegisteredUsersListResponse {
    pub users: Vec<UserInformation>,
}

/// Request: log in with a username and password.
#[derive(Clone, Debug, PartialEq, Eq)]
pub struct UserLoginRequest {
    pub username: String,
    pub password: String,
}

/// Response: a successful login, with an access and a refresh token.
#[derive(Clone, Debug, PartialEq, Eq)]
pub struct UserLoginResponse {
    pub access_token: String,
    pub refresh_token: String,
}

/// Request: exchange a refresh token for a new access token.
#[derive(Clone, Debug, PartialEq, Eq)]
pub struct UserLoginRefreshRequest {
    pub refresh_token: String,
}

/// Response: a new access token.
#[derive(Clone, Debug, PartialEq, Eq)]
pub struct UserLoginRefreshResponse {
    pub access_token: String,
}

/// Response of the ping endpoint.
#[derive(Clone, Copy, Debug, PartialEq, Eq, Structural)]
pub struct PingResponse {
    pub ok: bool,
}

/// A word category.
#[derive(Clone, Debug, PartialEq, Eq)]
pub struct Category {
    pub id: u128,
    pub parent_category_id: Option<u128>,
    pub slovene_name: String,
    pub english_name: String,
    pub created_at: Timestamp,
    pub last_modified_at: Timestamp,
}

/// Request: create a category.
#[derive(Clone, Debug, PartialEq, Eq)]
pub struct CategoryCreationRequest {
    pub parent_category_id: Option<u128>,
    pub slovene_name: String,
    pub english_name: String,
}

/// Response: a category was created.
#[derive(Clone, Debug, PartialEq, Eq)]
pub struct CategoryCreationResponse {
    pub category: Category,
}

/// Response: all categories.
#[derive(Clone, Debug, PartialEq, Eq)]
pub struct CategoriesResponse {
    pub categories: Vec<Category>,
}

/// Response: one category.
#[derive(Clone, Debug, PartialEq, Eq)]
pub struct CategoryResponse {
    pub category: Category,
}

/// Request: update a category; absent fields stay as they are.
/// `new_parent_category_id` is `Some(None)` to clear the parent.
#[derive(Clone, Debug, PartialEq, Eq)]
pub struct CategoryUpdateRequest {
    pub new_parent_category_id: Option<Option<u128>>,
    pub new_slovene_name: Option<String>,
    pub new_english_name: Option<String>,
}

/// A word (English or Slovene).
#[derive(Clone, Debug, PartialEq, Eq)]
pub struct WordRecord {
    pub id: u128,
    pub lemma: String,
    pub created_at: Timestamp,
    pub last_modified_at: Timestamp,
}

/// One meaning of a word.
#[derive(Clone, Debug, PartialEq, Eq)]
pub struct WordMeaningRecord {
    pub word_meaning_id: u128,
    pub disambiguation: Option<String>,
    pub abbreviation: Option<String>,
    pub description: Option<String>,
    pub created_at: Timestamp,
    pub last_modified_at: Timestamp,
}

/// A translation relationship, seen from one side: the meaning on the other side.
#[derive(Clone, Debug, PartialEq, Eq)]
pub struct ShallowTranslation {
    pub word_meaning_id: u128,
    pub translated_at: Timestamp,
    pub translated_by: Option<u128>,
}

/// A word meaning with its categories and translations.
#[derive(Clone, Debug, PartialEq, Eq)]
pub struct WordMeaningWithDetails {
    pub meaning: WordMeaningRecord,
    pub categories: Vec<u128>,
    pub translations: Vec<ShallowTranslation>,
}

/// A word with all of its meanings.
#[derive(Clone, Debug, PartialEq, Eq)]
pub struct WordWithMeanings {
    pub word: WordRecord,
    pub meanings: Vec<WordMeaningWithDetails>,
}

/// Filters for listing words.
#[derive(Clone, Copy, Debug, PartialEq, Eq, Structural)]
pub struct WordFilters {
    pub last_modified_after: Option<Timestamp>,
}

/// Request: list words, optionally filtered.
#[derive(Clone, Copy, Debug, PartialEq, Eq, Structural)]
pub struct WordsListRequest {
    pub filters: Option<WordFilters>,
}

/// Request: create an English word.
#[derive(Clone, Debug, PartialEq, Eq)]
pub struct EnglishWordCreationRequest {
    pub lemma: String,
}

/// Request: update an English word.
#[derive(Clone, Debug, PartialEq, Eq)]
pub struct EnglishWordUpdateRequest {
    pub lemma: Option<String>,
}

/// Request: create a Slovene word.
#[derive(Clone, Debug, PartialEq, Eq)]
pub struct SloveneWordCreationRequest {
    pub lemma: String,
}

/// Request: update a Slovene word.
#[derive(Clone, Debug, PartialEq, Eq)]
pub struct SloveneWordUpdateRequest {
    pub lemma: Option<String>,
}

/// Request: create a new meaning of an English word.
#[derive(Clone, Debug, PartialEq, Eq)]
pub struct NewEnglishWordMeaningRequest {
    pub disambiguation: Option<String>,
    pub abbreviation: Option<String>,
    pub description: Option<String>,
}

/// Request: update a meaning of an English word; `Some(None)` clears a field.
#[derive(Clone, Debug, PartialEq, Eq)]
pub struct EnglishWordMeaningUpdateRequest {
    pub disambiguation: Option<Option<String>>,
    pub abbreviation: Option<Option<String>>,
    pub description: Option<Option<String>>,
}

/// Request: create a new meaning of a Slovene word.
#[derive(Clone, Debug, PartialEq, Eq)]
pub struct NewSloveneWordMeaningRequest {
    pub disambiguation: Option<String>,
    pub abbreviation: Option<String>,
    pub description: Option<String>,
}

/// Request: update a meaning of a Slovene word; `Some(None)` clears a field.
#[derive(Clone, Debug, PartialEq, Eq)]
pub struct SloveneWordMeaningUpdateRequest {
    pub disambiguation: Option<Option<String>>,
    pub abbreviation: Option<Option<String>>,
    pub description: Option<Option<String>>,
}

/// Request: link an English and a Slovene word meaning as translations.
#[derive(Clone, Copy, Debug, PartialEq, Eq, Structural)]
pub struct TranslationCreationRequest {
    pub english_word_meaning_id: u128,
    pub slovene_word_meaning_id: u128,
}

/// Request: remove a translation link between two word meanings.
#[derive(Clone, Copy, Debug, PartialEq, Eq, Structural)]
pub struct TranslationDeletionRequest {
    pub english_word_meaning_id: u128,
    pub slovene_word_meaning_id: u128,
}

/// Request: suggest a translation between an English and a Slovene word.
#[derive(Clone, Debug, PartialEq, Eq)]
pub struct TranslationSuggestionRequest {
    pub english_word_id: String,
    pub slovene_word_id: String,
}

/// Request: remove a translation suggestion.
#[derive(Clone, Debug, PartialEq, Eq)]
pub struct TranslationSuggestionDeletionRequest {
    pub english_word_id: String,
    pub slovene_word_id: String,
}

/// Command-line arguments of the server.
#[derive(Clone, Debug, PartialEq, Eq)]
pub struct CLIArgs {
    /// Path to the configuration file; `None` means the default path.
    pub configuration_file_path: Option<String>,
    /// Whether pending database migrations are applied on startup.
    pub apply_pending_migrations: bool,
}

/// Converting a database-side record into the model the API exposes.
pub trait IntoApiModel<ApiModel>: Sized {
    fn into_api_model(self) -> ApiModel;
}

/// Fallibly converting a database-side record into the model the API exposes.
pub trait TryIntoApiModel<ApiModel>: Sized {
    type Error;

    fn try_into_api_model(self) -> Result<ApiModel, Self::Error>;
}

} // verus!
