//! Machine-readable reasons attached to error responses.

use vstd::prelude::*;
use crate::permissions::Permission;
use crate::roles::Role;

verus! {

/// Why a JSON request body could not be used.
#[derive(Clone, Copy, Debug, PartialEq, Eq, Structural)]
pub enum InvalidJsonBodyReason {
    /// The body is not JSON at all (syntax error, I/O error or early end of input).
    NotJson,
    /// The body is JSON, but does not match the expected schema.
    InvalidData,
    /// The body exceeds the configured size limit.
    TooLarge,
}

/// Reasons related to logging in.
#[derive(Clone, Copy, Debug, PartialEq, Eq, Structural)]
pub enum LoginErrorReason {
    InvalidLoginCredentials,
    ExpiredRefreshToken,
    InvalidRefreshJsonWebToken,
    NotARefreshToken,
}

/// Reasons related to user accounts.
#[derive(Clone, Debug, PartialEq, Eq)]
pub enum UsersErrorReason {
    UserNotFound,
    UsernameAlreadyExists,
    DisplayNameAlreadyExists,
    CannotModifyYourOwnAccount,
    InvalidRoleName { role_name: String },
    UnableToGiveOutUnownedRole { role: Role },
    UnableToTakeAwayUnownedRole { role: Role },
}

/// Reasons related to words and word meanings.
#[derive(Clone, Copy, Debug, PartialEq, Eq, Structural)]
pub enum WordErrorReason {
    WordNotFound,
    WordWithGivenLemmaAlreadyExists,
    IdenticalWordMeaningAlreadyExists,
    WordMeaningNotFound,
}

/// Reasons related to categories.
#[derive(Clone, Copy, Debug, PartialEq, Eq, Structural)]
pub enum CategoryErrorReason {
    SloveneNameAlreadyExists,
    EnglishNameAlreadyExists,
    CategoryNotFound,
    NoFieldsToUpdate,
}

/// Reasons related to translation relationships.
#[derive(Clone, Copy, Debug, PartialEq, Eq, Structural)]
pub enum TranslationsErrorReason {
    EnglishWordMeaningNotFound,
    SloveneWordMeaningNotFound,
    TranslationRelationshipAlreadyExists,
    TranslationRelationshipNotFound,
}

/// A reason attached to an error response.
#[derive(Clone, Debug, PartialEq, Eq)]
pub enum ErrorReason {
    MissingJsonBody,
    InvalidJsonBody { reason: InvalidJsonBodyReason },
    InvalidUuidFormat,
    MissingAuthentication,
    MissingPermission { permission: Permission },
    Login(LoginErrorReason),
    Users(UsersErrorReason),
    Word(WordErrorReason),
    Category(CategoryErrorReason),
    Translations(TranslationsErrorReason),
}

/// A short human-readable description of a reason.
pub open spec fn reason_description(reason: ErrorReason) -> Seq<char> {
    match reason {
        ErrorReason::MissingJsonBody => "missing JSON body"@,
        ErrorReason::InvalidJsonBody { reason } => match reason {
            InvalidJsonBodyReason::NotJson => "invalid JSON body: not JSON"@,
            InvalidJsonBodyReason::InvalidData => "invalid JSON body: invalid data"@,
            InvalidJsonBodyReason::TooLarge => "invalid JSON body: too large"@,
        },
        ErrorReason::InvalidUuidFormat => "invalid UUID format"@,
        ErrorReason::MissingAuthentication => "missing authentication"@,
        ErrorReason::MissingPermission { .. } => "missing permission"@,
        ErrorReason::Login(r) => match r {
            LoginErrorReason::InvalidLoginCredentials => "invalid login credentials"@,
            LoginErrorReason::ExpiredRefreshToken => "expired refresh token"@,
            LoginErrorReason::InvalidRefreshJsonWebToken => "invalid refresh token"@,
            LoginErrorReason::NotARefreshToken => "not a refresh token"@,
        },
        ErrorReason::Users(r) => match r {
            UsersErrorReason::UserNotFound => "user not found"@,
            UsersErrorReason::UsernameAlreadyExists => "username already exists"@,
            UsersErrorReason::DisplayNameAlreadyExists => "display name already exists"@,
            UsersErrorReason::CannotModifyYourOwnAccount => "cannot modify your own account"@,
            UsersErrorReason::InvalidRoleName { .. } => "invalid role name"@,
            UsersErrorReason::UnableToGiveOutUnownedRole { .. } => "unable to give out unowned role"@,
            UsersErrorReason::UnableToTakeAwayUnownedRole { .. } => "unable to take away unowned role"@,
        },
        ErrorReason::Word(r) => match r {
            WordErrorReason::WordNotFound => "word not found"@,
            WordErrorReason::WordWithGivenLemmaAlreadyExists => "word with given lemma already exists"@,
            WordErrorReason::IdenticalWordMeaningAlreadyExists => "identical word meaning already exists"@,
            WordErrorReason::WordMeaningNotFound => "word meaning not found"@,
        },
        ErrorReason::Category(r) => match r {
            CategoryErrorReason::SloveneNameAlreadyExists => "category with given slovene name already exists"@,
            CategoryErrorReason::EnglishNameAlreadyExists => "category with given english name already exists"@,
            CategoryErrorReason::CategoryNotFound => "category not found"@,
            CategoryErrorReason::NoFieldsToUpdate => "no fields to update"@,
        },
        ErrorReason::Translations(r) => match r {
            TranslationsErrorReason::EnglishWordMeaningNotFound => "english word meaning not found"@,
            TranslationsErrorReason::SloveneWordMeaningNotFound => "slovene word meaning not found"@,
            TranslationsErrorReason::TranslationRelationshipAlreadyExists => "translation relationship already exists"@,
            TranslationsErrorReason::TranslationRelationshipNotFound => "translation relationship not found"@,
        },
    }
}

impl ErrorReason {
    /// A short human-readable description of this reason.
    pub fn reason_description(&self) -> (r: &'static str)
        ensures
            r@ == reason_description(*self),
    {
        match self {
            ErrorReason::MissingJsonBody => "missing JSON body",
            ErrorReason::InvalidJsonBody { reason } => match reason {
                InvalidJsonBodyReason::NotJson => "invalid JSON body: not JSON",
                InvalidJsonBodyReason::InvalidData => "invalid JSON body: invalid data",
                InvalidJsonBodyReason::TooLarge => "invalid JSON body: too large",
            },
            ErrorReason::InvalidUuidFormat => "invalid UUID format",
            ErrorReason::MissingAuthentication => "missing authentication",
            ErrorReason::MissingPermission { .. } => "missing permission",
            ErrorReason::Login(r) => match r {
                LoginErrorReason::InvalidLoginCredentials => "invalid login credentials",
                LoginErrorReason::ExpiredRefreshToken => "expired refresh token",
                LoginErrorReason::InvalidRefreshJsonWebToken => "invalid refresh token",
                LoginErrorReason::NotARefreshToken => "not a refresh token",
            },
            ErrorReason::Users(r) => match r {
                UsersErrorReason::UserNotFound => "user not found",
                UsersErrorReason::UsernameAlreadyExists => "username already exists",
                UsersErrorReason::DisplayNameAlreadyExists => "display name already exists",
                UsersErrorReason::CannotModifyYourOwnAccount => "cannot modify your own account",
                UsersErrorReason::InvalidRoleName { .. } => "invalid role name",
                UsersErrorReason::UnableToGiveOutUnownedRole { .. } => "unable to give out unowned role",
                UsersErrorReason::UnableToTakeAwayUnownedRole { .. } => "unable to take away unowned role",
            },
            ErrorReason::Word(r) => match r {
                WordErrorReason::WordNotFound => "word not found",
                WordErrorReason::WordWithGivenLemmaAlreadyExists => "word with given lemma already exists",
                WordErrorReason::IdenticalWordMeaningAlreadyExists => "identical word meaning already exists",
                WordErrorReason::WordMeaningNotFound => "word meaning not found",
            },
            ErrorReason::Category(r) => match r {
                CategoryErrorReason::SloveneNameAlreadyExists => "category with given slovene name already exists",
                CategoryErrorReason::EnglishNameAlreadyExists => "category with given english name already exists",
                CategoryErrorReason::CategoryNotFound => "category not found",
                CategoryErrorReason::NoFieldsToUpdate => "no fields to update",
            },
            ErrorReason::Translations(r) => match r {
                TranslationsErrorReason::EnglishWordMeaningNotFound => "english word meaning not found",
                TranslationsErrorReason::SloveneWordMeaningNotFound => "slovene word meaning not found",
                TranslationsErrorReason::TranslationRelationshipAlreadyExists => "translation relationship already exists",
                TranslationsErrorReason::TranslationRelationshipNotFound => "translation relationship not found",
            },
        }
    }
}

} // verus!
