//! The error taxonomy and the outward response shape.
//!
//! Every lifecycle operation fails with an [`ApiError`]; the variants carry
//! structured data rather than prose, so contracts can speak of them
//! exactly. [`error_response`] renders an error uniformly into the HTTP
//! status code and the [`Message`] body that callers serialise.

use vstd::prelude::*;
use vstd::string::StringExecFns;

use crate::permission::Permission;
use crate::permission::spec_name;

verus! {

/// Which kind of entity a dangling reference pointed at.
#[derive(Clone, Copy, PartialEq, Eq, Structural, Debug)]
pub enum EntityKind {
    User,
    Category,
    Post,
    Reply,
    Attachment,
}

/// A field-level or uniqueness complaint raised before anything is written.
#[derive(Clone, Copy, PartialEq, Eq, Structural, Debug)]
pub enum ValidationFault {
    /// The requested username is already taken (case-sensitive match).
    UserAlreadyExists,
    /// The supplied username or password did not authenticate.
    InvalidCredentials,
}

/// Why an authorisation was refused.
#[derive(Clone, Copy, PartialEq, Eq, Structural, Debug)]
pub enum DenialReason {
    /// The actor's level does not meet the required threshold.
    Threshold { held: Permission, required: Permission },
    /// The action is reserved to the record's creator.
    NotCreator,
}

/// A categorised failure of a lifecycle operation.
#[derive(Clone, Copy, PartialEq, Eq, Structural, Debug)]
pub enum ApiError {
    /// A referenced id did not resolve.
    NotFound(EntityKind),
    /// No valid actor session accompanied the request.
    Unauthenticated,
    /// The actor resolved but lacks the required permission or ownership.
    Unauthorized(DenialReason),
    /// A field constraint or uniqueness rule was violated.
    ValidationFailed(ValidationFault),
    /// The entity store or the one-way transform failed; surfaced
    /// generically, never with internals.
    StorageFailure,
}

/// The uniform response body.
#[derive(Debug)]
pub struct Message {
    pub ok: bool,
    pub message: String,
}

/// The outward text for each error.
pub open spec fn spec_message(e: ApiError) -> Seq<char> {
    match e {
        ApiError::NotFound(EntityKind::User) => "invalid user id"@,
        ApiError::NotFound(EntityKind::Category) => "invalid category id"@,
        ApiError::NotFound(EntityKind::Post) => "invalid post id"@,
        ApiError::NotFound(EntityKind::Reply) => "invalid reply id"@,
        ApiError::NotFound(EntityKind::Attachment) => "invalid attachment id"@,
        ApiError::Unauthenticated => "invalid session"@,
        ApiError::Unauthorized(DenialReason::Threshold { held, required }) => "you must be "@
            + spec_name(required) + " or above, you are "@ + spec_name(held),
        ApiError::Unauthorized(DenialReason::NotCreator) => "only the creator may do that"@,
        ApiError::ValidationFailed(ValidationFault::UserAlreadyExists) => "user already exists"@,
        ApiError::ValidationFailed(ValidationFault::InvalidCredentials) => (
        "invalid username or password"@),
        ApiError::StorageFailure => "internal server error"@,
    }
}

/// The HTTP status code for each error: 400 for a dangling reference or a
/// validation complaint, 403 for a missing session or a refused
/// authorisation, 500 for an internal failure.
pub open spec fn spec_status_code(e: ApiError) -> u16 {
    match e {
        ApiError::NotFound(_) => 400,
        ApiError::Unauthenticated => 403,
        ApiError::Unauthorized(_) => 403,
        ApiError::ValidationFailed(_) => 400,
        ApiError::StorageFailure => 500,
    }
}

impl ApiError {
    /// The outward text for this error.
    pub fn message(&self) -> (r: String)
        ensures
            r@ == spec_message(*self),
    {
        match self {
            ApiError::NotFound(EntityKind::User) => "invalid user id".to_owned(),
            ApiError::NotFound(EntityKind::Category) => "invalid category id".to_owned(),
            ApiError::NotFound(EntityKind::Post) => "invalid post id".to_owned(),
            ApiError::NotFound(EntityKind::Reply) => "invalid reply id".to_owned(),
            ApiError::NotFound(EntityKind::Attachment) => "invalid attachment id".to_owned(),
            ApiError::Unauthenticated => "invalid session".to_owned(),
            ApiError::Unauthorized(DenialReason::Threshold { held, required }) => (
            "you must be ".to_owned().concat(required.name().as_str()).concat(
                " or above, you are ",
            ).concat(held.name().as_str())),
            ApiError::Unauthorized(DenialReason::NotCreator) => (
            "only the creator may do that".to_owned()),
            ApiError::ValidationFailed(ValidationFault::UserAlreadyExists) => (
            "user already exists".to_owned()),
            ApiError::ValidationFailed(ValidationFault::InvalidCredentials) => (
            "invalid username or password".to_owned()),
            ApiError::StorageFailure => "internal server error".to_owned(),
        }
    }

    /// The HTTP status code for this error.
    pub fn status_code(&self) -> (r: u16)
        ensures
            r == spec_status_code(*self),
    {
        match self {
            ApiError::NotFound(_) => 400,
            ApiError::Unauthenticated => 403,
            ApiError::Unauthorized(_) => 403,
            ApiError::ValidationFailed(_) => 400,
            ApiError::StorageFailure => 500,
        }
    }
}

/// Renders an error into its status code and response body.
pub fn error_response(e: &ApiError) -> (r: (u16, Message))
    ensures
        r.0 == spec_status_code(*e),
        !r.1.ok,
        r.1.message@ == spec_message(*e),
{
    (e.status_code(), Message { ok: false, message: e.message() })
}

/// Renders a success into a `200` response body.
pub fn ok_response(text: &str) -> (r: (u16, Message))
    ensures
        r.0 == 200,
        r.1.ok,
        r.1.message@ == text@,
{
    (200, Message { ok: true, message: text.to_owned() })
}

/// Renders a creation into a `201` response body.
pub fn created_response(text: &str) -> (r: (u16, Message))
    ensures
        r.0 == 201,
        r.1.ok,
        r.1.message@ == text@,
{
    (201, Message { ok: true, message: text.to_owned() })
}

} // verus!
