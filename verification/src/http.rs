//! How the HTTP endpoints answer: status codes and error bodies.

use vstd::prelude::*;

use crate::text::{decimal, push_decimal};

verus! {

/// 200 OK.
pub const STATUS_OK: u16 = 200;

/// 201 Created.
pub const STATUS_CREATED: u16 = 201;

/// 307 Temporary Redirect.
pub const STATUS_TEMPORARY_REDIRECT: u16 = 307;

/// 400 Bad Request.
pub const STATUS_BAD_REQUEST: u16 = 400;

/// 404 Not Found.
pub const STATUS_NOT_FOUND: u16 = 404;

/// 409 Conflict.
pub const STATUS_CONFLICT: u16 = 409;

/// 500 Internal Server Error.
pub const STATUS_INTERNAL_SERVER_ERROR: u16 = 500;

/// The body of an error reply: a message for the client and an identifier
/// under which the failure can be found in the logs.
#[derive(Clone, Debug, PartialEq, Eq)]
pub struct Error {
    error: String,
    error_id: String,
}

impl View for Error {
    /// The message and the identifier.
    type V = (Seq<char>, Seq<char>);

    closed spec fn view(&self) -> (Seq<char>, Seq<char>) {
        (self.error@, self.error_id@)
    }
}

impl Error {
    /// An error body with the given message and identifier.
    pub fn new(error: String, error_id: String) -> (r: Error)
        ensures
            r@ == (error@, error_id@),
    {
        Error { error, error_id }
    }

    /// The message for the client.
    pub fn error(&self) -> (r: &str)
        ensures
            r@ == self@.0,
    {
        self.error.as_str()
    }

    /// The identifier of the failure.
    pub fn error_id(&self) -> (r: &str)
        ensures
            r@ == self@.1,
    {
        self.error_id.as_str()
    }
}

/// Which message an error reply carries.
#[derive(Clone, Copy, Debug, PartialEq, Eq, Structural)]
pub enum ErrorText {
    /// The fixed text "Not found".
    NotFound,
    /// The fixed text "Internal server error"; details stay in the logs.
    InternalServerError,
    /// The failure's own description, which the client may read.
    Described,
}

/// The fixed text of an error reply, or `None` when the failure's own
/// description is sent.
pub fn fixed_text(text: ErrorText) -> (r: Option<&'static str>)
    ensures
        match text {
            ErrorText::NotFound => r matches Some(s) && s@ == "Not found"@,
            ErrorText::InternalServerError => r matches Some(s) && s@ == "Internal server error"@,
            ErrorText::Described => r is None,
        },
{
    match text {
        ErrorText::NotFound => Some("Not found"),
        ErrorText::InternalServerError => Some("Internal server error"),
        ErrorText::Described => None,
    }
}

/// The fixed text of an error reply as characters, or `None` when the
/// failure's own description is sent.
pub open spec fn fixed_text_of(text: ErrorText) -> Option<Seq<char>> {
    match text {
        ErrorText::NotFound => Some("Not found"@),
        ErrorText::InternalServerError => Some("Internal server error"@),
        ErrorText::Described => None,
    }
}

/// An error reply: its status code and its message.
#[derive(Clone, Copy, Debug, PartialEq, Eq, Structural)]
pub struct ErrorReply {
    pub status: u16,
    pub text: ErrorText,
}

/// The body of an error reply: the fixed text of `reply` when it has one (so
/// an internal failure's cause never reaches the client), the failure's own
/// `description` otherwise, and `error_id` unchanged.
pub fn error_body(reply: ErrorReply, description: String, error_id: String) -> (r: Error)
    ensures
        r@.0 == (match fixed_text_of(reply.text) {
            Some(text) => text,
            None => description@,
        }),
        r@.1 == error_id@,
{
    let message = match fixed_text(reply.text) {
        Some(text) => text.to_owned(),
        None => description,
    };
    Error::new(message, error_id)
}

/// Why reading a short URL through the service failed.
#[derive(Clone, Copy, Debug, PartialEq, Eq, Structural)]
pub enum GetUrlFailure {
    NotFound,
    Db,
}

/// Whether saving under a chosen identifier created the entry or found it.
#[derive(Clone, Copy, Debug, PartialEq, Eq, Structural)]
pub enum UrlCreationStatus {
    NewlyCreated,
    AlreadyExists,
}

/// Why saving a short URL under a chosen identifier failed.
#[derive(Clone, Copy, Debug, PartialEq, Eq, Structural)]
pub enum PutUrlFailure {
    ShortIdAlreadyTaken,
    TimestampParse,
    InvalidExpirationTime,
    InvalidShortId,
    InvalidUrl,
    Internal,
}

/// Why saving a short URL under a generated identifier failed.
#[derive(Clone, Copy, Debug, PartialEq, Eq, Structural)]
pub enum PostUrlFailure {
    TimestampParse,
    InvalidExpirationTime,
    InvalidUrl,
    Internal,
}

/// The reply to a failed read: 404 with "Not found" for an unknown or expired
/// identifier, 500 with "Internal server error" for a database failure.
pub fn get_url_failure_reply(failure: GetUrlFailure) -> (r: ErrorReply)
    ensures
        r == (match failure {
            GetUrlFailure::NotFound => ErrorReply {
                status: STATUS_NOT_FOUND,
                text: ErrorText::NotFound,
            },
            GetUrlFailure::Db => ErrorReply {
                status: STATUS_INTERNAL_SERVER_ERROR,
                text: ErrorText::InternalServerError,
            },
        }),
{
    match failure {
        GetUrlFailure::NotFound => ErrorReply { status: STATUS_NOT_FOUND, text: ErrorText::NotFound },
        GetUrlFailure::Db => ErrorReply {
            status: STATUS_INTERNAL_SERVER_ERROR,
            text: ErrorText::InternalServerError,
        },
    }
}

/// The reply to a successful read: a temporary redirect to the long URL,
/// which caches may keep for `max_age_seconds` seconds.
pub struct RedirectReply {
    pub status: u16,
    /// The value of the `Location` header.
    pub location: String,
    /// The value of the `Cache-Control` header.
    pub cache_control: String,
}

/// The `Cache-Control` value that lets any cache keep a reply for
/// `max_age_seconds` seconds.
pub fn cache_control_value(max_age_seconds: u64) -> (r: String)
    ensures
        r@ == "public, max-age="@ + decimal(max_age_seconds as nat),
{
    let mut value = "public, max-age=".to_owned();
    push_decimal(&mut value, max_age_seconds);
    value
}

/// The reply to a successful read: 307 to `url`, cacheable publicly for
/// `max_age_seconds` seconds.
pub fn get_url_success_reply(url: String, max_age_seconds: u64) -> (r: RedirectReply)
    ensures
        r.status == STATUS_TEMPORARY_REDIRECT,
        r.location@ == url@,
        r.cache_control@ == "public, max-age="@ + decimal(max_age_seconds as nat),
{
    RedirectReply {
        status: STATUS_TEMPORARY_REDIRECT,
        location: url,
        cache_control: cache_control_value(max_age_seconds),
    }
}

/// The status of a successful save under a chosen identifier: 201 when the
/// entry was created, 200 when the same entry already existed.
pub fn put_url_success_status(status: UrlCreationStatus) -> (r: u16)
    ensures
        r == (match status {
            UrlCreationStatus::NewlyCreated => STATUS_CREATED,
            UrlCreationStatus::AlreadyExists => STATUS_OK,
        }),
{
    match status {
        UrlCreationStatus::NewlyCreated => STATUS_CREATED,
        UrlCreationStatus::AlreadyExists => STATUS_OK,
    }
}

/// The reply to a failed save under a chosen identifier: 409 when the
/// identifier holds another entry, 400 for a malformed request, 500 for an
/// internal failure; the client reads the failure's own description except
/// for internal failures.
pub fn put_url_failure_reply(failure: PutUrlFailure) -> (r: ErrorReply)
    ensures
        r == (match failure {
            PutUrlFailure::ShortIdAlreadyTaken => ErrorReply {
                status: STATUS_CONFLICT,
                text: ErrorText::Described,
            },
            PutUrlFailure::Internal => ErrorReply {
                status: STATUS_INTERNAL_SERVER_ERROR,
                text: ErrorText::InternalServerError,
            },
            _ => ErrorReply { status: STATUS_BAD_REQUEST, text: ErrorText::Described },
        }),
{
    match failure {
        PutUrlFailure::ShortIdAlreadyTaken => ErrorReply {
            status: STATUS_CONFLICT,
            text: ErrorText::Described,
        },
        PutUrlFailure::TimestampParse
        | PutUrlFailure::InvalidExpirationTime
        | PutUrlFailure::InvalidShortId
        | PutUrlFailure::InvalidUrl => ErrorReply {
            status: STATUS_BAD_REQUEST,
            text: ErrorText::Described,
        },
        PutUrlFailure::Internal => ErrorReply {
            status: STATUS_INTERNAL_SERVER_ERROR,
            text: ErrorText::InternalServerError,
        },
    }
}

/// The status of a successful save under a generated identifier.
pub fn post_url_success_status() -> (r: u16)
    ensures
        r == STATUS_OK,
{
    STATUS_OK
}

/// The reply to a failed save under a generated identifier: 400 for a
/// malformed request with the failure's own description, 500 with
/// "Internal server error" for an internal failure.
pub fn post_url_failure_reply(failure: PostUrlFailure) -> (r: ErrorReply)
    ensures
        r == (match failure {
            PostUrlFailure::Internal => ErrorReply {
                status: STATUS_INTERNAL_SERVER_ERROR,
                text: ErrorText::InternalServerError,
            },
            _ => ErrorReply { status: STATUS_BAD_REQUEST, text: ErrorText::Described },
        }),
{
    match failure {
        PostUrlFailure::TimestampParse
        | PostUrlFailure::InvalidExpirationTime
        | PostUrlFailure::InvalidUrl => ErrorReply {
            status: STATUS_BAD_REQUEST,
            text: ErrorText::Described,
        },
        PostUrlFailure::Internal => ErrorReply {
            status: STATUS_INTERNAL_SERVER_ERROR,
            text: ErrorText::InternalServerError,
        },
    }
}

/// The reply to a health check: 200 with the text "OK".
pub fn health_reply() -> (r: (u16, &'static str))
    ensures
        r.0 == STATUS_OK,
        r.1@ == "OK"@,
{
    (STATUS_OK, "OK")
}

} // verus!
