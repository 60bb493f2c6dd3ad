//! Short URLs and the rows that store them.

use vstd::prelude::*;

use crate::expiration::{
    expiration_accepts, expiration_error_matches, ExpirationTime, ExpirationTimeValidationError,
};
use crate::long_url::{is_normal_url, url_serialization, LongUrl};
use crate::short_id::{is_valid_short_id, short_id_error_matches, ShortId, ShortIdValidationError};
use crate::clock::is_clock_reading;
use crate::timestamp::Timestamp;

verus! {

/// A short identifier published for a long URL until an expiration time.
#[derive(Clone, Debug, PartialEq, Eq, PartialOrd, Ord)]
pub struct ShortUrl {
    short_id: ShortId,
    url: LongUrl,
    expiration_time: ExpirationTime,
}

/// What a `ShortUrl` holds, as mathematical values.
pub struct ShortUrlView {
    pub short_id: Seq<char>,
    pub url: Seq<char>,
    pub expiration: int,
}

impl View for ShortUrl {
    type V = ShortUrlView;

    closed spec fn view(&self) -> ShortUrlView {
        ShortUrlView {
            short_id: self.short_id@,
            url: self.url@,
            expiration: self.expiration_time@,
        }
    }
}

/// A row of the short URL table: the identifier (its key), the long URL as
/// text, and the expiration instant.
#[derive(Clone, Debug, PartialEq, Eq)]
pub struct StoredUrl {
    pub id: String,
    pub long_url: String,
    pub expiration_time: Timestamp,
}

/// What a `StoredUrl` holds, as mathematical values.
pub struct StoredUrlView {
    pub id: Seq<char>,
    pub long_url: Seq<char>,
    pub expiration: int,
}

impl View for StoredUrl {
    type V = StoredUrlView;

    open spec fn view(&self) -> StoredUrlView {
        StoredUrlView { id: self.id@, long_url: self.long_url@, expiration: self.expiration_time@ }
    }
}

/// Why a stored row does not make a valid short URL.
#[derive(Debug)]
pub enum ShortUrlConversionError {
    InvalidShortId(ShortIdValidationError),
    InvalidUrl(url::ParseError),
    InvalidExpirationTime(ExpirationTimeValidationError),
}

/// The short URL that `row` makes when the clock reads `now`, if it makes one:
/// its identifier must be valid, its long URL must parse, and its expiration
/// must be acceptable at `now`.
pub open spec fn stored_to_view(row: StoredUrlView, now: int) -> Option<ShortUrlView> {
    if is_valid_short_id(row.id) && url_serialization(row.long_url) is Some && expiration_accepts(
        row.expiration,
        now,
    ) {
        Some(
            ShortUrlView {
                short_id: row.id,
                url: url_serialization(row.long_url)->0,
                expiration: row.expiration,
            },
        )
    } else {
        None
    }
}

/// `e` is the error that converting `row` at `now` reports: the first of the
/// identifier, the URL and the expiration time that is refused.
pub open spec fn conversion_error_matches(
    e: ShortUrlConversionError,
    row: StoredUrlView,
    now: int,
) -> bool {
    match e {
        ShortUrlConversionError::InvalidShortId(ie) => {
            &&& !is_valid_short_id(row.id)
            &&& short_id_error_matches(ie, row.id)
        },
        ShortUrlConversionError::InvalidUrl(_) => {
            &&& is_valid_short_id(row.id)
            &&& url_serialization(row.long_url) is None
        },
        ShortUrlConversionError::InvalidExpirationTime(ee) => {
            &&& is_valid_short_id(row.id)
            &&& url_serialization(row.long_url) is Some
            &&& !expiration_accepts(row.expiration, now)
            &&& expiration_error_matches(ee, row.expiration, now)
        },
    }
}

/// `r` is what converting `row` gives when the clock reads `now`.
pub open spec fn conversion_matches(
    r: Result<ShortUrl, ShortUrlConversionError>,
    row: StoredUrlView,
    now: int,
) -> bool {
    match r {
        Ok(u) => stored_to_view(row, now) == Some(u@),
        Err(e) => stored_to_view(row, now) is None && conversion_error_matches(e, row, now),
    }
}

impl ShortUrl {
    /// Puts a short URL together from its parts.
    pub fn new(short_id: ShortId, url: LongUrl, expiration_time: ExpirationTime) -> (r: ShortUrl)
        ensures
            r@ == (ShortUrlView { short_id: short_id@, url: url@, expiration: expiration_time@ }),
    {
        ShortUrl { short_id, url, expiration_time }
    }

    /// The short identifier.
    pub fn short_id(&self) -> (r: &ShortId)
        ensures
            r@ == self@.short_id,
    {
        &self.short_id
    }

    /// The long URL.
    pub fn url(&self) -> (r: &LongUrl)
        ensures
            r@ == self@.url,
    {
        &self.url
    }

    /// The expiration time.
    pub fn expiration_time(&self) -> (r: ExpirationTime)
        ensures
            r@ == self@.expiration,
    {
        self.expiration_time
    }

    /// The row that stores this short URL.
    pub fn to_stored(self) -> (r: StoredUrl)
        ensures
            r@ == (StoredUrlView {
                id: self@.short_id,
                long_url: self@.url,
                expiration: self@.expiration,
            }),
            is_valid_short_id(r@.id),
            is_normal_url(r@.long_url),
    {
        let id = self.short_id.into_inner();
        let long_url = self.url.as_str().to_owned();
        let expiration_time = self.expiration_time.into_inner();
        StoredUrl { id, long_url, expiration_time }
    }

    /// Rebuilds a short URL from a stored row, checking its expiration against
    /// the instant `now`.
    pub fn try_from_at(row: StoredUrl, now: Timestamp) -> (r: Result<
        ShortUrl,
        ShortUrlConversionError,
    >)
        ensures
            conversion_matches(r, row@, now@),
    {
        let StoredUrl { id, long_url, expiration_time } = row;
        let short_id = match ShortId::new(id) {
            Ok(short_id) => short_id,
            Err(e) => return Err(ShortUrlConversionError::InvalidShortId(e)),
        };
        let url = match LongUrl::parse(long_url.as_str()) {
            Ok(url) => url,
            Err(e) => return Err(ShortUrlConversionError::InvalidUrl(e)),
        };
        let expiration_time = match ExpirationTime::validate_at(expiration_time, now) {
            Ok(t) => t,
            Err(e) => return Err(ShortUrlConversionError::InvalidExpirationTime(e)),
        };
        Ok(ShortUrl { short_id, url, expiration_time })
    }

    /// Rebuilds a short URL from a stored row: the identifier must be valid,
    /// the long URL must parse, and the expiration time must be acceptable
    /// now (checked in that order).
    pub fn try_from(row: StoredUrl) -> (r: Result<ShortUrl, ShortUrlConversionError>)
        ensures
            exists|now: int| is_clock_reading(now) && #[trigger] conversion_matches(r, row@, now),
    {
        let now = Timestamp::now();
        Self::try_from_at(row, now)
    }
}

/// Converting a row at the instant `now` refuses a row whose expiration is
/// before `now` as in the past, once its identifier and URL are good.
pub proof fn lemma_conversion_refuses_expired_rows(
    r: Result<ShortUrl, ShortUrlConversionError>,
    row: StoredUrlView,
    now: int,
)
    requires
        conversion_matches(r, row, now),
        is_valid_short_id(row.id),
        url_serialization(row.long_url) is Some,
        row.expiration < now,
    ensures
        r matches Err(
            ShortUrlConversionError::InvalidExpirationTime(ExpirationTimeValidationError::InPast),
        ),
{
}

/// Converting a row at the instant `now` gives its short URL (identifier,
/// normalized URL and expiration) when its identifier and URL are good and
/// its expiration lies from `now` to ten years of 365 days after it.
pub proof fn lemma_conversion_accepts_live_rows(
    r: Result<ShortUrl, ShortUrlConversionError>,
    row: StoredUrlView,
    now: int,
)
    requires
        conversion_matches(r, row, now),
        is_valid_short_id(row.id),
        url_serialization(row.long_url) is Some,
        now <= row.expiration <= now + 3650 * 86_400_000_000_000,
    ensures
        r matches Ok(u) && u@ == (ShortUrlView {
            short_id: row.id,
            url: url_serialization(row.long_url)->0,
            expiration: row.expiration,
        }),
{
}

} // verus!
