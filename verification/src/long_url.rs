//! Long URLs: absolute URLs in the normal form that the `url` crate gives them.

use vstd::prelude::*;

verus! {

/// `url::ParseError`: why a string is not an absolute URL.
#[verifier::external_type_specification]
#[verifier::external_body]
pub struct ExParseError(url::ParseError);

/// The serialization of `url::Url::parse(input)` when it succeeds, `None` when
/// it fails.  Parsing depends on the input alone.
pub uninterp spec fn url_serialization(input: Seq<char>) -> Option<Seq<char>>;

/// Calls `url::Url::parse` and keeps the parsed URL's serialization
/// (`Url::as_str`, obtained through `From<Url> for String`).  The contract
/// states that success and the serialization are those named by
/// `url_serialization`, and that a serialization parses back to itself (the
/// crate keeps this as an invariant of every `Url`: `Url::check_invariants`
/// reparses `as_str()` and requires the same serialization).  Which
/// `ParseError` variant a failure carries is left unsaid.
#[verifier::external_body]
fn parse_serialization(input: &str) -> (r: Result<String, url::ParseError>)
    ensures
        r is Ok <==> url_serialization(input@) is Some,
        r matches Ok(s) ==> url_serialization(input@) == Some(s@),
        r matches Ok(s) ==> url_serialization(s@) == Some(s@),
{
    url::Url::parse(input).map(String::from)
}

/// An absolute URL, held as its normalized serialization.
#[derive(Debug, PartialEq, Eq, PartialOrd, Ord, Hash)]
pub struct LongUrl {
    serialization: String,
}

impl Clone for LongUrl {
    fn clone(&self) -> (r: Self)
        ensures
            r@ == self@,
    {
        proof {
            use_type_invariant(self);
        }
        LongUrl { serialization: self.serialization.clone() }
    }
}

impl View for LongUrl {
    type V = Seq<char>;

    closed spec fn view(&self) -> Seq<char> {
        self.serialization@
    }
}

/// `s` is an absolute URL in normal form: it parses to itself.
pub open spec fn is_normal_url(s: Seq<char>) -> bool {
    url_serialization(s) == Some(s)
}

impl LongUrl {
    /// Every `LongUrl` is in normal form.
    #[verifier::type_invariant]
    closed spec fn inv(self) -> bool {
        is_normal_url(self.serialization@)
    }

    /// Parses `input` as an absolute URL.
    pub fn parse(input: &str) -> (r: Result<LongUrl, url::ParseError>)
        ensures
            r is Ok <==> url_serialization(input@) is Some,
            r matches Ok(u) ==> url_serialization(input@) == Some(u@) && is_normal_url(u@),
    {
        match parse_serialization(input) {
            Ok(serialization) => Ok(LongUrl { serialization }),
            Err(e) => Err(e),
        }
    }

    /// The serialization of the URL.
    pub fn as_str(&self) -> (r: &str)
        ensures
            r@ == self@,
            is_normal_url(r@),
    {
        proof {
            use_type_invariant(self);
        }
        self.serialization.as_str()
    }
}

} // verus!
