//! Short identifiers: the path segment under which a long URL is published.

use vstd::prelude::*;
use vstd::utf8::encode_utf8;

use crate::text::push_char;

verus! {

broadcast use vstd::string::group_string_axioms;

/// Fewest bytes a short identifier may have.
pub const SHORT_ID_MIN_LEN: usize = 6;

/// Most bytes a short identifier may have.
pub const SHORT_ID_MAX_LEN: usize = 16;

/// `c` is an ASCII digit or an ASCII letter of either case.
pub open spec fn is_alphanumeric(c: char) -> bool {
    ||| ('0' <= c && c <= '9')
    ||| ('a' <= c && c <= 'z')
    ||| ('A' <= c && c <= 'Z')
}

/// Number of bytes of the UTF-8 encoding of `s`.
pub open spec fn byte_len(s: Seq<char>) -> nat {
    encode_utf8(s).len()
}

/// The characters of `s` that are not ASCII alphanumeric, in their order.
pub open spec fn invalid_chars_of(s: Seq<char>) -> Seq<char> {
    s.filter(|c: char| !is_alphanumeric(c))
}

/// `s` is an acceptable short identifier.
pub open spec fn is_valid_short_id(s: Seq<char>) -> bool {
    &&& SHORT_ID_MIN_LEN <= byte_len(s) <= SHORT_ID_MAX_LEN
    &&& invalid_chars_of(s).len() == 0
}

/// `e` is the error that validating `s` reports: a length error when the
/// UTF-8 length is out of bounds, otherwise the list of offending characters.
pub open spec fn short_id_error_matches(e: ShortIdValidationError, s: Seq<char>) -> bool {
    match e {
        ShortIdValidationError::InvalidLength { min_len, max_len } => {
            &&& !(SHORT_ID_MIN_LEN <= byte_len(s) <= SHORT_ID_MAX_LEN)
            &&& min_len == SHORT_ID_MIN_LEN
            &&& max_len == SHORT_ID_MAX_LEN
        },
        ShortIdValidationError::InvalidCharacters { invalid_chars } => {
            &&& SHORT_ID_MIN_LEN <= byte_len(s) <= SHORT_ID_MAX_LEN
            &&& invalid_chars_of(s).len() != 0
            &&& invalid_chars@ == invalid_chars_of(s)
        },
    }
}

/// Why a string was refused as a short identifier.
#[derive(Debug, Clone, PartialEq, Eq)]
pub enum ShortIdValidationError {
    InvalidLength { min_len: usize, max_len: usize },
    InvalidCharacters { invalid_chars: String },
}

/// A validated short identifier.
#[derive(Debug, PartialEq, Eq, PartialOrd, Ord, Hash)]
pub struct ShortId {
    inner: String,
}

impl View for ShortId {
    type V = Seq<char>;

    closed spec fn view(&self) -> Seq<char> {
        self.inner@
    }
}

impl Clone for ShortId {
    fn clone(&self) -> (r: Self)
        ensures
            r@ == self@,
    {
        proof {
            use_type_invariant(self);
        }
        ShortId { inner: self.inner.clone() }
    }
}

/// ASCII alphanumeric test on one character.
pub fn is_ascii_alphanumeric(c: char) -> (r: bool)
    ensures
        r == is_alphanumeric(c),
{
    ('0' <= c && c <= '9') || ('a' <= c && c <= 'z') || ('A' <= c && c <= 'Z')
}

/// The characters of `s` that are not ASCII alphanumeric, in order.
pub fn collect_invalid_chars(s: &str) -> (r: String)
    ensures
        r@ == invalid_chars_of(s@),
{
    let mut out = String::new();
    for c in it: s.chars()
        invariant
            it.seq() == s@,
            out@ == invalid_chars_of(s@.take(it.index())),
    {
        let ghost i = it.index();
        if !is_ascii_alphanumeric(c) {
            push_char(&mut out, c);
        }
        proof {
            reveal(Seq::filter);
            assert(s@.take(i + 1).drop_last() =~= s@.take(i));
        }
    }
    proof {
        assert(s@.take(s@.len() as int) =~= s@);
    }
    out
}

impl ShortId {
    /// Every `ShortId` holds an acceptable identifier.
    #[verifier::type_invariant]
    closed spec fn inv(self) -> bool {
        is_valid_short_id(self.inner@)
    }

    /// Validates `short_id`: its UTF-8 length must lie in
    /// `SHORT_ID_MIN_LEN..=SHORT_ID_MAX_LEN`, and every character must be an
    /// ASCII letter or digit.  The length is checked first.
    pub fn new(short_id: String) -> (r: Result<Self, ShortIdValidationError>)
        ensures
            r is Ok <==> is_valid_short_id(short_id@),
            r matches Ok(id) ==> id@ == short_id@,
            r matches Err(e) ==> short_id_error_matches(e, short_id@),
    {
        let (min_len, max_len) = (SHORT_ID_MIN_LEN, SHORT_ID_MAX_LEN);
        let len = short_id.as_str().as_bytes().len();
        if !(min_len <= len && len <= max_len) {
            return Err(ShortIdValidationError::InvalidLength { min_len, max_len });
        }
        let invalid_chars = collect_invalid_chars(short_id.as_str());
        if !invalid_chars.as_str().is_empty() {
            return Err(ShortIdValidationError::InvalidCharacters { invalid_chars });
        }
        Ok(ShortId { inner: short_id })
    }

    /// The identifier as a string slice.
    pub fn as_str(&self) -> (r: &str)
        ensures
            r@ == self@,
            is_valid_short_id(r@),
    {
        proof {
            use_type_invariant(self);
        }
        self.inner.as_str()
    }

    /// Gives the identifier's string back.
    pub fn into_inner(self) -> (r: String)
        ensures
            r@ == self@,
            is_valid_short_id(r@),
    {
        proof {
            use_type_invariant(&self);
        }
        self.inner
    }
}

/// The ASCII letters and digits are exactly the characters with code points
/// 48 to 57 (`0`-`9`), 65 to 90 (`A`-`Z`) and 97 to 122 (`a`-`z`).
pub proof fn lemma_alphanumeric_code_points(c: char)
    ensures
        is_alphanumeric(c) <==> ((48 <= c as u32 && c as u32 <= 57) || (65 <= c as u32 && c as u32
            <= 90) || (97 <= c as u32 && c as u32 <= 122)),
{
}

/// A string of acceptable length holding a character that is not an ASCII
/// letter or digit is refused, and the refusal names that character; every
/// character it names is such a character.
pub proof fn lemma_refusal_names_bad_chars(e: ShortIdValidationError, s: Seq<char>, i: int)
    requires
        short_id_error_matches(e, s),
        SHORT_ID_MIN_LEN <= byte_len(s) <= SHORT_ID_MAX_LEN,
        0 <= i < s.len(),
        !((48 <= s[i] as u32 && s[i] as u32 <= 57) || (65 <= s[i] as u32 && s[i] as u32 <= 90) || (97
            <= s[i] as u32 && s[i] as u32 <= 122)),
    ensures
        e matches ShortIdValidationError::InvalidCharacters { invalid_chars } && invalid_chars@.contains(
            s[i],
        ) && forall|j: int|
            0 <= j < invalid_chars@.len() ==> !((48 <= #[trigger] invalid_chars@[j] as u32
                && invalid_chars@[j] as u32 <= 57) || (65 <= invalid_chars@[j] as u32
                && invalid_chars@[j] as u32 <= 90) || (97 <= invalid_chars@[j] as u32
                && invalid_chars@[j] as u32 <= 122)),
{
    let pred = |c: char| !is_alphanumeric(c);
    lemma_alphanumeric_code_points(s[i]);
    s.lemma_filter_contains(pred, i);
    assert forall|j: int| 0 <= j < invalid_chars_of(s).len() implies !is_alphanumeric(
        #[trigger] invalid_chars_of(s)[j],
    ) by {
        s.lemma_filter_pred(pred, j);
    }
    assert forall|j: int| 0 <= j < invalid_chars_of(s).len() implies !((48
        <= #[trigger] invalid_chars_of(s)[j] as u32 && invalid_chars_of(s)[j] as u32 <= 57) || (65
        <= invalid_chars_of(s)[j] as u32 && invalid_chars_of(s)[j] as u32 <= 90) || (97
        <= invalid_chars_of(s)[j] as u32 && invalid_chars_of(s)[j] as u32 <= 122)) by {
        lemma_alphanumeric_code_points(invalid_chars_of(s)[j]);
    }
}

} // verus!
