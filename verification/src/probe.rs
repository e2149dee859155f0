//! The tolerant scalar model for the engine's introspection records.
//!
//! Numeric fields of those records may arrive as native numbers or as
//! their string form, with an explicit "N/A" sentinel standing for an
//! absent value. The embedder reduces each incoming scalar to a
//! [`JsonScalar`]; the functions here hold the whole acceptance policy —
//! which representations are taken, which are rejected, and with which
//! error — so the policy is verified once rather than scattered through
//! deserializer glue.

use vstd::prelude::*;

verus! {

use vstd::string::StrSliceExecFns;

use crate::bridge::slash;
use crate::num::spec_parse_i64;
use crate::num::parse_i64;
use crate::text::find_from;
use crate::text::lemma_find_from_some;
use crate::text::spec_find;
use crate::text::str_eq;

/// An exact fraction, as introspection records carry time bases and
/// frame rates.
#[derive(Debug, Clone, Copy, PartialEq, Eq, Structural)]
pub struct Rational {
    /// Numerator.
    pub num: i64,
    /// Denominator, as given; a zero denominator is passed through.
    pub den: i64,
}

/// A rational written as `<number>/<number>`: split at the first slash,
/// both parts read as signed decimals. Anything else — no slash, or a
/// part that does not parse (a second slash lands in the denominator
/// part) — is rejected.
pub open spec fn spec_parse_rational(s: Seq<char>) -> Option<Rational> {
    match spec_find(s, slash()) {
        None => None,
        Some(k) => match spec_parse_i64(s.subrange(0, k)) {
            None => None,
            Some(numerator) => match spec_parse_i64(s.subrange(k + 1, s.len() as int)) {
                None => None,
                Some(denominator) => Some(Rational { num: numerator, den: denominator }),
            },
        },
    }
}

/// Parse a `<number>/<number>` rational; see [`spec_parse_rational`].
pub fn parse_rational(s: &str) -> (r: Option<Rational>)
    ensures
        r == spec_parse_rational(s@),
{
    let n = s.unicode_len();
    let sl = "/";
    proof {
        reveal_strlit("/");
        assert(sl@ =~= slash());
    }
    match find_from(s, sl, 0) {
        None => None,
        Some(k) => {
            proof {
                lemma_find_from_some(s@, sl@, 0, k as int);
            }
            let num_part = s.substring_char(0, k);
            let den_part = s.substring_char(k + 1, n);
            match parse_i64(num_part) {
                None => None,
                Some(numerator) => match parse_i64(den_part) {
                    None => None,
                    Some(denominator) => Some(Rational { num: numerator, den: denominator }),
                },
            }
        },
    }
}

/// A scalar field of an introspection record, reduced to what the
/// acceptance policy needs to see.
#[derive(Debug, Clone)]
pub enum JsonScalar {
    /// An explicit null.
    Null,
    /// A number that fits a signed 64-bit integer.
    Int(i64),
    /// A number that only fits an unsigned 64-bit integer.
    UInt(u64),
    /// A number that fits neither: a fractional value.
    NonIntegerNumber,
    /// A string.
    Str(String),
    /// Any other shape (boolean, array, object).
    Other,
}

/// Why a scalar was rejected for the field it arrived in.
#[derive(Debug, Clone, Copy, PartialEq, Eq, Structural)]
pub enum FieldError {
    /// The "unavailable" sentinel arrived in a field that must be
    /// present.
    UnexpectedNa,
    /// The scalar cannot be read as the integer the field needs.
    InvalidInteger,
    /// A number arrived that is not an integer.
    InvalidNumber,
    /// The scalar cannot be read as the string the field needs.
    InvalidString,
    /// The scalar cannot be read as a rational.
    InvalidRational,
}

/// The value an unsigned 64-bit integer denotes when it is squeezed into
/// a signed one: unchanged while it fits, wrapped around otherwise —
/// matching how such numbers have always been passed through.
pub open spec fn spec_wrap_u64(u: u64) -> int {
    if u <= i64::MAX {
        u as int
    } else {
        u - 0x1_0000_0000_0000_0000
    }
}

/// Squeeze an unsigned 64-bit integer into a signed one, wrapping; see
/// [`spec_wrap_u64`].
pub fn wrap_u64_to_i64(u: u64) -> (r: i64)
    ensures
        r as int == spec_wrap_u64(u),
{
    if u <= i64::MAX as u64 {
        u as i64
    } else {
        let d = u - 0x8000_0000_0000_0000u64;
        i64::MIN + (d as i64)
    }
}

/// The case-insensitive "unavailable" sentinel: `N/A` in any letter
/// case.
pub open spec fn spec_is_na(s: Seq<char>) -> bool {
    &&& s.len() == 3
    &&& (s[0] == 'N' || s[0] == 'n')
    &&& s[1] == '/'
    &&& (s[2] == 'A' || s[2] == 'a')
}

/// Is `s` the "unavailable" sentinel? See [`spec_is_na`].
pub fn is_na(s: &str) -> (r: bool)
    ensures
        r == spec_is_na(s@),
{
    let n = s.unicode_len();
    if n != 3 {
        return false;
    }
    let c0 = s.get_char(0);
    let c1 = s.get_char(1);
    let c2 = s.get_char(2);
    (c0 == 'N' || c0 == 'n') && c1 == '/' && (c2 == 'A' || c2 == 'a')
}

/// Acceptance policy for a required integer field: integers are taken
/// (unsigned ones wrapped), a fractional number is rejected as an invalid
/// number, a string is parsed unless it is the sentinel — which is an
/// error here, not an absent value — and everything else is rejected.
pub open spec fn spec_scalar_to_i64(v: JsonScalar) -> Result<i64, FieldError> {
    match v {
        JsonScalar::Int(n) => Ok(n),
        JsonScalar::UInt(u) => Ok(spec_wrap_u64(u) as i64),
        JsonScalar::NonIntegerNumber => Err(FieldError::InvalidNumber),
        JsonScalar::Str(s) => if spec_is_na(s@) {
            Err(FieldError::UnexpectedNa)
        } else {
            match spec_parse_i64(s@) {
                Some(n) => Ok(n),
                None => Err(FieldError::InvalidInteger),
            }
        },
        JsonScalar::Null => Err(FieldError::InvalidInteger),
        JsonScalar::Other => Err(FieldError::InvalidInteger),
    }
}

/// Read a required integer field; see [`spec_scalar_to_i64`].
pub fn scalar_to_i64(v: &JsonScalar) -> (r: Result<i64, FieldError>)
    ensures
        r == spec_scalar_to_i64(*v),
{
    match v {
        JsonScalar::Int(n) => Ok(*n),
        JsonScalar::UInt(u) => Ok(wrap_u64_to_i64(*u)),
        JsonScalar::NonIntegerNumber => Err(FieldError::InvalidNumber),
        JsonScalar::Str(s) => {
            if is_na(s.as_str()) {
                Err(FieldError::UnexpectedNa)
            } else {
                match parse_i64(s.as_str()) {
                    Some(n) => Ok(n),
                    None => Err(FieldError::InvalidInteger),
                }
            }
        },
        JsonScalar::Null => Err(FieldError::InvalidInteger),
        JsonScalar::Other => Err(FieldError::InvalidInteger),
    }
}

/// Acceptance policy for an optional integer field: null, the sentinel
/// string and a fractional number all mean "absent"; integers are taken
/// (unsigned ones wrapped); any other string must parse; everything else
/// is rejected.
pub open spec fn spec_scalar_to_i64_opt(v: JsonScalar) -> Result<Option<i64>, FieldError> {
    match v {
        JsonScalar::Null => Ok(None),
        JsonScalar::Int(n) => Ok(Some(n)),
        JsonScalar::UInt(u) => Ok(Some(spec_wrap_u64(u) as i64)),
        JsonScalar::NonIntegerNumber => Ok(None),
        JsonScalar::Str(s) => if spec_is_na(s@) {
            Ok(None)
        } else {
            match spec_parse_i64(s@) {
                Some(n) => Ok(Some(n)),
                None => Err(FieldError::InvalidInteger),
            }
        },
        JsonScalar::Other => Err(FieldError::InvalidInteger),
    }
}

/// Read an optional integer field; see [`spec_scalar_to_i64_opt`].
pub fn scalar_to_i64_opt(v: &JsonScalar) -> (r: Result<Option<i64>, FieldError>)
    ensures
        r == spec_scalar_to_i64_opt(*v),
{
    match v {
        JsonScalar::Null => Ok(None),
        JsonScalar::Int(n) => Ok(Some(*n)),
        JsonScalar::UInt(u) => Ok(Some(wrap_u64_to_i64(*u))),
        JsonScalar::NonIntegerNumber => Ok(None),
        JsonScalar::Str(s) => {
            if is_na(s.as_str()) {
                Ok(None)
            } else {
                match parse_i64(s.as_str()) {
                    Some(n) => Ok(Some(n)),
                    None => Err(FieldError::InvalidInteger),
                }
            }
        },
        JsonScalar::Other => Err(FieldError::InvalidInteger),
    }
}

/// Acceptance policy for an optional string field, over character
/// sequences: null and the sentinel mean "absent", a string is taken as
/// it is, anything else is rejected.
pub open spec fn spec_scalar_to_string_opt(v: JsonScalar) -> Result<Option<Seq<char>>, FieldError> {
    match v {
        JsonScalar::Null => Ok(None),
        JsonScalar::Str(s) => if spec_is_na(s@) {
            Ok(None)
        } else {
            Ok(Some(s@))
        },
        _ => Err(FieldError::InvalidString),
    }
}

/// Read an optional string field; see [`spec_scalar_to_string_opt`].
pub fn scalar_to_string_opt(v: &JsonScalar) -> (r: Result<Option<String>, FieldError>)
    ensures
        match r {
            Ok(None) => spec_scalar_to_string_opt(*v) == Ok::<Option<Seq<char>>, FieldError>(None),
            Ok(Some(s)) => spec_scalar_to_string_opt(*v) == Ok::<Option<Seq<char>>, FieldError>(
                Some(s@),
            ),
            Err(e) => spec_scalar_to_string_opt(*v) == Err::<Option<Seq<char>>, FieldError>(e),
        },
{
    match v {
        JsonScalar::Null => Ok(None),
        JsonScalar::Str(s) => {
            if is_na(s.as_str()) {
                Ok(None)
            } else {
                Ok(Some(s.clone()))
            }
        },
        _ => Err(FieldError::InvalidString),
    }
}

/// Acceptance policy for a rational field: a string must parse as
/// `<number>/<number>`, an integer stands for itself over one, and
/// everything else is rejected.
pub open spec fn spec_scalar_to_rational(v: JsonScalar) -> Result<Rational, FieldError> {
    match v {
        JsonScalar::Str(s) => match spec_parse_rational(s@) {
            Some(r) => Ok(r),
            None => Err(FieldError::InvalidRational),
        },
        JsonScalar::Int(n) => Ok(Rational { num: n, den: 1 }),
        JsonScalar::UInt(u) => Ok(Rational { num: spec_wrap_u64(u) as i64, den: 1 }),
        _ => Err(FieldError::InvalidRational),
    }
}

/// Read a rational field; see [`spec_scalar_to_rational`].
pub fn scalar_to_rational(v: &JsonScalar) -> (r: Result<Rational, FieldError>)
    ensures
        r == spec_scalar_to_rational(*v),
{
    match v {
        JsonScalar::Str(s) => match parse_rational(s.as_str()) {
            Some(rational) => Ok(rational),
            None => Err(FieldError::InvalidRational),
        },
        JsonScalar::Int(n) => Ok(Rational { num: *n, den: 1 }),
        JsonScalar::UInt(u) => Ok(Rational { num: wrap_u64_to_i64(*u), den: 1 }),
        _ => Err(FieldError::InvalidRational),
    }
}

/// The shape of one per-stream record, chosen by its discriminant field.
#[derive(Debug, Clone, Copy, PartialEq, Eq, Structural)]
pub enum StreamKind {
    /// A video stream record.
    Video,
    /// An audio stream record.
    Audio,
    /// A subtitle stream record.
    Subtitle,
    /// Any other or missing discriminant.
    Other,
}

/// Which record shape a discriminant string selects; anything unknown
/// falls back to the catch-all shape.
pub open spec fn spec_stream_kind(s: Seq<char>) -> StreamKind {
    if s == "video"@ {
        StreamKind::Video
    } else if s == "audio"@ {
        StreamKind::Audio
    } else if s == "subtitle"@ {
        StreamKind::Subtitle
    } else {
        StreamKind::Other
    }
}

/// Select the record shape for a discriminant; see [`spec_stream_kind`].
pub fn stream_kind(codec_type: &str) -> (r: StreamKind)
    ensures
        r == spec_stream_kind(codec_type@),
{
    if str_eq(codec_type, "video") {
        StreamKind::Video
    } else if str_eq(codec_type, "audio") {
        StreamKind::Audio
    } else if str_eq(codec_type, "subtitle") {
        StreamKind::Subtitle
    } else {
        StreamKind::Other
    }
}

} // verus!
