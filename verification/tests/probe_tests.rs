use rustproto::probe::parse_rational;
use rustproto::probe::scalar_to_i64;
use rustproto::probe::scalar_to_i64_opt;
use rustproto::probe::scalar_to_rational;
use rustproto::probe::scalar_to_string_opt;
use rustproto::probe::stream_kind;
use rustproto::probe::wrap_u64_to_i64;
use rustproto::probe::FieldError;
use rustproto::probe::JsonScalar;
use rustproto::probe::Rational;
use rustproto::probe::StreamKind;

#[test]
fn rationals_parse_from_slash_separated_numbers() {
    assert_eq!(
        parse_rational("30000/1001"),
        Some(Rational { num: 30000, den: 1001 })
    );
    assert_eq!(parse_rational("0/0"), Some(Rational { num: 0, den: 0 }));
    assert_eq!(parse_rational("-1/2"), Some(Rational { num: -1, den: 2 }));
    assert_eq!(parse_rational("+3/+4"), Some(Rational { num: 3, den: 4 }));
}

#[test]
fn rationals_reject_everything_else() {
    assert_eq!(parse_rational(""), None);
    assert_eq!(parse_rational("25"), None);
    assert_eq!(parse_rational("a/b"), None);
    assert_eq!(parse_rational("1/"), None);
    assert_eq!(parse_rational("/2"), None);
    // The second slash lands in the denominator part and spoils it.
    assert_eq!(parse_rational("1/2/3"), None);
    assert_eq!(parse_rational("1.5/2"), None);
}

#[test]
fn required_integer_policy() {
    assert_eq!(scalar_to_i64(&JsonScalar::Int(25)), Ok(25));
    assert_eq!(scalar_to_i64(&JsonScalar::Int(-3)), Ok(-3));
    assert_eq!(
        scalar_to_i64(&JsonScalar::Str(String::from("1024"))),
        Ok(1024)
    );
    assert_eq!(
        scalar_to_i64(&JsonScalar::Str(String::from("N/A"))),
        Err(FieldError::UnexpectedNa)
    );
    assert_eq!(
        scalar_to_i64(&JsonScalar::Str(String::from("n/a"))),
        Err(FieldError::UnexpectedNa)
    );
    assert_eq!(
        scalar_to_i64(&JsonScalar::Str(String::from("12x"))),
        Err(FieldError::InvalidInteger)
    );
    assert_eq!(
        scalar_to_i64(&JsonScalar::NonIntegerNumber),
        Err(FieldError::InvalidNumber)
    );
    assert_eq!(scalar_to_i64(&JsonScalar::Null), Err(FieldError::InvalidInteger));
    assert_eq!(scalar_to_i64(&JsonScalar::Other), Err(FieldError::InvalidInteger));
}

#[test]
fn oversized_unsigned_numbers_wrap_as_they_always_have() {
    assert_eq!(wrap_u64_to_i64(0), 0);
    assert_eq!(wrap_u64_to_i64(i64::MAX as u64), i64::MAX);
    assert_eq!(wrap_u64_to_i64(u64::MAX), -1);
    assert_eq!(wrap_u64_to_i64(1 << 63), i64::MIN);
    assert_eq!(scalar_to_i64(&JsonScalar::UInt(u64::MAX)), Ok(-1));
}

#[test]
fn optional_integer_policy() {
    assert_eq!(scalar_to_i64_opt(&JsonScalar::Null), Ok(None));
    assert_eq!(scalar_to_i64_opt(&JsonScalar::Int(7)), Ok(Some(7)));
    assert_eq!(scalar_to_i64_opt(&JsonScalar::NonIntegerNumber), Ok(None));
    assert_eq!(
        scalar_to_i64_opt(&JsonScalar::Str(String::from("N/A"))),
        Ok(None)
    );
    assert_eq!(
        scalar_to_i64_opt(&JsonScalar::Str(String::from("-42"))),
        Ok(Some(-42))
    );
    assert_eq!(
        scalar_to_i64_opt(&JsonScalar::Str(String::from("oops"))),
        Err(FieldError::InvalidInteger)
    );
    assert_eq!(
        scalar_to_i64_opt(&JsonScalar::Other),
        Err(FieldError::InvalidInteger)
    );
}

#[test]
fn optional_string_policy() {
    assert_eq!(scalar_to_string_opt(&JsonScalar::Null), Ok(None));
    assert_eq!(
        scalar_to_string_opt(&JsonScalar::Str(String::from("N/A"))),
        Ok(None)
    );
    assert_eq!(
        scalar_to_string_opt(&JsonScalar::Str(String::from("16:9"))),
        Ok(Some(String::from("16:9")))
    );
    assert_eq!(
        scalar_to_string_opt(&JsonScalar::Int(3)),
        Err(FieldError::InvalidString)
    );
}

#[test]
fn rational_field_policy() {
    assert_eq!(
        scalar_to_rational(&JsonScalar::Str(String::from("24000/1001"))),
        Ok(Rational { num: 24000, den: 1001 })
    );
    assert_eq!(
        scalar_to_rational(&JsonScalar::Int(25)),
        Ok(Rational { num: 25, den: 1 })
    );
    assert_eq!(
        scalar_to_rational(&JsonScalar::Str(String::from("25"))),
        Err(FieldError::InvalidRational)
    );
    assert_eq!(
        scalar_to_rational(&JsonScalar::Null),
        Err(FieldError::InvalidRational)
    );
    assert_eq!(
        scalar_to_rational(&JsonScalar::NonIntegerNumber),
        Err(FieldError::InvalidRational)
    );
}

#[test]
fn stream_records_dispatch_on_the_discriminant() {
    assert_eq!(stream_kind("video"), StreamKind::Video);
    assert_eq!(stream_kind("audio"), StreamKind::Audio);
    assert_eq!(stream_kind("subtitle"), StreamKind::Subtitle);
    assert_eq!(stream_kind("data"), StreamKind::Other);
    assert_eq!(stream_kind("unknown"), StreamKind::Other);
    assert_eq!(stream_kind(""), StreamKind::Other);
    assert_eq!(stream_kind("Video"), StreamKind::Other);
}
