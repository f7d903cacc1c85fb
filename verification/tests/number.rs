use rcc::integral::{Integral, Signedness};
use rcc::number::{floating_format, integer_suffix, int_from_str_radix, parse_integer, IntErrorKind, NumberError};
use rcc::primitive::FloatFormat;

#[test]
fn plain_literals_are_int() {
    let (v, e) = parse_integer("42", 10, None);
    assert_eq!(e, None);
    assert_eq!(v.as_signed(), 42);
    assert_eq!(v.width().get(), 32);
    assert!(v.is_signed());
    let (h, e) = parse_integer("ff", 16, None);
    assert_eq!(e, None);
    assert_eq!(h.as_signed(), 255);
    let (b, _) = parse_integer("101", 2, None);
    assert_eq!(b.as_signed(), 5);
}

#[test]
fn suffixes_choose_the_type() {
    let (v, e) = parse_integer("7", 10, Some("u"));
    assert_eq!(e, None);
    assert!(!v.is_signed());
    assert_eq!(v.width().get(), 32);
    let (v, _) = parse_integer("7", 10, Some("LL"));
    assert_eq!(v.width().get(), 64);
    assert!(v.is_signed());
    let (v, _) = parse_integer("7", 10, Some("uLL"));
    assert!(!v.is_signed());
    assert_eq!(v.width().get(), 64);
    let (v, _) = parse_integer("7", 10, Some("ui8"));
    assert_eq!(v.width().get(), 8);
    assert_eq!(integer_suffix("Lu"), Some((64, Signedness::Unsigned)));
    assert_eq!(integer_suffix("i16"), Some((16, Signedness::Signed)));
    assert_eq!(integer_suffix("wb"), None);
}

#[test]
fn malformed_literals_give_zero_and_error() {
    let (v, e) = parse_integer("12x", 10, None);
    assert_eq!(e, Some(NumberError::Int(IntErrorKind::InvalidDigit)));
    assert_eq!(v.bits(), 0);
    let (_, e) = parse_integer("", 10, None);
    assert_eq!(e, Some(NumberError::Int(IntErrorKind::Empty)));
    let (v, e) = parse_integer("2147483648", 10, None);
    assert_eq!(e, Some(NumberError::Int(IntErrorKind::PosOverflow)));
    assert_eq!(v.bits(), 0);
    assert_eq!(v.width().get(), 32);
    let (v, e) = parse_integer("256", 10, Some("ui8"));
    assert_eq!(e, Some(NumberError::Int(IntErrorKind::PosOverflow)));
    assert!(!v.is_signed());
    let (v, e) = parse_integer("1", 10, Some("wb"));
    assert_eq!(e, Some(NumberError::UnsupportedIntegerSuffix("wb".to_string())));
    assert_eq!(v.width().get(), 32);
    assert_eq!(e.unwrap().message(), "unsupported integer literal suffix: wb");
}

#[test]
fn reads_digits_like_from_str_radix() {
    assert_eq!(int_from_str_radix("-128", 10, 8, Signedness::Signed), Ok(-128));
    assert_eq!(int_from_str_radix("-129", 10, 8, Signedness::Signed), Err(IntErrorKind::NegOverflow));
    assert_eq!(int_from_str_radix("+7", 10, 8, Signedness::Signed), Ok(7));
    assert_eq!(int_from_str_radix("-", 10, 8, Signedness::Signed), Err(IntErrorKind::InvalidDigit));
    assert_eq!(int_from_str_radix("+", 10, 8, Signedness::Unsigned), Err(IntErrorKind::InvalidDigit));
    assert_eq!(int_from_str_radix("-1", 10, 8, Signedness::Unsigned), Err(IntErrorKind::InvalidDigit));
    assert_eq!(int_from_str_radix("FFFFFFFFFFFFFFFF", 16, 64, Signedness::Unsigned), Ok(18446744073709551615));
    assert_eq!(int_from_str_radix("zz", 36, 16, Signedness::Signed), Ok(1295));
    assert_eq!(int_from_str_radix("19", 8, 32, Signedness::Signed), Err(IntErrorKind::InvalidDigit));
    for (text, radix) in [("123", 10u32), ("-77", 8), ("7fff", 16), ("1z", 36)] {
        let expected = i16::from_str_radix(text, radix).map(|v| v as i128).map_err(|_| ());
        let ours = int_from_str_radix(text, radix, 16, Signedness::Signed).map_err(|_| ());
        assert_eq!(ours, expected);
    }
}

#[test]
fn error_messages_match_std() {
    let empty = "".parse::<i32>().unwrap_err().to_string();
    assert_eq!(NumberError::Int(IntErrorKind::Empty).message(), empty);
    let invalid = "x".parse::<i32>().unwrap_err().to_string();
    assert_eq!(NumberError::Int(IntErrorKind::InvalidDigit).message(), invalid);
    let big = "99999999999".parse::<i32>().unwrap_err().to_string();
    assert_eq!(NumberError::Int(IntErrorKind::PosOverflow).message(), big);
    let small = "-99999999999".parse::<i32>().unwrap_err().to_string();
    assert_eq!(NumberError::Int(IntErrorKind::NegOverflow).message(), small);
}

#[test]
fn floating_suffixes() {
    assert_eq!(floating_format(None), Ok(FloatFormat::IEEE64));
    assert_eq!(floating_format(Some("f")), Ok(FloatFormat::IEEE32));
    assert_eq!(floating_format(Some("L")), Ok(FloatFormat::IEEE64));
    let e = floating_format(Some("dd")).unwrap_err();
    assert_eq!(e.message(), "unsupported floating literal suffix: dd");
}

#[test]
fn printed_integrals_read_back() {
    let cases: Vec<(Integral, Option<&str>)> = vec![
        (Integral::from(-2147483648i32), None),
        (Integral::from(123456i32), None),
        (Integral::from(4294967295u32), Some("u")),
        (Integral::from(i64::MIN), Some("ll")),
        (Integral::from(u64::MAX), Some("ull")),
        (Integral::from(-128i8), Some("i8")),
        (Integral::from(0u16), Some("ui16")),
    ];
    for (x, suffix) in cases {
        let text = x.to_string();
        let (back, e) = parse_integer(&text, 10, suffix);
        assert_eq!(e, None, "{}", text);
        assert_eq!(back, x, "{}", text);
    }
}
