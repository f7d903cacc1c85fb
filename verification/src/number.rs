//! Numeric literals: the integer a literal's digits denote in the type its
//! suffix names, and the floating format a floating suffix names.
use crate::constant::FloatBits;
use crate::integral::{wraps, Integral, Signedness};
use crate::primitive::FloatFormat;
use crate::size::SizeBit;
use crate::text::{decimal_text, digit_char, signed_decimal_text, str_equal};
use vstd::arithmetic::power2::pow2;
use vstd::prelude::*;

verus! {

/// The value of a numeric literal.
#[derive(Debug, Clone, PartialEq)]
pub enum Number {
    Integral(Integral),
    Floating(FloatBits),
}

/// Why the digits of an integer literal denote no value of its type.
#[derive(Debug, Clone, Copy, PartialEq, Eq, Structural)]
pub enum IntErrorKind {
    /// No digits at all.
    Empty,
    /// A character that is not a digit of the base, or a sign alone.
    InvalidDigit,
    /// The value is above the type's range.
    PosOverflow,
    /// The value is below the type's range.
    NegOverflow,
}

/// Why a numeric literal is malformed.
#[derive(Debug, PartialEq, Eq)]
pub enum NumberError {
    Int(IntErrorKind),
    UnsupportedIntegerSuffix(String),
    UnsupportedFloatingSuffix(String),
}

/// The value of a digit character in bases up to 36: `0`-`9`, then the
/// letters in either case from 10.
pub open spec fn digit_value(c: char) -> Option<nat> {
    if '0' <= c && c <= '9' {
        Some((c as nat - '0' as nat) as nat)
    } else if 'a' <= c && c <= 'z' {
        Some((c as nat - 'a' as nat + 10) as nat)
    } else if 'A' <= c && c <= 'Z' {
        Some((c as nat - 'A' as nat + 10) as nat)
    } else {
        None
    }
}

/// The value of a digit of base `radix`.
pub open spec fn digit_of(c: char, radix: nat) -> Option<nat> {
    match digit_value(c) {
        Some(d) => if d < radix {
            Some(d)
        } else {
            None
        },
        None => None,
    }
}

/// Reads the digits of `s` from position `k` on into `acc`, which moves away
/// from zero in the direction of the sign; the first character that is not
/// a digit, or the first digit that takes the value out of `lo..=hi`, is
/// the error.
pub open spec fn accumulate(s: Seq<char>, k: nat, acc: int, radix: nat, negative: bool, lo: int, hi: int) -> Result<int, IntErrorKind>
    decreases s.len() - k,
{
    if k >= s.len() {
        Ok(acc)
    } else {
        match digit_of(s[k as int], radix) {
            None => Err(IntErrorKind::InvalidDigit),
            Some(d) => {
                let next = if negative {
                    acc * radix - d
                } else {
                    acc * radix + d
                };
                if next < lo || next > hi {
                    Err(
                        if negative {
                            IntErrorKind::NegOverflow
                        } else {
                            IntErrorKind::PosOverflow
                        },
                    )
                } else {
                    accumulate(s, k + 1, next, radix, negative, lo, hi)
                }
            },
        }
    }
}

/// The integer the text `s` denotes in base `radix`, in a type ranging over
/// `lo..=hi`: an optional `+`, or `-` for a signed type, then one or more
/// digits.
pub open spec fn int_from_text(s: Seq<char>, radix: nat, signed: bool, lo: int, hi: int) -> Result<int, IntErrorKind> {
    if s.len() == 0 {
        Err(IntErrorKind::Empty)
    } else if s.len() == 1 && (s[0] == '+' || s[0] == '-') {
        Err(IntErrorKind::InvalidDigit)
    } else if s[0] == '+' {
        accumulate(s, 1, 0, radix, false, lo, hi)
    } else if s[0] == '-' && signed {
        accumulate(s, 1, 0, radix, true, lo, hi)
    } else {
        accumulate(s, 0, 0, radix, false, lo, hi)
    }
}

/// The smallest value of an integer type.
pub open spec fn type_min(width: nat, signedness: Signedness) -> int {
    if signedness == Signedness::Signed {
        -pow2((width - 1) as nat)
    } else {
        0
    }
}

/// The largest value of an integer type.
pub open spec fn type_max(width: nat, signedness: Signedness) -> int {
    if signedness == Signedness::Signed {
        pow2((width - 1) as nat) - 1
    } else {
        pow2(width) - 1
    }
}

/// The width and signedness an integer suffix gives a literal: `int`
/// without one, `unsigned`, `long` and `long long` (64 bits), their
/// unsigned forms, `size_t` and its signed form, and the fixed-width
/// suffixes `i8` to `ui64`.
pub open spec fn integer_suffix_spec(s: Seq<char>) -> Option<(nat, Signedness)> {
    if s == "u"@ {
        Some((32nat, Signedness::Unsigned))
    } else     if s == "U"@ {
        Some((32nat, Signedness::Unsigned))
    } else     if s == "l"@ {
        Some((64nat, Signedness::Signed))
    } else     if s == "L"@ {
        Some((64nat, Signedness::Signed))
    } else     if s == "ll"@ {
        Some((64nat, Signedness::Signed))
    } else     if s == "LL"@ {
        Some((64nat, Signedness::Signed))
    } else     if s == "ul"@ {
        Some((64nat, Signedness::Unsigned))
    } else     if s == "uL"@ {
        Some((64nat, Signedness::Unsigned))
    } else     if s == "Ul"@ {
        Some((64nat, Signedness::Unsigned))
    } else     if s == "UL"@ {
        Some((64nat, Signedness::Unsigned))
    } else     if s == "lu"@ {
        Some((64nat, Signedness::Unsigned))
    } else     if s == "lU"@ {
        Some((64nat, Signedness::Unsigned))
    } else     if s == "Lu"@ {
        Some((64nat, Signedness::Unsigned))
    } else     if s == "LU"@ {
        Some((64nat, Signedness::Unsigned))
    } else     if s == "ull"@ {
        Some((64nat, Signedness::Unsigned))
    } else     if s == "uLL"@ {
        Some((64nat, Signedness::Unsigned))
    } else     if s == "Ull"@ {
        Some((64nat, Signedness::Unsigned))
    } else     if s == "ULL"@ {
        Some((64nat, Signedness::Unsigned))
    } else     if s == "llu"@ {
        Some((64nat, Signedness::Unsigned))
    } else     if s == "llU"@ {
        Some((64nat, Signedness::Unsigned))
    } else     if s == "LLu"@ {
        Some((64nat, Signedness::Unsigned))
    } else     if s == "LLU"@ {
        Some((64nat, Signedness::Unsigned))
    } else     if s == "z"@ {
        Some((usize::BITS as nat, Signedness::Signed))
    } else     if s == "Z"@ {
        Some((usize::BITS as nat, Signedness::Signed))
    } else     if s == "uz"@ {
        Some((usize::BITS as nat, Signedness::Unsigned))
    } else     if s == "uZ"@ {
        Some((usize::BITS as nat, Signedness::Unsigned))
    } else     if s == "Uz"@ {
        Some((usize::BITS as nat, Signedness::Unsigned))
    } else     if s == "UZ"@ {
        Some((usize::BITS as nat, Signedness::Unsigned))
    } else     if s == "zu"@ {
        Some((usize::BITS as nat, Signedness::Unsigned))
    } else     if s == "zU"@ {
        Some((usize::BITS as nat, Signedness::Unsigned))
    } else     if s == "Zu"@ {
        Some((usize::BITS as nat, Signedness::Unsigned))
    } else     if s == "ZU"@ {
        Some((usize::BITS as nat, Signedness::Unsigned))
    } else     if s == "i8"@ {
        Some((8nat, Signedness::Signed))
    } else     if s == "i16"@ {
        Some((16nat, Signedness::Signed))
    } else     if s == "i32"@ {
        Some((32nat, Signedness::Signed))
    } else     if s == "i64"@ {
        Some((64nat, Signedness::Signed))
    } else     if s == "ui8"@ {
        Some((8nat, Signedness::Unsigned))
    } else     if s == "ui16"@ {
        Some((16nat, Signedness::Unsigned))
    } else     if s == "ui32"@ {
        Some((32nat, Signedness::Unsigned))
    } else     if s == "ui64"@ {
        Some((64nat, Signedness::Unsigned))
    } else {
        None
    }
}

/// What a suffix says of a literal's type: it is unsigned exactly when the
/// suffix holds `u` or `U`; an `l` or `L` (`long`, `long long`) makes it 64
/// bits wide, a `z` or `Z` as wide as `size_t`, a suffix of only `u` or `U`
/// leaves it an `int`'s 32 bits, and a fixed-width suffix ends in its width.
pub proof fn law_integer_suffix_meaning(s: Seq<char>)
    requires
        integer_suffix_spec(s) is Some,
    ensures
        ({
            let (w, sg) = integer_suffix_spec(s)->0;
            &&& (sg == Signedness::Unsigned <==> (s.contains('u') || s.contains('U')))
            &&& ((s.contains('l') || s.contains('L')) ==> w == 64)
            &&& ((s.contains('z') || s.contains('Z')) ==> w == usize::BITS)
            &&& ((s == "u"@ || s == "U"@) ==> w == 32)
            &&& (s.last() == '8' ==> w == 8)
            &&& (s.len() >= 2 && s[s.len() - 2] == '1' && s.last() == '6' ==> w == 16)
            &&& (s.len() >= 2 && s[s.len() - 2] == '3' && s.last() == '2' ==> w == 32)
            &&& (s.len() >= 2 && s[s.len() - 2] == '6' && s.last() == '4' ==> w == 64)
        }),
{
    reveal_strlit("u");
    reveal_strlit("U");
    reveal_strlit("l");
    reveal_strlit("L");
    reveal_strlit("ll");
    reveal_strlit("LL");
    reveal_strlit("ul");
    reveal_strlit("uL");
    reveal_strlit("Ul");
    reveal_strlit("UL");
    reveal_strlit("lu");
    reveal_strlit("lU");
    reveal_strlit("Lu");
    reveal_strlit("LU");
    reveal_strlit("ull");
    reveal_strlit("uLL");
    reveal_strlit("Ull");
    reveal_strlit("ULL");
    reveal_strlit("llu");
    reveal_strlit("llU");
    reveal_strlit("LLu");
    reveal_strlit("LLU");
    reveal_strlit("z");
    reveal_strlit("Z");
    reveal_strlit("uz");
    reveal_strlit("uZ");
    reveal_strlit("Uz");
    reveal_strlit("UZ");
    reveal_strlit("zu");
    reveal_strlit("zU");
    reveal_strlit("Zu");
    reveal_strlit("ZU");
    reveal_strlit("i8");
    reveal_strlit("i16");
    reveal_strlit("i32");
    reveal_strlit("i64");
    reveal_strlit("ui8");
    reveal_strlit("ui16");
    reveal_strlit("ui32");
    reveal_strlit("ui64");
    assert(s.len() <= 4);
    lemma_short_contains(s, 'u');
    lemma_short_contains(s, 'U');
    lemma_short_contains(s, 'l');
    lemma_short_contains(s, 'L');
    lemma_short_contains(s, 'z');
    lemma_short_contains(s, 'Z');
}

/// A sequence of at most four characters holds `c` exactly when one of
/// its places does.
proof fn lemma_short_contains(s: Seq<char>, c: char)
    requires
        s.len() <= 4,
    ensures
        s.contains(c) <==> ((s.len() > 0 && s[0] == c) || (s.len() > 1 && s[1] == c) || (s.len() > 2 && s[2] == c)
            || (s.len() > 3 && s[3] == c)),
{
    if s.contains(c) {
        let k = choose|k: int| 0 <= k < s.len() && s[k] == c;
        assert(k == 0 || k == 1 || k == 2 || k == 3);
    }
    if s.len() > 0 && s[0] == c {
        assert(s.contains(c));
    }
    if s.len() > 1 && s[1] == c {
        assert(s.contains(c));
    }
    if s.len() > 2 && s[2] == c {
        assert(s.contains(c));
    }
    if s.len() > 3 && s[3] == c {
        assert(s.contains(c));
    }
}

/// The width and signedness an integer suffix gives a literal, if the
/// suffix is supported.
pub fn integer_suffix(s: &str) -> (r: Option<(u32, Signedness)>)
    ensures
        r matches Some((w, sg)) ==> integer_suffix_spec(s@) == Some((w as nat, sg)),
        r is None ==> integer_suffix_spec(s@) is None,
{
    proof {
        reveal_strlit("u");
        reveal_strlit("U");
        reveal_strlit("l");
        reveal_strlit("L");
        reveal_strlit("ll");
        reveal_strlit("LL");
        reveal_strlit("ul");
        reveal_strlit("uL");
        reveal_strlit("Ul");
        reveal_strlit("UL");
        reveal_strlit("lu");
        reveal_strlit("lU");
        reveal_strlit("Lu");
        reveal_strlit("LU");
        reveal_strlit("ull");
        reveal_strlit("uLL");
        reveal_strlit("Ull");
        reveal_strlit("ULL");
        reveal_strlit("llu");
        reveal_strlit("llU");
        reveal_strlit("LLu");
        reveal_strlit("LLU");
        reveal_strlit("z");
        reveal_strlit("Z");
        reveal_strlit("uz");
        reveal_strlit("uZ");
        reveal_strlit("Uz");
        reveal_strlit("UZ");
        reveal_strlit("zu");
        reveal_strlit("zU");
        reveal_strlit("Zu");
        reveal_strlit("ZU");
        reveal_strlit("i8");
        reveal_strlit("i16");
        reveal_strlit("i32");
        reveal_strlit("i64");
        reveal_strlit("ui8");
        reveal_strlit("ui16");
        reveal_strlit("ui32");
        reveal_strlit("ui64");
    }
    if str_equal(s, "u") {
        return Some((32u32, Signedness::Unsigned));
    }
    if str_equal(s, "U") {
        return Some((32u32, Signedness::Unsigned));
    }
    if str_equal(s, "l") {
        return Some((64u32, Signedness::Signed));
    }
    if str_equal(s, "L") {
        return Some((64u32, Signedness::Signed));
    }
    if str_equal(s, "ll") {
        return Some((64u32, Signedness::Signed));
    }
    if str_equal(s, "LL") {
        return Some((64u32, Signedness::Signed));
    }
    if str_equal(s, "ul") {
        return Some((64u32, Signedness::Unsigned));
    }
    if str_equal(s, "uL") {
        return Some((64u32, Signedness::Unsigned));
    }
    if str_equal(s, "Ul") {
        return Some((64u32, Signedness::Unsigned));
    }
    if str_equal(s, "UL") {
        return Some((64u32, Signedness::Unsigned));
    }
    if str_equal(s, "lu") {
        return Some((64u32, Signedness::Unsigned));
    }
    if str_equal(s, "lU") {
        return Some((64u32, Signedness::Unsigned));
    }
    if str_equal(s, "Lu") {
        return Some((64u32, Signedness::Unsigned));
    }
    if str_equal(s, "LU") {
        return Some((64u32, Signedness::Unsigned));
    }
    if str_equal(s, "ull") {
        return Some((64u32, Signedness::Unsigned));
    }
    if str_equal(s, "uLL") {
        return Some((64u32, Signedness::Unsigned));
    }
    if str_equal(s, "Ull") {
        return Some((64u32, Signedness::Unsigned));
    }
    if str_equal(s, "ULL") {
        return Some((64u32, Signedness::Unsigned));
    }
    if str_equal(s, "llu") {
        return Some((64u32, Signedness::Unsigned));
    }
    if str_equal(s, "llU") {
        return Some((64u32, Signedness::Unsigned));
    }
    if str_equal(s, "LLu") {
        return Some((64u32, Signedness::Unsigned));
    }
    if str_equal(s, "LLU") {
        return Some((64u32, Signedness::Unsigned));
    }
    if str_equal(s, "z") {
        return Some((usize::BITS, Signedness::Signed));
    }
    if str_equal(s, "Z") {
        return Some((usize::BITS, Signedness::Signed));
    }
    if str_equal(s, "uz") {
        return Some((usize::BITS, Signedness::Unsigned));
    }
    if str_equal(s, "uZ") {
        return Some((usize::BITS, Signedness::Unsigned));
    }
    if str_equal(s, "Uz") {
        return Some((usize::BITS, Signedness::Unsigned));
    }
    if str_equal(s, "UZ") {
        return Some((usize::BITS, Signedness::Unsigned));
    }
    if str_equal(s, "zu") {
        return Some((usize::BITS, Signedness::Unsigned));
    }
    if str_equal(s, "zU") {
        return Some((usize::BITS, Signedness::Unsigned));
    }
    if str_equal(s, "Zu") {
        return Some((usize::BITS, Signedness::Unsigned));
    }
    if str_equal(s, "ZU") {
        return Some((usize::BITS, Signedness::Unsigned));
    }
    if str_equal(s, "i8") {
        return Some((8u32, Signedness::Signed));
    }
    if str_equal(s, "i16") {
        return Some((16u32, Signedness::Signed));
    }
    if str_equal(s, "i32") {
        return Some((32u32, Signedness::Signed));
    }
    if str_equal(s, "i64") {
        return Some((64u32, Signedness::Signed));
    }
    if str_equal(s, "ui8") {
        return Some((8u32, Signedness::Unsigned));
    }
    if str_equal(s, "ui16") {
        return Some((16u32, Signedness::Unsigned));
    }
    if str_equal(s, "ui32") {
        return Some((32u32, Signedness::Unsigned));
    }
    if str_equal(s, "ui64") {
        return Some((64u32, Signedness::Unsigned));
    }
    None
}

/// The range of an integer type of 8, 16, 32 or 64 bits.
fn type_range(width: u32, signedness: Signedness) -> (r: (i128, i128))
    requires
        width == 8 || width == 16 || width == 32 || width == 64,
    ensures
        r.0 == type_min(width as nat, signedness),
        r.1 == type_max(width as nat, signedness),
{
    proof {
        vstd::arithmetic::power2::lemma2_to64();
        vstd::arithmetic::power2::lemma2_to64_rest();
    }
    match signedness {
        Signedness::Signed => if width == 8 {
            (-128, 127)
        } else if width == 16 {
            (-32768, 32767)
        } else if width == 32 {
            (-2147483648, 2147483647)
        } else {
            (-9223372036854775808, 9223372036854775807)
        },
        Signedness::Unsigned => if width == 8 {
            (0, 255)
        } else if width == 16 {
            (0, 65535)
        } else if width == 32 {
            (0, 4294967295)
        } else {
            (0, 18446744073709551615)
        },
    }
}

/// The value of a digit character, if it is a digit of base `radix`.
fn digit(c: char, radix: u32) -> (r: Option<u32>)
    requires
        radix <= 36,
    ensures
        r matches Some(d) ==> digit_of(c, radix as nat) == Some(d as nat),
        r is None ==> digit_of(c, radix as nat) is None,
{
    let v: u32 = if '0' <= c && c <= '9' {
        (c as u32) - ('0' as u32)
    } else if 'a' <= c && c <= 'z' {
        (c as u32) - ('a' as u32) + 10
    } else if 'A' <= c && c <= 'Z' {
        (c as u32) - ('A' as u32) + 10
    } else {
        return None;
    };
    if v < radix {
        Some(v)
    } else {
        None
    }
}

/// The integer the text `s` denotes in base `radix` in a type of `width`
/// bits, as Rust's `from_str_radix` reads it.
pub fn int_from_str_radix(s: &str, radix: u32, width: u32, signedness: Signedness) -> (r: Result<i128, IntErrorKind>)
    requires
        2 <= radix <= 36,
        width == 8 || width == 16 || width == 32 || width == 64,
    ensures
        r matches Ok(v) ==> int_from_text(s@, radix as nat, signedness == Signedness::Signed, type_min(width as nat, signedness), type_max(width as nat, signedness)) == Ok::<int, IntErrorKind>(v as int),
        r matches Ok(v) ==> type_min(width as nat, signedness) <= v <= type_max(width as nat, signedness),
        r matches Err(e) ==> int_from_text(s@, radix as nat, signedness == Signedness::Signed, type_min(width as nat, signedness), type_max(width as nat, signedness)) == Err::<int, IntErrorKind>(e),
{
    let (lo, hi) = type_range(width, signedness);
    let signed = match signedness {
        Signedness::Signed => true,
        Signedness::Unsigned => false,
    };
    let n = s.unicode_len();
    if n == 0 {
        return Err(IntErrorKind::Empty);
    }
    let first = s.get_char(0);
    if n == 1 && (first == '+' || first == '-') {
        return Err(IntErrorKind::InvalidDigit);
    }
    let (start, negative): (usize, bool) = if first == '+' {
        (1, false)
    } else if first == '-' && signed {
        (1, true)
    } else {
        (0, false)
    };
    let ghost target = accumulate(s@, start as nat, 0, radix as nat, negative, lo as int, hi as int);
    assert(int_from_text(s@, radix as nat, signed, lo as int, hi as int) == target);
    proof {
        vstd::arithmetic::power2::lemma2_to64();
        vstd::arithmetic::power2::lemma2_to64_rest();
    }
    let mut acc: i128 = 0;
    let mut k: usize = start;
    while k < n
        invariant
            n == s@.len(),
            start <= k <= n,
            2 <= radix <= 36,
            lo as int == type_min(width as nat, signedness),
            hi as int == type_max(width as nat, signedness),
            -0x1_0000_0000_0000_0000 <= lo <= 0 <= hi <= 0x1_0000_0000_0000_0000,
            lo <= acc <= hi,
            accumulate(s@, k as nat, acc as int, radix as nat, negative, lo as int, hi as int) == target,
            int_from_text(s@, radix as nat, signedness == Signedness::Signed, lo as int, hi as int) == target,
        decreases n - k,
    {
        let c = s.get_char(k);
        assert(c == s@[k as int]);
        match digit(c, radix) {
            None => {
                return Err(IntErrorKind::InvalidDigit);
            },
            Some(d) => {
                assert(-0x1_0000_0000_0000_0000 * 36 <= acc * (radix as i128) <= 0x1_0000_0000_0000_0000 * 36) by (nonlinear_arith)
                    requires
                        -0x1_0000_0000_0000_0000 <= acc <= 0x1_0000_0000_0000_0000,
                        2 <= radix <= 36,
                ;
                let scaled = acc * (radix as i128);
                let next = if negative {
                    scaled - (d as i128)
                } else {
                    scaled + (d as i128)
                };
                if next < lo || next > hi {
                    return Err(if negative { IntErrorKind::NegOverflow } else { IntErrorKind::PosOverflow });
                }
                acc = next;
            },
        }
        k = k + 1;
    }
    Ok(acc)
}

/// The floating format a floating suffix names: `float` for `f`, `double`
/// without suffix and for `l` (`long double` is laid out as `double`).
pub open spec fn floating_suffix_spec(s: Seq<char>) -> Option<FloatFormat> {
    if s == "f"@ || s == "F"@ {
        Some(FloatFormat::IEEE32)
    } else if s == "l"@ || s == "L"@ {
        Some(FloatFormat::IEEE64)
    } else {
        None
    }
}

/// The floating format of a literal with the given suffix, or the error for
/// an unsupported one.
pub fn floating_format(suffix: Option<&str>) -> (r: Result<FloatFormat, NumberError>)
    ensures
        suffix is None ==> r == Ok::<FloatFormat, NumberError>(FloatFormat::IEEE64),
        suffix matches Some(s) ==> match floating_suffix_spec(s@) {
            Some(f) => r == Ok::<FloatFormat, NumberError>(f),
            None => r matches Err(NumberError::UnsupportedFloatingSuffix(t)) && t@ == s@,
        },
{
    match suffix {
        None => Ok(FloatFormat::IEEE64),
        Some(s) => {
            proof {
                reveal_strlit("f");
                reveal_strlit("F");
                reveal_strlit("l");
                reveal_strlit("L");
            }
            if str_equal(s, "f") || str_equal(s, "F") {
                Ok(FloatFormat::IEEE32)
            } else if str_equal(s, "l") || str_equal(s, "L") {
                Ok(FloatFormat::IEEE64)
            } else {
                Err(NumberError::UnsupportedFloatingSuffix(s.to_owned()))
            }
        },
    }
}

/// What an integer literal with digits `num` in base `base` and suffix
/// `suffix` gives: its type is `int` without suffix, else the one the
/// suffix names; a malformed or out-of-range literal gives zero of that type
/// and the error; an unsupported suffix gives an `int` zero and its error.
pub open spec fn parses_integer(num: Seq<char>, base: nat, suffix: Option<Seq<char>>, r: (Integral, Option<NumberError>)) -> bool {
    let kind = match suffix {
        None => Some((32nat, Signedness::Signed)),
        Some(s) => integer_suffix_spec(s),
    };
    match kind {
        None => {
            &&& r.0.has(0, 32, Signedness::Signed)
            &&& r.1 matches Some(NumberError::UnsupportedIntegerSuffix(t)) && t@ == suffix->0
        },
        Some((w, sg)) => match int_from_text(num, base, sg == Signedness::Signed, type_min(w, sg), type_max(w, sg)) {
            Ok(v) => r.0.has(wraps(v, w), w, sg) && r.1 is None,
            Err(e) => r.0.has(0, w, sg) && r.1 == Some(NumberError::Int(e)),
        },
    }
}

/// Reads an integer literal: its digits `num` in base `base`, and its
/// suffix, if any.
pub fn parse_integer(num: &str, base: u32, suffix: Option<&str>) -> (r: (Integral, Option<NumberError>))
    requires
        2 <= base <= 36,
    ensures
        parses_integer(
            num@,
            base as nat,
            match suffix {
                Some(s) => Some(s@),
                None => None,
            },
            r,
        ),
{
    proof {
        vstd::arithmetic::power2::lemma2_to64();
    }
    let kind = match suffix {
        None => Some((32u32, Signedness::Signed)),
        Some(s) => integer_suffix(s),
    };
    match kind {
        None => {
            let s = match suffix {
                Some(s) => s,
                None => "",
            };
            (Integral::new(0, SizeBit::new(32), Signedness::Signed), Some(NumberError::UnsupportedIntegerSuffix(s.to_owned())))
        },
        Some((w, sg)) => {
            assert(w == 8 || w == 16 || w == 32 || w == 64);
            match int_from_str_radix(num, base, w, sg) {
                Ok(v) => {
                    let value = match sg {
                        Signedness::Signed => Integral::from_signed(v, SizeBit::new(w as usize)),
                        Signedness::Unsigned => {
                            let u = v as u128;
                            assert(u as int == v as int);
                            Integral::from_unsigned(u, SizeBit::new(w as usize))
                        },
                    };
                    (value, None)
                },
                Err(e) => (Integral::new(0, SizeBit::new(w as usize), sg), Some(NumberError::Int(e))),
            }
        },
    }
}

impl NumberError {
    /// The error's text, as the diagnostics show it.
    pub open spec fn text(&self) -> Seq<char> {
        match self {
            NumberError::Int(IntErrorKind::Empty) => "cannot parse integer from empty string"@,
            NumberError::Int(IntErrorKind::InvalidDigit) => "invalid digit found in string"@,
            NumberError::Int(IntErrorKind::PosOverflow) => "number too large to fit in target type"@,
            NumberError::Int(IntErrorKind::NegOverflow) => "number too small to fit in target type"@,
            NumberError::UnsupportedIntegerSuffix(s) => "unsupported integer literal suffix: "@ + s@,
            NumberError::UnsupportedFloatingSuffix(s) => "unsupported floating literal suffix: "@ + s@,
        }
    }

    /// The error's text, as the diagnostics show it.
    pub fn message(&self) -> (r: String)
        ensures
            r@ == self.text(),
    {
        let mut out = String::new();
        match self {
            NumberError::Int(IntErrorKind::Empty) => out.append("cannot parse integer from empty string"),
            NumberError::Int(IntErrorKind::InvalidDigit) => out.append("invalid digit found in string"),
            NumberError::Int(IntErrorKind::PosOverflow) => out.append("number too large to fit in target type"),
            NumberError::Int(IntErrorKind::NegOverflow) => out.append("number too small to fit in target type"),
            NumberError::UnsupportedIntegerSuffix(s) => {
                out.append("unsupported integer literal suffix: ");
                out.append(s.as_str());
            },
            NumberError::UnsupportedFloatingSuffix(s) => {
                out.append("unsupported floating literal suffix: ");
                out.append(s.as_str());
            },
        }
        out
    }
}

/// A decimal digit character reads back as its value.
proof fn lemma_digit_char_reads_back(d: nat)
    requires
        d < 10,
    ensures
        digit_of(digit_char(d), 10) == Some(d),
{
}

/// Reading `p + q` from position `k` of `p`: first `p`, then `q` from where
/// `p` left off.
proof fn lemma_accumulate_concat(p: Seq<char>, q: Seq<char>, k: nat, acc: int, radix: nat, negative: bool, lo: int, hi: int)
    requires
        k <= p.len(),
    ensures
        accumulate(p + q, k, acc, radix, negative, lo, hi) == match accumulate(p, k, acc, radix, negative, lo, hi) {
            Ok(a) => accumulate(p + q, p.len(), a, radix, negative, lo, hi),
            Err(e) => Err(e),
        },
    decreases p.len() - k,
{
    if k < p.len() {
        assert((p + q)[k as int] == p[k as int]);
        match digit_of(p[k as int], radix) {
            Some(d) => {
                let next = if negative { acc * radix - d } else { acc * radix + d };
                if !(next < lo || next > hi) {
                    lemma_accumulate_concat(p, q, k + 1, next, radix, negative, lo, hi);
                }
            },
            None => {},
        }
    }
}

/// The decimal digits of `n`, read from the start, give `n` (or `-n` when
/// read as a negative number) as long as it is in range.
proof fn lemma_decimal_reads_back(n: nat, negative: bool, lo: int, hi: int)
    requires
        lo <= 0 <= hi,
        !negative ==> n <= hi,
        negative ==> -n >= lo,
    ensures
        accumulate(decimal_text(n), 0, 0, 10, negative, lo, hi) == Ok::<int, IntErrorKind>(if negative { -n } else { n as int }),
    decreases n,
{
    if n < 10 {
        lemma_digit_char_reads_back(n);
        let s = decimal_text(n);
        assert(s == seq![digit_char(n)]);
        let next: int = if negative { 0int * 10 - n } else { 0int * 10 + n };
        assert(accumulate(s, 1, next, 10, negative, lo, hi) == Ok::<int, IntErrorKind>(next));
        assert(accumulate(s, 0, 0, 10, negative, lo, hi) == accumulate(s, 1, next, 10, negative, lo, hi));
    } else {
        let m = n / 10;
        let d = n % 10;
        lemma_decimal_reads_back(m, negative, lo, hi);
        lemma_digit_char_reads_back(d);
        let p = decimal_text(m);
        let q = seq![digit_char(d)];
        let s = p + q;
        assert(decimal_text(n) == s);
        lemma_accumulate_concat(p, q, 0, 0, 10, negative, lo, hi);
        assert(s[p.len() as int] == digit_char(d));
        let a: int = if negative { -m } else { m as int };
        let next: int = if negative { a * 10 - d } else { a * 10 + d };
        assert(m * 10 + d == n);
        assert(next == (if negative { -n } else { n as int })) by (nonlinear_arith)
            requires
                a == (if negative { -m } else { m as int }),
                next == (if negative { a * 10 - d } else { a * 10 + d }),
                m * 10 + d == n,
        ;
        assert(accumulate(s, p.len() + 1, next, 10, negative, lo, hi) == Ok::<int, IntErrorKind>(next));
        assert(accumulate(s, p.len(), a, 10, negative, lo, hi) == accumulate(s, p.len() + 1, next, 10, negative, lo, hi));
    }
}

/// The first character of a numeral is a digit.
proof fn lemma_decimal_starts_with_digit(n: nat)
    ensures
        decimal_text(n).len() >= 1,
        digit_value(decimal_text(n)[0]) is Some,
    decreases n,
{
    if n >= 10 {
        lemma_decimal_starts_with_digit(n / 10);
    }
}

/// Reading back what is written: the decimal text of any value of an
/// integer type, with its `-` when negative, reads back in base 10 as that
/// value of the type.
pub proof fn law_decimal_round_trip(v: int, width: nat, signedness: Signedness)
    requires
        1 <= width,
        type_min(width, signedness) <= v <= type_max(width, signedness),
    ensures
        int_from_text(
            signed_decimal_text(v),
            10,
            signedness == Signedness::Signed,
            type_min(width, signedness),
            type_max(width, signedness),
        ) == Ok::<int, IntErrorKind>(v),
{
    let lo = type_min(width, signedness);
    let hi = type_max(width, signedness);
    vstd::arithmetic::power2::lemma_pow2_pos(width);
    vstd::arithmetic::power2::lemma_pow2_pos((width - 1) as nat);
    if v < 0 {
        let n = (-v) as nat;
        let s = signed_decimal_text(v);
        lemma_decimal_reads_back(n, true, lo, hi);
        lemma_decimal_starts_with_digit(n);
        assert(signedness == Signedness::Signed);
        assert(s == "-"@ + decimal_text(n));
        assert("-"@ =~= seq!['-']) by {
            reveal_strlit("-");
        }
        assert(s[0] == '-');
        assert(s.len() >= 2);
        lemma_accumulate_shift(seq!['-'], decimal_text(n), 0, true, lo, hi);
    } else {
        let n = v as nat;
        lemma_decimal_reads_back(n, false, lo, hi);
        lemma_decimal_starts_with_digit(n);
        assert(signed_decimal_text(v) == decimal_text(n));
    }
}

/// What an integral prints reads back: the decimal text of an integral's
/// value, read in base 10 in the type of its width and signedness, is its
/// value again.
pub proof fn law_integral_text_round_trip(x: Integral)
    requires
        x.wf(),
    ensures
        int_from_text(
            signed_decimal_text(x.value()),
            10,
            x.sign() == Signedness::Signed,
            type_min(x.bit_width(), x.sign()),
            type_max(x.bit_width(), x.sign()),
        ) == Ok::<int, IntErrorKind>(x.value()),
{
    let w = x.bit_width();
    vstd::arithmetic::power2::lemma_pow2_unfold(w);
    assert(pow2(w) == 2 * pow2((w - 1) as nat));
    law_decimal_round_trip(x.value(), w, x.sign());
}

/// Reading `p + q` from the end of `p` is reading `q` from its start.
proof fn lemma_accumulate_shift(p: Seq<char>, q: Seq<char>, acc: int, negative: bool, lo: int, hi: int)
    ensures
        accumulate(p + q, p.len(), acc, 10, negative, lo, hi) == accumulate(q, 0, acc, 10, negative, lo, hi),
    decreases q.len(),
{
    lemma_accumulate_shift_from(p, q, 0, acc, negative, lo, hi);
}

/// Reading `p + q` from position `p.len() + k` is reading `q` from `k`.
proof fn lemma_accumulate_shift_from(p: Seq<char>, q: Seq<char>, k: nat, acc: int, negative: bool, lo: int, hi: int)
    ensures
        accumulate(p + q, p.len() + k, acc, 10, negative, lo, hi) == accumulate(q, k, acc, 10, negative, lo, hi),
    decreases q.len() - k,
{
    if k < q.len() {
        assert((p + q)[(p.len() + k) as int] == q[k as int]);
        match digit_of(q[k as int], 10) {
            Some(d) => {
                let next = if negative { acc * 10 - d } else { acc * 10 + d };
                if !(next < lo || next > hi) {
                    lemma_accumulate_shift_from(p, q, k + 1, next, negative, lo, hi);
                }
            },
            None => {},
        }
    }
}

} // verus!
