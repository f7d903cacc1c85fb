//! A width-aware integer that can represent any C integer type, in the spirit
//! of LLVM's `APInt`: the value is stored in the low `width` bits of a `u128`,
//! `1 <= width <= 128`, together with the signedness used to interpret it.
//!
//! All operations return a new value; operations on two integrals require
//! that both have the same width and signedness.
use crate::bits::{lemma_pow2_128, lemma_pow2_fits, lemma_pow2_le, mask_bits, max_unsigned_bits, pow2_u128};
use crate::size::{group_size, SizeBit};
use vstd::arithmetic::div_mod::{
    lemma_fundamental_div_mod, lemma_fundamental_div_mod_converse, lemma_mod_multiples_vanish,
    lemma_small_mod,
};
use vstd::arithmetic::mul::{lemma_mul_is_associative, lemma_mul_strict_inequality};
use vstd::arithmetic::power2::{lemma_pow2_adds, lemma_pow2_pos, lemma_pow2_unfold, pow2};
use vstd::math::abs;
use std::ops::{Add, BitAnd, BitOr, BitXor, Div, Mul, Neg, Not, Rem, Shl, Shr, Sub};
use crate::text::{push_decimal_u128, push_signed_decimal, signed_decimal_text};
use vstd::prelude::*;
use vstd::std_specs::convert::FromSpecImpl;
use vstd::std_specs::ops::{
    AddSpecImpl, BitAndSpecImpl, BitOrSpecImpl, BitXorSpecImpl, DivSpecImpl, MulSpecImpl,
    NegSpecImpl, NotSpecImpl, RemSpecImpl, ShlSpecImpl, ShrSpecImpl, SubSpecImpl,
};

verus! {

broadcast use group_size;

/// Signedness of an integer type.
#[derive(Clone, Copy, Debug, PartialEq, Eq, Structural, Hash)]
pub enum Signedness {
    Unsigned,
    Signed,
}

impl Signedness {
    #[inline]
    pub fn is_signed(self) -> (r: bool)
        ensures
            r == (self == Signedness::Signed),
    {
        matches!(self, Signedness::Signed)
    }

    #[inline]
    pub fn is_unsigned(self) -> (r: bool)
        ensures
            r == (self == Signedness::Unsigned),
    {
        matches!(self, Signedness::Unsigned)
    }
}

/// The value of `w`-bit two's complement pattern `bits` read as signed.
pub open spec fn signed_of(bits: nat, w: nat) -> int {
    if w > 0 && bits >= pow2((w - 1) as nat) {
        bits - pow2(w)
    } else {
        bits as int
    }
}

/// `v` reduced to the `w`-bit pattern that represents it, `v mod 2^w`.
pub open spec fn wraps(v: int, w: nat) -> nat {
    (v % (pow2(w) as int)) as nat
}

/// `v` is representable as a signed `w`-bit integer.
pub open spec fn in_signed_range(v: int, w: nat) -> bool {
    -pow2((w - 1) as nat) <= v < pow2((w - 1) as nat)
}

/// C's truncating division (the quotient is rounded toward zero).
pub open spec fn trunc_div(a: int, b: int) -> int {
    let q: int = (abs(a) / abs(b)) as int;
    if (a < 0) != (b < 0) {
        -q
    } else {
        q
    }
}

/// The remainder that goes with [`trunc_div`]: it has the sign of `a`.
pub open spec fn trunc_rem(a: int, b: int) -> int {
    let r: int = (abs(a) % abs(b)) as int;
    if a < 0 {
        -r
    } else {
        r
    }
}

/// The number of bit positions a shift by `amount` moves in a `w`-bit value.
pub open spec fn clamp_shift(amount: u32, w: nat) -> nat {
    if amount >= w {
        w
    } else {
        amount as nat
    }
}

/// A width-aware integer constant.
///
/// The raw bits live in the low `width` bits of `bits`; `signedness` says
/// how to read them. At IR level the signedness is to be ignored.
#[derive(Clone, Copy, Debug, PartialEq, Eq, Structural, Hash)]
pub struct Integral {
    bits: u128,
    width: u8,
    signedness: Signedness,
}

impl Integral {
    #[verifier::type_invariant]
    spec fn inv(self) -> bool {
        &&& 1 <= self.width <= 128
        &&& (self.bits as nat) < pow2(self.width as nat)
    }

    /// The stored bit pattern.
    pub closed spec fn raw(self) -> nat {
        self.bits as nat
    }

    /// The bit width.
    pub closed spec fn bit_width(self) -> nat {
        self.width as nat
    }

    /// The signedness used to interpret the bits.
    pub closed spec fn sign(self) -> Signedness {
        self.signedness
    }

    /// The shape every integral has: `1 <= width <= 128` and the bits fit the width.
    pub open spec fn wf(self) -> bool {
        &&& 1 <= self.bit_width() <= 128
        &&& self.raw() < pow2(self.bit_width())
    }

    /// The bits read as a signed two's complement number.
    pub open spec fn signed_value(self) -> int {
        signed_of(self.raw(), self.bit_width())
    }

    /// The number this integral denotes under its own signedness.
    pub open spec fn value(self) -> int {
        if self.sign() == Signedness::Signed {
            self.signed_value()
        } else {
            self.raw() as int
        }
    }

    /// The sign bit (bit `width - 1`) is set.
    pub open spec fn sign_bit_set(self) -> bool {
        self.raw() >= pow2((self.bit_width() - 1) as nat)
    }

    /// Same width and signedness.
    pub open spec fn same_kind(self, other: Integral) -> bool {
        self.bit_width() == other.bit_width() && self.sign() == other.sign()
    }

    /// The integral with the given bits, width and signedness.
    pub open spec fn has(self, bits: nat, width: nat, signedness: Signedness) -> bool {
        self.raw() == bits && self.bit_width() == width && self.sign() == signedness
    }
}

/// The integral with bit pattern `bits`, width `width` and signedness `signedness`.
pub closed spec fn make_integral(bits: nat, width: nat, signedness: Signedness) -> Integral {
    Integral { bits: bits as u128, width: width as u8, signedness }
}

/// What [`make_integral`] builds, when the bits fit the width.
pub broadcast proof fn lemma_make_integral(bits: nat, width: nat, signedness: Signedness)
    requires
        1 <= width <= 128,
        bits < pow2(width),
    ensures
        (#[trigger] make_integral(bits, width, signedness)).has(bits, width, signedness),
        make_integral(bits, width, signedness).wf(),
{
    lemma_pow2_le(width, 128);
    lemma_pow2_128();
}

/// An integral is determined by its bits, width and signedness.
pub proof fn lemma_integral_parts(x: Integral)
    ensures
        x == make_integral(x.raw(), x.bit_width(), x.sign()),
{
}

/// Facts about `2^(w-1)` and `2^w` for a width `w` in `1..=128`.
proof fn lemma_width_powers(w: nat)
    requires
        1 <= w <= 128,
    ensures
        pow2(w) == 2 * pow2((w - 1) as nat),
        0 < pow2((w - 1) as nat) <= 0x8000_0000_0000_0000_0000_0000_0000_0000,
        pow2(w) <= u128::MAX + 1,
{
    lemma_pow2_unfold(w);
    lemma_pow2_fits((w - 1) as nat);
    lemma_pow2_128();
}

/// `x mod m` when `x` lies in the `q`-th block of `m`.
proof fn lemma_mod_block(x: int, m: int, q: int)
    requires
        m > 0,
        q * m <= x < q * m + m,
    ensures
        x % m == x - q * m,
{
    lemma_fundamental_div_mod_converse(x, m, q, x - q * m);
}

/// Adding multiples of `m` does not change a remainder.
proof fn lemma_mod_add_multiple(x: int, k: int, m: int)
    requires
        m > 0,
    ensures
        (x + k * m) % m == x % m,
{
    lemma_mod_multiples_vanish(k, x, m);
    assert(m * k == k * m) by (nonlinear_arith);
}

/// `2^b` is a multiple of `2^a` when `a <= b`.
proof fn lemma_pow2_split(a: nat, b: nat)
    requires
        a <= b,
    ensures
        pow2(b) == pow2(a) * pow2((b - a) as nat),
{
    lemma_pow2_adds(a, (b - a) as nat);
}

/// Reducing modulo `2^b` and then modulo `2^a` is reducing modulo `2^a`.
proof fn lemma_mod_pow2_narrow(x: int, a: nat, b: nat)
    requires
        a <= b,
    ensures
        (x % (pow2(b) as int)) % (pow2(a) as int) == x % (pow2(a) as int),
{
    let pa = pow2(a) as int;
    let pb = pow2(b) as int;
    lemma_pow2_pos(a);
    lemma_pow2_pos(b);
    lemma_pow2_split(a, b);
    let k = pow2((b - a) as nat) as int;
    assert(pb == pa * k);
    lemma_fundamental_div_mod(x, pb);
    let q = x / pb;
    assert(x == pb * q + x % pb);
    assert(pb * q == (q * k) * pa) by {
        lemma_mul_is_associative(q, k, pa);
        assert(pb * q == pa * k * q) by (nonlinear_arith)
            requires
                pb == pa * k,
        ;
        assert(pa * k * q == q * k * pa) by (nonlinear_arith);
    }
    lemma_mod_add_multiple(x % pb, q * k, pa);
}

/// The magnitude of an `i128`, which always fits a `u128`.
fn magnitude(v: i128) -> (r: u128)
    ensures
        r == abs(v as int),
{
    if v >= 0 {
        v as u128
    } else {
        ((-(v + 1)) as u128) + 1
    }
}

/// The `w`-bit two's complement pattern of `v`.
fn wrap_i128(v: i128, w: u8) -> (r: u128)
    requires
        1 <= w <= 128,
    ensures
        r == wraps(v as int, w as nat),
{
    let pattern: u128 = if v >= 0 {
        v as u128
    } else {
        u128::MAX - ((-(v + 1)) as u128)
    };
    proof {
        lemma_pow2_128();
        lemma_pow2_pos(w as nat);
        if v < 0 {
            assert(pattern as int == v + pow2(128));
            lemma_pow2_split(w as nat, 128);
            let k = pow2((128 - w) as nat) as int;
            lemma_mod_add_multiple(v as int, k, pow2(w as nat) as int);
        }
    }
    mask_bits(pattern, w)
}

impl Integral {
    /// Builds an integral directly from its fields.
    fn from_parts(bits: u128, width: u8, signedness: Signedness) -> (r: Self)
        requires
            1 <= width <= 128,
            bits < pow2(width as nat),
        ensures
            r.has(bits as nat, width as nat, signedness),
    {
        Integral { bits, width, signedness }
    }

    /// An integral of `width` bits holding `value mod 2^width`.
    #[inline]
    pub fn new_unchecked(value: u128, width: u8, signedness: Signedness) -> (r: Self)
        requires
            1 <= width <= 128,
        ensures
            r.has((value as nat) % pow2(width as nat), width as nat, signedness),
            r.wf(),
    {
        let bits = mask_bits(value, width);
        proof {
            lemma_pow2_pos(width as nat);
            lemma_width_powers(width as nat);
        }
        Integral { bits, width, signedness }
    }

    /// Creates an integral value, masking `value` to the given width.
    #[inline]
    pub fn new(value: u128, width: SizeBit, signedness: Signedness) -> (r: Self)
        requires
            1 <= width@ <= 128,
        ensures
            r.has((value as nat) % pow2(width@), width@, signedness),
            r.wf(),
    {
        Self::new_unchecked(value, width.get() as u8, signedness)
    }

    /// A signed integral of `width` bits holding `value mod 2^width`.
    #[inline]
    pub fn from_signed(value: i128, width: SizeBit) -> (r: Self)
        requires
            1 <= width@ <= 128,
        ensures
            r.has(wraps(value as int, width@), width@, Signedness::Signed),
            r.wf(),
    {
        let w = width.get() as u8;
        let bits = wrap_i128(value, w);
        proof {
            lemma_pow2_pos(w as nat);
        }
        Self::from_parts(bits, w, Signedness::Signed)
    }

    /// An unsigned integral of `width` bits holding `value mod 2^width`.
    #[inline]
    pub fn from_unsigned(value: u128, width: SizeBit) -> (r: Self)
        requires
            1 <= width@ <= 128,
        ensures
            r.has((value as nat) % pow2(width@), width@, Signedness::Unsigned),
            r.wf(),
    {
        Self::new(value, width, Signedness::Unsigned)
    }

    /// The `i1` boolean: one bit, unsigned.
    #[inline]
    pub fn from_bool(value: bool) -> (r: Self)
        ensures
            r.has(if value { 1 } else { 0 }, 1, Signedness::Unsigned),
            r.wf(),
    {
        proof {
            lemma_width_powers(1);
            vstd::arithmetic::power2::lemma2_to64();
        }
        Integral { bits: if value { 1 } else { 0 }, width: 1, signedness: Signedness::Unsigned }
    }

    /// All `width` bits set, unsigned.
    #[inline]
    pub fn bitmask(width: SizeBit) -> (r: Self)
        requires
            1 <= width@ <= 128,
        ensures
            r.has((pow2(width@) - 1) as nat, width@, Signedness::Unsigned),
            r.wf(),
    {
        let w = width.get() as u8;
        let bits = max_unsigned_bits(w);
        Integral { bits, width: w, signedness: Signedness::Unsigned }
    }

    #[inline]
    pub fn i1_true() -> (r: Self)
        ensures
            r.has(1, 1, Signedness::Unsigned),
            r.wf(),
    {
        Self::from_bool(true)
    }

    #[inline]
    pub fn i1_false() -> (r: Self)
        ensures
            r.has(0, 1, Signedness::Unsigned),
            r.wf(),
    {
        Self::from_bool(false)
    }

    /// The largest width an integral supports, 128 bits.
    pub fn max_supported_size_bits() -> (r: SizeBit)
        ensures
            r@ == 128,
    {
        SizeBit::new(128)
    }
}

impl Integral {
    #[inline]
    pub fn bits(&self) -> (r: u128)
        ensures
            r == self.raw(),
            self.wf(),
    {
        proof {
            use_type_invariant(self);
        }
        self.bits
    }

    #[inline]
    pub fn width(&self) -> (r: SizeBit)
        ensures
            r@ == self.bit_width(),
            self.wf(),
    {
        proof {
            use_type_invariant(self);
        }
        SizeBit::new(self.width as usize)
    }

    #[inline]
    pub fn signedness(&self) -> (r: Signedness)
        ensures
            r == self.sign(),
    {
        self.signedness
    }

    #[inline]
    pub fn is_signed(&self) -> (r: bool)
        ensures
            r == (self.sign() == Signedness::Signed),
    {
        self.signedness.is_signed()
    }

    #[inline]
    pub fn is_unsigned(&self) -> (r: bool)
        ensures
            r == (self.sign() == Signedness::Unsigned),
    {
        self.signedness.is_unsigned()
    }

    /// Checks whether the sign bit is set.
    #[inline]
    pub fn sign_bit(&self) -> (r: bool)
        ensures
            r == self.sign_bit_set(),
            self.wf(),
    {
        proof {
            use_type_invariant(self);
            lemma_width_powers(self.width as nat);
        }
        self.bits >= pow2_u128(self.width - 1)
    }

    /// The number in decimal, read under the integral's signedness.
    pub fn to_string(&self) -> (r: String)
        ensures
            r@ == signed_decimal_text(self.value()),
    {
        let mut out = String::new();
        if self.is_signed() {
            push_signed_decimal(self.as_signed(), &mut out);
        } else {
            push_decimal_u128(self.bits(), &mut out);
        }
        out
    }

    /// The bits sign-extended to `i128`.
    #[inline]
    pub fn as_signed(&self) -> (r: i128)
        ensures
            r == self.signed_value(),
            self.wf(),
    {
        proof {
            use_type_invariant(self);
            lemma_width_powers(self.width as nat);
        }
        if self.sign_bit() {
            let complement = max_unsigned_bits(self.width) - self.bits;
            -(complement as i128) - 1
        } else {
            self.bits as i128
        }
    }

    /// The bits, the same as [`Integral::bits`].
    #[inline]
    pub fn as_unsigned(&self) -> (r: u128)
        ensures
            r == self.raw(),
    {
        self.bits
    }

    #[inline]
    pub fn is_zero(&self) -> (r: bool)
        ensures
            r == (self.raw() == 0),
    {
        self.bits == 0
    }

    #[inline]
    pub fn is_one(&self) -> (r: bool)
        ensures
            r == (self.raw() == 1),
    {
        self.bits == 1
    }

    /// Checks whether the value is negative; only signed values can be.
    #[inline]
    pub fn is_negative(&self) -> (r: bool)
        ensures
            r == (self.sign() == Signedness::Signed && self.sign_bit_set()),
    {
        self.is_signed() && self.sign_bit()
    }

    /// Checks whether the value is positive (nonzero and not negative).
    #[inline]
    pub fn is_positive(&self) -> (r: bool)
        ensures
            r == (self.raw() != 0 && !(self.sign() == Signedness::Signed && self.sign_bit_set())),
    {
        !self.is_zero() && !self.is_negative()
    }
}


impl Integral {
    /// The minimum value for this width and signedness.
    pub fn min_value(width: SizeBit, signedness: Signedness) -> (r: Self)
        requires
            1 <= width@ <= 128,
        ensures
            r.bit_width() == width@,
            r.sign() == signedness,
            r.wf(),
            r.value() == (if signedness == Signedness::Signed {
                -pow2((width@ - 1) as nat)
            } else {
                0
            }),
    {
        let w = width.get() as u8;
        proof {
            lemma_width_powers(w as nat);
        }
        match signedness {
            Signedness::Unsigned => Self::from_parts(0, w, signedness),
            Signedness::Signed => Self::from_parts(pow2_u128(w - 1), w, signedness),
        }
    }

    /// The maximum value for this width and signedness.
    pub fn max_value(width: SizeBit, signedness: Signedness) -> (r: Self)
        requires
            1 <= width@ <= 128,
        ensures
            r.bit_width() == width@,
            r.sign() == signedness,
            r.wf(),
            r.value() == (if signedness == Signedness::Signed {
                pow2((width@ - 1) as nat) - 1
            } else {
                pow2(width@) - 1
            }),
    {
        let w = width.get() as u8;
        proof {
            lemma_width_powers(w as nat);
        }
        match signedness {
            Signedness::Unsigned => Self::from_parts(max_unsigned_bits(w), w, signedness),
            Signedness::Signed => Self::from_parts(pow2_u128(w - 1) - 1, w, signedness),
        }
    }

    /// Converts to another width and/or signedness: the result holds this
    /// integral's value (read with its own signedness) modulo `2^new_width`,
    /// i.e. it is truncated, or sign- or zero-extended as appropriate.
    pub fn cast(self, new_width: SizeBit, new_signedness: Signedness) -> (r: Self)
        requires
            1 <= new_width@ <= 128,
        ensures
            r.has(wraps(self.value(), new_width@), new_width@, new_signedness),
            r.wf(),
    {
        proof {
            use_type_invariant(&self);
            lemma_width_powers(self.width as nat);
            lemma_width_powers(new_width@);
        }
        let nw = new_width.get() as u8;
        let w = self.width;
        let a = self.bits;
        let ghost pw = pow2(w as nat) as int;
        let ghost pn = pow2(nw as nat) as int;
        if nw >= w {
            proof {
                lemma_pow2_le(w as nat, nw as nat);
            }
            if self.is_signed() && self.sign_bit() {
                let extended = a + (max_unsigned_bits(nw) - max_unsigned_bits(w));
                proof {
                    assert(self.value() == a - pw);
                    lemma_mod_block(self.value(), pn, -1);
                }
                Self::from_parts(extended, nw, new_signedness)
            } else {
                proof {
                    assert(self.value() == a);
                    lemma_mod_block(a as int, pn, 0);
                }
                Self::from_parts(a, nw, new_signedness)
            }
        } else {
            let truncated = mask_bits(a, nw);
            proof {
                if self.value() != a {
                    assert(self.value() == a - pw);
                    lemma_pow2_split(nw as nat, w as nat);
                    let k = pow2((w - nw) as nat) as int;
                    assert(pw == pn * k);
                    assert(-1 * k * pn == -pw) by (nonlinear_arith)
                        requires
                            pw == pn * k,
                    ;
                    lemma_mod_add_multiple(a as int, -1 * k, pn);
                }
                lemma_pow2_pos(nw as nat);
            }
            Self::from_parts(truncated, nw, new_signedness)
        }
    }

    /// Changes the signedness without changing the bits.
    #[inline]
    pub fn reinterpret(self, signedness: Signedness) -> (r: Self)
        ensures
            r.has(self.raw(), self.bit_width(), signedness),
            r.wf(),
    {
        proof {
            use_type_invariant(&self);
        }
        Integral { signedness, ..self }
    }

    /// Zero-extends to a wider width; the result is unsigned.
    #[inline]
    pub fn zext(self, new_width: SizeBit) -> (r: Self)
        requires
            self.bit_width() <= new_width@ <= 128,
        ensures
            r.has(self.raw(), new_width@, Signedness::Unsigned),
            r.wf(),
    {
        proof {
            use_type_invariant(&self);
            lemma_pow2_le(self.width as nat, new_width@);
            lemma_small_mod(self.bits as nat, pow2(new_width@));
        }
        Self::new(self.bits, new_width, Signedness::Unsigned)
    }

    /// Extends to a wider width as [`Integral::cast`] does, with a signed result.
    #[inline]
    pub fn sext(self, new_width: SizeBit) -> (r: Self)
        requires
            self.bit_width() <= new_width@ <= 128,
        ensures
            r.has(wraps(self.value(), new_width@), new_width@, Signedness::Signed),
            r.wf(),
    {
        proof {
            use_type_invariant(&self);
        }
        self.cast(new_width, Signedness::Signed)
    }

    /// Truncates to a narrower width.
    #[inline]
    pub fn trunc(self, new_width: SizeBit, signedness: Signedness) -> (r: Self)
        requires
            1 <= new_width@ <= self.bit_width(),
        ensures
            r.has(self.raw() % pow2(new_width@), new_width@, signedness),
            r.wf(),
    {
        proof {
            use_type_invariant(&self);
        }
        Self::new(self.bits, new_width, signedness)
    }
}


/// Whether the sum, taken with signedness `s`, leaves the `w`-bit range.
pub open spec fn add_overflows(a: nat, b: nat, w: nat, s: Signedness) -> bool {
    if s == Signedness::Signed {
        !in_signed_range(signed_of(a, w) + signed_of(b, w), w)
    } else {
        a + b >= pow2(w)
    }
}

/// Whether the difference, taken with signedness `s`, leaves the `w`-bit range.
pub open spec fn sub_overflows(a: nat, b: nat, w: nat, s: Signedness) -> bool {
    if s == Signedness::Signed {
        !in_signed_range(signed_of(a, w) - signed_of(b, w), w)
    } else {
        b > a
    }
}

/// Whether the product, taken with signedness `s`, leaves the `w`-bit range.
pub open spec fn mul_overflows(a: nat, b: nat, w: nat, s: Signedness) -> bool {
    if s == Signedness::Signed {
        !in_signed_range(signed_of(a, w) * signed_of(b, w), w)
    } else {
        a * b >= pow2(w)
    }
}

/// The quotient's bit pattern: truncating division of the values.
pub open spec fn div_bits(a: nat, b: nat, w: nat, s: Signedness) -> nat {
    if s == Signedness::Signed {
        wraps(trunc_div(signed_of(a, w), signed_of(b, w)), w)
    } else {
        a / b
    }
}

/// The remainder's bit pattern: the remainder of truncating division.
pub open spec fn rem_bits(a: nat, b: nat, w: nat, s: Signedness) -> nat {
    if s == Signedness::Signed {
        wraps(trunc_rem(signed_of(a, w), signed_of(b, w)), w)
    } else {
        a % b
    }
}

/// The one division whose quotient overflows 128 bits: `i128::MIN / -1`.
pub open spec fn is_i128_min_by_minus_one(a: Integral, b: Integral) -> bool {
    &&& a.sign() == Signedness::Signed
    &&& a.bit_width() == 128
    &&& a.signed_value() == -pow2(127)
    &&& b.signed_value() == -1
}

/// Signed overflow of a `w`-bit addition shows in the sign bits.
proof fn lemma_signed_add_flag(a: int, b: int, h: int)
    requires
        h > 0,
        0 <= a < 2 * h,
        0 <= b < 2 * h,
    ensures
        ({
            let r = if a + b < 2 * h { a + b } else { a + b - 2 * h };
            let sa = if a >= h { a - 2 * h } else { a };
            let sb = if b >= h { b - 2 * h } else { b };
            ((a >= h) == (b >= h) && (a >= h) != (r >= h)) == !(-h <= sa + sb < h)
        }),
{
}

/// Signed overflow of a `w`-bit subtraction shows in the sign bits.
proof fn lemma_signed_sub_flag(a: int, b: int, h: int)
    requires
        h > 0,
        0 <= a < 2 * h,
        0 <= b < 2 * h,
    ensures
        ({
            let r = if a >= b { a - b } else { a - b + 2 * h };
            let sa = if a >= h { a - 2 * h } else { a };
            let sb = if b >= h { b - 2 * h } else { b };
            ((a >= h) != (b >= h) && (b >= h) == (r >= h)) == !(-h <= sa - sb < h)
        }),
{
}

/// Products agree modulo `m` when their factors do.
proof fn lemma_mul_mod_shift(x: int, y: int, i: int, j: int, m: int)
    requires
        m > 0,
    ensures
        ((x + i * m) * (y + j * m)) % m == (x * y) % m,
{
    let b = y + j * m;
    assert((x + i * m) * b == x * b + (i * m) * b) by (nonlinear_arith);
    assert(x * b == x * y + (x * j) * m) by (nonlinear_arith)
        requires
            b == y + j * m,
    ;
    assert((i * m) * b == (i * y + i * j * m) * m) by (nonlinear_arith)
        requires
            b == y + j * m,
    ;
    assert((x * j) * m + (i * y + i * j * m) * m == (x * j + i * y + i * j * m) * m)
        by (nonlinear_arith);
    lemma_mod_add_multiple(x * y, x * j + i * y + i * j * m, m);
}

/// A value in the signed range of a width up to 128 fits `i128`.
proof fn lemma_signed_range_fits_i128(v: int, w: nat)
    requires
        1 <= w <= 128,
        in_signed_range(v, w),
    ensures
        i128::MIN <= v <= i128::MAX,
{
    lemma_pow2_le((w - 1) as nat, 127);
    lemma_pow2_fits(127);
    lemma_pow2_unfold(128);
    lemma_pow2_128();
}

impl Integral {
    /// Adds with overflow detection; the sum wraps to the width.
    pub fn overflowing_add(self, rhs: Self) -> (r: (Self, bool))
        requires
            self.same_kind(rhs),
        ensures
            r.0.has(wraps((self.raw() + rhs.raw()) as int, self.bit_width()), self.bit_width(), self.sign()),
            r.0.wf(),
            r.1 == add_overflows(self.raw(), rhs.raw(), self.bit_width(), self.sign()),
    {
        proof {
            use_type_invariant(&self);
            use_type_invariant(&rhs);
            lemma_width_powers(self.width as nat);
        }
        let a = self.bits;
        let b = rhs.bits;
        let ghost p = pow2(self.width as nat) as int;
        let room = max_unsigned_bits(self.width) - a;
        let sum = if b > room {
            b - room - 1
        } else {
            a + b
        };
        proof {
            if b > room {
                lemma_mod_block(a + b, p, 1);
            } else {
                lemma_mod_block(a + b, p, 0);
            }
        }
        let result = Self::from_parts(sum, self.width, self.signedness);
        let overflow = if self.is_signed() {
            let a_neg = self.sign_bit();
            let b_neg = rhs.sign_bit();
            let r_neg = result.sign_bit();
            proof {
                lemma_signed_add_flag(a as int, b as int, pow2((self.width - 1) as nat) as int);
            }
            a_neg == b_neg && a_neg != r_neg
        } else {
            sum < a
        };
        (result, overflow)
    }

    /// Subtracts with overflow detection; the difference wraps to the width.
    pub fn overflowing_sub(self, rhs: Self) -> (r: (Self, bool))
        requires
            self.same_kind(rhs),
        ensures
            r.0.has(wraps(self.raw() - rhs.raw(), self.bit_width()), self.bit_width(), self.sign()),
            r.0.wf(),
            r.1 == sub_overflows(self.raw(), rhs.raw(), self.bit_width(), self.sign()),
    {
        proof {
            use_type_invariant(&self);
            use_type_invariant(&rhs);
            lemma_width_powers(self.width as nat);
        }
        let a = self.bits;
        let b = rhs.bits;
        let ghost p = pow2(self.width as nat) as int;
        let diff = if b > a {
            a + (max_unsigned_bits(self.width) - b) + 1
        } else {
            a - b
        };
        proof {
            if b > a {
                lemma_mod_block(a - b, p, -1);
            } else {
                lemma_mod_block(a - b, p, 0);
            }
        }
        let result = Self::from_parts(diff, self.width, self.signedness);
        let overflow = if self.is_signed() {
            let a_neg = self.sign_bit();
            let b_neg = rhs.sign_bit();
            let r_neg = result.sign_bit();
            proof {
                lemma_signed_sub_flag(a as int, b as int, pow2((self.width - 1) as nat) as int);
            }
            a_neg != b_neg && b_neg == r_neg
        } else {
            b > a
        };
        (result, overflow)
    }
}

impl Integral {
    /// Multiplies with overflow detection; the product wraps to the width.
    pub fn overflowing_mul(self, rhs: Self) -> (r: (Self, bool))
        requires
            self.same_kind(rhs),
        ensures
            r.0.has(wraps((self.raw() * rhs.raw()) as int, self.bit_width()), self.bit_width(), self.sign()),
            r.0.wf(),
            r.1 == mul_overflows(self.raw(), rhs.raw(), self.bit_width(), self.sign()),
    {
        proof {
            use_type_invariant(&self);
            use_type_invariant(&rhs);
            lemma_width_powers(self.width as nat);
            lemma_pow2_128();
        }
        let a = self.bits;
        let b = rhs.bits;
        let product = mask_bits(a.wrapping_mul(b), self.width);
        proof {
            lemma_mod_pow2_narrow((a * b) as int, self.width as nat, 128);
            lemma_pow2_pos(self.width as nat);
        }
        let result = Self::from_parts(product, self.width, self.signedness);
        let overflow = if self.is_signed() {
            let sa = self.as_signed();
            let sb = rhs.as_signed();
            match sa.checked_mul(sb) {
                None => {
                    proof {
                        if in_signed_range(sa * sb, self.width as nat) {
                            lemma_signed_range_fits_i128(sa * sb, self.width as nat);
                        }
                    }
                    true
                },
                Some(p) => {
                    let half = pow2_u128(self.width - 1);
                    if p >= 0 {
                        (p as u128) >= half
                    } else {
                        ((-(p + 1)) as u128) >= half
                    }
                },
            }
        } else {
            match a.checked_mul(b) {
                None => true,
                Some(p) => p > max_unsigned_bits(self.width),
            }
        };
        (result, overflow)
    }
}

/// The signed reading of a `w`-bit pattern lies in the signed `w`-bit range,
/// and only a 128-bit pattern reaches `-2^127`.
proof fn lemma_signed_of_range(bits: nat, w: nat)
    requires
        1 <= w <= 128,
        bits < pow2(w),
    ensures
        in_signed_range(signed_of(bits, w), w),
        signed_of(bits, w) > -pow2(127) || w == 128,
        pow2(127) == 0x8000_0000_0000_0000_0000_0000_0000_0000,
{
    lemma_width_powers(w);
    lemma_pow2_fits(127);
    lemma_pow2_unfold(128);
    lemma_pow2_128();
    if w < 128 {
        lemma_pow2_le((w - 1) as nat, 126);
        lemma_pow2_unfold(127);
    }
}


impl Integral {
    /// Divides, rounding toward zero; `None` on division by zero.
    pub fn checked_div(self, rhs: Self) -> (r: Option<Self>)
        requires
            self.same_kind(rhs),
            !is_i128_min_by_minus_one(self, rhs),
        ensures
            r is None <==> rhs.raw() == 0,
            r matches Some(q) ==> q.has(
                div_bits(self.raw(), rhs.raw(), self.bit_width(), self.sign()),
                self.bit_width(),
                self.sign(),
            ) && q.wf(),
    {
        proof {
            use_type_invariant(&self);
            use_type_invariant(&rhs);
            lemma_width_powers(self.width as nat);
            lemma_pow2_pos(self.width as nat);
        }
        if rhs.is_zero() {
            return None;
        }
        let bits = if self.is_signed() {
            let sa = self.as_signed();
            let sb = rhs.as_signed();
            let ma = magnitude(sa);
            let mb = magnitude(sb);
            let q = ma / mb;
            proof {
                lemma_signed_of_range(self.bits as nat, self.width as nat);
                lemma_signed_of_range(rhs.bits as nat, self.width as nat);
                lemma_pow2_le((self.width - 1) as nat, 127);
                lemma_pow2_fits(127);
                lemma_pow2_unfold(128);
                lemma_pow2_128();
                vstd::arithmetic::div_mod::lemma_div_is_ordered_by_denominator(ma as int, 1, mb as int);
                if mb >= 2 {
                    vstd::arithmetic::div_mod::lemma_div_is_ordered_by_denominator(ma as int, 2, mb as int);
                }
            }
            let quotient: i128 = if (sa < 0) != (sb < 0) {
                if q == 0 {
                    0
                } else {
                    -((q - 1) as i128) - 1
                }
            } else {
                q as i128
            };
            assert(quotient == trunc_div(sa as int, sb as int));
            wrap_i128(quotient, self.width)
        } else {
            self.bits / rhs.bits
        };
        Some(Self::from_parts(bits, self.width, self.signedness))
    }

    /// The remainder of [`Integral::checked_div`], with the sign of the
    /// dividend; `None` on division by zero.
    pub fn checked_rem(self, rhs: Self) -> (r: Option<Self>)
        requires
            self.same_kind(rhs),
            !is_i128_min_by_minus_one(self, rhs),
        ensures
            r is None <==> rhs.raw() == 0,
            r matches Some(q) ==> q.has(
                rem_bits(self.raw(), rhs.raw(), self.bit_width(), self.sign()),
                self.bit_width(),
                self.sign(),
            ) && q.wf(),
    {
        proof {
            use_type_invariant(&self);
            use_type_invariant(&rhs);
            lemma_width_powers(self.width as nat);
            lemma_pow2_pos(self.width as nat);
        }
        if rhs.is_zero() {
            return None;
        }
        let bits = if self.is_signed() {
            let sa = self.as_signed();
            let sb = rhs.as_signed();
            let ma = magnitude(sa);
            let mb = magnitude(sb);
            let m = ma % mb;
            proof {
                lemma_signed_of_range(self.bits as nat, self.width as nat);
                lemma_signed_of_range(rhs.bits as nat, self.width as nat);
                lemma_pow2_le((self.width - 1) as nat, 127);
                lemma_pow2_fits(127);
                lemma_pow2_unfold(128);
                lemma_pow2_128();
                vstd::arithmetic::div_mod::lemma_mod_pos_bound(ma as int, mb as int);
            }
            let remainder: i128 = if sa < 0 {
                -(m as i128)
            } else {
                m as i128
            };
            assert(remainder == trunc_rem(sa as int, sb as int));
            wrap_i128(remainder, self.width)
        } else {
            proof {
                vstd::arithmetic::div_mod::lemma_mod_pos_bound(self.bits as int, rhs.bits as int);
            }
            self.bits % rhs.bits
        };
        Some(Self::from_parts(bits, self.width, self.signedness))
    }
}

/// The bits of a logical right shift by `amount` (clamped to the width).
pub open spec fn lshr_bits(a: nat, w: nat, amount: u32) -> nat {
    a / pow2(clamp_shift(amount, w))
}

/// The bits of an arithmetic right shift by `amount` (clamped to the width):
/// the signed value divided by `2^amount`, rounded toward negative infinity.
pub open spec fn ashr_bits(a: nat, w: nat, amount: u32) -> nat {
    wraps(signed_of(a, w) / (pow2(clamp_shift(amount, w)) as int), w)
}

/// The bits of a left shift by `amount` (clamped to the width).
pub open spec fn shl_bits(a: nat, w: nat, amount: u32) -> nat {
    wraps((a * pow2(clamp_shift(amount, w))) as int, w)
}

/// Rounding toward negative infinity: `(-1 - c) / d == -1 - c / d`.
proof fn lemma_floor_div_negative(c: int, d: int)
    requires
        c >= 0,
        d > 0,
    ensures
        (-1 - c) / d == -1 - c / d,
{
    lemma_fundamental_div_mod(c, d);
    vstd::arithmetic::div_mod::lemma_mod_pos_bound(c, d);
    let q = c / d;
    let r = c % d;
    assert(-1 - c == (-1 - q) * d + (d - 1 - r)) by (nonlinear_arith)
        requires
            c == d * q + r,
    ;
    lemma_fundamental_div_mod_converse(-1 - c, d, -1 - q, d - 1 - r);
}

/// `x / 2^k` for any shift amount `k`.
fn shr_u128(x: u128, k: u32) -> (r: u128)
    ensures
        r == (x as nat) / pow2(k as nat),
{
    if k >= 128 {
        proof {
            lemma_pow2_128();
            lemma_pow2_le(128, k as nat);
            vstd::arithmetic::div_mod::lemma_basic_div(x as int, pow2(k as nat) as int);
        }
        0
    } else {
        proof {
            lemma_pow2_fits(k as nat);
        }
        x / pow2_u128(k as u8)
    }
}

impl Integral {
    /// The shift amount clamped to the width.
    fn clamped(&self, amount: u32) -> (k: u32)
        ensures
            k == clamp_shift(amount, self.bit_width()),
    {
        if amount >= self.width as u32 {
            self.width as u32
        } else {
            amount
        }
    }

    /// Logical right shift: the vacated bits are zero-filled. Shifting by the
    /// width or more gives zero.
    pub fn lshr(self, amount: u32) -> (r: Self)
        ensures
            r.has(lshr_bits(self.raw(), self.bit_width(), amount), self.bit_width(), self.sign()),
            r.wf(),
    {
        proof {
            use_type_invariant(&self);
        }
        let k = self.clamped(amount);
        let bits = shr_u128(self.bits, k);
        proof {
            lemma_pow2_pos(k as nat);
            vstd::arithmetic::div_mod::lemma_div_is_ordered_by_denominator(self.bits as int, 1, pow2(k as nat) as int);
        }
        Self::from_parts(bits, self.width, self.signedness)
    }

    /// Arithmetic right shift: the vacated bits are filled with the sign bit.
    /// Shifting by the width or more gives zero or all ones.
    pub fn ashr(self, amount: u32) -> (r: Self)
        ensures
            r.has(ashr_bits(self.raw(), self.bit_width(), amount), self.bit_width(), self.sign()),
            r.wf(),
    {
        proof {
            use_type_invariant(&self);
            lemma_width_powers(self.width as nat);
        }
        let k = self.clamped(amount);
        let ghost w = self.width as nat;
        let ghost d = pow2(k as nat) as int;
        proof {
            lemma_pow2_pos(k as nat);
        }
        if self.sign_bit() {
            let complement = max_unsigned_bits(self.width) - self.bits;
            let shifted = shr_u128(complement, k);
            proof {
                vstd::arithmetic::div_mod::lemma_div_is_ordered_by_denominator(complement as int, 1, d);
                lemma_floor_div_negative(complement as int, d);
                assert(signed_of(self.bits as nat, w) == -1 - complement);
                lemma_mod_block(-1 - shifted, pow2(w) as int, -1);
            }
            Self::from_parts(max_unsigned_bits(self.width) - shifted, self.width, self.signedness)
        } else {
            let shifted = shr_u128(self.bits, k);
            proof {
                vstd::arithmetic::div_mod::lemma_div_is_ordered_by_denominator(self.bits as int, 1, d);
                lemma_mod_block(shifted as int, pow2(w) as int, 0);
            }
            Self::from_parts(shifted, self.width, self.signedness)
        }
    }
}

/// What [`Integral::cast`] gives: the value, reduced to the new width.
pub open spec fn cast_value(x: Integral, width: nat, signedness: Signedness) -> Integral {
    make_integral(wraps(x.value(), width), width, signedness)
}

/// The signed reading of a `w`-bit pattern is congruent to the pattern.
proof fn lemma_wraps_signed_of(bits: nat, w: nat)
    requires
        1 <= w <= 128,
        bits < pow2(w),
    ensures
        wraps(signed_of(bits, w), w) == bits,
{
    lemma_width_powers(w);
    lemma_pow2_pos(w);
    if bits >= pow2((w - 1) as nat) {
        lemma_mod_block(bits - pow2(w), pow2(w) as int, -1);
    } else {
        lemma_mod_block(bits as int, pow2(w) as int, 0);
    }
}

/// An integral's value is congruent to its bits.
proof fn lemma_wraps_value(x: Integral)
    requires
        x.wf(),
    ensures
        wraps(x.value(), x.bit_width()) == x.raw(),
{
    lemma_wraps_signed_of(x.raw(), x.bit_width());
    lemma_pow2_pos(x.bit_width());
    lemma_mod_block(x.raw() as int, pow2(x.bit_width()) as int, 0);
}

/// Integrals of one kind with the same value have the same bits.
pub proof fn lemma_value_determines_bits(x: Integral, y: Integral)
    requires
        x.wf(),
        y.wf(),
        x.same_kind(y),
        x.value() == y.value(),
    ensures
        x.raw() == y.raw(),
{
    lemma_wraps_value(x);
    lemma_wraps_value(y);
}

/// A value in the signed range of `w` bits is the signed reading of its pattern.
proof fn lemma_signed_of_wraps(v: int, w: nat)
    requires
        1 <= w <= 128,
        in_signed_range(v, w),
    ensures
        signed_of(wraps(v, w), w) == v,
        wraps(v, w) < pow2(w),
{
    lemma_width_powers(w);
    lemma_pow2_pos(w);
    if v >= 0 {
        lemma_mod_block(v, pow2(w) as int, 0);
    } else {
        lemma_mod_block(v, pow2(w) as int, -1);
    }
}

/// Values congruent modulo `2^w` have the same `w`-bit pattern.
proof fn lemma_wraps_shift(v: int, k: int, w: nat)
    ensures
        wraps(v + k * pow2(w), w) == wraps(v, w),
{
    lemma_pow2_pos(w);
    lemma_mod_add_multiple(v, k, pow2(w) as int);
}

/// The bits fit a `u128` and the width a `u8`.
pub proof fn lemma_integral_fields_fit(a: Integral)
    ensures
        a.raw() <= u128::MAX,
        a.bit_width() <= u8::MAX,
{
}

/// An integral is determined by its bits, its width and its signedness.
pub proof fn lemma_integral_ext(a: Integral, b: Integral)
    requires
        a.raw() == b.raw(),
        a.bit_width() == b.bit_width(),
        a.sign() == b.sign(),
    ensures
        a == b,
{
}

/// Casting to a width at least as large, with any signedness, and back to
/// its own width and signedness gives it back unchanged.
pub proof fn law_cast_round_trip(x: Integral, wide: nat, signedness: Signedness)
    requires
        x.wf(),
        x.bit_width() <= wide <= 128,
    ensures
        cast_value(cast_value(x, wide, signedness), x.bit_width(), x.sign()) == x,
{
    let w = x.bit_width();
    lemma_pow2_pos(w);
    lemma_pow2_pos(wide);
    let y = cast_value(x, wide, signedness);
    let yb = wraps(x.value(), wide);
    assert(yb < pow2(wide)) by {
        vstd::arithmetic::div_mod::lemma_mod_bound(x.value(), pow2(wide) as int);
    }
    lemma_make_integral(yb, wide, signedness);
    // y's value is congruent to its bits modulo 2^wide, hence modulo 2^w.
    lemma_wraps_value(y);
    assert(wraps(y.value(), wide) == yb);
    lemma_pow2_split(w, wide);
    let m = pow2((wide - w) as nat) as int;
    lemma_mod_pow2_narrow(y.value(), w, wide);
    lemma_mod_pow2_narrow(x.value(), w, wide);
    lemma_wraps_value(x);
    assert(wraps(x.value(), w) == x.raw());
    assert(wraps(y.value(), w) == x.raw());
    lemma_make_integral(x.raw(), w, x.sign());
    lemma_integral_parts(x);
}

/// Extending a signed integral to a wider width keeps its value.
pub proof fn law_sext_keeps_value(x: Integral, wide: nat)
    requires
        x.wf(),
        x.sign() == Signedness::Signed,
        x.bit_width() <= wide <= 128,
    ensures
        cast_value(x, wide, Signedness::Signed).value() == x.value(),
{
    let w = x.bit_width();
    lemma_signed_of_range(x.raw(), w);
    lemma_width_powers(w);
    lemma_width_powers(wide);
    lemma_pow2_le((w - 1) as nat, (wide - 1) as nat);
    lemma_signed_of_wraps(x.value(), wide);
    lemma_make_integral(wraps(x.value(), wide), wide, Signedness::Signed);
}

/// Extending an unsigned integral to a wider width keeps its value.
pub proof fn law_zext_keeps_value(x: Integral, wide: nat)
    requires
        x.wf(),
        x.sign() == Signedness::Unsigned,
        x.bit_width() <= wide <= 128,
    ensures
        cast_value(x, wide, Signedness::Unsigned).value() == x.value(),
{
    lemma_pow2_le(x.bit_width(), wide);
    lemma_pow2_pos(wide);
    lemma_mod_block(x.raw() as int, pow2(wide) as int, 0);
    lemma_make_integral(x.raw(), wide, Signedness::Unsigned);
}

/// Addition, subtraction and multiplication of bit patterns agree with the
/// same operations on the values the patterns denote, modulo `2^w`: the
/// result's bits do not depend on the signedness.
pub proof fn law_arith_on_bits_is_arith_on_values(a: Integral, b: Integral)
    requires
        a.wf(),
        b.wf(),
        a.same_kind(b),
    ensures
        wraps((a.raw() + b.raw()) as int, a.bit_width()) == wraps(a.value() + b.value(), a.bit_width()),
        wraps(a.raw() - b.raw(), a.bit_width()) == wraps(a.value() - b.value(), a.bit_width()),
        wraps((a.raw() * b.raw()) as int, a.bit_width()) == wraps(a.value() * b.value(), a.bit_width()),
{
    let w = a.bit_width();
    let p = pow2(w) as int;
    lemma_pow2_pos(w);
    let i: int = if a.value() == a.raw() { 0 } else { 1 };
    let j: int = if b.value() == b.raw() { 0 } else { 1 };
    assert(a.raw() == a.value() + i * p);
    assert(b.raw() == b.value() + j * p);
    lemma_wraps_shift(a.value() + b.value(), i + j, w);
    assert(a.raw() + b.raw() == a.value() + b.value() + (i + j) * p) by (nonlinear_arith)
        requires
            a.raw() == a.value() + i * p,
            b.raw() == b.value() + j * p,
    ;
    lemma_wraps_shift(a.value() - b.value(), i - j, w);
    assert(a.raw() - b.raw() == a.value() - b.value() + (i - j) * p) by (nonlinear_arith)
        requires
            a.raw() == a.value() + i * p,
            b.raw() == b.value() + j * p,
    ;
    lemma_mul_mod_shift(a.value(), b.value(), i, j, p);
}

/// An addition that does not overflow is exact.
pub proof fn law_add_without_overflow_is_exact(a: Integral, b: Integral)
    requires
        a.wf(),
        b.wf(),
        a.same_kind(b),
        !add_overflows(a.raw(), b.raw(), a.bit_width(), a.sign()),
    ensures
        make_integral(wraps((a.raw() + b.raw()) as int, a.bit_width()), a.bit_width(), a.sign()).value()
            == a.value() + b.value(),
{
    let w = a.bit_width();
    law_arith_on_bits_is_arith_on_values(a, b);
    lemma_pow2_pos(w);
    if a.sign() == Signedness::Signed {
        lemma_signed_of_wraps(a.value() + b.value(), w);
    } else {
        lemma_mod_block((a.raw() + b.raw()) as int, pow2(w) as int, 0);
    }
    vstd::arithmetic::div_mod::lemma_mod_bound((a.raw() + b.raw()) as int, pow2(w) as int);
    lemma_make_integral(wraps((a.raw() + b.raw()) as int, w), w, a.sign());
}

/// A subtraction that does not overflow is exact.
pub proof fn law_sub_without_overflow_is_exact(a: Integral, b: Integral)
    requires
        a.wf(),
        b.wf(),
        a.same_kind(b),
        !sub_overflows(a.raw(), b.raw(), a.bit_width(), a.sign()),
    ensures
        make_integral(wraps(a.raw() - b.raw(), a.bit_width()), a.bit_width(), a.sign()).value()
            == a.value() - b.value(),
{
    let w = a.bit_width();
    law_arith_on_bits_is_arith_on_values(a, b);
    lemma_pow2_pos(w);
    if a.sign() == Signedness::Signed {
        lemma_signed_of_wraps(a.value() - b.value(), w);
    } else {
        lemma_mod_block(a.raw() - b.raw(), pow2(w) as int, 0);
    }
    vstd::arithmetic::div_mod::lemma_mod_bound(a.raw() - b.raw(), pow2(w) as int);
    lemma_make_integral(wraps(a.raw() - b.raw(), w), w, a.sign());
}

/// A multiplication that does not overflow is exact.
pub proof fn law_mul_without_overflow_is_exact(a: Integral, b: Integral)
    requires
        a.wf(),
        b.wf(),
        a.same_kind(b),
        !mul_overflows(a.raw(), b.raw(), a.bit_width(), a.sign()),
    ensures
        make_integral(wraps((a.raw() * b.raw()) as int, a.bit_width()), a.bit_width(), a.sign()).value()
            == a.value() * b.value(),
{
    let w = a.bit_width();
    law_arith_on_bits_is_arith_on_values(a, b);
    lemma_pow2_pos(w);
    if a.sign() == Signedness::Signed {
        lemma_signed_of_wraps(a.value() * b.value(), w);
    } else {
        assert(a.raw() * b.raw() >= 0) by (nonlinear_arith);
        lemma_mod_block((a.raw() * b.raw()) as int, pow2(w) as int, 0);
    }
    vstd::arithmetic::div_mod::lemma_mod_bound((a.raw() * b.raw()) as int, pow2(w) as int);
    lemma_make_integral(wraps((a.raw() * b.raw()) as int, w), w, a.sign());
}

/// Subtracting what was added gives back the bits it started from.
pub proof fn law_sub_undoes_add(a: Integral, b: Integral)
    requires
        a.wf(),
        b.wf(),
        a.same_kind(b),
    ensures
        wraps(wraps((a.raw() + b.raw()) as int, a.bit_width()) - b.raw(), a.bit_width()) == a.raw(),
{
    let w = a.bit_width();
    let p = pow2(w) as int;
    lemma_pow2_pos(w);
    let s = a.raw() + b.raw();
    vstd::arithmetic::div_mod::lemma_fundamental_div_mod(s as int, p);
    let q = (s as int) / p;
    assert(wraps(s as int, w) == s - q * p) by (nonlinear_arith)
        requires
            s as int == p * q + (s as int) % p,
            wraps(s as int, w) == (s as int) % p,
    ;
    lemma_wraps_shift(a.raw() as int, -q, w);
    assert(wraps(s as int, w) - b.raw() == a.raw() + (-q) * p) by (nonlinear_arith)
        requires
            wraps(s as int, w) == s - q * p,
            s == a.raw() + b.raw(),
    ;
    lemma_mod_block(a.raw() as int, p, 0);
}

/// Negating twice gives back the bits it started from.
pub proof fn law_neg_involution(a: Integral)
    requires
        a.wf(),
    ensures
        wraps(-(wraps(-(a.raw() as int), a.bit_width()) as int), a.bit_width()) == a.raw(),
{
    let w = a.bit_width();
    let p = pow2(w) as int;
    lemma_pow2_pos(w);
    if a.raw() == 0 {
        lemma_mod_block(0, p, 0);
    } else {
        lemma_mod_block(-(a.raw() as int), p, -1);
        lemma_mod_block(a.raw() - p, p, -1);
    }
}

/// Complementing twice gives back the bits it started from.
pub proof fn law_not_involution(a: Integral)
    requires
        a.wf(),
    ensures
        pow2(a.bit_width()) - 1 - (pow2(a.bit_width()) - 1 - a.raw()) == a.raw(),
{
}

/// C's division identity (C 6.5.5p6): `(a / b) * b + a % b == a`, with the
/// quotient rounded toward zero and the remainder taking the dividend's sign.
pub proof fn law_div_rem_identity(a: int, b: int)
    requires
        b != 0,
    ensures
        trunc_div(a, b) * b + trunc_rem(a, b) == a,
        abs(trunc_rem(a, b)) < abs(b),
{
    let x = abs(a) as int;
    let y = abs(b) as int;
    vstd::arithmetic::div_mod::lemma_fundamental_div_mod(x, y);
    vstd::arithmetic::div_mod::lemma_mod_pos_bound(x, y);
    let q = x / y;
    let r = x % y;
    if a >= 0 && b > 0 {
        assert(q * b + r == a) by (nonlinear_arith)
            requires
                x == y * q + r,
                x == a,
                y == b,
        ;
    } else if a >= 0 && b < 0 {
        assert((-q) * b + r == a) by (nonlinear_arith)
            requires
                x == y * q + r,
                x == a,
                y == -b,
        ;
    } else if a < 0 && b > 0 {
        assert((-q) * b + (-r) == a) by (nonlinear_arith)
            requires
                x == y * q + r,
                x == -a,
                y == b,
        ;
    } else {
        assert(q * b + (-r) == a) by (nonlinear_arith)
            requires
                x == y * q + r,
                x == -a,
                y == -b,
        ;
    }
}

impl Add for Integral {
    type Output = Integral;

    /// Wrapping addition.
    fn add(self, rhs: Integral) -> (r: Integral) {
        self.overflowing_add(rhs).0
    }
}

impl AddSpecImpl for Integral {
    open spec fn obeys_add_spec() -> bool {
        true
    }

    open spec fn add_req(self, rhs: Integral) -> bool {
        self.same_kind(rhs)
    }

    open spec fn add_spec(self, rhs: Integral) -> Integral {
        make_integral(wraps((self.raw() + rhs.raw()) as int, self.bit_width()), self.bit_width(), self.sign())
    }
}

impl Sub for Integral {
    type Output = Integral;

    /// Wrapping subtraction.
    fn sub(self, rhs: Integral) -> (r: Integral) {
        self.overflowing_sub(rhs).0
    }
}

impl SubSpecImpl for Integral {
    open spec fn obeys_sub_spec() -> bool {
        true
    }

    open spec fn sub_req(self, rhs: Integral) -> bool {
        self.same_kind(rhs)
    }

    open spec fn sub_spec(self, rhs: Integral) -> Integral {
        make_integral(wraps(self.raw() - rhs.raw(), self.bit_width()), self.bit_width(), self.sign())
    }
}

impl Mul for Integral {
    type Output = Integral;

    /// Wrapping multiplication.
    fn mul(self, rhs: Integral) -> (r: Integral) {
        self.overflowing_mul(rhs).0
    }
}

impl MulSpecImpl for Integral {
    open spec fn obeys_mul_spec() -> bool {
        true
    }

    open spec fn mul_req(self, rhs: Integral) -> bool {
        self.same_kind(rhs)
    }

    open spec fn mul_spec(self, rhs: Integral) -> Integral {
        make_integral(wraps((self.raw() * rhs.raw()) as int, self.bit_width()), self.bit_width(), self.sign())
    }
}

impl Div for Integral {
    type Output = Integral;

    /// Division rounding toward zero; the divisor must not be zero.
    fn div(self, rhs: Integral) -> (r: Integral) {
        match self.checked_div(rhs) {
            Some(q) => q,
            None => self,
        }
    }
}

impl DivSpecImpl for Integral {
    open spec fn obeys_div_spec() -> bool {
        true
    }

    open spec fn div_req(self, rhs: Integral) -> bool {
        &&& self.same_kind(rhs)
        &&& rhs.raw() != 0
        &&& !is_i128_min_by_minus_one(self, rhs)
    }

    open spec fn div_spec(self, rhs: Integral) -> Integral {
        make_integral(div_bits(self.raw(), rhs.raw(), self.bit_width(), self.sign()), self.bit_width(), self.sign())
    }
}

impl Rem for Integral {
    type Output = Integral;

    /// Remainder of [`Div`]; the divisor must not be zero.
    fn rem(self, rhs: Integral) -> (r: Integral) {
        match self.checked_rem(rhs) {
            Some(q) => q,
            None => self,
        }
    }
}

impl RemSpecImpl for Integral {
    open spec fn obeys_rem_spec() -> bool {
        true
    }

    open spec fn rem_req(self, rhs: Integral) -> bool {
        &&& self.same_kind(rhs)
        &&& rhs.raw() != 0
        &&& !is_i128_min_by_minus_one(self, rhs)
    }

    open spec fn rem_spec(self, rhs: Integral) -> Integral {
        make_integral(rem_bits(self.raw(), rhs.raw(), self.bit_width(), self.sign()), self.bit_width(), self.sign())
    }
}

impl Neg for Integral {
    type Output = Integral;

    /// Two's complement negation, wrapping to the width.
    fn neg(self) -> (r: Integral) {
        proof {
            use_type_invariant(&self);
            lemma_width_powers(self.width as nat);
            lemma_pow2_pos(self.width as nat);
        }
        if self.bits == 0 {
            proof {
                lemma_mod_block(0, pow2(self.width as nat) as int, 0);
            }
            Self::from_parts(0, self.width, self.signedness)
        } else {
            proof {
                lemma_mod_block(-(self.bits as int), pow2(self.width as nat) as int, -1);
            }
            Self::from_parts(max_unsigned_bits(self.width) - self.bits + 1, self.width, self.signedness)
        }
    }
}

impl NegSpecImpl for Integral {
    open spec fn obeys_neg_spec() -> bool {
        true
    }

    open spec fn neg_req(self) -> bool {
        true
    }

    open spec fn neg_spec(self) -> Integral {
        make_integral(wraps(-(self.raw() as int), self.bit_width()), self.bit_width(), self.sign())
    }
}

impl Not for Integral {
    type Output = Integral;

    /// Flips every bit within the width.
    fn not(self) -> (r: Integral) {
        proof {
            use_type_invariant(&self);
            lemma_width_powers(self.width as nat);
        }
        Self::from_parts(max_unsigned_bits(self.width) - self.bits, self.width, self.signedness)
    }
}

impl NotSpecImpl for Integral {
    open spec fn obeys_not_spec() -> bool {
        true
    }

    open spec fn not_req(self) -> bool {
        true
    }

    open spec fn not_spec(self) -> Integral {
        make_integral((pow2(self.bit_width()) - 1 - self.raw()) as nat, self.bit_width(), self.sign())
    }
}

impl BitAnd for Integral {
    type Output = Integral;

    /// Bitwise and; the result keeps the signedness of `self`.
    fn bitand(self, rhs: Integral) -> (r: Integral) {
        proof {
            use_type_invariant(&self);
            lemma_pow2_pos(self.width as nat);
        }
        Self::from_parts(mask_bits(self.bits & rhs.bits, self.width), self.width, self.signedness)
    }
}

impl BitAndSpecImpl for Integral {
    open spec fn obeys_bitand_spec() -> bool {
        true
    }

    open spec fn bitand_req(self, rhs: Integral) -> bool {
        self.bit_width() == rhs.bit_width()
    }

    open spec fn bitand_spec(self, rhs: Integral) -> Integral {
        make_integral(
            (((self.raw() as u128) & (rhs.raw() as u128)) as nat) % pow2(self.bit_width()),
            self.bit_width(),
            self.sign(),
        )
    }
}

impl BitOr for Integral {
    type Output = Integral;

    /// Bitwise or; the result keeps the signedness of `self`.
    fn bitor(self, rhs: Integral) -> (r: Integral) {
        proof {
            use_type_invariant(&self);
            lemma_pow2_pos(self.width as nat);
        }
        Self::from_parts(mask_bits(self.bits | rhs.bits, self.width), self.width, self.signedness)
    }
}

impl BitOrSpecImpl for Integral {
    open spec fn obeys_bitor_spec() -> bool {
        true
    }

    open spec fn bitor_req(self, rhs: Integral) -> bool {
        self.bit_width() == rhs.bit_width()
    }

    open spec fn bitor_spec(self, rhs: Integral) -> Integral {
        make_integral(
            (((self.raw() as u128) | (rhs.raw() as u128)) as nat) % pow2(self.bit_width()),
            self.bit_width(),
            self.sign(),
        )
    }
}

impl BitXor for Integral {
    type Output = Integral;

    /// Bitwise exclusive or; the result keeps the signedness of `self`.
    fn bitxor(self, rhs: Integral) -> (r: Integral) {
        proof {
            use_type_invariant(&self);
            lemma_pow2_pos(self.width as nat);
        }
        Self::from_parts(mask_bits(self.bits ^ rhs.bits, self.width), self.width, self.signedness)
    }
}

impl BitXorSpecImpl for Integral {
    open spec fn obeys_bitxor_spec() -> bool {
        true
    }

    open spec fn bitxor_req(self, rhs: Integral) -> bool {
        self.bit_width() == rhs.bit_width()
    }

    open spec fn bitxor_spec(self, rhs: Integral) -> Integral {
        make_integral(
            (((self.raw() as u128) ^ (rhs.raw() as u128)) as nat) % pow2(self.bit_width()),
            self.bit_width(),
            self.sign(),
        )
    }
}

impl Shl<u32> for Integral {
    type Output = Integral;

    /// Left shift: the vacated bits are zero-filled and the bits shifted out
    /// are lost. Shifting by the width or more gives zero.
    fn shl(self, amount: u32) -> (r: Integral) {
        proof {
            use_type_invariant(&self);
            lemma_width_powers(self.width as nat);
            lemma_pow2_pos(self.width as nat);
            lemma_pow2_128();
        }
        let k = self.clamped(amount);
        if k >= self.width as u32 {
            proof {
                lemma_mod_add_multiple(0, self.bits as int, pow2(self.width as nat) as int);
                assert(self.bits * pow2(k as nat) == 0 + self.bits * pow2(self.width as nat));
            }
            Self::from_parts(0, self.width, self.signedness)
        } else {
            proof {
                lemma_pow2_fits(k as nat);
                lemma_mod_pow2_narrow((self.bits * pow2(k as nat)) as int, self.width as nat, 128);
            }
            let bits = mask_bits(self.bits.wrapping_mul(pow2_u128(k as u8)), self.width);
            Self::from_parts(bits, self.width, self.signedness)
        }
    }
}

impl ShlSpecImpl<u32> for Integral {
    open spec fn obeys_shl_spec() -> bool {
        true
    }

    open spec fn shl_req(self, amount: u32) -> bool {
        true
    }

    open spec fn shl_spec(self, amount: u32) -> Integral {
        make_integral(shl_bits(self.raw(), self.bit_width(), amount), self.bit_width(), self.sign())
    }
}

impl Shr<u32> for Integral {
    type Output = Integral;

    /// Right shift: arithmetic for a signed integral, logical otherwise.
    fn shr(self, amount: u32) -> (r: Integral) {
        if self.is_signed() {
            self.ashr(amount)
        } else {
            self.lshr(amount)
        }
    }
}

impl ShrSpecImpl<u32> for Integral {
    open spec fn obeys_shr_spec() -> bool {
        true
    }

    open spec fn shr_req(self, amount: u32) -> bool {
        true
    }

    open spec fn shr_spec(self, amount: u32) -> Integral {
        make_integral(
            if self.sign() == Signedness::Signed {
                ashr_bits(self.raw(), self.bit_width(), amount)
            } else {
                lshr_bits(self.raw(), self.bit_width(), amount)
            },
            self.bit_width(),
            self.sign(),
        )
    }
}

impl Default for Integral {
    /// Zero as a 32-bit signed integral, the type of C's `0`.
    fn default() -> (r: Integral)
        ensures
            r == make_integral(0, 32, Signedness::Signed),
    {
        proof {
            lemma_pow2_pos(32);
            lemma_small_mod(0, pow2(32));
        }
        Integral::from(0i32)
    }
}

impl From<bool> for Integral {
    /// A one-bit unsigned integral.
    fn from(value: bool) -> (r: Integral) {
        Integral::from_bool(value)
    }
}

impl FromSpecImpl<bool> for Integral {
    open spec fn obeys_from_spec() -> bool {
        true
    }

    open spec fn from_spec(value: bool) -> Integral {
        make_integral(if value { 1 } else { 0 }, 1, Signedness::Unsigned)
    }
}

impl From<i8> for Integral {
    fn from(value: i8) -> (r: Integral) {
        Integral::from_signed(value as i128, SizeBit::new(8))
    }
}

impl FromSpecImpl<i8> for Integral {
    open spec fn obeys_from_spec() -> bool {
        true
    }

    open spec fn from_spec(value: i8) -> Integral {
        make_integral(wraps(value as int, 8), 8, Signedness::Signed)
    }
}

impl From<u8> for Integral {
    fn from(value: u8) -> (r: Integral) {
        proof {
            vstd::arithmetic::power2::lemma2_to64();
        }
        Integral::from_parts(value as u128, 8, Signedness::Unsigned)
    }
}

impl FromSpecImpl<u8> for Integral {
    open spec fn obeys_from_spec() -> bool {
        true
    }

    open spec fn from_spec(value: u8) -> Integral {
        make_integral(value as nat, 8, Signedness::Unsigned)
    }
}

impl From<i16> for Integral {
    fn from(value: i16) -> (r: Integral) {
        Integral::from_signed(value as i128, SizeBit::new(16))
    }
}

impl FromSpecImpl<i16> for Integral {
    open spec fn obeys_from_spec() -> bool {
        true
    }

    open spec fn from_spec(value: i16) -> Integral {
        make_integral(wraps(value as int, 16), 16, Signedness::Signed)
    }
}

impl From<u16> for Integral {
    fn from(value: u16) -> (r: Integral) {
        proof {
            vstd::arithmetic::power2::lemma2_to64();
        }
        Integral::from_parts(value as u128, 16, Signedness::Unsigned)
    }
}

impl FromSpecImpl<u16> for Integral {
    open spec fn obeys_from_spec() -> bool {
        true
    }

    open spec fn from_spec(value: u16) -> Integral {
        make_integral(value as nat, 16, Signedness::Unsigned)
    }
}

impl From<i32> for Integral {
    fn from(value: i32) -> (r: Integral) {
        Integral::from_signed(value as i128, SizeBit::new(32))
    }
}

impl FromSpecImpl<i32> for Integral {
    open spec fn obeys_from_spec() -> bool {
        true
    }

    open spec fn from_spec(value: i32) -> Integral {
        make_integral(wraps(value as int, 32), 32, Signedness::Signed)
    }
}

impl From<u32> for Integral {
    fn from(value: u32) -> (r: Integral) {
        proof {
            vstd::arithmetic::power2::lemma2_to64();
        }
        Integral::from_parts(value as u128, 32, Signedness::Unsigned)
    }
}

impl FromSpecImpl<u32> for Integral {
    open spec fn obeys_from_spec() -> bool {
        true
    }

    open spec fn from_spec(value: u32) -> Integral {
        make_integral(value as nat, 32, Signedness::Unsigned)
    }
}

impl From<i64> for Integral {
    fn from(value: i64) -> (r: Integral) {
        Integral::from_signed(value as i128, SizeBit::new(64))
    }
}

impl FromSpecImpl<i64> for Integral {
    open spec fn obeys_from_spec() -> bool {
        true
    }

    open spec fn from_spec(value: i64) -> Integral {
        make_integral(wraps(value as int, 64), 64, Signedness::Signed)
    }
}

impl From<u64> for Integral {
    fn from(value: u64) -> (r: Integral) {
        proof {
            vstd::arithmetic::power2::lemma2_to64();
        }
        Integral::from_parts(value as u128, 64, Signedness::Unsigned)
    }
}

impl FromSpecImpl<u64> for Integral {
    open spec fn obeys_from_spec() -> bool {
        true
    }

    open spec fn from_spec(value: u64) -> Integral {
        make_integral(value as nat, 64, Signedness::Unsigned)
    }
}

impl From<i128> for Integral {
    fn from(value: i128) -> (r: Integral) {
        Integral::from_signed(value, SizeBit::new(128))
    }
}

impl FromSpecImpl<i128> for Integral {
    open spec fn obeys_from_spec() -> bool {
        true
    }

    open spec fn from_spec(value: i128) -> Integral {
        make_integral(wraps(value as int, 128), 128, Signedness::Signed)
    }
}

impl From<u128> for Integral {
    fn from(value: u128) -> (r: Integral) {
        proof {
            lemma_pow2_128();
        }
        Integral::from_parts(value, 128, Signedness::Unsigned)
    }
}

impl FromSpecImpl<u128> for Integral {
    open spec fn obeys_from_spec() -> bool {
        true
    }

    open spec fn from_spec(value: u128) -> Integral {
        make_integral(value as nat, 128, Signedness::Unsigned)
    }
}

impl From<isize> for Integral {
    fn from(value: isize) -> (r: Integral) {
        Integral::from_signed(value as i128, SizeBit::new(usize::BITS as usize))
    }
}

impl FromSpecImpl<isize> for Integral {
    open spec fn obeys_from_spec() -> bool {
        true
    }

    open spec fn from_spec(value: isize) -> Integral {
        make_integral(wraps(value as int, usize::BITS as nat), usize::BITS as nat, Signedness::Signed)
    }
}

impl From<usize> for Integral {
    fn from(value: usize) -> (r: Integral) {
        proof {
            vstd::arithmetic::power2::lemma2_to64();
        }
        Integral::from_parts(value as u128, usize::BITS as u8, Signedness::Unsigned)
    }
}

impl FromSpecImpl<usize> for Integral {
    open spec fn obeys_from_spec() -> bool {
        true
    }

    open spec fn from_spec(value: usize) -> Integral {
        make_integral(value as nat, usize::BITS as nat, Signedness::Unsigned)
    }
}

} // verus!
