//! Compile-time constant values.
use crate::integral::{wraps, Integral, Signedness};
use crate::size::SizeBit;
use crate::primitive::FloatFormat;
use vstd::prelude::*;

verus! {

/// A floating constant, held as its IEEE 754 bit pattern in the low bits
/// of `bits` (32 or 64 of them, by `format`).
#[derive(Debug, Clone, Copy, PartialEq, Eq, Structural, Hash)]
pub struct FloatBits {
    pub format: FloatFormat,
    pub bits: u64,
}

impl FloatBits {
    /// The sign bit of the format.
    pub open spec fn sign_mask(self) -> u64 {
        if self.format == FloatFormat::IEEE32 {
            0x8000_0000u64
        } else {
            0x8000_0000_0000_0000u64
        }
    }

    /// Positive or negative zero: every bit but the sign bit is clear.
    pub open spec fn is_zero_spec(self) -> bool {
        self.bits & !self.sign_mask() == 0
    }

    /// Positive zero in a format.
    pub fn zero(format: FloatFormat) -> (r: Self)
        ensures
            r.format == format,
            r.bits == 0,
            r.is_zero_spec(),
    {
        let r = FloatBits { format, bits: 0 };
        assert(0u64 & !r.sign_mask() == 0) by (bit_vector);
        r
    }

    /// Positive or negative zero.
    pub fn is_zero(&self) -> (r: bool)
        ensures
            r == self.is_zero_spec(),
    {
        let mask: u64 = match self.format {
            FloatFormat::IEEE32 => 0x8000_0000u64,
            FloatFormat::IEEE64 => 0x8000_0000_0000_0000u64,
        };
        self.bits & !mask == 0
    }
}

/// A constant value. String literals and addresses are constants of the
/// compiler, though not of C.
#[derive(Debug, Clone, PartialEq, Eq)]
pub enum Constant {
    Nullptr,
    Integral(Integral),
    Floating(FloatBits),
    /// A string literal's bytes, without the terminating NUL.
    String(Vec<u8>),
    /// The address of a named object.
    Address(Vec<u8>),
}

/// Two byte strings are equal.
fn same_bytes(a: &Vec<u8>, b: &Vec<u8>) -> (r: bool)
    ensures
        r == (a@ == b@),
{
    if a.len() != b.len() {
        return false;
    }
    let mut i: usize = 0;
    while i < a.len()
        invariant
            i <= a@.len(),
            a@.len() == b@.len(),
            a@.take(i as int) == b@.take(i as int),
        decreases a@.len() - i,
    {
        if a[i] != b[i] {
            assert(a@[i as int] != b@[i as int]);
            return false;
        }
        assert(a@.take(i as int + 1) =~= a@.take(i as int).push(a@[i as int]));
        assert(b@.take(i as int + 1) =~= b@.take(i as int).push(b@[i as int]));
        i = i + 1;
    }
    assert(a@ =~= a@.take(i as int));
    assert(b@ =~= b@.take(i as int));
    true
}

/// Two constants are the same value: the same variant with equal contents.
pub open spec fn same_constant(a: Constant, b: Constant) -> bool {
    match (a, b) {
        (Constant::Nullptr, Constant::Nullptr) => true,
        (Constant::Integral(x), Constant::Integral(y)) => x == y,
        (Constant::Floating(x), Constant::Floating(y)) => x == y,
        (Constant::String(x), Constant::String(y)) => x@ == y@,
        (Constant::Address(x), Constant::Address(y)) => x@ == y@,
        _ => false,
    }
}

impl Constant {
    /// Whether two constants are the same value.
    pub fn same_as(&self, other: &Constant) -> (r: bool)
        ensures
            r == same_constant(*self, *other),
    {
        match (self, other) {
            (Constant::Nullptr, Constant::Nullptr) => true,
            (Constant::Integral(x), Constant::Integral(y)) => *x == *y,
            (Constant::Floating(x), Constant::Floating(y)) => *x == *y,
            (Constant::String(x), Constant::String(y)) => same_bytes(x, y),
            (Constant::Address(x), Constant::Address(y)) => same_bytes(x, y),
            _ => false,
        }
    }

    /// Whether the constant compares equal to zero; an empty string counts as zero.
    pub open spec fn is_zero_spec(&self) -> bool {
        match self {
            Constant::Integral(i) => i.raw() == 0,
            Constant::Floating(f) => f.is_zero_spec(),
            Constant::String(s) => s@.len() == 0,
            Constant::Nullptr => true,
            Constant::Address(_) => false,
        }
    }

    /// A string literal, whose type is an array of `char`.
    pub fn is_char_array(&self) -> (r: bool)
        ensures
            r == (*self is String),
    {
        matches!(self, Constant::String(_))
    }

    pub fn is_address(&self) -> (r: bool)
        ensures
            r == (*self is Address),
    {
        matches!(self, Constant::Address(_))
    }

    pub fn is_zero(&self) -> (r: bool)
        ensures
            r == self.is_zero_spec(),
    {
        match self {
            Constant::Integral(i) => i.is_zero(),
            Constant::Floating(f) => f.is_zero(),
            Constant::String(s) => s.len() == 0,
            Constant::Nullptr => true,
            Constant::Address(_) => false,
        }
    }

    pub fn is_not_zero(&self) -> (r: bool)
        ensures
            r == !self.is_zero_spec(),
    {
        !self.is_zero()
    }

    /// The truth value of the constant as an `i1`: numbers and pointers are
    /// true when nonzero, addresses always; a string literal converts to
    /// true when it is empty.
    pub fn to_boolean(self) -> (r: Constant)
        ensures
            r matches Constant::Integral(b) && b.has(
                if (match self {
                    Constant::String(s) => s@.len() == 0,
                    _ => !self.is_zero_spec(),
                }) {
                    1
                } else {
                    0
                },
                1,
                Signedness::Unsigned,
            ),
    {
        let truth = match &self {
            Constant::Integral(i) => !i.is_zero(),
            Constant::Floating(f) => !f.is_zero(),
            Constant::String(s) => s.len() == 0,
            Constant::Nullptr => false,
            Constant::Address(_) => true,
        };
        Constant::Integral(Integral::from_bool(truth))
    }

    /// An integer constant converted to another width and signedness, as C
    /// converts integers: the value wraps modulo `2^width`. Floating
    /// constants are converted by the caller.
    pub fn to_integral(self, width: u8, signedness: Signedness) -> (r: Constant)
        requires
            self is Integral,
            1 <= width <= 128,
        ensures
            r matches Constant::Integral(j) && j.has(
                wraps(self->Integral_0.value(), width as nat),
                width as nat,
                signedness,
            ),
    {
        match self {
            Constant::Integral(i) => Constant::Integral(i.cast(SizeBit::new(width as usize), signedness)),
            _ => self,
        }
    }
}

} // verus!
