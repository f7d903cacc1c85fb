//! Alignments: every valid alignment value is a nonnegative integral power of
//! two (C 6.2.8p4). An [`Alignment`] is stored as its exponent plus one, so
//! it can represent alignments from `2^0` up to `2^254` bytes.
use crate::bits::{
    is_next_power_of_two, is_power_of_two, lemma_pow2_injective, lemma_pow2_le,
    lemma_usize_power_of_two_bound, usize_ceil_log2, usize_is_power_of_two,
};
use crate::size::{group_size, Size, SizeBit};
use std::ops::{Shl, Shr};
use vstd::arithmetic::power2::{lemma2_to64, lemma_pow2_pos, lemma_pow2_unfold, pow2};
use crate::text::{decimal_text, push_decimal};
use vstd::prelude::*;
use vstd::std_specs::ops::{ShlSpecImpl, ShrSpecImpl};

verus! {

broadcast use group_size;

/// A power-of-two alignment in bytes; `flag` holds `log2(align) + 1`.
#[derive(Clone, Copy, Debug, PartialEq, Eq, Structural, Hash, PartialOrd, Ord)]
pub struct Alignment {
    flag: u8,
}

impl View for Alignment {
    /// The exponent: the alignment is `2^power` bytes.
    type V = nat;

    closed spec fn view(&self) -> nat {
        (self.flag - 1) as nat
    }
}

/// The alignment of `2^power` bytes.
pub closed spec fn alignment_of_power(power: nat) -> Alignment {
    Alignment { flag: (power + 1) as u8 }
}

/// The alignment of `n` bytes, where `n` is a power of two.
pub open spec fn alignment_of_size(n: nat) -> Alignment {
    alignment_of_power(choose|k: nat| pow2(k) == n)
}

/// An alignment is the one of its exponent.
pub broadcast proof fn lemma_alignment_of_power(power: nat)
    requires
        power <= 254,
    ensures
        (#[trigger] alignment_of_power(power))@ == power,
{
}

/// The exponent of a power of two that fits a `usize`.
proof fn lemma_exponent_of_power(n: nat, k: nat)
    requires
        is_power_of_two(n),
        pow2(k) >= n,
        k == 0 || pow2((k - 1) as nat) < n,
    ensures
        pow2(k) == n,
{
    let j = choose|j: nat| pow2(j) == n;
    if j < k {
        lemma_pow2_le(j, (k - 1) as nat);
    } else if j > k {
        lemma_pow2_le(k + 1, j);
        lemma_pow2_unfold(k + 1);
        lemma_pow2_pos(k);
    }
}

impl Alignment {
    /// The alignment in bytes, in decimal.
    pub fn to_string(self) -> (r: String)
        requires
            pow2(self@) <= usize::MAX,
        ensures
            r@ == decimal_text(pow2(self@)),
    {
        let mut out = String::new();
        push_decimal(self.size().get(), &mut out);
        out
    }

    #[verifier::type_invariant]
    spec fn inv(self) -> bool {
        self.flag != 0
    }

    /// The alignment of `2^power` bytes.
    fn from_power(power: u8) -> (r: Self)
        requires
            power <= 254,
        ensures
            r@ == power,
            r == alignment_of_power(power as nat),
    {
        Alignment { flag: power + 1 }
    }

    /// The alignment of `ALIGN` bytes, which must be a power of two.
    #[inline]
    pub fn from_align_fixed<const ALIGN: usize>() -> (r: Self)
        requires
            is_power_of_two(ALIGN as nat),
        ensures
            pow2(r@) == ALIGN,
            r == alignment_of_size(ALIGN as nat),
    {
        Self::from_align_unchecked(ALIGN)
    }

    /// The alignment of `size` bytes, or `None` when `size` is not a power of two.
    #[inline]
    pub fn from_size(size: Size) -> (r: Option<Self>)
        ensures
            r is Some <==> is_power_of_two(size@),
            r matches Some(a) ==> pow2(a@) == size@,
            r == (if is_power_of_two(size@) { Some(alignment_of_size(size@)) } else { None }),
    {
        if size.is_power_of_two() {
            Some(Self::from_align_unchecked(size.get()))
        } else {
            None
        }
    }

    /// The alignment of `size` bytes, which must be a power of two.
    #[inline]
    pub fn from_size_unchecked(size: Size) -> (r: Self)
        requires
            is_power_of_two(size@),
        ensures
            pow2(r@) == size@,
            r == alignment_of_size(size@),
    {
        Self::from_align_unchecked(size.get())
    }

    /// The smallest power-of-two alignment that is at least `size` bytes;
    /// a zero size is treated as one.
    #[inline]
    pub fn from_size_ceil(size: Size) -> (r: Self)
        requires
            size@ <= usize::MAX / 2 + 1,
        ensures
            is_next_power_of_two(size@, pow2(r@)),
    {
        let k = usize_ceil_log2(size.get());
        let r = Self::from_power(k);
        proof {
            lemma2_to64();
            if k > 0 {
                lemma_pow2_unfold(k as nat);
            }
            assert(is_power_of_two(pow2(k as nat)));
        }
        r
    }

    /// The alignment of `size_bits` bits, or `None` when that is not a whole
    /// number of bytes that is a power of two.
    #[inline]
    pub fn from_size_bits(size_bits: SizeBit) -> (r: Option<Self>)
        ensures
            r is Some <==> (size_bits@ % 8 == 0 && is_power_of_two(size_bits@ / 8)),
            r matches Some(a) ==> pow2(a@) * 8 == size_bits@,
    {
        match size_bits.size_bytes() {
            Ok(size) => Self::from_size(size),
            Err(_) => None,
        }
    }

    /// The alignment of `size_bits / 8` bytes, which must be a power of two.
    #[inline]
    pub fn from_size_bits_unchecked(size_bits: SizeBit) -> (r: Self)
        requires
            is_power_of_two(size_bits@ / 8),
        ensures
            pow2(r@) == size_bits@ / 8,
            r == alignment_of_size(size_bits@ / 8),
    {
        Self::from_align_unchecked(size_bits.get() / 8)
    }

    /// The smallest power-of-two alignment that covers `size_bits` rounded up
    /// to whole bytes.
    #[inline]
    pub fn from_size_bits_ceil(size_bits: SizeBit) -> (r: Self)
        ensures
            is_next_power_of_two((size_bits@ + 7) / 8, pow2(r@)),
    {
        let bytes = size_bits.ceil_to_byte();
        Self::from_size_ceil(bytes)
    }

    fn from_align_unchecked(align: usize) -> (r: Self)
        requires
            is_power_of_two(align as nat),
        ensures
            pow2(r@) == align,
            r == alignment_of_size(align as nat),
    {
        proof {
            lemma_usize_power_of_two_bound(align as nat);
        }
        let k = usize_ceil_log2(align);
        proof {
            lemma_exponent_of_power(align as nat, k as nat);
            let j = choose|j: nat| pow2(j) == align as nat;
            lemma_pow2_injective(j, k as nat);
        }
        Self::from_power(k)
    }

    /// The alignment in bytes, `2^power`.
    #[inline]
    pub fn size(self) -> (r: Size)
        requires
            pow2(self@) <= usize::MAX,
        ensures
            r@ == pow2(self@),
    {
        proof {
            use_type_invariant(&self);
        }
        let p = self.flag - 1;
        let mut v: usize = 1;
        let mut i: u8 = 0;
        proof {
            lemma2_to64();
        }
        while i < p
            invariant
                i <= p,
                p == self@,
                pow2(self@) <= usize::MAX,
                v == pow2(i as nat),
            decreases p - i,
        {
            proof {
                lemma_pow2_unfold((i + 1) as nat);
                lemma_pow2_le((i + 1) as nat, p as nat);
            }
            v = v * 2;
            i = i + 1;
        }
        Size::new(v)
    }

    /// The alignment in bits.
    #[inline]
    pub fn size_bits(self) -> (r: SizeBit)
        requires
            pow2(self@) * 8 <= usize::MAX,
        ensures
            r@ == pow2(self@) * 8,
    {
        self.size().size_bits()
    }

    /// The exponent: the alignment is `2^power` bytes.
    #[inline]
    pub fn power(self) -> (r: u8)
        ensures
            r == self@,
            r <= 254,
    {
        proof {
            use_type_invariant(&self);
        }
        self.flag - 1
    }

    /// The smallest alignment, one byte.
    pub fn min() -> (r: Self)
        ensures
            r@ == 0,
            r == alignment_of_power(0),
    {
        Self::from_power(0)
    }

    /// The largest alignment this type can represent, `2^254` bytes.
    pub fn max() -> (r: Self)
        ensures
            r@ == 254,
    {
        Self::from_power(254)
    }
}

impl Shl<u8> for Alignment {
    type Output = Alignment;

    /// Multiplies the alignment by `2^rhs`.
    fn shl(self, rhs: u8) -> (r: Alignment) {
        proof {
            use_type_invariant(&self);
        }
        Alignment { flag: self.flag + rhs }
    }
}

impl ShlSpecImpl<u8> for Alignment {
    open spec fn obeys_shl_spec() -> bool {
        true
    }

    open spec fn shl_req(self, rhs: u8) -> bool {
        self@ + rhs <= 254
    }

    open spec fn shl_spec(self, rhs: u8) -> Alignment {
        alignment_of_power((self@ + rhs) as nat)
    }
}

impl Shr<u8> for Alignment {
    type Output = Alignment;

    /// Divides the alignment by `2^rhs`.
    fn shr(self, rhs: u8) -> (r: Alignment) {
        proof {
            use_type_invariant(&self);
        }
        Alignment { flag: self.flag - rhs }
    }
}

impl ShrSpecImpl<u8> for Alignment {
    open spec fn obeys_shr_spec() -> bool {
        true
    }

    open spec fn shr_req(self, rhs: u8) -> bool {
        self@ >= rhs
    }

    open spec fn shr_spec(self, rhs: u8) -> Alignment {
        alignment_of_power((self@ - rhs) as nat)
    }
}

/// Shifting the alignment of `2^p` bytes left by `k` and then right by `k`
/// gives it back, and so does shifting right and then left.
pub proof fn law_shift_round_trip(p: nat, k: nat)
    requires
        p <= 254,
    ensures
        p + k <= 254 ==> alignment_of_power(((alignment_of_power(p + k))@ - k) as nat) == alignment_of_power(p),
        p >= k ==> alignment_of_power(((alignment_of_power((p - k) as nat))@ + k) as nat) == alignment_of_power(p),
{
}

/// An alignment is determined by its size in bytes.
pub proof fn law_alignment_determined_by_size(p: nat, q: nat)
    requires
        pow2(p) == pow2(q),
    ensures
        alignment_of_power(p) == alignment_of_power(q),
{
    lemma_pow2_injective(p, q);
}

/// The alignment of `2^p` bytes is the one of exponent `p`.
pub proof fn law_alignment_of_size_is_power(p: nat)
    ensures
        alignment_of_size(pow2(p)) == alignment_of_power(p),
{
    let k = choose|k: nat| pow2(k) == pow2(p);
    lemma_pow2_injective(k, p);
}

} // verus!
