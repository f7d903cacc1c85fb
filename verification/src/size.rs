//! Strongly typed sizes: [`Size`] counts bytes, [`SizeBit`] counts bits.
//! Both are immutable and trivially copyable.
use crate::bits::{is_next_power_of_two, is_power_of_two, usize_is_power_of_two, usize_next_power_of_two};
use std::ops::{Add, Div, Mul, Rem, Sub};
use crate::text::{decimal_text, push_decimal};
use vstd::prelude::*;
use vstd::std_specs::convert::{FromSpecImpl, TryFromSpecImpl};
use vstd::std_specs::ops::{AddSpecImpl, DivSpecImpl, MulSpecImpl, RemSpecImpl, SubSpecImpl};

verus! {

/// Strong-typed size in bytes.
#[derive(Clone, Copy, Debug, PartialEq, Eq, Structural, Hash, PartialOrd, Ord)]
pub struct Size {
    inner: usize,
}

/// Strong-typed size in bits.
#[derive(Clone, Copy, Debug, PartialEq, Eq, Structural, Hash, PartialOrd, Ord)]
pub struct SizeBit {
    inner: usize,
}

impl View for Size {
    type V = nat;

    closed spec fn view(&self) -> nat {
        self.inner as nat
    }
}

impl View for SizeBit {
    type V = nat;

    closed spec fn view(&self) -> nat {
        self.inner as nat
    }
}

/// The size of `n` bytes.
pub closed spec fn size_of_bytes(n: nat) -> Size {
    Size { inner: n as usize }
}

/// The size of `n` bits.
pub closed spec fn size_of_bits(n: nat) -> SizeBit {
    SizeBit { inner: n as usize }
}

/// A size is determined by its byte count.
pub broadcast proof fn lemma_size_view(s: Size)
    ensures
        #![trigger s.view()]
        size_of_bytes(s@) == s,
        s@ <= usize::MAX,
{
}

/// A bit size is determined by its bit count.
pub broadcast proof fn lemma_size_bit_view(s: SizeBit)
    ensures
        #![trigger s.view()]
        size_of_bits(s@) == s,
        s@ <= usize::MAX,
{
}

/// Every byte count that fits a `usize` has its size.
pub broadcast proof fn lemma_size_of_bytes(n: nat)
    requires
        n <= usize::MAX,
    ensures
        (#[trigger] size_of_bytes(n))@ == n,
{
}

/// Every bit count that fits a `usize` has its bit size.
pub broadcast proof fn lemma_size_of_bits(n: nat)
    requires
        n <= usize::MAX,
    ensures
        (#[trigger] size_of_bits(n))@ == n,
{
}

pub broadcast group group_size {
    lemma_size_view,
    lemma_size_bit_view,
    lemma_size_of_bytes,
    lemma_size_of_bits,
}

impl SizeBit {
    /// The number of bits, in decimal.
    pub fn to_string(&self) -> (r: String)
        ensures
            r@ == decimal_text(self@),
    {
        let mut out = String::new();
        push_decimal(self.inner, &mut out);
        out
    }

    pub fn new(bits: usize) -> (r: Self)
        ensures
            r@ == bits,
    {
        SizeBit { inner: bits }
    }

    #[inline]
    pub fn get(self) -> (r: usize)
        ensures
            r == self@,
    {
        self.inner
    }

    /// The exact byte count, or `Err(())` when the bit count is not a whole number of bytes.
    #[inline]
    pub fn size_bytes(self) -> (r: Result<Size, ()>)
        ensures
            r == size_bytes_spec(self),
    {
        Size::try_from(self)
    }

    /// Rounds up to whole bytes.
    #[inline]
    pub fn ceil_to_byte(self) -> (r: Size)
        ensures
            r@ == (self@ + 7) / 8,
    {
        let q = self.inner / 8;
        if self.inner % 8 != 0 {
            Size::new(q + 1)
        } else {
            Size::new(q)
        }
    }

    /// Rounds down to whole bytes.
    #[inline]
    pub fn floor_to_byte(self) -> (r: Size)
        ensures
            r@ == self@ / 8,
    {
        Size::new(self.inner / 8)
    }

    /// The largest multiple of 8 bits not above this size.
    #[inline]
    pub fn prev_byte_boundary(self) -> (r: Self)
        ensures
            r@ == self@ - self@ % 8,
    {
        Self::new(self.inner - self.inner % 8)
    }

    /// The smallest multiple of 8 bits not below this size.
    #[inline]
    pub fn next_byte_boundary(self) -> (r: Self)
        requires
            self@ + 7 <= usize::MAX,
        ensures
            r@ == (self@ + 7) / 8 * 8,
    {
        let t = self.inner + 7;
        Self::new(t - t % 8)
    }

    #[inline]
    pub fn is_power_of_two(self) -> (r: bool)
        ensures
            r == is_power_of_two(self@),
    {
        usize_is_power_of_two(self.inner)
    }

    #[inline]
    pub fn next_power_of_two(self) -> (r: Self)
        requires
            self@ <= usize::MAX / 2 + 1,
        ensures
            is_next_power_of_two(self@, r@),
    {
        Self::new(usize_next_power_of_two(self.inner))
    }
}

/// The byte count of a bit size when it is a whole number of bytes.
pub open spec fn size_bytes_spec(bits: SizeBit) -> Result<Size, ()> {
    if bits@ % 8 == 0 {
        Ok(size_of_bytes(bits@ / 8))
    } else {
        Err(())
    }
}

impl Size {
    /// The number of bytes, in decimal.
    pub fn to_string(&self) -> (r: String)
        ensures
            r@ == decimal_text(self@),
    {
        let mut out = String::new();
        push_decimal(self.inner, &mut out);
        out
    }

    #[inline]
    pub fn new(bytes: usize) -> (r: Self)
        ensures
            r@ == bytes,
    {
        Size { inner: bytes }
    }

    #[inline]
    pub fn get(self) -> (r: usize)
        ensures
            r == self@,
    {
        self.inner
    }

    /// The same size counted in bits.
    #[inline]
    pub fn size_bits(self) -> (r: SizeBit)
        requires
            self@ * 8 <= usize::MAX,
        ensures
            r@ == self@ * 8,
    {
        SizeBit::new(self.inner * 8)
    }

    #[inline]
    pub fn is_power_of_two(self) -> (r: bool)
        ensures
            r == is_power_of_two(self@),
    {
        usize_is_power_of_two(self.inner)
    }

    #[inline]
    pub fn next_power_of_two(self) -> (r: Self)
        requires
            self@ <= usize::MAX / 2 + 1,
        ensures
            is_next_power_of_two(self@, r@),
    {
        Self::new(usize_next_power_of_two(self.inner))
    }
}

impl Default for Size {
    fn default() -> (r: Self)
        ensures
            r@ == 0,
    {
        Size { inner: 0 }
    }
}

impl Default for SizeBit {
    fn default() -> (r: Self)
        ensures
            r@ == 0,
    {
        SizeBit { inner: 0 }
    }
}

impl From<usize> for Size {
    fn from(inner: usize) -> (r: Self) {
        Size { inner }
    }
}

impl FromSpecImpl<usize> for Size {
    open spec fn obeys_from_spec() -> bool {
        true
    }

    open spec fn from_spec(v: usize) -> Self {
        size_of_bytes(v as nat)
    }
}

impl From<usize> for SizeBit {
    fn from(inner: usize) -> (r: Self) {
        SizeBit { inner }
    }
}

impl FromSpecImpl<usize> for SizeBit {
    open spec fn obeys_from_spec() -> bool {
        true
    }

    open spec fn from_spec(v: usize) -> Self {
        size_of_bits(v as nat)
    }
}

impl TryFrom<SizeBit> for Size {
    type Error = ();

    fn try_from(bits: SizeBit) -> (r: Result<Self, ()>) {
        if bits.inner % 8 == 0 {
            Ok(Size { inner: bits.inner / 8 })
        } else {
            Err(())
        }
    }
}

impl TryFromSpecImpl<SizeBit> for Size {
    open spec fn obeys_try_from_spec() -> bool {
        true
    }

    open spec fn try_from_spec(v: SizeBit) -> Result<Self, ()> {
        size_bytes_spec(v)
    }
}


impl Add<Size> for Size {
    type Output = Size;

    fn add(self, rhs: Size) -> (r: Size) {
        Size { inner: self.inner + rhs.inner }
    }
}

impl AddSpecImpl<Size> for Size {
    open spec fn obeys_add_spec() -> bool {
        true
    }

    open spec fn add_req(self, rhs: Size) -> bool {
        self@ + rhs@ <= usize::MAX
    }

    open spec fn add_spec(self, rhs: Size) -> Size {
        size_of_bytes(self@ + rhs@)
    }
}

impl Sub<Size> for Size {
    type Output = Size;

    fn sub(self, rhs: Size) -> (r: Size) {
        Size { inner: self.inner - rhs.inner }
    }
}

impl SubSpecImpl<Size> for Size {
    open spec fn obeys_sub_spec() -> bool {
        true
    }

    open spec fn sub_req(self, rhs: Size) -> bool {
        self@ >= rhs@
    }

    open spec fn sub_spec(self, rhs: Size) -> Size {
        size_of_bytes((self@ - rhs@) as nat)
    }
}

impl Mul<Size> for Size {
    type Output = Size;

    fn mul(self, rhs: Size) -> (r: Size) {
        Size { inner: self.inner * rhs.inner }
    }
}

impl MulSpecImpl<Size> for Size {
    open spec fn obeys_mul_spec() -> bool {
        true
    }

    open spec fn mul_req(self, rhs: Size) -> bool {
        self@ * rhs@ <= usize::MAX
    }

    open spec fn mul_spec(self, rhs: Size) -> Size {
        size_of_bytes(self@ * rhs@)
    }
}

impl Div<Size> for Size {
    type Output = Size;

    fn div(self, rhs: Size) -> (r: Size) {
        Size { inner: self.inner / rhs.inner }
    }
}

impl DivSpecImpl<Size> for Size {
    open spec fn obeys_div_spec() -> bool {
        true
    }

    open spec fn div_req(self, rhs: Size) -> bool {
        rhs@ != 0
    }

    open spec fn div_spec(self, rhs: Size) -> Size {
        size_of_bytes(self@ / rhs@)
    }
}

impl Rem<Size> for Size {
    type Output = Size;

    fn rem(self, rhs: Size) -> (r: Size) {
        Size { inner: self.inner % rhs.inner }
    }
}

impl RemSpecImpl<Size> for Size {
    open spec fn obeys_rem_spec() -> bool {
        true
    }

    open spec fn rem_req(self, rhs: Size) -> bool {
        rhs@ != 0
    }

    open spec fn rem_spec(self, rhs: Size) -> Size {
        size_of_bytes(self@ % rhs@)
    }
}

impl Mul<usize> for Size {
    type Output = Size;

    fn mul(self, rhs: usize) -> (r: Size) {
        Size { inner: self.inner * rhs }
    }
}

impl MulSpecImpl<usize> for Size {
    open spec fn obeys_mul_spec() -> bool {
        true
    }

    open spec fn mul_req(self, rhs: usize) -> bool {
        self@ * rhs <= usize::MAX
    }

    open spec fn mul_spec(self, rhs: usize) -> Size {
        size_of_bytes(self@ * (rhs as nat))
    }
}

impl Div<usize> for Size {
    type Output = Size;

    fn div(self, rhs: usize) -> (r: Size) {
        Size { inner: self.inner / rhs }
    }
}

impl DivSpecImpl<usize> for Size {
    open spec fn obeys_div_spec() -> bool {
        true
    }

    open spec fn div_req(self, rhs: usize) -> bool {
        rhs != 0
    }

    open spec fn div_spec(self, rhs: usize) -> Size {
        size_of_bytes(self@ / (rhs as nat))
    }
}

impl Rem<usize> for Size {
    type Output = Size;

    fn rem(self, rhs: usize) -> (r: Size) {
        Size { inner: self.inner % rhs }
    }
}

impl RemSpecImpl<usize> for Size {
    open spec fn obeys_rem_spec() -> bool {
        true
    }

    open spec fn rem_req(self, rhs: usize) -> bool {
        rhs != 0
    }

    open spec fn rem_spec(self, rhs: usize) -> Size {
        size_of_bytes(self@ % (rhs as nat))
    }
}

impl Add<SizeBit> for SizeBit {
    type Output = SizeBit;

    fn add(self, rhs: SizeBit) -> (r: SizeBit) {
        SizeBit { inner: self.inner + rhs.inner }
    }
}

impl AddSpecImpl<SizeBit> for SizeBit {
    open spec fn obeys_add_spec() -> bool {
        true
    }

    open spec fn add_req(self, rhs: SizeBit) -> bool {
        self@ + rhs@ <= usize::MAX
    }

    open spec fn add_spec(self, rhs: SizeBit) -> SizeBit {
        size_of_bits(self@ + rhs@)
    }
}

impl Sub<SizeBit> for SizeBit {
    type Output = SizeBit;

    fn sub(self, rhs: SizeBit) -> (r: SizeBit) {
        SizeBit { inner: self.inner - rhs.inner }
    }
}

impl SubSpecImpl<SizeBit> for SizeBit {
    open spec fn obeys_sub_spec() -> bool {
        true
    }

    open spec fn sub_req(self, rhs: SizeBit) -> bool {
        self@ >= rhs@
    }

    open spec fn sub_spec(self, rhs: SizeBit) -> SizeBit {
        size_of_bits((self@ - rhs@) as nat)
    }
}

impl Mul<SizeBit> for SizeBit {
    type Output = SizeBit;

    fn mul(self, rhs: SizeBit) -> (r: SizeBit) {
        SizeBit { inner: self.inner * rhs.inner }
    }
}

impl MulSpecImpl<SizeBit> for SizeBit {
    open spec fn obeys_mul_spec() -> bool {
        true
    }

    open spec fn mul_req(self, rhs: SizeBit) -> bool {
        self@ * rhs@ <= usize::MAX
    }

    open spec fn mul_spec(self, rhs: SizeBit) -> SizeBit {
        size_of_bits(self@ * rhs@)
    }
}

impl Div<SizeBit> for SizeBit {
    type Output = SizeBit;

    fn div(self, rhs: SizeBit) -> (r: SizeBit) {
        SizeBit { inner: self.inner / rhs.inner }
    }
}

impl DivSpecImpl<SizeBit> for SizeBit {
    open spec fn obeys_div_spec() -> bool {
        true
    }

    open spec fn div_req(self, rhs: SizeBit) -> bool {
        rhs@ != 0
    }

    open spec fn div_spec(self, rhs: SizeBit) -> SizeBit {
        size_of_bits(self@ / rhs@)
    }
}

impl Rem<SizeBit> for SizeBit {
    type Output = SizeBit;

    fn rem(self, rhs: SizeBit) -> (r: SizeBit) {
        SizeBit { inner: self.inner % rhs.inner }
    }
}

impl RemSpecImpl<SizeBit> for SizeBit {
    open spec fn obeys_rem_spec() -> bool {
        true
    }

    open spec fn rem_req(self, rhs: SizeBit) -> bool {
        rhs@ != 0
    }

    open spec fn rem_spec(self, rhs: SizeBit) -> SizeBit {
        size_of_bits(self@ % rhs@)
    }
}

impl Mul<usize> for SizeBit {
    type Output = SizeBit;

    fn mul(self, rhs: usize) -> (r: SizeBit) {
        SizeBit { inner: self.inner * rhs }
    }
}

impl MulSpecImpl<usize> for SizeBit {
    open spec fn obeys_mul_spec() -> bool {
        true
    }

    open spec fn mul_req(self, rhs: usize) -> bool {
        self@ * rhs <= usize::MAX
    }

    open spec fn mul_spec(self, rhs: usize) -> SizeBit {
        size_of_bits(self@ * (rhs as nat))
    }
}

impl Div<usize> for SizeBit {
    type Output = SizeBit;

    fn div(self, rhs: usize) -> (r: SizeBit) {
        SizeBit { inner: self.inner / rhs }
    }
}

impl DivSpecImpl<usize> for SizeBit {
    open spec fn obeys_div_spec() -> bool {
        true
    }

    open spec fn div_req(self, rhs: usize) -> bool {
        rhs != 0
    }

    open spec fn div_spec(self, rhs: usize) -> SizeBit {
        size_of_bits(self@ / (rhs as nat))
    }
}

impl Rem<usize> for SizeBit {
    type Output = SizeBit;

    fn rem(self, rhs: usize) -> (r: SizeBit) {
        SizeBit { inner: self.inner % rhs }
    }
}

impl RemSpecImpl<usize> for SizeBit {
    open spec fn obeys_rem_spec() -> bool {
        true
    }

    open spec fn rem_req(self, rhs: usize) -> bool {
        rhs != 0
    }

    open spec fn rem_spec(self, rhs: usize) -> SizeBit {
        size_of_bits(self@ % (rhs as nat))
    }
}

impl Add<SizeBit> for Size {
    type Output = SizeBit;

    fn add(self, rhs: SizeBit) -> (r: SizeBit) {
        SizeBit { inner: self.inner * 8 + rhs.inner }
    }
}

impl AddSpecImpl<SizeBit> for Size {
    open spec fn obeys_add_spec() -> bool {
        true
    }

    open spec fn add_req(self, rhs: SizeBit) -> bool {
        self@ * 8 + rhs@ <= usize::MAX
    }

    open spec fn add_spec(self, rhs: SizeBit) -> SizeBit {
        size_of_bits(self@ * 8 + rhs@)
    }
}

impl Sub<SizeBit> for Size {
    type Output = SizeBit;

    fn sub(self, rhs: SizeBit) -> (r: SizeBit) {
        SizeBit { inner: self.inner * 8 - rhs.inner }
    }
}

impl SubSpecImpl<SizeBit> for Size {
    open spec fn obeys_sub_spec() -> bool {
        true
    }

    open spec fn sub_req(self, rhs: SizeBit) -> bool {
        self@ * 8 <= usize::MAX && self@ * 8 >= rhs@
    }

    open spec fn sub_spec(self, rhs: SizeBit) -> SizeBit {
        size_of_bits((self@ * 8 - rhs@) as nat)
    }
}

/// Counting a size in bits and back in bytes gives the size back.
pub proof fn law_bits_bytes_round_trip(s: Size)
    requires
        s@ * 8 <= usize::MAX,
    ensures
        size_bytes_spec(size_of_bits(s@ * 8)) == Ok::<Size, ()>(s),
{
    assert((s@ * 8) % 8 == 0);
    assert((s@ * 8) / 8 == s@);
}

} // verus!
