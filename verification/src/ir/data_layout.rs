//! The data layout of a target, as LLVM describes it: byte order, symbol
//! mangling, and the size and alignment of pointers, integers and floats.
use crate::alignment::Alignment;
use crate::bits::{is_power_of_two, usize_is_power_of_two};
use crate::text::{decimal_text, join, lemma_join_push, push_decimal};
use crate::primitive::FloatFormat;
use crate::size::{group_size, Size, SizeBit};
use crate::triple::{data_model_of, DataModel, Endianess, ObjectFormat, Triple};
use vstd::arithmetic::power2::pow2;
use vstd::prelude::*;
use vstd::std_specs::convert::FromSpecImpl;

verus! {

broadcast use group_size;

/// How symbols are decorated, by object format.
#[derive(Debug, Clone, Copy, PartialEq, Eq, Structural, Hash)]
pub enum SymbolDecoration {
    Unknown,
    ELF,
    COFF,
}

impl From<ObjectFormat> for SymbolDecoration {
    fn from(format: ObjectFormat) -> (r: SymbolDecoration) {
        match format {
            ObjectFormat::Unknown => SymbolDecoration::Unknown,
            ObjectFormat::ELF => SymbolDecoration::ELF,
            ObjectFormat::COFF => SymbolDecoration::COFF,
        }
    }
}

impl FromSpecImpl<ObjectFormat> for SymbolDecoration {
    open spec fn obeys_from_spec() -> bool {
        true
    }

    open spec fn from_spec(format: ObjectFormat) -> SymbolDecoration {
        decoration_of(format)
    }
}

/// The symbol decoration of an object format.
pub open spec fn decoration_of(format: ObjectFormat) -> SymbolDecoration {
    match format {
        ObjectFormat::Unknown => SymbolDecoration::Unknown,
        ObjectFormat::ELF => SymbolDecoration::ELF,
        ObjectFormat::COFF => SymbolDecoration::COFF,
    }
}

/// The width, alignment and preferred alignment of a type.
#[derive(Debug, Clone, Copy, PartialEq, Eq, Structural)]
pub struct TypeSpecs {
    width: SizeBit,
    alignment: Alignment,
    preferred_alignment: Alignment,
}

impl TypeSpecs {
    pub closed spec fn width_spec(&self) -> nat {
        self.width@
    }

    pub closed spec fn align_spec(&self) -> Alignment {
        self.alignment
    }

    pub closed spec fn preferred_spec(&self) -> Alignment {
        self.preferred_alignment
    }

    /// A naturally aligned type of `size` bytes, a power of two.
    pub fn from_size(size: Size) -> (r: Self)
        requires
            is_power_of_two(size@),
            size@ * 8 <= usize::MAX,
        ensures
            r.width_spec() == size@ * 8,
            pow2(r.align_spec()@) == size@,
            r.preferred_spec() == r.align_spec(),
    {
        Self::new(size.size_bits(), Alignment::from_size_unchecked(size))
    }

    /// A type whose preferred alignment is its alignment.
    pub fn new(width: SizeBit, alignment: Alignment) -> (r: Self)
        ensures
            r.width_spec() == width@,
            r.align_spec() == alignment,
            r.preferred_spec() == alignment,
    {
        TypeSpecs { width, alignment, preferred_alignment: alignment }
    }

    pub fn new_preferred(width: SizeBit, alignment: Alignment, preferred_alignment: Alignment) -> (r: Self)
        ensures
            r.width_spec() == width@,
            r.align_spec() == alignment,
            r.preferred_spec() == preferred_alignment,
    {
        TypeSpecs { width, alignment, preferred_alignment }
    }

    pub fn size_bits(&self) -> (r: SizeBit)
        ensures
            r@ == self.width_spec(),
    {
        self.width
    }

    pub fn align(&self) -> (r: Alignment)
        ensures
            r == self.align_spec(),
    {
        self.alignment
    }

    pub fn preferred_align(&self) -> (r: Alignment)
        ensures
            r == self.preferred_spec(),
    {
        self.preferred_alignment
    }
}

/// The data layout of a target.
#[derive(Debug, Clone, Copy)]
pub struct DataLayout {
    pub endianess: Endianess,
    pub symbol_decoration: SymbolDecoration,
    pub pointer_specs: TypeSpecs,
    /// `i1`, `char`, `short`, `int` and `long long`, in that order.
    pub integer_specs: [TypeSpecs; 5],
    /// `float` and `double`.
    pub float_specs: [TypeSpecs; 2],
    pub stack_align: Alignment,
}

/// The specs are of a naturally aligned type of `bytes` bytes.
pub open spec fn natural_specs(s: TypeSpecs, bytes: nat) -> bool {
    &&& s.width_spec() == bytes * 8
    &&& pow2(s.align_spec()@) == bytes
    &&& s.preferred_spec() == s.align_spec()
}

impl DataLayout {
    /// The layout of a target, which must have a data model: little endian
    /// unless the architecture says otherwise, 8-byte stack alignment.
    pub fn new(triple: &Triple) -> (r: Self)
        requires
            data_model_of(*triple) is Some,
        ensures
            r.endianess == Endianess::Little,
            r.symbol_decoration == decoration_of(triple.object_format),
            natural_specs(r.pointer_specs, 8),
            r.integer_specs[0].width_spec() == 1 && r.integer_specs[0].align_spec()@ == 0,
            natural_specs(r.integer_specs[1], 1),
            natural_specs(r.integer_specs[2], 2),
            natural_specs(r.integer_specs[3], 4),
            natural_specs(r.integer_specs[4], 8),
            natural_specs(r.float_specs[0], 4),
            natural_specs(r.float_specs[1], 8),
            pow2(r.stack_align@) == 8,
    {
        let endianess = match triple.endianness() {
            Some(e) => e,
            None => Endianess::Little,
        };
        let symbol_decoration = SymbolDecoration::from(triple.object_format);
        let data_model = match triple.data_model() {
            Some(dm) => dm,
            None => DataModel::LP64,
        };
        proof {
            vstd::arithmetic::power2::lemma2_to64();
            assert(is_power_of_two(pow2(0)));
            assert(is_power_of_two(pow2(1)));
            assert(is_power_of_two(pow2(2)));
            assert(is_power_of_two(pow2(3)));
        }
        let pointer_specs = TypeSpecs::from_size(data_model.pointer_width());
        let integer_specs = [
            TypeSpecs::new(SizeBit::new(1), Alignment::min()),
            TypeSpecs::from_size(data_model.char_size()),
            TypeSpecs::from_size(data_model.short_size()),
            TypeSpecs::from_size(data_model.int_size()),
            TypeSpecs::from_size(data_model.long_long_size()),
        ];
        let float_specs = [
            TypeSpecs::from_size(data_model.float_size()),
            TypeSpecs::from_size(data_model.double_size()),
        ];
        let stack_align = Alignment::from_size_unchecked(Size::new(8));
        DataLayout { endianess, symbol_decoration, pointer_specs, integer_specs, float_specs, stack_align }
    }

    /// The specs of a floating format.
    pub fn float_specs(&self, format: FloatFormat) -> (r: TypeSpecs)
        ensures
            r == (if format == FloatFormat::IEEE32 {
                self.float_specs[0]
            } else {
                self.float_specs[1]
            }),
    {
        match format {
            FloatFormat::IEEE32 => self.float_specs[0],
            FloatFormat::IEEE64 => self.float_specs[1],
        }
    }

    /// The specs of the first integer type of `size_bit` bits; there must be one.
    pub fn integer_specs(&self, size_bit: SizeBit) -> (r: TypeSpecs)
        requires
            exists|i: int| 0 <= i < 5 && #[trigger] self.integer_specs[i].width_spec() == size_bit@,
        ensures
            r.width_spec() == size_bit@,
            exists|i: int|
                0 <= i < 5 && self.integer_specs[i] == r && (forall|j: int|
                    0 <= j < i ==> #[trigger] self.integer_specs[j].width_spec() != size_bit@),
    {
        let mut i: usize = 0;
        while i < 5
            invariant
                i <= 5,
                forall|j: int| 0 <= j < i ==> #[trigger] self.integer_specs[j].width_spec() != size_bit@,
                exists|k: int| 0 <= k < 5 && #[trigger] self.integer_specs[k].width_spec() == size_bit@,
            decreases 5 - i,
        {
            if self.integer_specs[i].size_bits().get() == size_bit.get() {
                return self.integer_specs[i];
            }
            i = i + 1;
        }
        self.integer_specs[0]
    }
}

/// The letter of a byte order: `e` little, `E` big.
pub open spec fn endianess_text(e: Endianess) -> Seq<char> {
    match e {
        Endianess::Little => "e"@,
        Endianess::Big => "E"@,
    }
}

/// The mangling letter of a symbol decoration: `e` for ELF, `w` for COFF.
pub open spec fn decoration_text(d: SymbolDecoration) -> Seq<char> {
    match d {
        SymbolDecoration::ELF => "e"@,
        SymbolDecoration::COFF => "w"@,
        SymbolDecoration::Unknown => "<didnt know the ABI>"@,
    }
}

/// An alignment in bits.
pub open spec fn align_bits(a: Alignment) -> nat {
    pow2(a@) * 8
}

/// `width:align`, then `:preferred` when the preferred alignment differs,
/// the alignments in bits.
pub open spec fn specs_text(s: TypeSpecs) -> Seq<char> {
    decimal_text(s.width_spec()) + ":"@ + decimal_text(align_bits(s.align_spec())) + (if s.preferred_spec()
        != s.align_spec() {
        ":"@ + decimal_text(align_bits(s.preferred_spec()))
    } else {
        Seq::empty()
    })
}

/// The number of trailing zero bits of a positive number.
pub open spec fn trailing_zeros(w: nat) -> nat
    decreases w,
{
    if w == 0 || w % 2 == 1 {
        0
    } else {
        1 + trailing_zeros(w / 2)
    }
}

/// The native integer widths: the powers of two from 8 up to `2^tz`,
/// separated by colons.
pub open spec fn native_widths_text(tz: nat) -> Seq<char> {
    join(Seq::new(if tz >= 3 { (tz - 2) as nat } else { 0 }, |i: int| decimal_text(pow2((i + 3) as nat))), ":"@)
}

impl DataLayout {
    /// An integer spec is listed when it is at least as wide as a pointer,
    /// or when its width is not a power of two.
    pub open spec fn integer_listed(self, i: int) -> bool {
        self.integer_specs[i].width_spec() >= self.pointer_specs.width_spec() || !is_power_of_two(
            self.integer_specs[i].width_spec(),
        )
    }

    /// The listed integer specs among the first `n`, each as `i<specs>-`.
    pub open spec fn integers_text(self, n: nat) -> Seq<char>
        decreases n,
    {
        if n == 0 {
            Seq::empty()
        } else {
            self.integers_text((n - 1) as nat) + (if self.integer_listed(n - 1) {
                "i"@ + specs_text(self.integer_specs[n - 1]) + "-"@
            } else {
                Seq::empty()
            })
        }
    }

    /// The float specs among the first `n` at least as wide as a pointer,
    /// each as `f<specs>-`.
    pub open spec fn floats_text(self, n: nat) -> Seq<char>
        decreases n,
    {
        if n == 0 {
            Seq::empty()
        } else {
            self.floats_text((n - 1) as nat) + (if self.float_specs[n - 1].width_spec()
                >= self.pointer_specs.width_spec() {
                "f"@ + specs_text(self.float_specs[n - 1]) + "-"@
            } else {
                Seq::empty()
            })
        }
    }

    /// The LLVM data layout string: byte order, mangling, pointer specs,
    /// the listed integer and float specs, the native integer widths and
    /// the stack alignment in bytes.
    pub open spec fn layout_text(self) -> Seq<char> {
        endianess_text(self.endianess) + "-m:"@ + decoration_text(self.symbol_decoration) + "-p0:"@
            + specs_text(self.pointer_specs) + "-"@ + self.integers_text(5) + self.floats_text(2) + "n"@
            + native_widths_text(trailing_zeros(self.pointer_specs.width_spec())) + "-"@ + "S"@
            + decimal_text(pow2(self.stack_align@))
    }

    /// The layout can be written down: pointers have a width and every
    /// alignment, in bits, fits a `usize`.
    pub open spec fn printable(self) -> bool {
        &&& self.pointer_specs.width_spec() > 0
        &&& specs_printable(self.pointer_specs)
        &&& forall|i: int| 0 <= i < 5 ==> specs_printable(#[trigger] self.integer_specs[i])
        &&& forall|i: int| 0 <= i < 2 ==> specs_printable(#[trigger] self.float_specs[i])
        &&& pow2(self.stack_align@) <= usize::MAX
    }

    /// The LLVM data layout string, such as
    /// `e-m:e-p0:64:64-i64:64-f64:64-n8:16:32:64-S8` for x86-64 Linux.
    pub fn to_string(&self) -> (r: String)
        requires
            self.printable(),
        ensures
            r@ == self.layout_text(),
    {
        let mut out = String::new();
        match self.endianess {
            Endianess::Little => out.append("e"),
            Endianess::Big => out.append("E"),
        }
        out.append("-m:");
        match self.symbol_decoration {
            SymbolDecoration::ELF => out.append("e"),
            SymbolDecoration::COFF => out.append("w"),
            SymbolDecoration::Unknown => out.append("<didnt know the ABI>"),
        }
        out.append("-p0:");
        push_specs(&self.pointer_specs, &mut out);
        out.append("-");
        let pointer_bits = self.pointer_specs.size_bits().get();
        let ghost before_ints = out@;
        let mut i: usize = 0;
        while i < 5
            invariant
                i <= 5,
                self.printable(),
                pointer_bits == self.pointer_specs.width_spec(),
                out@ == before_ints + self.integers_text(i as nat),
            decreases 5 - i,
        {
            let spec = self.integer_specs[i];
            let width = spec.size_bits().get();
            if width >= pointer_bits || !usize_is_power_of_two(width) {
                out.append("i");
                push_specs(&spec, &mut out);
                out.append("-");
            }
            i = i + 1;
        }
        let ghost before_floats = out@;
        let mut i: usize = 0;
        while i < 2
            invariant
                i <= 2,
                self.printable(),
                pointer_bits == self.pointer_specs.width_spec(),
                out@ == before_floats + self.floats_text(i as nat),
            decreases 2 - i,
        {
            let spec = self.float_specs[i];
            if spec.size_bits().get() >= pointer_bits {
                out.append("f");
                push_specs(&spec, &mut out);
                out.append("-");
            }
            i = i + 1;
        }
        out.append("n");
        push_native_widths(pointer_bits, &mut out);
        out.append("-");
        out.append("S");
        push_decimal(self.stack_align.size().get(), &mut out);
        out
    }
}

/// The alignments of the specs, in bits, fit a `usize`.
pub open spec fn specs_printable(s: TypeSpecs) -> bool {
    &&& align_bits(s.align_spec()) <= usize::MAX
    &&& align_bits(s.preferred_spec()) <= usize::MAX
}

impl SymbolDecoration {
    /// The mangling letter: `e` for ELF, `w` for COFF.
    pub fn to_string(&self) -> (r: String)
        ensures
            r@ == decoration_text(*self),
    {
        let mut out = String::new();
        match self {
            SymbolDecoration::ELF => out.append("e"),
            SymbolDecoration::COFF => out.append("w"),
            SymbolDecoration::Unknown => out.append("<didnt know the ABI>"),
        }
        out
    }
}

impl TypeSpecs {
    /// `width:align`, with `:preferred` when it differs, in bits.
    pub fn to_string(&self) -> (r: String)
        requires
            specs_printable(*self),
        ensures
            r@ == specs_text(*self),
    {
        let mut out = String::new();
        push_specs(self, &mut out);
        out
    }
}

/// Appends the specs to `out`.
fn push_specs(s: &TypeSpecs, out: &mut String)
    requires
        specs_printable(*s),
    ensures
        final(out)@ == old(out)@ + specs_text(*s),
{
    push_decimal(s.size_bits().get(), out);
    out.append(":");
    push_decimal(s.align().size_bits().get(), out);
    if s.preferred_align() != s.align() {
        out.append(":");
        push_decimal(s.preferred_align().size_bits().get(), out);
    }
}

/// A power of two no larger than a positive number's lowest set bit.
proof fn lemma_trailing_zeros_bound(w: nat)
    requires
        w > 0,
    ensures
        pow2(trailing_zeros(w)) <= w,
    decreases w,
{
    if w % 2 == 0 {
        lemma_trailing_zeros_bound(w / 2);
        vstd::arithmetic::power2::lemma_pow2_unfold(1 + trailing_zeros(w / 2));
    } else {
        vstd::arithmetic::power2::lemma2_to64();
    }
}

/// Appends the native integer widths for pointers of `pointer_bits` bits.
fn push_native_widths(pointer_bits: usize, out: &mut String)
    requires
        pointer_bits > 0,
    ensures
        final(out)@ == old(out)@ + native_widths_text(trailing_zeros(pointer_bits as nat)),
{
    let ghost start = out@;
    let mut w: usize = pointer_bits;
    let mut tz: usize = 0;
    proof {
        vstd::arithmetic::power2::lemma2_to64();
    }
    while w % 2 == 0
        invariant
            w > 0,
            tz + trailing_zeros(w as nat) == trailing_zeros(pointer_bits as nat),
            tz <= usize::BITS,
            pow2(tz as nat) * w == pointer_bits,
        decreases w,
    {
        proof {
            vstd::arithmetic::power2::lemma_pow2_unfold((tz + 1) as nat);
            assert(pow2((tz + 1) as nat) * (w / 2) == pow2(tz as nat) * w) by (nonlinear_arith)
                requires
                    pow2((tz + 1) as nat) == 2 * pow2(tz as nat),
                    w % 2 == 0,
            ;
            vstd::arithmetic::power2::lemma_pow2_pos(tz as nat);
            if tz + 1 > usize::BITS {
                vstd::arithmetic::power2::lemma_pow2_strictly_increases(usize::BITS as nat, (tz + 1) as nat);
                vstd::arithmetic::power2::lemma2_to64();
                assert(pow2((tz + 1) as nat) * (w / 2) >= pow2((tz + 1) as nat)) by (nonlinear_arith)
                    requires
                        w / 2 >= 1,
                ;
            }
        }
        w = w / 2;
        tz = tz + 1;
    }
    let ghost total = trailing_zeros(pointer_bits as nat);
    assert(tz == total);
    proof {
        lemma_trailing_zeros_bound(pointer_bits as nat);
    }
    let ghost words = Seq::new(if total >= 3 { (total - 2) as nat } else { 0 }, |i: int| decimal_text(pow2((i + 3) as nat)));
    if tz >= 3 {
        let mut p: usize = 3;
        let mut width: usize = 8;
        proof {
            vstd::arithmetic::power2::lemma2_to64();
        }
        while p <= tz
            invariant
                3 <= p <= tz + 1,
                tz == total,
                tz <= usize::BITS,
                words.len() == total - 2,
                forall|i: int| 0 <= i < words.len() ==> #[trigger] words[i] == decimal_text(pow2((i + 3) as nat)),
                total >= 3,
                pow2(total) <= pointer_bits,
                p <= tz ==> width == pow2(p as nat),
                out@ == start + join(words.take(p - 3), ":"@),
            decreases tz + 1 - p,
        {
            proof {
                lemma_join_push(words.take(p - 3), words[p - 3], ":"@);
                assert(words.take(p - 3).push(words[p - 3]) =~= words.take(p - 2));
                assert(words[p - 3] == decimal_text(pow2(p as nat)));
                assert(words.take(p - 3).len() == p - 3);
            }
            if p > 3 {
                out.append(":");
            }
            push_decimal(width, out);
            if p < tz {
                proof {
                    vstd::arithmetic::power2::lemma_pow2_unfold((p + 1) as nat);
                    crate::bits::lemma_pow2_le((p + 1) as nat, total);
                }
                width = width * 2;
            }
            p = p + 1;
        }
        assert(words.take(tz - 2) =~= words);
    } else {
        assert(words =~= Seq::<Seq<char>>::empty());
    }
}

} // verus!
