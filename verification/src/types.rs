//! C types: primitive, derived (arrays, pointers, functions) and tagged
//! (enumerations, structures, unions), with their qualifiers.
use crate::alignment::{alignment_of_power, Alignment};
use crate::constant::{Constant, FloatBits};
use crate::integral::{Integral, Signedness};
use crate::primitive::{CastType, FloatFormat, Primitive};
use crate::size::{group_size, Size, SizeBit};
use crate::target_info::TargetInfo;
use vstd::prelude::*;

verus! {

broadcast use group_size;

/// Type qualifiers, one bit each: `const`, `volatile`, `restrict`.
#[derive(Debug, Clone, Copy, PartialEq, Eq, Structural, Hash)]
pub struct Qualifiers {
    pub bits: u8,
}

impl Qualifiers {
    pub fn empty() -> (r: Self)
        ensures
            r.bits == 0,
    {
        Qualifiers { bits: 0 }
    }

    pub fn is_empty(&self) -> (r: bool)
        ensures
            r == (self.bits == 0),
    {
        self.bits == 0
    }

    /// `const`.
    pub fn is_const(&self) -> (r: bool)
        ensures
            r == (self.bits & 1 != 0),
    {
        self.bits & 1 != 0
    }

    /// `volatile`.
    pub fn is_volatile(&self) -> (r: bool)
        ensures
            r == (self.bits & 2 != 0),
    {
        self.bits & 2 != 0
    }

    /// `restrict`.
    pub fn is_restrict(&self) -> (r: bool)
        ensures
            r == (self.bits & 4 != 0),
    {
        self.bits & 4 != 0
    }
}

/// Function specifiers, one bit each: `inline`, `_Noreturn`.
#[derive(Debug, Clone, Copy, PartialEq, Eq, Structural, Hash)]
pub struct FunctionSpecifier {
    pub bits: u8,
}

impl FunctionSpecifier {
    pub fn empty() -> (r: Self)
        ensures
            r.bits == 0,
    {
        FunctionSpecifier { bits: 0 }
    }

    /// `inline`.
    pub fn is_inline(&self) -> (r: bool)
        ensures
            r == (self.bits & 1 != 0),
    {
        self.bits & 1 != 0
    }

    /// `_Noreturn`.
    pub fn is_noreturn(&self) -> (r: bool)
        ensures
            r == (self.bits & 2 != 0),
    {
        self.bits & 2 != 0
    }
}

/// The length of an array type.
#[derive(Debug, Clone, Copy, PartialEq, Eq, Structural, Hash)]
pub enum ArraySize {
    Constant(usize),
    Incomplete,
    /// A variable length array, with the id of its length expression.
    Variable(usize),
}

/// A type with its qualifiers.
#[derive(Debug, PartialEq, Eq)]
pub struct QualifiedType {
    pub qualifiers: Qualifiers,
    pub unqualified_type: Type,
}

/// An unqualified C type.
#[derive(Debug, PartialEq, Eq)]
pub enum Type {
    Primitive(Primitive),
    /// An array of elements of the given type.
    Array(Box<QualifiedType>, ArraySize),
    /// A pointer to the given type.
    Pointer(Box<QualifiedType>),
    /// A function returning the first type, taking the parameters listed,
    /// variadic or not.
    FunctionProto(Box<QualifiedType>, Vec<QualifiedType>, bool),
    /// An enumeration, by name, with its underlying integer type.
    Enum(Option<String>, Primitive),
    /// A structure, by name.
    Record(Option<String>),
    /// A union, by name.
    Union(Option<String>),
}

/// The types whose size this compiler computes: structures and unions are
/// not laid out.
pub open spec fn has_size(t: Type) -> bool
    decreases t,
{
    match t {
        Type::Primitive(p) => p.has_layout(),
        Type::Array(e, _) => has_size(e.unqualified_type),
        Type::Enum(_, u) => u.has_layout(),
        Type::Record(_) | Type::Union(_) => false,
        _ => true,
    }
}

/// The size in bytes of a type: an array of unknown length has none, a
/// function one byte (as Clang has it).
pub open spec fn type_size(t: Type, ti: TargetInfo) -> nat
    decreases t,
{
    match t {
        Type::Primitive(p) => p.size_spec(&ti),
        Type::Array(e, ArraySize::Constant(n)) => type_size(e.unqualified_type, ti) * (n as nat),
        Type::Array(_, _) => 0,
        Type::Pointer(_) => ti.pointer.size@,
        Type::FunctionProto(_, _, _) => 1,
        Type::Enum(_, u) => u.size_spec(&ti),
        _ => 0,
    }
}

/// Every size computed on the way to the type's size fits a `usize`.
pub open spec fn size_fits(t: Type, ti: TargetInfo) -> bool
    decreases t,
{
    match t {
        Type::Array(e, ArraySize::Constant(n)) => size_fits(e.unqualified_type, ti)
            && type_size(e.unqualified_type, ti) * n <= usize::MAX,
        Type::Array(e, _) => size_fits(e.unqualified_type, ti),
        _ => true,
    }
}

/// The types whose alignment this compiler computes: structures and unions
/// are not laid out, and a deduced type must be deduced first.
pub open spec fn has_alignment(t: Type) -> bool
    decreases t,
{
    match t {
        Type::Primitive(p) => p != Primitive::__AutoType,
        Type::Array(e, _) => has_alignment(e.unqualified_type),
        Type::Enum(_, u) => u != Primitive::__AutoType,
        Type::Record(_) | Type::Union(_) => false,
        _ => true,
    }
}

/// The alignment of a type: an array has its element's, a function the
/// smallest one.
pub open spec fn type_alignment(t: Type, ti: TargetInfo) -> Alignment
    decreases t,
{
    match t {
        Type::Primitive(p) => p.alignment_spec(&ti),
        Type::Array(e, _) => type_alignment(e.unqualified_type, ti),
        Type::Pointer(_) => ti.pointer.alignment,
        Type::Enum(_, u) => u.alignment_spec(&ti),
        _ => alignment_of_power(0),
    }
}

/// The number of array levels plus one; `void` and functions have none.
pub open spec fn type_extent(t: Type) -> nat
    decreases t,
{
    match t {
        Type::Primitive(p) => if p == Primitive::Void {
            0
        } else {
            1
        },
        Type::Array(e, _) => type_extent(e.unqualified_type) + 1,
        Type::FunctionProto(_, _, _) => 0,
        _ => 1,
    }
}

/// The signedness of a scalar type: pointers are unsigned, an enumeration
/// has its underlying type's, aggregates and functions none.
pub open spec fn type_signedness(t: Type, ti: TargetInfo) -> Option<Signedness> {
    match t {
        Type::Primitive(p) => p.signedness_spec(&ti),
        Type::Pointer(_) => Some(Signedness::Unsigned),
        Type::Enum(_, u) => u.signedness_spec(&ti),
        _ => None,
    }
}

/// The primitive types with a zero value: `nullptr_t`, the integers and
/// the floating types.
pub open spec fn primitive_has_default(p: Primitive) -> bool {
    p == Primitive::Nullptr || p.is_integer_spec() || p.is_floating_point_spec()
}

/// The scalar types with a zero value.
pub open spec fn has_default(t: Type) -> bool {
    match t {
        Type::Primitive(p) => primitive_has_default(p),
        Type::Pointer(_) => true,
        Type::Enum(_, u) => primitive_has_default(u),
        _ => false,
    }
}

/// `c` is the zero of the primitive type `p`: `nullptr`, an integer zero of
/// the type's width and signedness, or positive zero in the type's format.
pub open spec fn is_primitive_default(p: Primitive, c: Constant, ti: TargetInfo) -> bool {
    if p == Primitive::Nullptr {
        c == Constant::Nullptr
    } else if p.is_integer_spec() {
        c matches Constant::Integral(i) && i.has(0, p.size_spec(&ti) * 8, p.signedness_spec(&ti)->0)
    } else {
        c == Constant::Floating(
            FloatBits {
                format: if p == Primitive::Float || p == Primitive::ComplexFloat {
                    FloatFormat::IEEE32
                } else {
                    FloatFormat::IEEE64
                },
                bits: 0,
            },
        )
    }
}

/// `c` is the zero value of the scalar type `t`; a pointer's is `nullptr`.
pub open spec fn is_default_value(t: Type, c: Constant, ti: TargetInfo) -> bool {
    match t {
        Type::Primitive(p) => is_primitive_default(p, c, ti),
        Type::Enum(_, u) => is_primitive_default(u, c, ti),
        _ => c == Constant::Nullptr,
    }
}

impl Primitive {
    /// The zero value of a type that has one.
    pub fn default_value(&self, target_info: &TargetInfo) -> (r: Constant)
        requires
            primitive_has_default(*self),
            target_info.wf(),
        ensures
            is_primitive_default(*self, r, *target_info),
    {
        if self.is_nullptr() {
            Constant::Nullptr
        } else if self.is_integer() {
            let width = self.size_bits(target_info);
            let signedness = match self.signedness(target_info) {
                Some(s) => s,
                None => Signedness::Unsigned,
            };
            Constant::Integral(Integral::new(0, width, signedness))
        } else {
            Constant::Floating(FloatBits::zero(self.floating_format()))
        }
    }
}

impl Type {
    pub fn is_void(&self) -> (r: bool)
        ensures
            r == (*self matches Type::Primitive(p) && p == Primitive::Void),
    {
        match self {
            Type::Primitive(p) => p.is_void(),
            _ => false,
        }
    }

    pub fn is_integer(&self) -> (r: bool)
        ensures
            r == (*self matches Type::Primitive(p) && p.is_integer_spec()),
    {
        match self {
            Type::Primitive(p) => p.is_integer(),
            _ => false,
        }
    }

    pub fn is_floating_point(&self) -> (r: bool)
        ensures
            r == (*self matches Type::Primitive(p) && p.is_floating_point_spec()),
    {
        match self {
            Type::Primitive(p) => p.is_floating_point(),
            _ => false,
        }
    }

    pub fn is_arithmetic(&self) -> (r: bool)
        ensures
            r == (*self matches Type::Primitive(p) && p.is_arithmetic_spec()),
    {
        match self {
            Type::Primitive(p) => p.is_arithmetic(),
            _ => false,
        }
    }

    /// `char`, `signed char` or `unsigned char`.
    pub fn is_character_type(&self) -> (r: bool)
        ensures
            r == (*self matches Type::Primitive(p) && (p == Primitive::Char || p == Primitive::SChar
                || p == Primitive::UChar)),
    {
        match self {
            Type::Primitive(p) => p.is_character_type(),
            _ => false,
        }
    }

    /// The size in bytes on a target.
    pub fn size(&self, target_info: &TargetInfo) -> (r: Size)
        requires
            has_size(*self),
            size_fits(*self, *target_info),
            target_info.wf(),
        ensures
            r@ == type_size(*self, *target_info),
        decreases *self,
    {
        match self {
            Type::Primitive(p) => p.size(target_info),
            Type::Array(e, ArraySize::Constant(n)) => {
                let element = e.unqualified_type.size(target_info);
                Size::new(element.get() * *n)
            },
            Type::Array(_, _) => Size::new(0),
            Type::Pointer(_) => target_info.pointer.size,
            Type::FunctionProto(_, _, _) => Size::new(1),
            Type::Enum(_, u) => u.size(target_info),
            _ => Size::new(0),
        }
    }

    /// The promotions: a primitive type is promoted as
    /// [`Primitive::promote`] says; any other type is left as it is.
    pub fn promote(self) -> (r: (Type, CastType))
        ensures
            r == (match self {
                Type::Primitive(p) => if p.is_integer_spec() && p.integer_rank_spec()
                    < Primitive::Int.integer_rank_spec() {
                    (Type::Primitive(Primitive::Int), CastType::IntegralCast)
                } else {
                    (self, CastType::Noop)
                },
                _ => (self, CastType::Noop),
            }),
    {
        match self {
            Type::Primitive(p) => {
                let (promoted, cast) = p.promote();
                (Type::Primitive(promoted), cast)
            },
            _ => (self, CastType::Noop),
        }
    }

    /// The size in bits on a target.
    pub fn size_bits(&self, target_info: &TargetInfo) -> (r: SizeBit)
        requires
            has_size(*self),
            size_fits(*self, *target_info),
            type_size(*self, *target_info) * 8 <= usize::MAX,
            target_info.wf(),
        ensures
            r@ == type_size(*self, *target_info) * 8,
    {
        self.size(target_info).size_bits()
    }

    /// The type has a size: it is not `void`, an array of unknown length or
    /// an array of such.
    pub fn is_complete(&self, target_info: &TargetInfo) -> (r: bool)
        requires
            has_size(*self),
            size_fits(*self, *target_info),
            target_info.wf(),
        ensures
            r == (type_size(*self, *target_info) != 0),
    {
        self.size(target_info).get() != 0
    }

    /// The alignment on a target.
    pub fn alignment(&self, target_info: &TargetInfo) -> (r: Alignment)
        requires
            has_alignment(*self),
        ensures
            r == type_alignment(*self, *target_info),
        decreases *self,
    {
        match self {
            Type::Primitive(p) => p.alignment(target_info),
            Type::Array(e, _) => e.unqualified_type.alignment(target_info),
            Type::Pointer(_) => target_info.pointer.alignment,
            Type::Enum(_, u) => u.alignment(target_info),
            _ => Alignment::min(),
        }
    }

    /// The number of array levels plus one; `void` and functions have none.
    pub fn extent(&self) -> (r: usize)
        requires
            type_extent(*self) <= usize::MAX,
        ensures
            r == type_extent(*self),
        decreases *self,
    {
        match self {
            Type::Primitive(p) => p.extent(),
            Type::Array(e, _) => e.unqualified_type.extent() + 1,
            Type::FunctionProto(_, _, _) => 0,
            _ => 1,
        }
    }

    /// A scalar type has extent one.
    pub fn is_scalar(&self) -> (r: bool)
        requires
            type_extent(*self) <= usize::MAX,
        ensures
            r == (type_extent(*self) == 1),
    {
        self.extent() == 1
    }

    /// The signedness on a target, for a scalar type.
    pub fn signedness(&self, target_info: &TargetInfo) -> (r: Option<Signedness>)
        requires
            self matches Type::Primitive(p) ==> p.has_layout(),
            self matches Type::Enum(_, u) ==> u.has_layout(),
        ensures
            r == type_signedness(*self, *target_info),
    {
        match self {
            Type::Primitive(p) => p.signedness(target_info),
            Type::Pointer(_) => Some(Signedness::Unsigned),
            Type::Enum(_, u) => u.signedness(target_info),
            _ => None,
        }
    }

    /// The zero value of a scalar type.
    pub fn default_value(&self, target_info: &TargetInfo) -> (r: Constant)
        requires
            has_default(*self),
            target_info.wf(),
        ensures
            is_default_value(*self, r, *target_info),
    {
        match self {
            Type::Primitive(p) => p.default_value(target_info),
            Type::Enum(_, u) => u.default_value(target_info),
            _ => Constant::Nullptr,
        }
    }

    /// An object of this type can be assigned to: it is complete and not an array.
    pub fn is_modifiable(&self, target_info: &TargetInfo) -> (r: bool)
        requires
            has_size(*self),
            size_fits(*self, *target_info),
            target_info.wf(),
        ensures
            r == (type_size(*self, *target_info) != 0 && !(*self is Array)),
    {
        if self.size(target_info).get() == 0 {
            false
        } else {
            !matches!(self, Type::Array(..))
        }
    }
}

impl QualifiedType {
    /// The type is `const`.
    pub fn is_const(&self) -> (r: bool)
        ensures
            r == (self.qualifiers.bits & 1 != 0),
    {
        self.qualifiers.is_const()
    }

    /// The type is `volatile`.
    pub fn is_volatile(&self) -> (r: bool)
        ensures
            r == (self.qualifiers.bits & 2 != 0),
    {
        self.qualifiers.is_volatile()
    }
}

/// The primitive type of an integer constant: by signedness, the first of
/// the target's integer types whose size is the constant's width rounded up
/// to bytes; `int` or `unsigned int` when none is.
pub open spec fn integral_primitive_spec(width_bytes: nat, s: Signedness, ti: TargetInfo) -> Primitive {
    if s == Signedness::Signed {
        if width_bytes == ti.boolean.size@ {
            Primitive::Bool
        } else if width_bytes == ti.character.size@ {
            Primitive::Char
        } else if width_bytes == ti.short.size@ {
            Primitive::Short
        } else if width_bytes == ti.int.size@ {
            Primitive::Int
        } else if width_bytes == ti.long.size@ {
            Primitive::Long
        } else if width_bytes == ti.long_long.size@ {
            Primitive::LongLong
        } else {
            Primitive::Int
        }
    } else {
        if width_bytes == ti.character.size@ {
            Primitive::UChar
        } else if width_bytes == ti.short.size@ {
            Primitive::UShort
        } else if width_bytes == ti.int.size@ {
            Primitive::UInt
        } else if width_bytes == ti.long.size@ {
            Primitive::ULong
        } else if width_bytes == ti.long_long.size@ {
            Primitive::ULongLong
        } else {
            Primitive::UInt
        }
    }
}

/// The primitive type of an integer constant on a target.
pub fn integral_primitive(value: &Integral, target_info: &TargetInfo) -> (r: Primitive)
    ensures
        r == integral_primitive_spec((value.bit_width() + 7) / 8, value.sign(), *target_info),
{
    let width = value.width().ceil_to_byte().get();
    match value.signedness() {
        Signedness::Signed => {
            if width == target_info.boolean.size.get() {
                Primitive::Bool
            } else if width == target_info.character.size.get() {
                Primitive::Char
            } else if width == target_info.short.size.get() {
                Primitive::Short
            } else if width == target_info.int.size.get() {
                Primitive::Int
            } else if width == target_info.long.size.get() {
                Primitive::Long
            } else if width == target_info.long_long.size.get() {
                Primitive::LongLong
            } else {
                Primitive::Int
            }
        },
        Signedness::Unsigned => {
            if width == target_info.character.size.get() {
                Primitive::UChar
            } else if width == target_info.short.size.get() {
                Primitive::UShort
            } else if width == target_info.int.size.get() {
                Primitive::UInt
            } else if width == target_info.long.size.get() {
                Primitive::ULong
            } else if width == target_info.long_long.size.get() {
                Primitive::ULongLong
            } else {
                Primitive::UInt
            }
        },
    }
}

/// The type of a constant: an integer's by [`integral_primitive_spec`], a
/// floating constant's by its format, a string literal is an array of
/// `char` one longer than its bytes (for the terminating NUL), `nullptr` has
/// type `nullptr_t` and an address type `void *`.
pub open spec fn constant_type(c: Constant, ti: TargetInfo) -> Type {
    match c {
        Constant::Integral(i) => Type::Primitive(integral_primitive_spec((i.bit_width() + 7) / 8, i.sign(), ti)),
        Constant::Floating(f) => Type::Primitive(
            if f.format == FloatFormat::IEEE32 {
                Primitive::Float
            } else {
                Primitive::Double
            },
        ),
        Constant::String(s) => Type::Array(
            Box::new(QualifiedType { qualifiers: Qualifiers { bits: 0 }, unqualified_type: Type::Primitive(Primitive::Char) }),
            ArraySize::Constant(if s@.len() < usize::MAX { (s@.len() + 1) as usize } else { usize::MAX }),
        ),
        Constant::Nullptr => Type::Primitive(Primitive::Nullptr),
        Constant::Address(_) => Type::Pointer(
            Box::new(QualifiedType { qualifiers: Qualifiers { bits: 0 }, unqualified_type: Type::Primitive(Primitive::Void) }),
        ),
    }
}

impl Constant {
    /// The type of the constant on a target.
    pub fn unqualified_type(&self, target_info: &TargetInfo) -> (r: Type)
        ensures
            r == constant_type(*self, *target_info),
    {
        match self {
            Constant::Integral(i) => Type::Primitive(integral_primitive(i, target_info)),
            Constant::Floating(f) => match f.format {
                FloatFormat::IEEE32 => Type::Primitive(Primitive::Float),
                FloatFormat::IEEE64 => Type::Primitive(Primitive::Double),
            },
            Constant::String(s) => Type::Array(
                Box::new(QualifiedType { qualifiers: Qualifiers::empty(), unqualified_type: Type::Primitive(Primitive::Char) }),
                ArraySize::Constant(s.len().saturating_add(1)),
            ),
            Constant::Nullptr => Type::Primitive(Primitive::Nullptr),
            Constant::Address(_) => Type::Pointer(
                Box::new(QualifiedType { qualifiers: Qualifiers::empty(), unqualified_type: Type::Primitive(Primitive::Void) }),
            ),
        }
    }
}

} // verus!
