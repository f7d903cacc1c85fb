//! C's built-in types, their classification, the integer and floating
//! promotions, and the usual arithmetic conversions.
#![allow(non_camel_case_types)]
use crate::alignment::{alignment_of_power, Alignment};
use crate::integral::Signedness;
use crate::size::{group_size, Size, SizeBit};
use crate::target_info::TargetInfo;
use crate::text::str_equal;
use vstd::prelude::*;

verus! {

broadcast use group_size;

/// The kind of an implicit or explicit conversion between types.
#[derive(Debug, Clone, Copy, PartialEq, Eq, Structural, Hash)]
pub enum CastType {
    Noop,
    ToVoid,
    LValueToRValue,
    BitCast,
    ArrayToPointerDecay,
    FunctionToPointerDecay,
    NullptrToPointer,
    IntegralCast,
    IntegralToBoolean,
    IntegralToFloating,
    IntegralToPointer,
    PointerToIntegral,
    PointerToBoolean,
    FloatingCast,
    FloatingToBoolean,
    FloatingToIntegral,
}

/// A binary floating-point format.
#[derive(Debug, Clone, Copy, PartialEq, Eq, Structural, Hash)]
pub enum FloatFormat {
    IEEE32,
    IEEE64,
}

/// C's built-in types.
#[derive(Debug, Clone, Copy, PartialEq, Eq, Structural, Hash)]
pub enum Primitive {
    Bool,
    /// Plain `char`, whose signedness the target decides.
    Char,
    SChar,
    Short,
    Int,
    Long,
    LongLong,
    UChar,
    UShort,
    UInt,
    ULong,
    ULongLong,
    Float,
    Double,
    LongDouble,
    /// C 6.2.5p24: an incomplete object type that cannot be completed.
    Void,
    /// C 6.5.5p4: the type of `nullptr`.
    Nullptr,
    ComplexFloat,
    ComplexDouble,
    ComplexLongDouble,
    /// The type of a declaration written with `__auto_type`, to be deduced.
    __AutoType,
    /// A single bit, the IR's `i1`; only its bit size is meaningful.
    __IRBit,
}

/// The result of the usual arithmetic conversions: the common type and the
/// conversions to apply to the left and the right operand.
pub type CommonTypeResult = (Primitive, CastType, CastType);

/// The common type of two different integer types under the usual arithmetic
/// conversions (C 6.3.1.8), with the conversions for the left and the right
/// operand: of two types of one signedness, the one of greater rank; of a
/// signed and an unsigned type, the unsigned one when its rank is not lower,
/// else the signed one when it is wider and so holds every value of the
/// unsigned one, else the unsigned type of the signed one's rank.
pub open spec fn common_integer_spec(lhs: Primitive, rhs: Primitive, ti: &TargetInfo) -> CommonTypeResult {
    if lhs == rhs {
        (lhs, CastType::Noop, CastType::Noop)
    } else if lhs.is_unsigned_spec(ti) == rhs.is_unsigned_spec(ti) {
        if lhs.integer_rank_spec() > rhs.integer_rank_spec() {
            (lhs, CastType::Noop, CastType::IntegralCast)
        } else {
            (rhs, CastType::IntegralCast, CastType::Noop)
        }
    } else {
        let signed = if lhs.is_unsigned_spec(ti) { rhs } else { lhs };
        let unsigned = if lhs.is_unsigned_spec(ti) { lhs } else { rhs };
        let (t, from_signed, from_unsigned) = if unsigned.integer_rank_spec()
            >= signed.integer_rank_spec() {
            (unsigned, CastType::IntegralCast, CastType::Noop)
        } else if signed.size_spec(ti) > unsigned.size_spec(ti) {
            (signed, CastType::Noop, CastType::IntegralCast)
        } else {
            (signed.into_unsigned_spec(), CastType::IntegralCast, CastType::IntegralCast)
        };
        if lhs.is_unsigned_spec(ti) {
            (t, from_unsigned, from_signed)
        } else {
            (t, from_signed, from_unsigned)
        }
    }
}

/// The usual arithmetic conversions (C 6.3.1.8) for two arithmetic types.
pub open spec fn common_type_spec(lhs: Primitive, rhs: Primitive, ti: &TargetInfo) -> CommonTypeResult {
    if lhs == rhs {
        (lhs, CastType::Noop, CastType::Noop)
    } else if lhs.is_floating_point_spec() && !rhs.is_floating_point_spec() {
        (lhs, CastType::Noop, CastType::IntegralToFloating)
    } else if !lhs.is_floating_point_spec() && rhs.is_floating_point_spec() {
        (rhs, CastType::IntegralToFloating, CastType::Noop)
    } else if lhs.is_floating_point_spec() {
        if lhs.floating_rank_spec() > rhs.floating_rank_spec() {
            (lhs, CastType::Noop, CastType::FloatingCast)
        } else {
            (rhs, CastType::FloatingCast, CastType::Noop)
        }
    } else {
        common_integer_spec(lhs, rhs, ti)
    }
}

impl Primitive {
    /// The spelling of the type in C; the IR's bit type has none.
    pub open spec fn name_spec(self) -> Seq<char> {
        match self {
            Primitive::Bool => "_Bool"@,
            Primitive::Char => "char"@,
            Primitive::SChar => "signed char"@,
            Primitive::Short => "short"@,
            Primitive::Int => "int"@,
            Primitive::Long => "long"@,
            Primitive::LongLong => "long long"@,
            Primitive::UChar => "unsigned char"@,
            Primitive::UShort => "unsigned short"@,
            Primitive::UInt => "unsigned int"@,
            Primitive::ULong => "unsigned long"@,
            Primitive::ULongLong => "unsigned long long"@,
            Primitive::Float => "float"@,
            Primitive::Double => "double"@,
            Primitive::LongDouble => "long double"@,
            Primitive::Void => "void"@,
            Primitive::Nullptr => "nullptr_t"@,
            Primitive::ComplexFloat => "_Complex float"@,
            Primitive::ComplexDouble => "_Complex double"@,
            Primitive::ComplexLongDouble => "_Complex long double"@,
            Primitive::__AutoType => "__auto_type"@,
            Primitive::__IRBit => Seq::empty(),
        }
    }

    /// The type a C spelling names, if any; `bool` and `_Bool` both name
    /// the boolean type, `_Complex` alone the complex `double`.
    pub open spec fn parse_spec(s: Seq<char>) -> Option<Primitive> {
                if s == "bool"@ {
            Some(Primitive::Bool)
        } else         if s == "_Bool"@ {
            Some(Primitive::Bool)
        } else         if s == "char"@ {
            Some(Primitive::Char)
        } else         if s == "signed char"@ {
            Some(Primitive::SChar)
        } else         if s == "short"@ {
            Some(Primitive::Short)
        } else         if s == "int"@ {
            Some(Primitive::Int)
        } else         if s == "long"@ {
            Some(Primitive::Long)
        } else         if s == "long long"@ {
            Some(Primitive::LongLong)
        } else         if s == "unsigned char"@ {
            Some(Primitive::UChar)
        } else         if s == "unsigned short"@ {
            Some(Primitive::UShort)
        } else         if s == "unsigned int"@ {
            Some(Primitive::UInt)
        } else         if s == "unsigned long"@ {
            Some(Primitive::ULong)
        } else         if s == "unsigned long long"@ {
            Some(Primitive::ULongLong)
        } else         if s == "float"@ {
            Some(Primitive::Float)
        } else         if s == "double"@ {
            Some(Primitive::Double)
        } else         if s == "long double"@ {
            Some(Primitive::LongDouble)
        } else         if s == "void"@ {
            Some(Primitive::Void)
        } else         if s == "nullptr_t"@ {
            Some(Primitive::Nullptr)
        } else         if s == "_Complex float"@ {
            Some(Primitive::ComplexFloat)
        } else         if s == "_Complex"@ {
            Some(Primitive::ComplexDouble)
        } else         if s == "_Complex double"@ {
            Some(Primitive::ComplexDouble)
        } else         if s == "_Complex long double"@ {
            Some(Primitive::ComplexLongDouble)
        } else         if s == "__auto_type"@ {
            Some(Primitive::__AutoType)
        } else {
            None
        }
    }

    /// The type a C spelling names, if any.
    pub fn parse(s: &str) -> (r: Option<Primitive>)
        ensures
            r == Primitive::parse_spec(s@),
    {
        proof {
            reveal_strlit("bool");
            reveal_strlit("_Bool");
            reveal_strlit("char");
            reveal_strlit("signed char");
            reveal_strlit("short");
            reveal_strlit("int");
            reveal_strlit("long");
            reveal_strlit("long long");
            reveal_strlit("unsigned char");
            reveal_strlit("unsigned short");
            reveal_strlit("unsigned int");
            reveal_strlit("unsigned long");
            reveal_strlit("unsigned long long");
            reveal_strlit("float");
            reveal_strlit("double");
            reveal_strlit("long double");
            reveal_strlit("void");
            reveal_strlit("nullptr_t");
            reveal_strlit("_Complex float");
            reveal_strlit("_Complex");
            reveal_strlit("_Complex double");
            reveal_strlit("_Complex long double");
            reveal_strlit("__auto_type");
        }
        if str_equal(s, "bool") {
            return Some(Primitive::Bool);
        }
        if str_equal(s, "_Bool") {
            return Some(Primitive::Bool);
        }
        if str_equal(s, "char") {
            return Some(Primitive::Char);
        }
        if str_equal(s, "signed char") {
            return Some(Primitive::SChar);
        }
        if str_equal(s, "short") {
            return Some(Primitive::Short);
        }
        if str_equal(s, "int") {
            return Some(Primitive::Int);
        }
        if str_equal(s, "long") {
            return Some(Primitive::Long);
        }
        if str_equal(s, "long long") {
            return Some(Primitive::LongLong);
        }
        if str_equal(s, "unsigned char") {
            return Some(Primitive::UChar);
        }
        if str_equal(s, "unsigned short") {
            return Some(Primitive::UShort);
        }
        if str_equal(s, "unsigned int") {
            return Some(Primitive::UInt);
        }
        if str_equal(s, "unsigned long") {
            return Some(Primitive::ULong);
        }
        if str_equal(s, "unsigned long long") {
            return Some(Primitive::ULongLong);
        }
        if str_equal(s, "float") {
            return Some(Primitive::Float);
        }
        if str_equal(s, "double") {
            return Some(Primitive::Double);
        }
        if str_equal(s, "long double") {
            return Some(Primitive::LongDouble);
        }
        if str_equal(s, "void") {
            return Some(Primitive::Void);
        }
        if str_equal(s, "nullptr_t") {
            return Some(Primitive::Nullptr);
        }
        if str_equal(s, "_Complex float") {
            return Some(Primitive::ComplexFloat);
        }
        if str_equal(s, "_Complex") {
            return Some(Primitive::ComplexDouble);
        }
        if str_equal(s, "_Complex double") {
            return Some(Primitive::ComplexDouble);
        }
        if str_equal(s, "_Complex long double") {
            return Some(Primitive::ComplexLongDouble);
        }
        if str_equal(s, "__auto_type") {
            return Some(Primitive::__AutoType);
        }
        None
    }

    /// The spelling of the type in C.
    pub fn name(&self) -> (r: &'static str)
        requires
            !(*self is __IRBit),
        ensures
            r@ == self.name_spec(),
    {
        match self {
            Primitive::Bool => "_Bool",
            Primitive::Char => "char",
            Primitive::SChar => "signed char",
            Primitive::Short => "short",
            Primitive::Int => "int",
            Primitive::Long => "long",
            Primitive::LongLong => "long long",
            Primitive::UChar => "unsigned char",
            Primitive::UShort => "unsigned short",
            Primitive::UInt => "unsigned int",
            Primitive::ULong => "unsigned long",
            Primitive::ULongLong => "unsigned long long",
            Primitive::Float => "float",
            Primitive::Double => "double",
            Primitive::LongDouble => "long double",
            Primitive::Void => "void",
            Primitive::Nullptr => "nullptr_t",
            Primitive::ComplexFloat => "_Complex float",
            Primitive::ComplexDouble => "_Complex double",
            Primitive::ComplexLongDouble => "_Complex long double",
            Primitive::__AutoType => "__auto_type",
            Primitive::__IRBit => "",
        }
    }

    pub open spec fn is_integer_spec(&self) -> bool {
        match *self {
            Primitive::Bool | Primitive::Char | Primitive::SChar | Primitive::UChar
            | Primitive::Short | Primitive::UShort | Primitive::Int | Primitive::UInt
            | Primitive::Long | Primitive::ULong | Primitive::LongLong
            | Primitive::ULongLong => true,
            _ => false,
        }
    }

    pub open spec fn is_complex_spec(&self) -> bool {
        match *self {
            Primitive::ComplexFloat | Primitive::ComplexDouble
            | Primitive::ComplexLongDouble => true,
            _ => false,
        }
    }

    pub open spec fn is_floating_point_spec(&self) -> bool {
        match *self {
            Primitive::Float | Primitive::Double | Primitive::LongDouble => true,
            _ => self.is_complex_spec(),
        }
    }

    pub open spec fn is_arithmetic_spec(&self) -> bool {
        self.is_integer_spec() || self.is_floating_point_spec()
    }

    /// The types whose size, alignment and signedness a target defines.
    pub open spec fn has_layout(&self) -> bool {
        *self != Primitive::__AutoType && *self != Primitive::__IRBit
    }

    pub open spec fn signedness_spec(&self, target_info: &TargetInfo) -> Option<Signedness> {
        match *self {
            Primitive::Void => None,
            Primitive::Char => Some(target_info.char_signess),
            Primitive::Nullptr | Primitive::Bool | Primitive::UChar | Primitive::UShort
            | Primitive::UInt | Primitive::ULong | Primitive::ULongLong => Some(
                Signedness::Unsigned,
            ),
            _ => Some(Signedness::Signed),
        }
    }

    pub open spec fn integer_rank_spec(&self) -> u8 {
        match *self {
            Primitive::Bool => 0x01,
            Primitive::Char | Primitive::SChar | Primitive::UChar => 0x02,
            Primitive::Short | Primitive::UShort => 0x04,
            Primitive::Int | Primitive::UInt => 0x08,
            Primitive::Long | Primitive::ULong => 0x10,
            _ => 0x20,
        }
    }

    pub open spec fn floating_rank_spec(&self) -> u8 {
        match *self {
            Primitive::Float | Primitive::ComplexFloat => 0x01,
            Primitive::Double | Primitive::ComplexDouble => 0x02,
            _ => 0x04,
        }
    }

    pub open spec fn is_unsigned_spec(&self, target_info: &TargetInfo) -> bool {
        self.signedness_spec(target_info) == Some(Signedness::Unsigned)
    }

    /// The unsigned type of the same rank, for a signed integer type.
    pub open spec fn into_unsigned_spec(self) -> Primitive {
        match self {
            Primitive::Char | Primitive::SChar => Primitive::UChar,
            Primitive::Short => Primitive::UShort,
            Primitive::Int => Primitive::UInt,
            Primitive::Long => Primitive::ULong,
            Primitive::LongLong => Primitive::ULongLong,
            _ => self,
        }
    }

    /// The size in bytes of a type that has a layout.
    /// The alignment on a target; `void` and the IR bit are byte-aligned.
    pub open spec fn alignment_spec(&self, target_info: &TargetInfo) -> Alignment {
        match *self {
            Primitive::Nullptr => target_info.pointer.alignment,
            Primitive::Bool => target_info.boolean.alignment,
            Primitive::Char | Primitive::SChar | Primitive::UChar => target_info.character.alignment,
            Primitive::Short | Primitive::UShort => target_info.short.alignment,
            Primitive::Int | Primitive::UInt => target_info.int.alignment,
            Primitive::Long | Primitive::ULong => target_info.long.alignment,
            Primitive::LongLong | Primitive::ULongLong => target_info.long_long.alignment,
            Primitive::Float | Primitive::ComplexFloat => target_info.float.alignment,
            Primitive::Double | Primitive::ComplexDouble => target_info.double.alignment,
            Primitive::LongDouble | Primitive::ComplexLongDouble => target_info.long_double.alignment,
            _ => alignment_of_power(0),
        }
    }

    pub open spec fn size_spec(&self, target_info: &TargetInfo) -> nat {
        match *self {
            Primitive::Nullptr => target_info.pointer.size@,
            Primitive::Void => 0,
            Primitive::Bool => target_info.boolean.size@,
            Primitive::Char | Primitive::SChar | Primitive::UChar => target_info.character.size@,
            Primitive::Short | Primitive::UShort => target_info.short.size@,
            Primitive::Int | Primitive::UInt => target_info.int.size@,
            Primitive::Long | Primitive::ULong => target_info.long.size@,
            Primitive::LongLong | Primitive::ULongLong => target_info.long_long.size@,
            Primitive::Float => target_info.float.size@,
            Primitive::Double => target_info.double.size@,
            Primitive::LongDouble => target_info.long_double.size@,
            Primitive::ComplexFloat => target_info.float.size@ * 2,
            Primitive::ComplexDouble => target_info.double.size@ * 2,
            _ => target_info.long_double.size@ * 2,
        }
    }

    #[verifier::when_used_as_spec(is_integer_spec)]
    pub fn is_integer(&self) -> (r: bool)
        ensures
            r == self.is_integer_spec(),
    {
        match *self {
            Primitive::Bool | Primitive::Char | Primitive::SChar | Primitive::UChar
            | Primitive::Short | Primitive::UShort | Primitive::Int | Primitive::UInt
            | Primitive::Long | Primitive::ULong | Primitive::LongLong
            | Primitive::ULongLong => true,
            _ => false,
        }
    }

    #[verifier::when_used_as_spec(is_complex_spec)]
    pub fn is_complex(&self) -> (r: bool)
        ensures
            r == self.is_complex_spec(),
    {
        match *self {
            Primitive::ComplexFloat | Primitive::ComplexDouble
            | Primitive::ComplexLongDouble => true,
            _ => false,
        }
    }

    /// Real and complex floating types.
    #[verifier::when_used_as_spec(is_floating_point_spec)]
    pub fn is_floating_point(&self) -> (r: bool)
        ensures
            r == self.is_floating_point_spec(),
    {
        match *self {
            Primitive::Float | Primitive::Double | Primitive::LongDouble => true,
            _ => self.is_complex(),
        }
    }

    #[verifier::when_used_as_spec(is_arithmetic_spec)]
    pub fn is_arithmetic(&self) -> (r: bool)
        ensures
            r == self.is_arithmetic_spec(),
    {
        self.is_integer() || self.is_floating_point()
    }

    pub fn is_void(&self) -> (r: bool)
        ensures
            r == (*self == Primitive::Void),
    {
        matches!(*self, Primitive::Void)
    }

    pub fn is_bool(&self) -> (r: bool)
        ensures
            r == (*self == Primitive::Bool),
    {
        matches!(*self, Primitive::Bool)
    }

    /// The type of a condition's value, `int`.
    pub fn is_contextual_bool(&self) -> (r: bool)
        ensures
            r == (*self == Primitive::Int),
    {
        matches!(*self, Primitive::Int)
    }

    pub fn is_nullptr(&self) -> (r: bool)
        ensures
            r == (*self == Primitive::Nullptr),
    {
        matches!(*self, Primitive::Nullptr)
    }

    /// `char`, `signed char` and `unsigned char`.
    pub fn is_character_type(&self) -> (r: bool)
        ensures
            r == (*self == Primitive::Char || *self == Primitive::SChar || *self == Primitive::UChar),
    {
        matches!(*self, Primitive::Char | Primitive::UChar | Primitive::SChar)
    }

    /// The signedness on a target; `void` has none.
    #[verifier::when_used_as_spec(signedness_spec)]
    pub fn signedness(&self, target_info: &TargetInfo) -> (r: Option<Signedness>)
        requires
            self.has_layout(),
        ensures
            r == self.signedness_spec(target_info),
    {
        match *self {
            Primitive::Void => None,
            Primitive::Char => Some(target_info.char_signess),
            Primitive::Nullptr | Primitive::Bool | Primitive::UChar | Primitive::UShort
            | Primitive::UInt | Primitive::ULong | Primitive::ULongLong => Some(
                Signedness::Unsigned,
            ),
            _ => Some(Signedness::Signed),
        }
    }

    pub fn is_signed_integer(&self, target_info: &TargetInfo) -> (r: bool)
        requires
            self.has_layout(),
        ensures
            r == (self.signedness_spec(target_info) == Some(Signedness::Signed)),
    {
        matches!(self.signedness(target_info), Some(Signedness::Signed))
    }

    /// Signed: a signed integer or a floating type.
    pub fn is_signed(&self, target_info: &TargetInfo) -> (r: bool)
        requires
            self.has_layout(),
        ensures
            r == (self.signedness_spec(target_info) == Some(Signedness::Signed)
                || self.is_floating_point_spec()),
    {
        self.is_signed_integer(target_info) || self.is_floating_point()
    }

    #[verifier::when_used_as_spec(is_unsigned_spec)]
    pub fn is_unsigned(&self, target_info: &TargetInfo) -> (r: bool)
        requires
            self.has_layout(),
        ensures
            r == self.is_unsigned_spec(target_info),
    {
        matches!(self.signedness(target_info), Some(Signedness::Unsigned))
    }

    /// The integer conversion rank (C 6.3.1.1); the values are distinct
    /// powers of two, ordered as the ranks are.
    #[verifier::when_used_as_spec(integer_rank_spec)]
    pub fn integer_rank(&self) -> (r: u8)
        requires
            self.is_integer_spec(),
        ensures
            r == self.integer_rank_spec(),
    {
        match *self {
            Primitive::Bool => 0x01,
            Primitive::Char | Primitive::SChar | Primitive::UChar => 0x02,
            Primitive::Short | Primitive::UShort => 0x04,
            Primitive::Int | Primitive::UInt => 0x08,
            Primitive::Long | Primitive::ULong => 0x10,
            _ => 0x20,
        }
    }

    /// The floating rank: `float` < `double` < `long double`, complex types
    /// ranking with their real counterparts.
    #[verifier::when_used_as_spec(floating_rank_spec)]
    pub fn floating_rank(&self) -> (r: u8)
        requires
            self.is_floating_point_spec(),
        ensures
            r == self.floating_rank_spec(),
    {
        match *self {
            Primitive::Float | Primitive::ComplexFloat => 0x01,
            Primitive::Double | Primitive::ComplexDouble => 0x02,
            _ => 0x04,
        }
    }

    /// The binary format of a floating type; `long double` is stored as `double`.
    pub fn floating_format(&self) -> (r: FloatFormat)
        requires
            self.is_floating_point_spec(),
        ensures
            r == (if *self == Primitive::Float || *self == Primitive::ComplexFloat {
                FloatFormat::IEEE32
            } else {
                FloatFormat::IEEE64
            }),
    {
        match *self {
            Primitive::Float | Primitive::ComplexFloat => FloatFormat::IEEE32,
            _ => FloatFormat::IEEE64,
        }
    }

    /// The integer promotions (C 6.3.1.1p2): a type ranking below `int` becomes `int`.
    pub fn integer_promotion(self) -> (r: (Primitive, CastType))
        requires
            self.is_integer_spec(),
        ensures
            r == (if self.integer_rank_spec() < Primitive::Int.integer_rank_spec() {
                (Primitive::Int, CastType::IntegralCast)
            } else {
                (self, CastType::Noop)
            }),
    {
        if self.integer_rank() < Primitive::Int.integer_rank() {
            (Primitive::Int, CastType::IntegralCast)
        } else {
            (self, CastType::Noop)
        }
    }

    /// The default argument promotion of floating types: below `double` becomes `double`.
    pub fn floating_promotion(self) -> (r: (Primitive, CastType))
        requires
            self.is_floating_point_spec(),
        ensures
            r == (if self.floating_rank_spec() < Primitive::Double.floating_rank_spec() {
                (Primitive::Double, CastType::FloatingCast)
            } else {
                (self, CastType::Noop)
            }),
    {
        if self.floating_rank() < Primitive::Double.floating_rank() {
            (Primitive::Double, CastType::FloatingCast)
        } else {
            (self, CastType::Noop)
        }
    }

    /// Integer types are promoted; every other type is left as it is.
    pub fn promote(self) -> (r: (Primitive, CastType))
        ensures
            r == (if self.is_integer_spec() {
                if self.integer_rank_spec() < Primitive::Int.integer_rank_spec() {
                    (Primitive::Int, CastType::IntegralCast)
                } else {
                    (self, CastType::Noop)
                }
            } else {
                (self, CastType::Noop)
            }),
    {
        if self.is_integer() {
            self.integer_promotion()
        } else {
            (self, CastType::Noop)
        }
    }

    /// The unsigned type of the same rank as a signed integer type (`bool` is its own).
    #[verifier::when_used_as_spec(into_unsigned_spec)]
    pub fn into_unsigned(self) -> (r: Primitive)
        requires
            self == Primitive::Bool || self == Primitive::Char || self == Primitive::SChar
                || self == Primitive::Short || self == Primitive::Int || self == Primitive::Long
                || self == Primitive::LongLong,
        ensures
            r == self.into_unsigned_spec(),
    {
        match self {
            Primitive::Char | Primitive::SChar => Primitive::UChar,
            Primitive::Short => Primitive::UShort,
            Primitive::Int => Primitive::UInt,
            Primitive::Long => Primitive::ULong,
            Primitive::LongLong => Primitive::ULongLong,
            _ => self,
        }
    }

    /// The size in bytes on a target.
    pub fn size(&self, target_info: &TargetInfo) -> (r: Size)
        requires
            self.has_layout(),
            target_info.wf(),
        ensures
            r@ == self.size_spec(target_info),
    {
        match *self {
            Primitive::Nullptr => target_info.pointer.size,
            Primitive::Void => Size::new(0),
            Primitive::Bool => target_info.boolean.size,
            Primitive::Char | Primitive::SChar | Primitive::UChar => target_info.character.size,
            Primitive::Short | Primitive::UShort => target_info.short.size,
            Primitive::Int | Primitive::UInt => target_info.int.size,
            Primitive::Long | Primitive::ULong => target_info.long.size,
            Primitive::LongLong | Primitive::ULongLong => target_info.long_long.size,
            Primitive::Float => target_info.float.size,
            Primitive::Double => target_info.double.size,
            Primitive::LongDouble => target_info.long_double.size,
            Primitive::ComplexFloat => Size::new(target_info.float.size.get() * 2),
            Primitive::ComplexDouble => Size::new(target_info.double.size.get() * 2),
            _ => Size::new(target_info.long_double.size.get() * 2),
        }
    }

    /// The size in bits on a target; the IR bit is one bit.
    pub fn size_bits(&self, target_info: &TargetInfo) -> (r: SizeBit)
        requires
            *self != Primitive::__AutoType,
            target_info.wf(),
        ensures
            r@ == (if *self == Primitive::__IRBit {
                1
            } else {
                self.size_spec(target_info) * 8
            }),
    {
        if matches!(*self, Primitive::__IRBit) {
            SizeBit::new(1)
        } else {
            self.size(target_info).size_bits()
        }
    }

    /// The alignment on a target; `void` and the IR bit are byte-aligned.
    pub fn alignment(&self, target_info: &TargetInfo) -> (r: Alignment)
        requires
            *self != Primitive::__AutoType,
        ensures
            r == self.alignment_spec(target_info),
            (*self == Primitive::Void || *self == Primitive::__IRBit) ==> r@ == 0,
    {
        match *self {
            Primitive::Nullptr => target_info.pointer.alignment,
            Primitive::Bool => target_info.boolean.alignment,
            Primitive::Char | Primitive::SChar | Primitive::UChar => target_info.character.alignment,
            Primitive::Short | Primitive::UShort => target_info.short.alignment,
            Primitive::Int | Primitive::UInt => target_info.int.alignment,
            Primitive::Long | Primitive::ULong => target_info.long.alignment,
            Primitive::LongLong | Primitive::ULongLong => target_info.long_long.alignment,
            Primitive::Float | Primitive::ComplexFloat => target_info.float.alignment,
            Primitive::Double | Primitive::ComplexDouble => target_info.double.alignment,
            Primitive::LongDouble | Primitive::ComplexLongDouble => target_info.long_double.alignment,
            _ => Alignment::min(),
        }
    }

    /// The number of nested array levels plus one for an object type; `void` has none.
    pub fn extent(&self) -> (r: usize)
        ensures
            r == (if *self == Primitive::Void {
                0usize
            } else {
                1usize
            }),
    {
        match *self {
            Primitive::Void => 0,
            _ => 1,
        }
    }

    /// The usual arithmetic conversions (C 6.3.1.8): the common type of two
    /// arithmetic types and the conversion each operand needs.
    pub fn common_type(lhs: Primitive, rhs: Primitive, target_info: &TargetInfo) -> (r: CommonTypeResult)
        requires
            lhs == rhs || (lhs.is_arithmetic_spec() && rhs.is_arithmetic_spec()),
        ensures
            r == common_type_spec(lhs, rhs, target_info),
    {
        if lhs == rhs {
            return (lhs, CastType::Noop, CastType::Noop);
        }
        match (lhs.is_floating_point(), rhs.is_floating_point()) {
            (true, false) => (lhs, CastType::Noop, CastType::IntegralToFloating),
            (false, true) => (rhs, CastType::IntegralToFloating, CastType::Noop),
            (true, true) => Self::common_floating_rank(lhs, rhs),
            (false, false) => Self::common_integer_rank(lhs, rhs, target_info),
        }
    }

    fn common_floating_rank(lhs: Primitive, rhs: Primitive) -> (r: CommonTypeResult)
        requires
            lhs.is_floating_point_spec(),
            rhs.is_floating_point_spec(),
        ensures
            r == (if lhs.floating_rank_spec() > rhs.floating_rank_spec() {
                (lhs, CastType::Noop, CastType::FloatingCast)
            } else {
                (rhs, CastType::FloatingCast, CastType::Noop)
            }),
    {
        if lhs.floating_rank() > rhs.floating_rank() {
            (lhs, CastType::Noop, CastType::FloatingCast)
        } else {
            (rhs, CastType::FloatingCast, CastType::Noop)
        }
    }

    fn common_integer_rank(lhs: Primitive, rhs: Primitive, target_info: &TargetInfo) -> (r: CommonTypeResult)
        requires
            lhs.is_integer_spec(),
            rhs.is_integer_spec(),
        ensures
            r == common_integer_spec(lhs, rhs, target_info),
    {
        if lhs == rhs {
            return (lhs, CastType::Noop, CastType::Noop);
        }
        if lhs.is_unsigned(target_info) == rhs.is_unsigned(target_info) {
            return if lhs.integer_rank() > rhs.integer_rank() {
                (lhs, CastType::Noop, CastType::IntegralCast)
            } else {
                (rhs, CastType::IntegralCast, CastType::Noop)
            };
        }
        if lhs.is_unsigned(target_info) {
            let (t, from_signed, from_unsigned) = Self::signed_and_unsigned(rhs, lhs, target_info);
            (t, from_unsigned, from_signed)
        } else {
            Self::signed_and_unsigned(lhs, rhs, target_info)
        }
    }

    /// The common type of a signed and an unsigned integer type, with the
    /// conversion of the signed and of the unsigned operand.
    fn signed_and_unsigned(signed: Primitive, unsigned: Primitive, target_info: &TargetInfo) -> (r: CommonTypeResult)
        requires
            signed.is_integer_spec(),
            unsigned.is_integer_spec(),
            !signed.is_unsigned_spec(target_info),
        ensures
            r == (if unsigned.integer_rank_spec() >= signed.integer_rank_spec() {
                (unsigned, CastType::IntegralCast, CastType::Noop)
            } else if signed.size_spec(target_info) > unsigned.size_spec(target_info) {
                (signed, CastType::Noop, CastType::IntegralCast)
            } else {
                (signed.into_unsigned_spec(), CastType::IntegralCast, CastType::IntegralCast)
            }),
    {
        if unsigned.integer_rank() >= signed.integer_rank() {
            (unsigned, CastType::IntegralCast, CastType::Noop)
        } else if signed.size_spec_exec(target_info) > unsigned.size_spec_exec(target_info) {
            (signed, CastType::Noop, CastType::IntegralCast)
        } else {
            (signed.into_unsigned(), CastType::IntegralCast, CastType::IntegralCast)
        }
    }

    /// The size in bytes of an integer type, as a plain number.
    fn size_spec_exec(&self, target_info: &TargetInfo) -> (r: usize)
        requires
            self.is_integer_spec(),
        ensures
            r == self.size_spec(target_info),
    {
        match *self {
            Primitive::Bool => target_info.boolean.size.get(),
            Primitive::Char | Primitive::SChar | Primitive::UChar => target_info.character.size.get(),
            Primitive::Short | Primitive::UShort => target_info.short.size.get(),
            Primitive::Int | Primitive::UInt => target_info.int.size.get(),
            Primitive::Long | Primitive::ULong => target_info.long.size.get(),
            _ => target_info.long_long.size.get(),
        }
    }
}

/// The integer promotions give a type of rank at least `int`, and promoting
/// a promoted type changes nothing.
pub proof fn law_integer_promotion(p: Primitive)
    requires
        p.is_integer_spec(),
    ensures
        ({
            let q = if p.integer_rank_spec() < Primitive::Int.integer_rank_spec() {
                Primitive::Int
            } else {
                p
            };
            &&& q.is_integer_spec()
            &&& q.integer_rank_spec() >= Primitive::Int.integer_rank_spec()
            &&& !(q.integer_rank_spec() < Primitive::Int.integer_rank_spec())
        }),
{
}

/// The usual arithmetic conversions do not depend on the order of the
/// operands when both are promoted integer types: the common type is the
/// same and the conversions trade places.
pub proof fn law_common_type_symmetric(a: Primitive, b: Primitive, ti: &TargetInfo)
    requires
        a.is_integer_spec(),
        b.is_integer_spec(),
        a.integer_rank_spec() >= Primitive::Int.integer_rank_spec(),
        b.integer_rank_spec() >= Primitive::Int.integer_rank_spec(),
    ensures
        common_type_spec(b, a, ti) == (
            common_type_spec(a, b, ti).0,
            common_type_spec(a, b, ti).2,
            common_type_spec(a, b, ti).1,
        ),
{
}

/// A signed and an unsigned integer type of one rank, such as `int` and
/// `unsigned int`, meet in the unsigned type: the signed operand is
/// converted and the unsigned one is not.
pub proof fn law_equal_rank_meets_in_unsigned(s: Primitive, u: Primitive, ti: &TargetInfo)
    requires
        s.is_integer_spec(),
        u.is_integer_spec(),
        !s.is_unsigned_spec(ti),
        u.is_unsigned_spec(ti),
        s.integer_rank_spec() == u.integer_rank_spec(),
    ensures
        common_type_spec(s, u, ti) == (u, CastType::IntegralCast, CastType::Noop),
        common_type_spec(u, s, ti) == (u, CastType::Noop, CastType::IntegralCast),
{
}

/// The common type of a type with itself is the type, with no conversion.
pub proof fn law_common_type_reflexive(a: Primitive, ti: &TargetInfo)
    ensures
        common_type_spec(a, a, ti) == (a, CastType::Noop, CastType::Noop),
{
}

/// Reading back a spelling: the name of every type but the IR bit parses
/// to that type.
pub proof fn law_name_parses_back(p: Primitive)
    requires
        p != Primitive::__IRBit,
    ensures
        Primitive::parse_spec(p.name_spec()) == Some(p),
{
    reveal_strlit("bool");
    reveal_strlit("_Bool");
    reveal_strlit("char");
    reveal_strlit("signed char");
    reveal_strlit("short");
    reveal_strlit("int");
    reveal_strlit("long");
    reveal_strlit("long long");
    reveal_strlit("unsigned char");
    reveal_strlit("unsigned short");
    reveal_strlit("unsigned int");
    reveal_strlit("unsigned long");
    reveal_strlit("unsigned long long");
    reveal_strlit("float");
    reveal_strlit("double");
    reveal_strlit("long double");
    reveal_strlit("void");
    reveal_strlit("nullptr_t");
    reveal_strlit("_Complex float");
    reveal_strlit("_Complex");
    reveal_strlit("_Complex double");
    reveal_strlit("_Complex long double");
    reveal_strlit("__auto_type");
    match p {
        Primitive::Bool => {

        },
        Primitive::Char => {
            assert("char"@[0] != "bool"@[0]);
            assert("char"@.len() != "_Bool"@.len());
        },
        Primitive::SChar => {
            assert("signed char"@.len() != "bool"@.len());
            assert("signed char"@.len() != "_Bool"@.len());
            assert("signed char"@.len() != "char"@.len());
        },
        Primitive::Short => {
            assert("short"@.len() != "bool"@.len());
            assert("short"@[0] != "_Bool"@[0]);
            assert("short"@.len() != "char"@.len());
            assert("short"@.len() != "signed char"@.len());
        },
        Primitive::Int => {
            assert("int"@.len() != "bool"@.len());
            assert("int"@.len() != "_Bool"@.len());
            assert("int"@.len() != "char"@.len());
            assert("int"@.len() != "signed char"@.len());
            assert("int"@.len() != "short"@.len());
        },
        Primitive::Long => {
            assert("long"@[0] != "bool"@[0]);
            assert("long"@.len() != "_Bool"@.len());
            assert("long"@[0] != "char"@[0]);
            assert("long"@.len() != "signed char"@.len());
            assert("long"@.len() != "short"@.len());
            assert("long"@.len() != "int"@.len());
        },
        Primitive::LongLong => {
            assert("long long"@.len() != "bool"@.len());
            assert("long long"@.len() != "_Bool"@.len());
            assert("long long"@.len() != "char"@.len());
            assert("long long"@.len() != "signed char"@.len());
            assert("long long"@.len() != "short"@.len());
            assert("long long"@.len() != "int"@.len());
            assert("long long"@.len() != "long"@.len());
        },
        Primitive::UChar => {
            assert("unsigned char"@.len() != "bool"@.len());
            assert("unsigned char"@.len() != "_Bool"@.len());
            assert("unsigned char"@.len() != "char"@.len());
            assert("unsigned char"@.len() != "signed char"@.len());
            assert("unsigned char"@.len() != "short"@.len());
            assert("unsigned char"@.len() != "int"@.len());
            assert("unsigned char"@.len() != "long"@.len());
            assert("unsigned char"@.len() != "long long"@.len());
        },
        Primitive::UShort => {
            assert("unsigned short"@.len() != "bool"@.len());
            assert("unsigned short"@.len() != "_Bool"@.len());
            assert("unsigned short"@.len() != "char"@.len());
            assert("unsigned short"@.len() != "signed char"@.len());
            assert("unsigned short"@.len() != "short"@.len());
            assert("unsigned short"@.len() != "int"@.len());
            assert("unsigned short"@.len() != "long"@.len());
            assert("unsigned short"@.len() != "long long"@.len());
            assert("unsigned short"@.len() != "unsigned char"@.len());
        },
        Primitive::UInt => {
            assert("unsigned int"@.len() != "bool"@.len());
            assert("unsigned int"@.len() != "_Bool"@.len());
            assert("unsigned int"@.len() != "char"@.len());
            assert("unsigned int"@.len() != "signed char"@.len());
            assert("unsigned int"@.len() != "short"@.len());
            assert("unsigned int"@.len() != "int"@.len());
            assert("unsigned int"@.len() != "long"@.len());
            assert("unsigned int"@.len() != "long long"@.len());
            assert("unsigned int"@.len() != "unsigned char"@.len());
            assert("unsigned int"@.len() != "unsigned short"@.len());
        },
        Primitive::ULong => {
            assert("unsigned long"@.len() != "bool"@.len());
            assert("unsigned long"@.len() != "_Bool"@.len());
            assert("unsigned long"@.len() != "char"@.len());
            assert("unsigned long"@.len() != "signed char"@.len());
            assert("unsigned long"@.len() != "short"@.len());
            assert("unsigned long"@.len() != "int"@.len());
            assert("unsigned long"@.len() != "long"@.len());
            assert("unsigned long"@.len() != "long long"@.len());
            assert("unsigned long"@[9] != "unsigned char"@[9]);
            assert("unsigned long"@.len() != "unsigned short"@.len());
            assert("unsigned long"@.len() != "unsigned int"@.len());
        },
        Primitive::ULongLong => {
            assert("unsigned long long"@.len() != "bool"@.len());
            assert("unsigned long long"@.len() != "_Bool"@.len());
            assert("unsigned long long"@.len() != "char"@.len());
            assert("unsigned long long"@.len() != "signed char"@.len());
            assert("unsigned long long"@.len() != "short"@.len());
            assert("unsigned long long"@.len() != "int"@.len());
            assert("unsigned long long"@.len() != "long"@.len());
            assert("unsigned long long"@.len() != "long long"@.len());
            assert("unsigned long long"@.len() != "unsigned char"@.len());
            assert("unsigned long long"@.len() != "unsigned short"@.len());
            assert("unsigned long long"@.len() != "unsigned int"@.len());
            assert("unsigned long long"@.len() != "unsigned long"@.len());
        },
        Primitive::Float => {
            assert("float"@.len() != "bool"@.len());
            assert("float"@[0] != "_Bool"@[0]);
            assert("float"@.len() != "char"@.len());
            assert("float"@.len() != "signed char"@.len());
            assert("float"@[0] != "short"@[0]);
            assert("float"@.len() != "int"@.len());
            assert("float"@.len() != "long"@.len());
            assert("float"@.len() != "long long"@.len());
            assert("float"@.len() != "unsigned char"@.len());
            assert("float"@.len() != "unsigned short"@.len());
            assert("float"@.len() != "unsigned int"@.len());
            assert("float"@.len() != "unsigned long"@.len());
            assert("float"@.len() != "unsigned long long"@.len());
        },
        Primitive::Double => {
            assert("double"@.len() != "bool"@.len());
            assert("double"@.len() != "_Bool"@.len());
            assert("double"@.len() != "char"@.len());
            assert("double"@.len() != "signed char"@.len());
            assert("double"@.len() != "short"@.len());
            assert("double"@.len() != "int"@.len());
            assert("double"@.len() != "long"@.len());
            assert("double"@.len() != "long long"@.len());
            assert("double"@.len() != "unsigned char"@.len());
            assert("double"@.len() != "unsigned short"@.len());
            assert("double"@.len() != "unsigned int"@.len());
            assert("double"@.len() != "unsigned long"@.len());
            assert("double"@.len() != "unsigned long long"@.len());
            assert("double"@.len() != "float"@.len());
        },
        Primitive::LongDouble => {
            assert("long double"@.len() != "bool"@.len());
            assert("long double"@.len() != "_Bool"@.len());
            assert("long double"@.len() != "char"@.len());
            assert("long double"@[0] != "signed char"@[0]);
            assert("long double"@.len() != "short"@.len());
            assert("long double"@.len() != "int"@.len());
            assert("long double"@.len() != "long"@.len());
            assert("long double"@.len() != "long long"@.len());
            assert("long double"@.len() != "unsigned char"@.len());
            assert("long double"@.len() != "unsigned short"@.len());
            assert("long double"@.len() != "unsigned int"@.len());
            assert("long double"@.len() != "unsigned long"@.len());
            assert("long double"@.len() != "unsigned long long"@.len());
            assert("long double"@.len() != "float"@.len());
            assert("long double"@.len() != "double"@.len());
        },
        Primitive::Void => {
            assert("void"@[0] != "bool"@[0]);
            assert("void"@.len() != "_Bool"@.len());
            assert("void"@[0] != "char"@[0]);
            assert("void"@.len() != "signed char"@.len());
            assert("void"@.len() != "short"@.len());
            assert("void"@.len() != "int"@.len());
            assert("void"@[0] != "long"@[0]);
            assert("void"@.len() != "long long"@.len());
            assert("void"@.len() != "unsigned char"@.len());
            assert("void"@.len() != "unsigned short"@.len());
            assert("void"@.len() != "unsigned int"@.len());
            assert("void"@.len() != "unsigned long"@.len());
            assert("void"@.len() != "unsigned long long"@.len());
            assert("void"@.len() != "float"@.len());
            assert("void"@.len() != "double"@.len());
            assert("void"@.len() != "long double"@.len());
        },
        Primitive::Nullptr => {
            assert("nullptr_t"@.len() != "bool"@.len());
            assert("nullptr_t"@.len() != "_Bool"@.len());
            assert("nullptr_t"@.len() != "char"@.len());
            assert("nullptr_t"@.len() != "signed char"@.len());
            assert("nullptr_t"@.len() != "short"@.len());
            assert("nullptr_t"@.len() != "int"@.len());
            assert("nullptr_t"@.len() != "long"@.len());
            assert("nullptr_t"@[0] != "long long"@[0]);
            assert("nullptr_t"@.len() != "unsigned char"@.len());
            assert("nullptr_t"@.len() != "unsigned short"@.len());
            assert("nullptr_t"@.len() != "unsigned int"@.len());
            assert("nullptr_t"@.len() != "unsigned long"@.len());
            assert("nullptr_t"@.len() != "unsigned long long"@.len());
            assert("nullptr_t"@.len() != "float"@.len());
            assert("nullptr_t"@.len() != "double"@.len());
            assert("nullptr_t"@.len() != "long double"@.len());
            assert("nullptr_t"@.len() != "void"@.len());
        },
        Primitive::ComplexFloat => {
            assert("_Complex float"@.len() != "bool"@.len());
            assert("_Complex float"@.len() != "_Bool"@.len());
            assert("_Complex float"@.len() != "char"@.len());
            assert("_Complex float"@.len() != "signed char"@.len());
            assert("_Complex float"@.len() != "short"@.len());
            assert("_Complex float"@.len() != "int"@.len());
            assert("_Complex float"@.len() != "long"@.len());
            assert("_Complex float"@.len() != "long long"@.len());
            assert("_Complex float"@.len() != "unsigned char"@.len());
            assert("_Complex float"@[0] != "unsigned short"@[0]);
            assert("_Complex float"@.len() != "unsigned int"@.len());
            assert("_Complex float"@.len() != "unsigned long"@.len());
            assert("_Complex float"@.len() != "unsigned long long"@.len());
            assert("_Complex float"@.len() != "float"@.len());
            assert("_Complex float"@.len() != "double"@.len());
            assert("_Complex float"@.len() != "long double"@.len());
            assert("_Complex float"@.len() != "void"@.len());
            assert("_Complex float"@.len() != "nullptr_t"@.len());
        },
        Primitive::ComplexDouble => {
            assert("_Complex double"@.len() != "bool"@.len());
            assert("_Complex double"@.len() != "_Bool"@.len());
            assert("_Complex double"@.len() != "char"@.len());
            assert("_Complex double"@.len() != "signed char"@.len());
            assert("_Complex double"@.len() != "short"@.len());
            assert("_Complex double"@.len() != "int"@.len());
            assert("_Complex double"@.len() != "long"@.len());
            assert("_Complex double"@.len() != "long long"@.len());
            assert("_Complex double"@.len() != "unsigned char"@.len());
            assert("_Complex double"@.len() != "unsigned short"@.len());
            assert("_Complex double"@.len() != "unsigned int"@.len());
            assert("_Complex double"@.len() != "unsigned long"@.len());
            assert("_Complex double"@.len() != "unsigned long long"@.len());
            assert("_Complex double"@.len() != "float"@.len());
            assert("_Complex double"@.len() != "double"@.len());
            assert("_Complex double"@.len() != "long double"@.len());
            assert("_Complex double"@.len() != "void"@.len());
            assert("_Complex double"@.len() != "nullptr_t"@.len());
            assert("_Complex double"@.len() != "_Complex float"@.len());
        },
        Primitive::ComplexLongDouble => {
            assert("_Complex long double"@.len() != "bool"@.len());
            assert("_Complex long double"@.len() != "_Bool"@.len());
            assert("_Complex long double"@.len() != "char"@.len());
            assert("_Complex long double"@.len() != "signed char"@.len());
            assert("_Complex long double"@.len() != "short"@.len());
            assert("_Complex long double"@.len() != "int"@.len());
            assert("_Complex long double"@.len() != "long"@.len());
            assert("_Complex long double"@.len() != "long long"@.len());
            assert("_Complex long double"@.len() != "unsigned char"@.len());
            assert("_Complex long double"@.len() != "unsigned short"@.len());
            assert("_Complex long double"@.len() != "unsigned int"@.len());
            assert("_Complex long double"@.len() != "unsigned long"@.len());
            assert("_Complex long double"@.len() != "unsigned long long"@.len());
            assert("_Complex long double"@.len() != "float"@.len());
            assert("_Complex long double"@.len() != "double"@.len());
            assert("_Complex long double"@.len() != "long double"@.len());
            assert("_Complex long double"@.len() != "void"@.len());
            assert("_Complex long double"@.len() != "nullptr_t"@.len());
            assert("_Complex long double"@.len() != "_Complex float"@.len());
            assert("_Complex long double"@.len() != "_Complex"@.len());
            assert("_Complex long double"@.len() != "_Complex double"@.len());
        },
        Primitive::__AutoType => {
            assert("__auto_type"@.len() != "bool"@.len());
            assert("__auto_type"@.len() != "_Bool"@.len());
            assert("__auto_type"@.len() != "char"@.len());
            assert("__auto_type"@[0] != "signed char"@[0]);
            assert("__auto_type"@.len() != "short"@.len());
            assert("__auto_type"@.len() != "int"@.len());
            assert("__auto_type"@.len() != "long"@.len());
            assert("__auto_type"@.len() != "long long"@.len());
            assert("__auto_type"@.len() != "unsigned char"@.len());
            assert("__auto_type"@.len() != "unsigned short"@.len());
            assert("__auto_type"@.len() != "unsigned int"@.len());
            assert("__auto_type"@.len() != "unsigned long"@.len());
            assert("__auto_type"@.len() != "unsigned long long"@.len());
            assert("__auto_type"@.len() != "float"@.len());
            assert("__auto_type"@.len() != "double"@.len());
            assert("__auto_type"@[0] != "long double"@[0]);
            assert("__auto_type"@.len() != "void"@.len());
            assert("__auto_type"@.len() != "nullptr_t"@.len());
            assert("__auto_type"@.len() != "_Complex float"@.len());
            assert("__auto_type"@.len() != "_Complex"@.len());
            assert("__auto_type"@.len() != "_Complex double"@.len());
            assert("__auto_type"@.len() != "_Complex long double"@.len());
        },
        Primitive::__IRBit => {},
    }
}

} // verus!
