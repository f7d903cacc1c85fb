use rcc::primitive::Primitive;
use rcc::target_info::TargetInfo;
use rcc::triple::{Architecture, Environment, ObjectFormat, OperatingSystem, Triple, Vendor};
use rcc::types::{ArraySize, FunctionSpecifier, QualifiedType, Qualifiers, Type};
use rcc::constant::{Constant, FloatBits};
use rcc::primitive::FloatFormat;
use rcc::integral::Signedness;

fn q(t: Type) -> QualifiedType {
    QualifiedType { qualifiers: Qualifiers::empty(), unqualified_type: t }
}

fn prim(p: Primitive) -> Type {
    Type::Primitive(p)
}

fn linux() -> TargetInfo {
    TargetInfo::new(Triple {
        architecture: Architecture::x86_64,
        vendor: Vendor::Unknown,
        operating_system: OperatingSystem::Linux,
        environment: Environment::GNU,
        object_format: ObjectFormat::ELF,
    })
}

#[test]
fn spells_primitives() {
    assert_eq!(prim(Primitive::Int).pretty_print(), "int");
    assert_eq!(prim(Primitive::Bool).pretty_print(), "_Bool");
    assert_eq!(prim(Primitive::ULongLong).pretty_print(), "unsigned long long");
    assert_eq!(prim(Primitive::ComplexDouble).pretty_print(), "_Complex double");
}

#[test]
fn spells_pointer_to_array() {
    let t = Type::Pointer(Box::new(q(Type::Array(Box::new(q(prim(Primitive::Int))), ArraySize::Constant(10)))));
    assert_eq!(t.pretty_print(), "int(*)[10]");
}

#[test]
fn spells_nested_arrays_outside_in() {
    let t = Type::Array(Box::new(q(Type::Array(Box::new(q(prim(Primitive::Char))), ArraySize::Constant(2)))), ArraySize::Constant(3));
    assert_eq!(t.pretty_print(), "char[3][2]");
    let open = Type::Array(Box::new(q(prim(Primitive::Int))), ArraySize::Incomplete);
    assert_eq!(open.pretty_print(), "int[]");
    let vla = Type::Array(Box::new(q(prim(Primitive::Int))), ArraySize::Variable(4));
    assert_eq!(vla.pretty_print(), "int[]");
}

#[test]
fn spells_pointers_with_qualified_pointee() {
    let t = Type::Pointer(Box::new(q(prim(Primitive::Int))));
    assert_eq!(t.pretty_print(), "int*");
    let c = Type::Pointer(Box::new(QualifiedType { qualifiers: Qualifiers { bits: 1 }, unqualified_type: prim(Primitive::Int) }));
    assert_eq!(c.pretty_print(), "int*const");
}

#[test]
fn spells_functions() {
    let f = Type::FunctionProto(Box::new(q(prim(Primitive::Int))), vec![], false);
    assert_eq!(f.pretty_print(), "int(void)");
    let g = Type::FunctionProto(Box::new(q(prim(Primitive::Void))), vec![q(prim(Primitive::Int)), q(prim(Primitive::Char))], false);
    assert_eq!(g.pretty_print(), "void(int, char)");
    let v = Type::FunctionProto(Box::new(q(prim(Primitive::Int))), vec![q(prim(Primitive::Int))], true);
    assert_eq!(v.pretty_print(), "int(, ...)");
    let v0 = Type::FunctionProto(Box::new(q(prim(Primitive::Int))), vec![], true);
    assert_eq!(v0.pretty_print(), "int(...)");
    let p = Type::Pointer(Box::new(q(Type::FunctionProto(Box::new(q(prim(Primitive::Int))), vec![], false))));
    assert_eq!(p.pretty_print(), "int(*)(void)");
}

#[test]
fn spells_tagged_types() {
    assert_eq!(Type::Record(Some("point".to_string())).pretty_print(), "<struct point>");
    assert_eq!(Type::Union(None).pretty_print(), "<union <unnamed>>");
    assert_eq!(Type::Enum(Some("color".to_string()), Primitive::UInt).pretty_print(), "<enum color>");
}

#[test]
fn spells_qualifiers_and_specifiers() {
    assert_eq!(Qualifiers { bits: 0 }.to_string(), "");
    assert_eq!(Qualifiers { bits: 7 }.to_string(), "const volatile restrict");
    assert_eq!(Qualifiers { bits: 6 }.to_string(), "volatile restrict");
    assert_eq!(FunctionSpecifier { bits: 3 }.to_string(), "inline _Noreturn");
    assert_eq!(FunctionSpecifier { bits: 2 }.to_string(), "_Noreturn");
    let cq = QualifiedType { qualifiers: Qualifiers { bits: 1 }, unqualified_type: prim(Primitive::Char) };
    assert_eq!(cq.to_string(), "const char");
    assert_eq!(q(prim(Primitive::Double)).to_string(), "double");
}

#[test]
fn parses_primitive_spellings() {
    assert_eq!(Primitive::parse("bool"), Some(Primitive::Bool));
    assert_eq!(Primitive::parse("_Bool"), Some(Primitive::Bool));
    assert_eq!(Primitive::parse("unsigned long"), Some(Primitive::ULong));
    assert_eq!(Primitive::parse("_Complex"), Some(Primitive::ComplexDouble));
    assert_eq!(Primitive::parse("quad"), None);
}

#[test]
fn type_layout_queries() {
    let ti = linux();
    let arr = Type::Array(Box::new(q(prim(Primitive::Int))), ArraySize::Constant(4));
    assert_eq!(arr.size(&ti).get(), 16);
    assert_eq!(arr.size_bits(&ti).get(), 128);
    assert_eq!(arr.alignment(&ti).power(), 2);
    assert_eq!(arr.extent(), 2);
    assert!(!arr.is_scalar());
    assert!(arr.is_complete(&ti));
    assert_eq!(arr.signedness(&ti), None);
    let open = Type::Array(Box::new(q(prim(Primitive::Int))), ArraySize::Incomplete);
    assert!(!open.is_complete(&ti));
    let ptr = Type::Pointer(Box::new(q(prim(Primitive::Void))));
    assert_eq!(ptr.signedness(&ti), Some(Signedness::Unsigned));
    assert_eq!(ptr.extent(), 1);
    assert_eq!(prim(Primitive::Void).extent(), 0);
    let f = Type::FunctionProto(Box::new(q(prim(Primitive::Int))), vec![], false);
    assert_eq!(f.extent(), 0);
    assert_eq!(f.alignment(&ti).power(), 0);
    assert_eq!(prim(Primitive::Char).signedness(&ti), Some(Signedness::Unsigned));
}

#[test]
fn default_values_are_zeros() {
    let ti = linux();
    assert_eq!(Type::Pointer(Box::new(q(prim(Primitive::Int)))).default_value(&ti), Constant::Nullptr);
    assert_eq!(prim(Primitive::Nullptr).default_value(&ti), Constant::Nullptr);
    match prim(Primitive::Short).default_value(&ti) {
        Constant::Integral(i) => {
            assert_eq!(i.bits(), 0);
            assert_eq!(i.width().get(), 16);
            assert!(i.is_signed());
        },
        other => panic!("unexpected {:?}", other),
    }
    match Type::Enum(None, Primitive::UInt).default_value(&ti) {
        Constant::Integral(i) => {
            assert_eq!(i.width().get(), 32);
            assert!(!i.is_signed());
        },
        other => panic!("unexpected {:?}", other),
    }
    assert_eq!(prim(Primitive::Float).default_value(&ti), Constant::Floating(FloatBits { format: FloatFormat::IEEE32, bits: 0 }));
    assert_eq!(prim(Primitive::Double).default_value(&ti), Constant::Floating(FloatBits { format: FloatFormat::IEEE64, bits: 0 }));
}

#[test]
fn primitive_names_parse_back() {
    let all = [
        Primitive::Bool, Primitive::Char, Primitive::SChar, Primitive::Short, Primitive::Int, Primitive::Long,
        Primitive::LongLong, Primitive::UChar, Primitive::UShort, Primitive::UInt, Primitive::ULong,
        Primitive::ULongLong, Primitive::Float, Primitive::Double, Primitive::LongDouble, Primitive::Void,
        Primitive::Nullptr, Primitive::ComplexFloat, Primitive::ComplexDouble, Primitive::ComplexLongDouble,
        Primitive::__AutoType,
    ];
    for p in all {
        assert_eq!(Primitive::parse(p.name()), Some(p));
    }
}

#[test]
fn constant_types() {
    let ti = linux();
    assert_eq!(Constant::Nullptr.unqualified_type(&ti), prim(Primitive::Nullptr));
    assert_eq!(rcc::constant::Constant::Integral(rcc::integral::Integral::from(5u64)).unqualified_type(&ti), prim(Primitive::ULong));
    assert_eq!(rcc::constant::Constant::Integral(rcc::integral::Integral::from(5i32)).unqualified_type(&ti), prim(Primitive::Int));
    assert_eq!(
        Constant::String(b"abc".to_vec()).unqualified_type(&ti),
        Type::Array(Box::new(q(prim(Primitive::Char))), ArraySize::Constant(4))
    );
    assert_eq!(Constant::Address(b"x".to_vec()).unqualified_type(&ti), Type::Pointer(Box::new(q(prim(Primitive::Void)))));
    assert_eq!(Constant::Floating(FloatBits { format: FloatFormat::IEEE32, bits: 0 }).unqualified_type(&ti), prim(Primitive::Float));
}

#[test]
fn type_promotions() {
    assert_eq!(prim(Primitive::Char).promote(), (prim(Primitive::Int), rcc::primitive::CastType::IntegralCast));
    assert_eq!(prim(Primitive::Long).promote(), (prim(Primitive::Long), rcc::primitive::CastType::Noop));
    let p = Type::Pointer(Box::new(q(prim(Primitive::Char))));
    assert_eq!(p.promote().1, rcc::primitive::CastType::Noop);
}
