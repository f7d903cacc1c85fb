use rcc::constant::{Constant, FloatBits};
use rcc::declaration::{DeclarationData, FunctionDecl, Typedef, VarDef};
use rcc::integral::{Integral, Signedness};
use rcc::langopts::{Kind, Options, SysY, C};
use rcc::primitive::{CastType, FloatFormat, Primitive};
use rcc::storage::Storage;
use rcc::target_info::TargetInfo;
use rcc::triple::{Architecture, Environment, ObjectFormat, OperatingSystem, Triple, Vendor};
use rcc::types::FunctionSpecifier;

fn target(os: OperatingSystem) -> TargetInfo {
    TargetInfo::new(Triple {
        architecture: Architecture::AArch64,
        vendor: Vendor::Unknown,
        operating_system: os,
        environment: Environment::Unknown,
        object_format: ObjectFormat::Unknown,
    })
}

#[test]
fn target_layouts_by_data_model() {
    let lp64 = target(OperatingSystem::Linux);
    assert_eq!(lp64.long.size.get(), 8);
    assert_eq!(lp64.long.alignment.power(), 3);
    assert_eq!(lp64.int.size.get(), 4);
    assert_eq!(lp64.pointer.size.get(), 8);
    assert_eq!(lp64.char_signess, Signedness::Unsigned);
    let llp64 = target(OperatingSystem::Windows);
    assert_eq!(llp64.long.size.get(), 4);
    assert_eq!(llp64.long.alignment.power(), 2);
    assert_eq!(llp64.long_double.size.get(), 8);
}

#[test]
fn usual_arithmetic_conversions() {
    let ti = target(OperatingSystem::Linux);
    assert_eq!(Primitive::common_type(Primitive::Int, Primitive::Int, &ti), (Primitive::Int, CastType::Noop, CastType::Noop));
    assert_eq!(
        Primitive::common_type(Primitive::Int, Primitive::Double, &ti),
        (Primitive::Double, CastType::IntegralToFloating, CastType::Noop)
    );
    assert_eq!(
        Primitive::common_type(Primitive::Float, Primitive::Double, &ti),
        (Primitive::Double, CastType::FloatingCast, CastType::Noop)
    );
    assert_eq!(
        Primitive::common_type(Primitive::Int, Primitive::Long, &ti),
        (Primitive::Long, CastType::IntegralCast, CastType::Noop)
    );
    assert_eq!(
        Primitive::common_type(Primitive::UInt, Primitive::Long, &ti),
        (Primitive::Long, CastType::IntegralCast, CastType::Noop)
    );
    // a signed and an unsigned type of one rank meet in the unsigned type
    assert_eq!(
        Primitive::common_type(Primitive::Int, Primitive::UInt, &ti),
        (Primitive::UInt, CastType::IntegralCast, CastType::Noop)
    );
    assert_eq!(
        Primitive::common_type(Primitive::UInt, Primitive::Int, &ti),
        (Primitive::UInt, CastType::Noop, CastType::IntegralCast)
    );
    // a signed type of higher rank but no wider: the unsigned type of its rank
    let win = target(OperatingSystem::Windows);
    assert_eq!(
        Primitive::common_type(Primitive::UInt, Primitive::Long, &win),
        (Primitive::ULong, CastType::IntegralCast, CastType::IntegralCast)
    );
    assert_eq!(
        Primitive::common_type(Primitive::LongLong, Primitive::ULong, &ti),
        (Primitive::ULongLong, CastType::IntegralCast, CastType::IntegralCast)
    );
    assert_eq!(
        Primitive::common_type(Primitive::Int, Primitive::ULongLong, &ti),
        (Primitive::ULongLong, CastType::IntegralCast, CastType::Noop)
    );
    // symmetric on promoted integers
    let (t1, l1, r1) = Primitive::common_type(Primitive::ULong, Primitive::LongLong, &ti);
    let (t2, l2, r2) = Primitive::common_type(Primitive::LongLong, Primitive::ULong, &ti);
    assert_eq!((t1, l1, r1), (t2, r2, l2));
}

#[test]
fn promotions() {
    assert_eq!(Primitive::Char.integer_promotion(), (Primitive::Int, CastType::IntegralCast));
    assert_eq!(Primitive::Bool.promote(), (Primitive::Int, CastType::IntegralCast));
    assert_eq!(Primitive::ULong.promote(), (Primitive::ULong, CastType::Noop));
    assert_eq!(Primitive::Float.floating_promotion(), (Primitive::Double, CastType::FloatingCast));
    assert_eq!(Primitive::Double.promote(), (Primitive::Double, CastType::Noop));
    assert_eq!(Primitive::Short.into_unsigned(), Primitive::UShort);
    let (p, _) = Primitive::UChar.integer_promotion();
    assert_eq!(p.integer_promotion(), (p, CastType::Noop));
}

#[test]
fn sizes_and_classification() {
    let ti = target(OperatingSystem::Linux);
    assert_eq!(Primitive::LongDouble.size(&ti).get(), 8);
    assert_eq!(Primitive::ComplexDouble.size(&ti).get(), 16);
    assert_eq!(Primitive::__IRBit.size_bits(&ti).get(), 1);
    assert_eq!(Primitive::Bool.size_bits(&ti).get(), 8);
    assert!(Primitive::Char.is_character_type());
    assert!(!Primitive::Short.is_character_type());
    assert!(Primitive::ComplexFloat.is_floating_point());
    assert_eq!(Primitive::Char.signedness(&ti), Some(Signedness::Unsigned));
    assert_eq!(Primitive::Void.signedness(&ti), None);
}

#[test]
fn constants() {
    assert!(Constant::Integral(Integral::from(0i32)).is_zero());
    assert!(Constant::Floating(FloatBits { format: FloatFormat::IEEE32, bits: 0x8000_0000 }).is_zero());
    assert!(!Constant::Floating(FloatBits { format: FloatFormat::IEEE32, bits: 1 }).is_zero());
    assert!(Constant::Nullptr.is_zero());
    assert!(Constant::Address(b"x".to_vec()).is_not_zero());
    assert!(Constant::String(vec![]).is_char_array());
    match Constant::String(vec![]).to_boolean() {
        Constant::Integral(b) => assert_eq!(b.bits(), 1),
        _ => panic!(),
    }
    match Constant::Integral(Integral::from(300i32)).to_integral(8, Signedness::Unsigned) {
        Constant::Integral(b) => {
            assert_eq!(b.bits(), 44);
            assert_eq!(b.width().get(), 8);
        },
        _ => panic!(),
    }
    match Constant::Integral(Integral::from(-1i32)).to_integral(64, Signedness::Unsigned) {
        Constant::Integral(b) => assert_eq!(b.bits(), u64::MAX as u128),
        _ => panic!(),
    }
    assert!(Constant::String(b"ab".to_vec()).same_as(&Constant::String(b"ab".to_vec())));
    assert!(!Constant::String(b"ab".to_vec()).same_as(&Constant::Address(b"ab".to_vec())));
}

#[test]
fn language_options() {
    let c17 = Options::new(Kind::from(C::C17));
    assert!(c17.lang().is_c_and(|c| c >= C::C11));
    assert!(!c17.lang().is_sysy_and(|_| true));
    let sysy = Options::new(Kind::SysY(SysY::SysY2026));
    assert!(sysy.lang().is_sysy_and(|s| s == SysY::SysY2026));
    assert!(!sysy.lang().is_c_and(|_| true));
}

#[test]
fn definitions() {
    assert!(!DeclarationData::Typedef(Typedef::new()).is_definition());
    assert!(DeclarationData::Function(FunctionDecl::new(FunctionSpecifier::empty(), vec![], true)).is_definition());
    assert!(!DeclarationData::Function(FunctionDecl::new_decl(FunctionSpecifier::empty(), vec![])).is_definition());
    assert!(!DeclarationData::Variable(VarDef::decl(Storage::Static)).is_definition());
}
