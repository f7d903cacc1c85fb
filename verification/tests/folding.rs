use rcc::folding::{ConstExpr, FoldDiag, Folder, VariableRef};
use rcc::integral::{Integral, Signedness};
use rcc::operator::Operator;
use rcc::primitive::CastType;
use rcc::target_info::TargetInfo;
use rcc::triple::{Architecture, Environment, ObjectFormat, OperatingSystem, Triple, Vendor};

fn linux() -> TargetInfo {
    TargetInfo::new(Triple {
        architecture: Architecture::x86_64,
        vendor: Vendor::Unknown,
        operating_system: OperatingSystem::Linux,
        environment: Environment::GNU,
        object_format: ObjectFormat::ELF,
    })
}

fn c(v: i32) -> Box<ConstExpr> {
    Box::new(ConstExpr::Constant(Integral::from(v)))
}

fn fold(e: &ConstExpr) -> (Option<Integral>, Vec<FoldDiag>) {
    let folder = Folder::new(&linux(), false);
    let mut diags = Vec::new();
    let r = folder.doit(e, &mut diags);
    (r, diags)
}

#[test]
fn folds_arithmetic() {
    let e = ConstExpr::Binary(Operator::Plus, c(2), Box::new(ConstExpr::Binary(Operator::Star, c(3), c(4))));
    let (r, d) = fold(&e);
    assert_eq!(r.unwrap().as_signed(), 14);
    assert!(d.is_empty());
}

#[test]
fn reports_overflow() {
    let e = ConstExpr::Binary(Operator::Plus, c(i32::MAX), c(1));
    let (r, d) = fold(&e);
    assert_eq!(r.unwrap().as_signed(), i32::MIN as i128);
    assert_eq!(
        d,
        vec![FoldDiag::ArithmeticBinOpOverflow {
            lhs: Integral::from(i32::MAX),
            rhs: Integral::from(1),
            op: Operator::Plus,
        }]
    );
}

#[test]
fn reports_division_by_zero() {
    let e = ConstExpr::Binary(Operator::Slash, c(7), c(0));
    let (r, d) = fold(&e);
    assert!(r.unwrap().is_zero());
    assert_eq!(d, vec![FoldDiag::DivideByZero]);
    let e = ConstExpr::Binary(Operator::Percent, c(7), c(0));
    let (_, d) = fold(&e);
    assert_eq!(d, vec![FoldDiag::DivideByZero]);
}

#[test]
fn logical_operators_warn_and_short_circuit() {
    let e = ConstExpr::Binary(Operator::LogicalAnd, c(2), c(3));
    let (r, d) = fold(&e);
    assert!(r.unwrap().is_one());
    assert_eq!(d, vec![FoldDiag::LogicalOpMisuse { op: Operator::LogicalAnd, suggestion: Operator::Ampersand }]);
    let e = ConstExpr::Binary(Operator::LogicalAnd, c(0), Box::new(ConstExpr::Call));
    let (r, d) = fold(&e);
    assert!(r.unwrap().is_zero());
    assert!(d.is_empty());
    let e = ConstExpr::Binary(Operator::LogicalOr, c(0), Box::new(ConstExpr::Call));
    assert!(fold(&e).0.is_none());
    let e = ConstExpr::Binary(Operator::LogicalOr, c(5), Box::new(ConstExpr::Call));
    assert_eq!(fold(&e).0.unwrap().as_signed(), 5);
}

#[test]
fn comparisons_fold_to_bool() {
    let e = ConstExpr::Binary(Operator::Less, c(-1), c(1));
    let (r, _) = fold(&e);
    assert_eq!(r.unwrap(), Integral::from(true));
    let e = ConstExpr::Binary(Operator::GreaterEqual, c(-1), c(1));
    assert_eq!(fold(&e).0.unwrap(), Integral::from(false));
    let e = ConstExpr::Binary(Operator::EqualEqual, c(4), c(4));
    assert_eq!(fold(&e).0.unwrap(), Integral::from(true));
    let e = ConstExpr::Binary(Operator::NotEqual, c(4), c(4));
    assert_eq!(fold(&e).0.unwrap(), Integral::from(false));
}

#[test]
fn comma_warns() {
    let e = ConstExpr::Binary(Operator::Comma, c(1), c(2));
    let (r, d) = fold(&e);
    assert_eq!(r.unwrap().as_signed(), 2);
    assert_eq!(d, vec![FoldDiag::LeftCommaNoEffect]);
}

#[test]
fn unary_and_ternary() {
    let e = ConstExpr::Unary(Operator::Minus, c(5));
    assert_eq!(fold(&e).0.unwrap().as_signed(), -5);
    let e = ConstExpr::Unary(Operator::Tilde, c(0));
    assert_eq!(fold(&e).0.unwrap().as_signed(), -1);
    let e = ConstExpr::Unary(Operator::Not, c(0));
    assert_eq!(fold(&e).0.unwrap(), Integral::from(true));
    let e = ConstExpr::Ternary(c(0), c(1), c(2));
    assert_eq!(fold(&e).0.unwrap().as_signed(), 2);
    let e = ConstExpr::Ternary(c(3), c(1), c(2));
    assert_eq!(fold(&e).0.unwrap().as_signed(), 1);
    let e = ConstExpr::Paren(c(9));
    assert_eq!(fold(&e).0.unwrap().as_signed(), 9);
}

#[test]
fn sizeof_and_casts() {
    let (r, d) = fold(&ConstExpr::SizeOfType(4));
    let v = r.unwrap();
    assert_eq!(v.bits(), 4);
    assert_eq!(v.width().get(), 64);
    assert!(v.is_unsigned());
    assert!(d.is_empty());
    let (r, d) = fold(&ConstExpr::SizeOfType(0));
    assert!(r.unwrap().is_zero());
    assert_eq!(d, vec![FoldDiag::IncompleteType]);
    let e = ConstExpr::ImplicitCast(CastType::IntegralCast, 8, c(300));
    let v = fold(&e).0.unwrap();
    assert_eq!(v.bits(), 44);
    assert_eq!(v.width().get(), 8);
    assert_eq!(v.signedness(), Signedness::Signed);
    let e = ConstExpr::ImplicitCast(CastType::IntegralToBoolean, 1, c(300));
    assert_eq!(fold(&e).0.unwrap(), Integral::from(true));
    let e = ConstExpr::ImplicitCast(CastType::IntegralToFloating, 64, c(1));
    assert!(fold(&e).0.is_none());
    let e = ConstExpr::ImplicitCast(CastType::LValueToRValue, 32, c(1));
    assert_eq!(fold(&e).0.unwrap().as_signed(), 1);
}

#[test]
fn variables_fold_only_when_constant() {
    let named = VariableRef {
        is_function: false,
        modifiable_lvalue: false,
        is_volatile: false,
        is_named_constant: true,
        is_const: true,
        initializer: Some(Integral::from(10)),
    };
    assert_eq!(fold(&ConstExpr::Variable(named)).0.unwrap().as_signed(), 10);
    let static_const = VariableRef { is_named_constant: false, ..named };
    assert!(fold(&ConstExpr::Variable(static_const)).0.is_none());
    let relaxed = Folder::new(&linux(), true);
    let mut d = Vec::new();
    assert_eq!(relaxed.doit(&ConstExpr::Variable(static_const), &mut d).unwrap().as_signed(), 10);
    let volatile = VariableRef { is_volatile: true, ..named };
    assert!(fold(&ConstExpr::Variable(volatile)).0.is_none());
    assert!(fold(&ConstExpr::Empty).0.is_none());
    assert!(fold(&ConstExpr::ArraySubscript).0.is_none());
    assert!(fold(&ConstExpr::CompoundAssign).0.is_none());
}
