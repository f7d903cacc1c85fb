use rcc::constant::Constant;
use rcc::integral::Integral;
use rcc::ir::context::{Context, Value, ValueData};
use rcc::ir::data_layout::{DataLayout, SymbolDecoration};
use rcc::ir::instruction::{Binary, BinaryOp, Instruction, Load, Memory, Store};
use rcc::ir::types::{ir_type, IrType};
use rcc::ir::value::ValueID;
use rcc::primitive::{FloatFormat, Primitive};
use rcc::target_info::TargetInfo;
use rcc::triple::{Architecture, Environment, ObjectFormat, OperatingSystem, Triple, Vendor};
use rcc::types::{ArraySize, QualifiedType, Qualifiers, Type};

fn linux_triple() -> Triple {
    Triple {
        architecture: Architecture::x86_64,
        vendor: Vendor::Unknown,
        operating_system: OperatingSystem::Linux,
        environment: Environment::GNU,
        object_format: ObjectFormat::ELF,
    }
}

fn windows_triple() -> Triple {
    Triple {
        architecture: Architecture::x86_64,
        vendor: Vendor::PC,
        operating_system: OperatingSystem::Windows,
        environment: Environment::MSVC,
        object_format: ObjectFormat::COFF,
    }
}

fn q(t: Type) -> QualifiedType {
    QualifiedType { qualifiers: Qualifiers::empty(), unqualified_type: t }
}

fn int_value(v: i32) -> Value {
    Value { ir_type: IrType::Integer(32), data: ValueData::Constant(Constant::Integral(Integral::from(v))) }
}

#[test]
fn use_lists_follow_insertions() {
    let mut ctx = Context::new();
    let a = ctx.insert(int_value(1));
    let b = ctx.insert(int_value(2));
    assert_ne!(a, b);
    assert!(!a.is_null() && !b.is_null());
    assert_eq!(ctx.get(a).ir_type, IrType::Integer(32));
    let add = ctx.insert(Value {
        ir_type: IrType::Integer(32),
        data: ValueData::Instruction(Instruction::Binary(Binary::new(BinaryOp::Add, a, b))),
    });
    let twice = ctx.insert(Value {
        ir_type: IrType::Integer(32),
        data: ValueData::Instruction(Instruction::Binary(Binary::new(BinaryOp::Mul, add, add))),
    });
    assert_eq!(ctx.num_values(), 4);
    assert_eq!(ctx.get_use_list(a).clone(), vec![add]);
    assert_eq!(ctx.get_use_list(b).clone(), vec![add]);
    assert_eq!(ctx.get_use_list(add).clone(), vec![twice, twice]);
    assert!(ctx.get_use_list(twice).is_empty());
}

#[test]
fn null_operands_are_not_recorded() {
    let mut ctx = Context::new();
    let slot = ctx.insert(Value { ir_type: IrType::Pointer, data: ValueData::Argument });
    let store = ctx.insert(Value {
        ir_type: IrType::Void,
        data: ValueData::Instruction(Instruction::Memory(Memory::Store(Store::new(slot, ValueID::null())))),
    });
    let load = ctx.insert(Value {
        ir_type: IrType::Integer(8),
        data: ValueData::Instruction(Instruction::Memory(Memory::Load(Load::new(slot)))),
    });
    assert_eq!(ctx.get_use_list(slot).clone(), vec![store, load]);
}

#[test]
fn constants_are_interned_once() {
    let mut ctx = Context::new();
    let one = ctx.intern_constant(Constant::Integral(Integral::from(1i32)), IrType::Integer(32));
    let two = ctx.intern_constant(Constant::Integral(Integral::from(2i32)), IrType::Integer(32));
    let again = ctx.intern_constant(Constant::Integral(Integral::from(1i32)), IrType::Integer(32));
    assert_eq!(one, again);
    assert_ne!(one, two);
    assert_eq!(ctx.num_values(), 2);
    let s1 = ctx.intern_constant(Constant::String(b"hi".to_vec()), IrType::Pointer);
    let s2 = ctx.intern_constant(Constant::String(b"hi".to_vec()), IrType::Pointer);
    assert_eq!(s1, s2);
    assert_eq!(ctx.get_by_constant_id(two), Some(&Constant::Integral(Integral::from(2i32))));
    let plain = ctx.insert(int_value(2));
    assert_eq!(ctx.get_by_constant_id(plain), None);
}

#[test]
fn lowers_c_types() {
    let ti = TargetInfo::new(linux_triple());
    assert_eq!(ir_type(&q(Type::Primitive(Primitive::Int)), &ti), IrType::Integer(32));
    assert_eq!(ir_type(&q(Type::Primitive(Primitive::Bool)), &ti), IrType::Integer(8));
    assert_eq!(ir_type(&q(Type::Primitive(Primitive::Long)), &ti), IrType::Integer(64));
    assert_eq!(ir_type(&q(Type::Primitive(Primitive::Float)), &ti), IrType::Floating(FloatFormat::IEEE32));
    assert_eq!(ir_type(&q(Type::Primitive(Primitive::Nullptr)), &ti), IrType::Pointer);
    let arr = q(Type::Array(Box::new(q(Type::Primitive(Primitive::Short))), ArraySize::Constant(3)));
    assert_eq!(ir_type(&arr, &ti), IrType::Array(Box::new(IrType::Integer(16)), 3));
    let open = q(Type::Array(Box::new(q(Type::Primitive(Primitive::Char))), ArraySize::Incomplete));
    assert_eq!(ir_type(&open, &ti), IrType::Array(Box::new(IrType::Integer(8)), 0));
    let f = q(Type::FunctionProto(
        Box::new(q(Type::Primitive(Primitive::Void))),
        vec![q(Type::Pointer(Box::new(q(Type::Primitive(Primitive::Char))))), q(Type::Primitive(Primitive::Double))],
        true,
    ));
    assert_eq!(
        ir_type(&f, &ti),
        IrType::Function(Box::new(IrType::Void), vec![IrType::Pointer, IrType::Floating(FloatFormat::IEEE64)], true)
    );
    let win = TargetInfo::new(windows_triple());
    assert_eq!(ir_type(&q(Type::Primitive(Primitive::Long)), &win), IrType::Integer(32));
    let ctx = Context::new();
    assert_eq!(ctx.ir_type(&q(Type::Primitive(Primitive::UShort)), &ti), IrType::Integer(16));
    assert_eq!(ctx.make_integer(1), IrType::Integer(1));
    assert_eq!(ctx.make_array(IrType::Pointer, 2), IrType::Array(Box::new(IrType::Pointer), 2));
    assert_eq!(ctx.label_type(), IrType::Label);
}

#[test]
fn data_layout_strings() {
    let linux = DataLayout::new(&linux_triple());
    assert_eq!(linux.to_string(), "e-m:e-p0:64:64-i64:64-f64:64-n8:16:32:64-S8");
    let windows = DataLayout::new(&windows_triple());
    assert_eq!(windows.to_string(), "e-m:w-p0:64:64-i64:64-f64:64-n8:16:32:64-S8");
    assert_eq!(linux.pointer_specs.to_string(), "64:64");
    assert_eq!(SymbolDecoration::Unknown.to_string(), "<didnt know the ABI>");
}

#[test]
fn triple_names() {
    assert_eq!(linux_triple().to_string(), "x86_64-unknown-linux-gnu");
    assert_eq!(windows_triple().to_string(), "x86_64-pc-windows-msvc");
    assert_eq!(Triple::unknown().to_string(), "unknown-unknown-unknown-unknown");
    assert_eq!(Architecture::parse("aarch64"), Some(Architecture::AArch64));
    assert_eq!(Architecture::parse("AArch64"), None);
    assert_eq!(ObjectFormat::parse("ELF"), Some(ObjectFormat::ELF));
    assert_eq!(Triple::host("x86_64", "linux"), linux_triple());
    assert_eq!(Triple::host("x86_64", "windows"), windows_triple());
    assert_eq!(Triple::host("riscv64gc", "macos").architecture, Architecture::RiscV64);
    assert_eq!(Triple::host("sparc", "macos"), Triple::unknown());
}

#[test]
fn integral_display() {
    assert_eq!(Integral::from(-42i32).to_string(), "-42");
    assert_eq!(Integral::from(255u8).to_string(), "255");
    assert_eq!(Integral::from(i128::MIN).to_string(), "-170141183460469231731687303715884105728");
    assert_eq!(Integral::from(u128::MAX).to_string(), "340282366920938463463374607431768211455");
    assert_eq!(Integral::from(0i8).to_string(), "0");
}

#[test]
fn triple_names_parse_back() {
    for a in [Architecture::Unknown, Architecture::RiscV64, Architecture::AArch64, Architecture::x86_64] {
        assert_eq!(Architecture::parse(a.name()), Some(a));
    }
    for o in [OperatingSystem::Unknown, OperatingSystem::Linux, OperatingSystem::Windows] {
        assert_eq!(OperatingSystem::parse(o.name()), Some(o));
    }
    for e in [Environment::Unknown, Environment::GNU, Environment::LLVM, Environment::MSVC] {
        assert_eq!(Environment::parse(e.name()), Some(e));
    }
    for f in [ObjectFormat::Unknown, ObjectFormat::ELF, ObjectFormat::COFF] {
        assert_eq!(ObjectFormat::parse(f.name()), Some(f));
    }
    assert_eq!(Vendor::parse(Vendor::PC.name()), Some(Vendor::PC));
}

#[test]
fn uses_of_interned_constants_are_not_recorded() {
    let mut ctx = Context::new();
    let x = ctx.insert(Value { ir_type: IrType::Integer(32), data: ValueData::Argument });
    let one = ctx.intern_constant(Constant::Integral(Integral::from(1i32)), IrType::Integer(32));
    let add = ctx.insert(Value {
        ir_type: IrType::Integer(32),
        data: ValueData::Instruction(Instruction::Binary(Binary::new(BinaryOp::Add, x, one))),
    });
    assert_eq!(ctx.get_use_list(x).clone(), vec![add]);
    assert!(ctx.get_use_list(add).is_empty());
}

#[test]
fn interned_constants_of_different_kinds_stay_apart() {
    let mut ctx = Context::new();
    let i = ctx.intern_constant(Constant::Integral(Integral::from(0i32)), IrType::Integer(32));
    let u = ctx.intern_constant(Constant::Integral(Integral::from(0u32)), IrType::Integer(32));
    let l = ctx.intern_constant(Constant::Integral(Integral::from(0i64)), IrType::Integer(64));
    let n = ctx.intern_constant(Constant::Nullptr, IrType::Pointer);
    let s = ctx.intern_constant(Constant::String(b"a".to_vec()), IrType::Pointer);
    let a = ctx.intern_constant(Constant::Address(b"a".to_vec()), IrType::Pointer);
    let handles = [i, u, l, n, s, a];
    for x in 0..handles.len() {
        for y in 0..handles.len() {
            assert_eq!(handles[x] == handles[y], x == y);
        }
    }
    assert_eq!(ctx.num_values(), 6);
    assert_eq!(ctx.get_by_constant_id(a), Some(&Constant::Address(b"a".to_vec())));
    assert_eq!(ctx.get(u).ir_type, IrType::Integer(32));
    assert_eq!(ctx.intern_constant(Constant::Address(b"a".to_vec()), IrType::Pointer), a);
    assert_eq!(ctx.num_values(), 6);
}
