//! IR types, and how C types are lowered to them.
use crate::primitive::{FloatFormat, Primitive};
use crate::target_info::TargetInfo;
use crate::types::{ArraySize, QualifiedType, Type};
use vstd::prelude::*;

verus! {

/// A type of the IR.
#[derive(Debug, PartialEq, Eq)]
pub enum IrType {
    Void,
    /// The type of a basic block.
    Label,
    Floating(FloatFormat),
    /// An opaque pointer.
    Pointer,
    /// An integer of the given number of bits.
    Integer(u8),
    /// An array of the given length.
    Array(Box<IrType>, usize),
    /// A function: its result, its parameters, and whether it is variadic.
    Function(Box<IrType>, Vec<IrType>, bool),
}

/// The C types the IR can express: no `long double`, no complex type, no
/// tagged type, and nothing still to be deduced.
pub open spec fn lowerable(t: Type) -> bool
    decreases t,
{
    match t {
        Type::Primitive(p) => match p {
            Primitive::LongDouble | Primitive::ComplexFloat | Primitive::ComplexDouble
            | Primitive::ComplexLongDouble | Primitive::__AutoType | Primitive::__IRBit => false,
            _ => true,
        },
        Type::Pointer(_) => true,
        Type::Array(e, _) => lowerable(e.unqualified_type),
        Type::FunctionProto(r, ps, _) => lowerable(r.unqualified_type) && forall|i: int|
            0 <= i < ps@.len() ==> lowerable(#[trigger] ps@[i].unqualified_type),
        _ => false,
    }
}

/// `it` is the IR type of the C type `t` on the target: `float` and `double`
/// become the IEEE formats, `void` stays, `nullptr_t` and pointers become the
/// opaque pointer, an integer type an integer of its bit size; an array keeps
/// its length (zero when it has none) and a function its shape.
pub open spec fn lowers_to(t: Type, it: IrType, ti: TargetInfo) -> bool
    decreases t,
{
    match t {
        Type::Primitive(p) => it == (match p {
            Primitive::Float => IrType::Floating(FloatFormat::IEEE32),
            Primitive::Double => IrType::Floating(FloatFormat::IEEE64),
            Primitive::Void => IrType::Void,
            Primitive::Nullptr => IrType::Pointer,
            _ => IrType::Integer((p.size_spec(&ti) * 8) as u8),
        }),
        Type::Pointer(_) => it == IrType::Pointer,
        Type::Array(e, size) => match it {
            IrType::Array(ie, len) => {
                &&& len == (match size {
                    ArraySize::Constant(c) => c,
                    _ => 0,
                })
                &&& lowers_to(e.unqualified_type, *ie, ti)
            },
            _ => false,
        },
        Type::FunctionProto(r, ps, variadic) => match it {
            IrType::Function(ir, ips, iv) => {
                &&& iv == variadic
                &&& lowers_to(r.unqualified_type, *ir, ti)
                &&& ips@.len() == ps@.len()
                &&& forall|i: int|
                    0 <= i < ps@.len() ==> lowers_to(
                        #[trigger] ps@[i].unqualified_type,
                        ips@[i],
                        ti,
                    )
            },
            _ => false,
        },
        _ => false,
    }
}

/// The IR type of a C type on a target; qualifiers do not matter.
pub fn ir_type(qualified_type: &QualifiedType, target_info: &TargetInfo) -> (r: IrType)
    requires
        lowerable(qualified_type.unqualified_type),
        target_info.wf(),
    ensures
        lowers_to(qualified_type.unqualified_type, r, *target_info),
    decreases qualified_type,
{
    match &qualified_type.unqualified_type {
        Type::Primitive(p) => match p {
            Primitive::Float => IrType::Floating(FloatFormat::IEEE32),
            Primitive::Double => IrType::Floating(FloatFormat::IEEE64),
            Primitive::Void => IrType::Void,
            Primitive::Nullptr => IrType::Pointer,
            _ => {
                let bits = p.size_bits(target_info).get();
                IrType::Integer(bits as u8)
            },
        },
        Type::Pointer(_) => IrType::Pointer,
        Type::Array(e, size) => {
            let element = ir_type(e, target_info);
            let len = match size {
                ArraySize::Constant(c) => *c,
                _ => 0,
            };
            IrType::Array(Box::new(element), len)
        },
        Type::FunctionProto(r, ps, variadic) => {
            let result = ir_type(r, target_info);
            let mut params: Vec<IrType> = Vec::new();
            let mut i: usize = 0;
            while i < ps.len()
                invariant
                    i <= ps@.len(),
                    params@.len() == i,
                    target_info.wf(),
                    lowerable(qualified_type.unqualified_type),
                    qualified_type.unqualified_type matches Type::FunctionProto(_, qs, _) && qs@
                        == ps@,
                    forall|j: int|
                        0 <= j < i ==> lowers_to(
                            #[trigger] ps@[j].unqualified_type,
                            params@[j],
                            *target_info,
                        ),
                decreases ps@.len() - i,
            {
                let p = ir_type(&ps[i], target_info);
                params.push(p);
                i = i + 1;
            }
            IrType::Function(Box::new(result), params, *variadic)
        },
        _ => IrType::Void,
    }
}

} // verus!
