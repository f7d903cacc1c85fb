//! Constant folding of integer constant expressions.
//!
//! The folder evaluates an expression tree whose leaves are integral
//! constants, reporting what C asks a compiler to report on the way:
//! overflow in arithmetic, division by zero, and logical operators that were
//! probably meant to be bitwise. Operands of a binary operator must already
//! have been converted to a common type.
use crate::integral::{
    lemma_integral_ext, lemma_integral_fields_fit, lemma_integral_parts, lemma_make_integral, add_overflows, div_bits, is_i128_min_by_minus_one, make_integral, mul_overflows, rem_bits,
    sub_overflows, wraps, Integral, Signedness,
};
use crate::operator::Operator;
use crate::primitive::CastType;
use crate::size::{group_size, SizeBit};
use crate::target_info::TargetInfo;
use vstd::arithmetic::power2::pow2;
use std::ops::{BitAnd, BitOr, BitXor, Neg, Not};
use vstd::prelude::*;

verus! {

broadcast use group_size;

/// What the folder reports while folding.
#[derive(Debug, Clone, Copy, PartialEq, Eq, Structural)]
pub enum FoldDiag {
    /// Warning: the arithmetic operation overflowed its type.
    ArithmeticBinOpOverflow { lhs: Integral, rhs: Integral, op: Operator },
    /// Error: division or remainder by zero.
    DivideByZero,
    /// Warning: a logical operator on constants, with the bitwise operator
    /// that was perhaps meant.
    LogicalOpMisuse { op: Operator, suggestion: Operator },
    /// Warning: the left operand of a comma has no effect.
    LeftCommaNoEffect,
    /// Error: `sizeof` of an incomplete type.
    IncompleteType,
}

/// A variable named in a constant expression, with what the folder needs to
/// know of its declaration.
#[derive(Debug, Clone, Copy, PartialEq, Eq, Structural)]
pub struct VariableRef {
    /// The name designates a function, not an object.
    pub is_function: bool,
    /// The expression is a modifiable lvalue.
    pub modifiable_lvalue: bool,
    /// The variable is `volatile`.
    pub is_volatile: bool,
    /// The variable is a named constant (`constexpr`).
    pub is_named_constant: bool,
    /// The variable is `const`.
    pub is_const: bool,
    /// The value of its declaration's initializer, when that is a constant scalar.
    pub initializer: Option<Integral>,
}

/// An expression as the folder sees it.
#[derive(Debug)]
pub enum ConstExpr {
    /// The error expression.
    Empty,
    Constant(Integral),
    Unary(Operator, Box<ConstExpr>),
    Binary(Operator, Box<ConstExpr>, Box<ConstExpr>),
    Ternary(Box<ConstExpr>, Box<ConstExpr>, Box<ConstExpr>),
    Paren(Box<ConstExpr>),
    /// `sizeof expression`.
    SizeOfExpr(Box<ConstExpr>),
    /// `sizeof(type)`, with the type's size in bytes; zero for an incomplete type.
    SizeOfType(usize),
    Variable(VariableRef),
    /// An implicit conversion to a type of `target_width` bits.
    ImplicitCast(CastType, u8, Box<ConstExpr>),
    Call,
    ArraySubscript,
    CompoundAssign,
}

/// The operators the folder applies to one integral.
pub open spec fn is_integral_unary_op(op: Operator) -> bool {
    op == Operator::Plus || op == Operator::Minus || op == Operator::Not || op == Operator::Tilde
}

/// The operators the folder applies to two integrals.
pub open spec fn is_integral_binary_op(op: Operator) -> bool {
    match op {
        Operator::Plus | Operator::Minus | Operator::Star | Operator::Slash | Operator::Percent
        | Operator::LogicalAnd | Operator::LogicalOr | Operator::Ampersand | Operator::Pipe
        | Operator::Caret => true,
        _ => op.is_comparison(),
    }
}

/// The one-bit truth value.
pub open spec fn bool_integral(b: bool) -> Integral {
    make_integral(if b { 1 } else { 0 }, 1, Signedness::Unsigned)
}

/// The value of a unary operator applied to an integral.
pub open spec fn unary_value(op: Operator, v: Integral) -> Integral {
    match op {
        Operator::Plus => v,
        Operator::Minus => make_integral(wraps(-(v.raw() as int), v.bit_width()), v.bit_width(), v.sign()),
        Operator::Not => bool_integral(v.raw() == 0),
        _ => make_integral((pow2(v.bit_width()) - 1 - v.raw()) as nat, v.bit_width(), v.sign()),
    }
}

/// The value of a binary operator applied to two integrals of one type.
pub open spec fn binary_value(op: Operator, l: Integral, r: Integral) -> Integral {
    let w = l.bit_width();
    let s = l.sign();
    match op {
        Operator::Plus => make_integral(wraps((l.raw() + r.raw()) as int, w), w, s),
        Operator::Minus => make_integral(wraps(l.raw() - r.raw(), w), w, s),
        Operator::Star => make_integral(wraps((l.raw() * r.raw()) as int, w), w, s),
        Operator::Slash => if r.raw() == 0 {
            make_integral(0, w, s)
        } else {
            make_integral(div_bits(l.raw(), r.raw(), w, s), w, s)
        },
        Operator::Percent => if r.raw() == 0 {
            make_integral(0, w, s)
        } else {
            make_integral(rem_bits(l.raw(), r.raw(), w, s), w, s)
        },
        Operator::LogicalAnd => bool_integral(l.raw() != 0 && r.raw() != 0),
        Operator::LogicalOr => bool_integral(l.raw() != 0 || r.raw() != 0),
        Operator::Less => bool_integral(l.value() < r.value()),
        Operator::LessEqual => bool_integral(l.value() <= r.value()),
        Operator::Greater => bool_integral(l.value() > r.value()),
        Operator::GreaterEqual => bool_integral(l.value() >= r.value()),
        Operator::EqualEqual => bool_integral(l == r),
        Operator::NotEqual => bool_integral(l != r),
        Operator::Ampersand => make_integral(
            (((l.raw() as u128) & (r.raw() as u128)) as nat) % pow2(w),
            w,
            s,
        ),
        Operator::Pipe => make_integral(
            (((l.raw() as u128) | (r.raw() as u128)) as nat) % pow2(w),
            w,
            s,
        ),
        _ => make_integral(
            (((l.raw() as u128) ^ (r.raw() as u128)) as nat) % pow2(w),
            w,
            s,
        ),
    }
}

/// What folding a binary operator on two integrals reports.
pub open spec fn binary_diags(op: Operator, l: Integral, r: Integral) -> Seq<FoldDiag> {
    let w = l.bit_width();
    let s = l.sign();
    match op {
        Operator::Plus => if add_overflows(l.raw(), r.raw(), w, s) {
            seq![FoldDiag::ArithmeticBinOpOverflow { lhs: l, rhs: r, op }]
        } else {
            seq![]
        },
        Operator::Minus => if sub_overflows(l.raw(), r.raw(), w, s) {
            seq![FoldDiag::ArithmeticBinOpOverflow { lhs: l, rhs: r, op }]
        } else {
            seq![]
        },
        Operator::Star => if mul_overflows(l.raw(), r.raw(), w, s) {
            seq![FoldDiag::ArithmeticBinOpOverflow { lhs: l, rhs: r, op }]
        } else {
            seq![]
        },
        Operator::Slash | Operator::Percent => if r.raw() == 0 {
            seq![FoldDiag::DivideByZero]
        } else {
            seq![]
        },
        Operator::LogicalAnd => seq![
            FoldDiag::LogicalOpMisuse { op: Operator::LogicalAnd, suggestion: Operator::Ampersand },
        ],
        Operator::LogicalOr => seq![
            FoldDiag::LogicalOpMisuse { op: Operator::LogicalOr, suggestion: Operator::Pipe },
        ],
        _ => seq![],
    }
}

/// The integral operands a binary operator can be folded on: of one type for
/// arithmetic and comparison, of one width for the bitwise operators, and
/// not the one division whose quotient overflows 128 bits.
pub open spec fn binary_operands_ok(op: Operator, l: Integral, r: Integral) -> bool {
    &&& is_integral_binary_op(op)
    &&& (op == Operator::Ampersand || op == Operator::Pipe || op == Operator::Caret
        || op == Operator::LogicalAnd || op == Operator::LogicalOr || l.same_kind(r))
    &&& l.bit_width() == r.bit_width()
    &&& ((op == Operator::Slash || op == Operator::Percent) ==> !is_i128_min_by_minus_one(l, r))
}

impl Folder {
    /// Whether a variable's initializer may stand for it in a constant expression.
    pub open spec fn variable_foldable(self, v: VariableRef) -> bool {
        &&& !v.is_function
        &&& !v.modifiable_lvalue
        &&& !v.is_volatile
        &&& (v.is_named_constant || (v.is_const && self.relaxed_static_const_var))
    }

    /// The constant an expression folds to, if it folds.
    pub open spec fn fold_value(self, e: ConstExpr) -> Option<Integral>
        decreases e,
    {
        match e {
            ConstExpr::Empty => None,
            ConstExpr::Constant(c) => Some(c),
            ConstExpr::Unary(op, operand) => match self.fold_value(*operand) {
                Some(v) => Some(unary_value(op, v)),
                None => None,
            },
            ConstExpr::Binary(op, left, right) => {
                let fl = self.fold_value(*left);
                let fr = self.fold_value(*right);
                if fl is Some && fr is Some {
                    if op == Operator::Comma {
                        fr
                    } else {
                        Some(binary_value(op, fl->0, fr->0))
                    }
                } else if fl is Some && op == Operator::LogicalAnd && fl->0.raw() == 0 {
                    fl
                } else if fl is Some && op == Operator::LogicalOr && fl->0.raw() != 0 {
                    fl
                } else {
                    None
                }
            },
            ConstExpr::Ternary(c, t, f) => match self.fold_value(*c) {
                Some(v) => if v.raw() == 0 {
                    self.fold_value(*f)
                } else {
                    self.fold_value(*t)
                },
                None => None,
            },
            ConstExpr::Paren(inner) => self.fold_value(*inner),
            ConstExpr::SizeOfExpr(inner) => self.fold_value(*inner),
            ConstExpr::SizeOfType(size) => Some(
                make_integral((size as nat) % pow2(self.pointer_bits@), self.pointer_bits@, Signedness::Unsigned),
            ),
            ConstExpr::Variable(v) => if self.variable_foldable(v) {
                v.initializer
            } else {
                None
            },
            ConstExpr::ImplicitCast(cast, width, inner) => match self.fold_value(*inner) {
                Some(v) => match cast {
                    CastType::Noop | CastType::ToVoid | CastType::LValueToRValue | CastType::BitCast
                    | CastType::NullptrToPointer => Some(v),
                    CastType::IntegralCast => Some(
                        make_integral(wraps(v.value(), width as nat), width as nat, v.sign()),
                    ),
                    CastType::IntegralToBoolean => Some(bool_integral(v.raw() != 0)),
                    _ => None,
                },
                None => None,
            },
            _ => None,
        }
    }

    /// What folding an expression reports, in order.
    pub open spec fn fold_diags(self, e: ConstExpr) -> Seq<FoldDiag>
        decreases e,
    {
        match e {
            ConstExpr::Unary(op, operand) => self.fold_diags(*operand),
            ConstExpr::Binary(op, left, right) => {
                let fl = self.fold_value(*left);
                let fr = self.fold_value(*right);
                let children = self.fold_diags(*left) + self.fold_diags(*right);
                if fl is Some && fr is Some {
                    if op == Operator::Comma {
                        children.push(FoldDiag::LeftCommaNoEffect)
                    } else {
                        children + binary_diags(op, fl->0, fr->0)
                    }
                } else {
                    children
                }
            },
            ConstExpr::Ternary(c, t, f) => match self.fold_value(*c) {
                Some(v) => if v.raw() == 0 {
                    self.fold_diags(*c) + self.fold_diags(*f)
                } else {
                    self.fold_diags(*c) + self.fold_diags(*t)
                },
                None => self.fold_diags(*c),
            },
            ConstExpr::Paren(inner) => self.fold_diags(*inner),
            ConstExpr::SizeOfExpr(inner) => self.fold_diags(*inner),
            ConstExpr::SizeOfType(size) => if size == 0 {
                seq![FoldDiag::IncompleteType]
            } else {
                seq![]
            },
            ConstExpr::ImplicitCast(cast, width, inner) => self.fold_diags(*inner),
            _ => seq![],
        }
    }

    /// The expression can be folded without breaking an operator's contract:
    /// every operator the folder applies gets operands of the right shape.
    pub open spec fn foldable(self, e: ConstExpr) -> bool
        decreases e,
    {
        match e {
            ConstExpr::Unary(op, operand) => self.foldable(*operand) && (self.fold_value(*operand) is Some
                ==> is_integral_unary_op(op)),
            ConstExpr::Binary(op, left, right) => {
                &&& self.foldable(*left)
                &&& self.foldable(*right)
                &&& (self.fold_value(*left) is Some && self.fold_value(*right) is Some
                    && op != Operator::Comma) ==> binary_operands_ok(
                    op,
                    self.fold_value(*left)->0,
                    self.fold_value(*right)->0,
                )
            },
            ConstExpr::Ternary(c, t, f) => self.foldable(*c) && self.foldable(*t) && self.foldable(*f),
            ConstExpr::Paren(inner) => self.foldable(*inner),
            ConstExpr::SizeOfExpr(inner) => self.foldable(*inner),
            ConstExpr::ImplicitCast(cast, width, inner) => {
                &&& self.foldable(*inner)
                &&& cast != CastType::IntegralToPointer
                &&& cast != CastType::ArrayToPointerDecay
                &&& cast != CastType::FunctionToPointerDecay
                &&& (cast == CastType::IntegralCast ==> 1 <= width <= 128)
            },
            _ => true,
        }
    }
}

/// Logical operators short-circuit: `0 && x` folds to `0` even when `x`
/// does not fold, while `0 || x` folds only if `x` does.
pub proof fn law_logical_short_circuit(folder: Folder, zero: Integral, e: ConstExpr)
    requires
        zero.raw() == 0,
        folder.fold_value(e) is None,
    ensures
        folder.fold_value(
            ConstExpr::Binary(Operator::LogicalAnd, Box::new(ConstExpr::Constant(zero)), Box::new(e)),
        ) == Some(zero),
        folder.fold_value(
            ConstExpr::Binary(Operator::LogicalOr, Box::new(ConstExpr::Constant(zero)), Box::new(e)),
        ) is None,
{
    assert(folder.fold_value(ConstExpr::Constant(zero)) == Some(zero));
}

/// A comma expression folds to its right operand and reports that its left
/// operand has no effect.
pub proof fn law_comma_folds_to_right(folder: Folder, l: ConstExpr, r: ConstExpr)
    requires
        folder.fold_value(l) is Some,
        folder.fold_value(r) is Some,
    ensures
        folder.fold_value(ConstExpr::Binary(Operator::Comma, Box::new(l), Box::new(r))) == folder.fold_value(r),
        folder.fold_diags(ConstExpr::Binary(Operator::Comma, Box::new(l), Box::new(r))) == (folder.fold_diags(l)
            + folder.fold_diags(r)).push(FoldDiag::LeftCommaNoEffect),
{
}

/// Parentheses change nothing, and a constant folds to itself silently.
pub proof fn law_paren_and_constant(folder: Folder, e: ConstExpr, c: Integral)
    ensures
        folder.fold_value(ConstExpr::Paren(Box::new(e))) == folder.fold_value(e),
        folder.fold_diags(ConstExpr::Paren(Box::new(e))) == folder.fold_diags(e),
        folder.fold_value(ConstExpr::Constant(c)) == Some(c),
        folder.fold_diags(ConstExpr::Constant(c)) == Seq::<FoldDiag>::empty(),
{
}

/// The constant expression `l op r` on two constants.
pub open spec fn constant_binary(op: Operator, l: Integral, r: Integral) -> ConstExpr {
    ConstExpr::Binary(op, Box::new(ConstExpr::Constant(l)), Box::new(ConstExpr::Constant(r)))
}

/// A comparison of two integer constants of one type folds to the truth of
/// the comparison of their values, as a one-bit unsigned integral, and
/// reports nothing.
pub proof fn law_comparison_folds_to_truth(folder: Folder, l: Integral, r: Integral)
    requires
        l.same_kind(r),
    ensures
        folder.fold_value(constant_binary(Operator::Less, l, r)) == Some(bool_integral(l.value() < r.value())),
        folder.fold_value(constant_binary(Operator::LessEqual, l, r)) == Some(bool_integral(l.value() <= r.value())),
        folder.fold_value(constant_binary(Operator::Greater, l, r)) == Some(bool_integral(l.value() > r.value())),
        folder.fold_value(constant_binary(Operator::GreaterEqual, l, r)) == Some(bool_integral(l.value() >= r.value())),
        folder.fold_value(constant_binary(Operator::EqualEqual, l, r)) == Some(bool_integral(l.raw() == r.raw())),
        folder.fold_value(constant_binary(Operator::NotEqual, l, r)) == Some(bool_integral(l.raw() != r.raw())),
        folder.fold_diags(constant_binary(Operator::Less, l, r)).len() == 0,
        folder.fold_diags(constant_binary(Operator::LessEqual, l, r)).len() == 0,
        folder.fold_diags(constant_binary(Operator::Greater, l, r)).len() == 0,
        folder.fold_diags(constant_binary(Operator::GreaterEqual, l, r)).len() == 0,
        folder.fold_diags(constant_binary(Operator::EqualEqual, l, r)).len() == 0,
        folder.fold_diags(constant_binary(Operator::NotEqual, l, r)).len() == 0,
{
    assert(folder.fold_value(ConstExpr::Constant(l)) == Some(l));
    assert(folder.fold_value(ConstExpr::Constant(r)) == Some(r));
    assert(folder.fold_diags(ConstExpr::Constant(l)) == Seq::<FoldDiag>::empty());
    assert(folder.fold_diags(ConstExpr::Constant(r)) == Seq::<FoldDiag>::empty());
    lemma_integral_fields_fit(l);
    lemma_integral_fields_fit(r);
    if l.raw() == r.raw() {
        lemma_integral_ext(l, r);
    }
}

/// The strict and non-strict comparisons, their mirror images and their
/// negations agree: `l > r` folds as `r < l`, `l >= r` as `r <= l`; no
/// value is greater than itself, and `l >= r` holds exactly when `l < r`
/// does not.
pub proof fn law_comparisons_agree(folder: Folder, l: Integral, r: Integral)
    requires
        l.same_kind(r),
    ensures
        folder.fold_value(constant_binary(Operator::Greater, l, r)) == folder.fold_value(constant_binary(Operator::Less, r, l)),
        folder.fold_value(constant_binary(Operator::GreaterEqual, l, r)) == folder.fold_value(constant_binary(Operator::LessEqual, r, l)),
        folder.fold_value(constant_binary(Operator::Greater, l, l)) == Some(bool_integral(false)),
        folder.fold_value(constant_binary(Operator::Less, l, l)) == Some(bool_integral(false)),
        folder.fold_value(constant_binary(Operator::GreaterEqual, l, l)) == Some(bool_integral(true)),
        folder.fold_value(constant_binary(Operator::LessEqual, l, l)) == Some(bool_integral(true)),
        folder.fold_value(constant_binary(Operator::EqualEqual, l, l)) == Some(bool_integral(true)),
        folder.fold_value(constant_binary(Operator::NotEqual, l, l)) == Some(bool_integral(false)),
        (folder.fold_value(constant_binary(Operator::GreaterEqual, l, r))->0 == bool_integral(true))
            <==> (folder.fold_value(constant_binary(Operator::Less, l, r))->0 == bool_integral(false)),
{
    law_comparison_folds_to_truth(folder, l, r);
    law_comparison_folds_to_truth(folder, r, l);
    law_comparison_folds_to_truth(folder, l, l);
    lemma_bool_integral_injective();
}

/// The truth values are two distinct integrals.
proof fn lemma_bool_integral_injective()
    ensures
        bool_integral(true) != bool_integral(false),
{
    vstd::arithmetic::power2::lemma2_to64();
    lemma_make_integral(1, 1, Signedness::Unsigned);
    lemma_make_integral(0, 1, Signedness::Unsigned);
}

/// Division by zero is reported as an error and folds to zero.
pub proof fn law_divide_by_zero(l: Integral, r: Integral)
    requires
        r.raw() == 0,
    ensures
        binary_value(Operator::Slash, l, r) == make_integral(0, l.bit_width(), l.sign()),
        binary_diags(Operator::Slash, l, r) == seq![FoldDiag::DivideByZero],
        binary_value(Operator::Percent, l, r) == make_integral(0, l.bit_width(), l.sign()),
        binary_diags(Operator::Percent, l, r) == seq![FoldDiag::DivideByZero],
{
}

/// Folds constant expressions.
#[derive(Debug, Clone, Copy)]
pub struct Folder {
    /// Fold `static const` variables as named constants, as C23 `constexpr`
    /// would: `static const int len = 10; int arr[len];` declares a fixed-size array.
    pub relaxed_static_const_var: bool,
    /// The width of `size_t`, the type of `sizeof`.
    pub pointer_bits: SizeBit,
}

impl Folder {
    /// A folder for a target.
    pub fn new(target_info: &TargetInfo, relaxed_static_const_var: bool) -> (r: Self)
        requires
            target_info.wf(),
        ensures
            r.relaxed_static_const_var == relaxed_static_const_var,
            r.pointer_bits@ == target_info.pointer.size@ * 8,
    {
        Folder { relaxed_static_const_var, pointer_bits: target_info.pointer.size_bits() }
    }

    /// Folds `expression`, appending what it reports to `diags`.
    pub fn doit(&self, expression: &ConstExpr, diags: &mut Vec<FoldDiag>) -> (r: Option<Integral>)
        requires
            self.foldable(*expression),
            8 <= self.pointer_bits@ <= 64,
        ensures
            r == self.fold_value(*expression),
            final(diags)@ == old(diags)@ + self.fold_diags(*expression),
    {
        self.fold(expression, diags)
    }

    fn fold(&self, e: &ConstExpr, diags: &mut Vec<FoldDiag>) -> (r: Option<Integral>)
        requires
            self.foldable(*e),
            8 <= self.pointer_bits@ <= 64,
        ensures
            r == self.fold_value(*e),
            final(diags)@ == old(diags)@ + self.fold_diags(*e),
        decreases *e, 1nat,
    {
        match e {
            ConstExpr::Empty => None,
            ConstExpr::Constant(c) => Some(*c),
            ConstExpr::Unary(op, operand) => {
                let v = self.fold(operand, diags);
                match v {
                    Some(v) => Some(Self::integral_unary_op(*op, v)),
                    None => None,
                }
            },
            ConstExpr::Binary(..) => self.fold_binary(e, diags),
            ConstExpr::Ternary(c, t, f) => {
                let ghost before = diags@;
                let cv = self.fold(c, diags);
                match cv {
                    Some(v) => {
                        let r = if v.is_zero() {
                            self.fold(f, diags)
                        } else {
                            self.fold(t, diags)
                        };
                        assert(diags@ == before + self.fold_diags(*e));
                        r
                    },
                    None => None,
                }
            },
            ConstExpr::Paren(inner) => self.fold(inner, diags),
            ConstExpr::SizeOfExpr(inner) => self.fold(inner, diags),
            ConstExpr::SizeOfType(size) => {
                if *size == 0 {
                    diags.push(FoldDiag::IncompleteType);
                }
                let v = Integral::from_unsigned(*size as u128, self.pointer_bits);
                proof {
                    lemma_integral_parts(v);
                }
                Some(v)
            },
            ConstExpr::Variable(v) => {
                if v.is_function || v.modifiable_lvalue || v.is_volatile {
                    None
                } else if !v.is_named_constant && !(v.is_const && self.relaxed_static_const_var) {
                    None
                } else {
                    v.initializer
                }
            },
            ConstExpr::ImplicitCast(cast, width, inner) => {
                let v = self.fold(inner, diags);
                match v {
                    Some(v) => match cast {
                        CastType::Noop | CastType::ToVoid | CastType::LValueToRValue
                        | CastType::BitCast | CastType::NullptrToPointer => Some(v),
                        CastType::IntegralCast => {
                            let c = v.cast(SizeBit::new(*width as usize), v.signedness());
                            proof {
                                lemma_integral_parts(c);
                            }
                            Some(c)
                        },
                        CastType::IntegralToBoolean => {
                            let b = Integral::from_bool(!v.is_zero());
                            proof {
                                lemma_integral_parts(b);
                            }
                            Some(b)
                        },
                        _ => None,
                    },
                    None => None,
                }
            },
            ConstExpr::Call | ConstExpr::ArraySubscript | ConstExpr::CompoundAssign => None,
        }
    }

    fn fold_binary(&self, e: &ConstExpr, diags: &mut Vec<FoldDiag>) -> (r: Option<Integral>)
        requires
            e is Binary,
            self.foldable(*e),
            8 <= self.pointer_bits@ <= 64,
        ensures
            r == self.fold_value(*e),
            final(diags)@ == old(diags)@ + self.fold_diags(*e),
        decreases *e, 0nat,
    {
        let (op, left, right) = match e {
            ConstExpr::Binary(op, left, right) => (*op, &**left, &**right),
            _ => {
                return None;
            },
        };
        let ghost before = diags@;
        let fl = self.fold(left, diags);
        let fr = self.fold(right, diags);
        let ghost children = diags@;
        let ghost whole = *e;
        assert(children =~= before + (self.fold_diags(*left) + self.fold_diags(*right)));
        if fl.is_some() && fr.is_some() {
            let l = fl.unwrap();
            let r = fr.unwrap();
            if op == Operator::Comma {
                diags.push(FoldDiag::LeftCommaNoEffect);
                assert(diags@ =~= before + self.fold_diags(whole));
                Some(r)
            } else {
                let v = Self::integral_binary_op(op, l, r, diags);
                assert(diags@ =~= before + ((self.fold_diags(*left) + self.fold_diags(*right))
                    + binary_diags(op, l, r)));
                Some(v)
            }
        } else if fl.is_some() && op == Operator::LogicalAnd && fl.unwrap().is_zero() {
            fl
        } else if fl.is_some() && op == Operator::LogicalOr && !fl.unwrap().is_zero() {
            fl
        } else {
            None
        }
    }

    /// Applies a unary operator to an integral constant.
    fn integral_unary_op(op: Operator, operand: Integral) -> (r: Integral)
        requires
            is_integral_unary_op(op),
        ensures
            r == unary_value(op, operand),
    {
        match op {
            Operator::Plus => operand,
            Operator::Minus => operand.neg(),
            Operator::Not => {
                let r = Integral::from_bool(operand.is_zero());
                proof {
                    lemma_integral_parts(r);
                }
                r
            },
            _ => operand.not(),
        }
    }

    /// Applies a binary operator to two integral constants of one type,
    /// appending what it reports to `diags`.
    fn integral_binary_op(op: Operator, lhs: Integral, rhs: Integral, diags: &mut Vec<FoldDiag>) -> (r: Integral)
        requires
            binary_operands_ok(op, lhs, rhs),
        ensures
            r == binary_value(op, lhs, rhs),
            final(diags)@ == old(diags)@ + binary_diags(op, lhs, rhs),
    {
        let result = match op {
            Operator::Plus => {
                let (result, overflow) = lhs.overflowing_add(rhs);
                if overflow {
                    diags.push(FoldDiag::ArithmeticBinOpOverflow { lhs, rhs, op });
                }
                result
            },
            Operator::Minus => {
                let (result, overflow) = lhs.overflowing_sub(rhs);
                if overflow {
                    diags.push(FoldDiag::ArithmeticBinOpOverflow { lhs, rhs, op });
                }
                result
            },
            Operator::Star => {
                let (result, overflow) = lhs.overflowing_mul(rhs);
                if overflow {
                    diags.push(FoldDiag::ArithmeticBinOpOverflow { lhs, rhs, op });
                }
                result
            },
            Operator::Slash => match lhs.checked_div(rhs) {
                Some(q) => q,
                None => {
                    diags.push(FoldDiag::DivideByZero);
                    Integral::new(0, lhs.width(), lhs.signedness())
                },
            },
            Operator::Percent => match lhs.checked_rem(rhs) {
                Some(q) => q,
                None => {
                    diags.push(FoldDiag::DivideByZero);
                    Integral::new(0, lhs.width(), lhs.signedness())
                },
            },
            Operator::LogicalAnd => {
                diags.push(
                    FoldDiag::LogicalOpMisuse {
                        op: Operator::LogicalAnd,
                        suggestion: Operator::Ampersand,
                    },
                );
                Integral::from_bool(!lhs.is_zero() && !rhs.is_zero())
            },
            Operator::LogicalOr => {
                diags.push(
                    FoldDiag::LogicalOpMisuse { op: Operator::LogicalOr, suggestion: Operator::Pipe },
                );
                Integral::from_bool(!lhs.is_zero() || !rhs.is_zero())
            },
            Operator::Less => Integral::from_bool(lhs.lt(&rhs)),
            Operator::LessEqual => Integral::from_bool(lhs.le(&rhs)),
            Operator::Greater => Integral::from_bool(lhs.gt(&rhs)),
            Operator::GreaterEqual => Integral::from_bool(lhs.ge(&rhs)),
            Operator::EqualEqual => Integral::from_bool(lhs == rhs),
            Operator::NotEqual => Integral::from_bool(lhs != rhs),
            Operator::Ampersand => lhs.bitand(rhs),
            Operator::Pipe => lhs.bitor(rhs),
            _ => lhs.bitxor(rhs),
        };
        proof {
            lemma_integral_parts(result);
        }
        result
    }
}

} // verus!
