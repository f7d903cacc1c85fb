//! IR instructions, in LLVM's categories. Each instruction records the
//! values it uses, its operands, in a fixed order.
use crate::integral::{Integral, Signedness};
use crate::ir::value::ValueID;
use crate::operator::Operator;
use vstd::array::array_as_slice;
use vstd::prelude::*;
use vstd::slice::slice_subrange;

verus! {

/// An instruction, or any IR entity that uses other values.
pub trait User {
    /// The values used, in operand order.
    spec fn uses(&self) -> Seq<ValueID>;

    /// The values used, in operand order.
    fn use_list(&self) -> (r: &[ValueID])
        ensures
            r@ == self.uses(),
    ;
}

/// An arithmetic or bitwise operation: `result = op lhs, rhs`. Both operands
/// have the same type.
#[derive(Debug, Clone, Copy, PartialEq, Eq)]
pub struct Binary {
    operator: BinaryOp,
    operands: [ValueID; 2],
}

impl Binary {
    /// It always has exactly two operands.
    pub proof fn lemma_operand_count(&self)
        ensures
            self.uses().len() == 2,
    {
    }

    pub fn new(operator: BinaryOp, left: ValueID, right: ValueID) -> (r: Self)
        ensures
            r.operator_spec() == operator,
            r.uses() == seq![left, right],
    {
        Binary { operator, operands: [left, right] }
    }

    pub closed spec fn operator_spec(&self) -> BinaryOp {
        self.operator
    }

    pub fn operator(&self) -> (r: BinaryOp)
        ensures
            r == self.operator_spec(),
    {
        self.operator
    }

    pub fn left(&self) -> (r: ValueID)
        ensures
            r == self.uses()[0],
    {
        self.operands[0]
    }

    pub fn right(&self) -> (r: ValueID)
        ensures
            r == self.uses()[1],
    {
        self.operands[1]
    }
}

impl User for Binary {
    closed spec fn uses(&self) -> Seq<ValueID> {
        self.operands@
    }

    fn use_list(&self) -> (r: &[ValueID]) {
        array_as_slice(&self.operands)
    }
}

/// Binary operations; integer arithmetic distinguishes signed and unsigned
/// division, remainder and right shift.
#[derive(Debug, Clone, Copy, PartialEq, Eq, Structural, Hash)]
pub enum BinaryOp {
    Add,
    FAdd,
    Sub,
    FSub,
    Mul,
    FMul,
    UDiv,
    SDiv,
    FDiv,
    URem,
    SRem,
    FRem,
    /// Bitwise and.
    And,
    /// Bitwise or.
    Or,
    /// Bitwise exclusive or.
    Xor,
    /// Shift left.
    Shl,
    /// Logical shift right, for unsigned integers.
    LShr,
    /// Arithmetic shift right, for signed integers.
    AShr,
}

/// The operators, with their operand kinds, that have a binary instruction.
pub open spec fn has_binary_op(operator: Operator, signedness: Signedness, is_floating: bool) -> bool {
    match operator {
        Operator::Plus | Operator::Minus | Operator::Star | Operator::Slash | Operator::Percent
        | Operator::Ampersand | Operator::Pipe => true,
        Operator::Caret | Operator::LeftShift | Operator::RightShift => !is_floating,
        _ => false,
    }
}

/// The binary instruction for a C operator on operands of the given kind.
pub open spec fn binary_op_for(operator: Operator, signedness: Signedness, is_floating: bool) -> BinaryOp {
    let signed = signedness == Signedness::Signed;
    match operator {
        Operator::Plus => if is_floating { BinaryOp::FAdd } else { BinaryOp::Add },
        Operator::Minus => if is_floating { BinaryOp::FSub } else { BinaryOp::Sub },
        Operator::Star => if is_floating { BinaryOp::FMul } else { BinaryOp::Mul },
        Operator::Slash => if is_floating {
            BinaryOp::FDiv
        } else if signed {
            BinaryOp::SDiv
        } else {
            BinaryOp::UDiv
        },
        Operator::Percent => if is_floating {
            BinaryOp::FRem
        } else if signed {
            BinaryOp::SRem
        } else {
            BinaryOp::URem
        },
        Operator::Ampersand => BinaryOp::And,
        Operator::Pipe => BinaryOp::Or,
        Operator::Caret => BinaryOp::Xor,
        Operator::LeftShift => BinaryOp::Shl,
        _ => if signed { BinaryOp::AShr } else { BinaryOp::LShr },
    }
}

impl BinaryOp {
    /// The binary instruction for a C operator; semantic analysis ensures the
    /// operator applies to its operands.
    pub fn from_op_and_sign(operator: Operator, signedness: Signedness, is_floating: bool) -> (r: BinaryOp)
        requires
            has_binary_op(operator, signedness, is_floating),
        ensures
            r == binary_op_for(operator, signedness, is_floating),
    {
        let signed = signedness.is_signed();
        match operator {
            Operator::Plus => if is_floating { BinaryOp::FAdd } else { BinaryOp::Add },
            Operator::Minus => if is_floating { BinaryOp::FSub } else { BinaryOp::Sub },
            Operator::Star => if is_floating { BinaryOp::FMul } else { BinaryOp::Mul },
            Operator::Slash => if is_floating {
                BinaryOp::FDiv
            } else if signed {
                BinaryOp::SDiv
            } else {
                BinaryOp::UDiv
            },
            Operator::Percent => if is_floating {
                BinaryOp::FRem
            } else if signed {
                BinaryOp::SRem
            } else {
                BinaryOp::URem
            },
            Operator::Ampersand => BinaryOp::And,
            Operator::Pipe => BinaryOp::Or,
            Operator::Caret => BinaryOp::Xor,
            Operator::LeftShift => BinaryOp::Shl,
            _ => if signed { BinaryOp::AShr } else { BinaryOp::LShr },
        }
    }
}

/// The instruction works on floating-point operands.
pub open spec fn is_floating_binary_op(b: BinaryOp) -> bool {
    b == BinaryOp::FAdd || b == BinaryOp::FSub || b == BinaryOp::FMul || b == BinaryOp::FDiv || b == BinaryOp::FRem
}

/// The instruction reads its integer operands as two's complement numbers.
pub open spec fn is_signed_binary_op(b: BinaryOp) -> bool {
    b == BinaryOp::SDiv || b == BinaryOp::SRem || b == BinaryOp::AShr
}

/// The instruction reads its integer operands as unsigned numbers.
pub open spec fn is_unsigned_binary_op(b: BinaryOp) -> bool {
    b == BinaryOp::UDiv || b == BinaryOp::URem || b == BinaryOp::LShr
}

/// The instruction chosen for an operator fits its operands: a floating
/// instruction exactly for floating operands, and where integer division,
/// remainder and right shift depend on the sign, the signed instruction
/// exactly for signed operands and the unsigned one exactly for unsigned.
pub proof fn law_binary_op_fits_operands(op: Operator, s: Signedness, f: bool)
    requires
        has_binary_op(op, s, f),
    ensures
        is_floating_binary_op(binary_op_for(op, s, f)) <==> (f && (op == Operator::Plus || op == Operator::Minus
            || op == Operator::Star || op == Operator::Slash || op == Operator::Percent)),
        !f && (op == Operator::Slash || op == Operator::Percent || op == Operator::RightShift) ==> {
            &&& (is_signed_binary_op(binary_op_for(op, s, f)) <==> s == Signedness::Signed)
            &&& (is_unsigned_binary_op(binary_op_for(op, s, f)) <==> s == Signedness::Unsigned)
        },
        !(op == Operator::Slash || op == Operator::Percent || op == Operator::RightShift) ==> {
            &&& !is_signed_binary_op(binary_op_for(op, s, f))
            &&& !is_unsigned_binary_op(binary_op_for(op, s, f))
        },
{
}

/// An integer comparison: `result = icmp predicate lhs, rhs`.
#[derive(Debug, Clone, Copy, PartialEq, Eq)]
pub struct ICmp {
    predicate: ICmpPredicate,
    operands: [ValueID; 2],
}

impl ICmp {
    /// It always has exactly two operands.
    pub proof fn lemma_operand_count(&self)
        ensures
            self.uses().len() == 2,
    {
    }

    pub fn new(predicate: ICmpPredicate, lhs: ValueID, rhs: ValueID) -> (r: Self)
        ensures
            r.predicate_spec() == predicate,
            r.uses() == seq![lhs, rhs],
    {
        ICmp { predicate, operands: [lhs, rhs] }
    }

    pub closed spec fn predicate_spec(&self) -> ICmpPredicate {
        self.predicate
    }

    pub fn predicate(&self) -> (r: ICmpPredicate)
        ensures
            r == self.predicate_spec(),
    {
        self.predicate
    }

    pub fn lhs(&self) -> (r: ValueID)
        ensures
            r == self.uses()[0],
    {
        self.operands[0]
    }

    pub fn rhs(&self) -> (r: ValueID)
        ensures
            r == self.uses()[1],
    {
        self.operands[1]
    }
}

impl User for ICmp {
    closed spec fn uses(&self) -> Seq<ValueID> {
        self.operands@
    }

    fn use_list(&self) -> (r: &[ValueID]) {
        array_as_slice(&self.operands)
    }
}

/// Integer comparison predicates; orderings come signed and unsigned.
#[derive(Debug, Clone, Copy, PartialEq, Eq, Structural, Hash)]
pub enum ICmpPredicate {
    Eq,
    Ne,
    Slt,
    Sle,
    Sgt,
    Sge,
    Ult,
    Ule,
    Ugt,
    Uge,
}

/// The integer comparison for a C relational or equality operator.
pub open spec fn icmp_predicate_for(operator: Operator, signedness: Signedness) -> ICmpPredicate {
    let signed = signedness == Signedness::Signed;
    match operator {
        Operator::Less => if signed { ICmpPredicate::Slt } else { ICmpPredicate::Ult },
        Operator::LessEqual => if signed { ICmpPredicate::Sle } else { ICmpPredicate::Ule },
        Operator::Greater => if signed { ICmpPredicate::Sgt } else { ICmpPredicate::Ugt },
        Operator::GreaterEqual => if signed { ICmpPredicate::Sge } else { ICmpPredicate::Uge },
        Operator::EqualEqual => ICmpPredicate::Eq,
        _ => ICmpPredicate::Ne,
    }
}

/// Whether an integer comparison holds of two operands' bit patterns, as
/// the IR defines it: `eq`/`ne` compare the bits, the `s` orderings read
/// them as two's complement numbers and the `u` orderings as unsigned ones.
pub open spec fn icmp_holds(p: ICmpPredicate, l: Integral, r: Integral) -> bool {
    match p {
        ICmpPredicate::Eq => l.raw() == r.raw(),
        ICmpPredicate::Ne => l.raw() != r.raw(),
        ICmpPredicate::Slt => l.signed_value() < r.signed_value(),
        ICmpPredicate::Sle => l.signed_value() <= r.signed_value(),
        ICmpPredicate::Sgt => l.signed_value() > r.signed_value(),
        ICmpPredicate::Sge => l.signed_value() >= r.signed_value(),
        ICmpPredicate::Ult => l.raw() < r.raw(),
        ICmpPredicate::Ule => l.raw() <= r.raw(),
        ICmpPredicate::Ugt => l.raw() > r.raw(),
        ICmpPredicate::Uge => l.raw() >= r.raw(),
    }
}

/// The comparison chosen for a C operator computes that operator: on two
/// operands of one type, the predicate picked by the operands' signedness
/// holds exactly when the C comparison of their values does.
pub proof fn law_icmp_predicate_computes_operator(op: Operator, l: Integral, r: Integral)
    requires
        op.is_comparison(),
        l.same_kind(r),
    ensures
        op == Operator::Less ==> (icmp_holds(icmp_predicate_for(op, l.sign()), l, r) <==> l.value() < r.value()),
        op == Operator::LessEqual ==> (icmp_holds(icmp_predicate_for(op, l.sign()), l, r) <==> l.value() <= r.value()),
        op == Operator::Greater ==> (icmp_holds(icmp_predicate_for(op, l.sign()), l, r) <==> l.value() > r.value()),
        op == Operator::GreaterEqual ==> (icmp_holds(icmp_predicate_for(op, l.sign()), l, r) <==> l.value() >= r.value()),
        op == Operator::EqualEqual ==> (icmp_holds(icmp_predicate_for(op, l.sign()), l, r) <==> l.raw() == r.raw()),
        op == Operator::NotEqual ==> (icmp_holds(icmp_predicate_for(op, l.sign()), l, r) <==> l.raw() != r.raw()),
{
}

/// Unsigned operands are compared as unsigned and signed ones as signed,
/// and `a > b` is `b < a`: the predicate for `>` (`>=`) is the one for `<`
/// (`<=`) with the operands swapped.
pub proof fn law_icmp_predicate_shape(op: Operator, s: Signedness)
    requires
        op.is_comparison(),
    ensures
        s == Signedness::Unsigned ==> icmp_predicate_for(op, s) != ICmpPredicate::Slt
            && icmp_predicate_for(op, s) != ICmpPredicate::Sle && icmp_predicate_for(op, s) != ICmpPredicate::Sgt
            && icmp_predicate_for(op, s) != ICmpPredicate::Sge,
        s == Signedness::Signed ==> icmp_predicate_for(op, s) != ICmpPredicate::Ult
            && icmp_predicate_for(op, s) != ICmpPredicate::Ule && icmp_predicate_for(op, s) != ICmpPredicate::Ugt
            && icmp_predicate_for(op, s) != ICmpPredicate::Uge,
        forall|l: Integral, r: Integral| #[trigger] icmp_holds(icmp_predicate_for(Operator::Greater, s), l, r)
            == icmp_holds(icmp_predicate_for(Operator::Less, s), r, l),
        forall|l: Integral, r: Integral| #[trigger] icmp_holds(icmp_predicate_for(Operator::GreaterEqual, s), l, r)
            == icmp_holds(icmp_predicate_for(Operator::LessEqual, s), r, l),
{
}

impl ICmpPredicate {
    /// The integer comparison for a C relational or equality operator.
    pub fn from_op_and_sign(operator: Operator, signedness: Signedness) -> (r: Self)
        requires
            operator.is_comparison(),
        ensures
            r == icmp_predicate_for(operator, signedness),
    {
        let signed = signedness.is_signed();
        match operator {
            Operator::Less => if signed { ICmpPredicate::Slt } else { ICmpPredicate::Ult },
            Operator::LessEqual => if signed { ICmpPredicate::Sle } else { ICmpPredicate::Ule },
            Operator::Greater => if signed { ICmpPredicate::Sgt } else { ICmpPredicate::Ugt },
            Operator::GreaterEqual => if signed { ICmpPredicate::Sge } else { ICmpPredicate::Uge },
            Operator::EqualEqual => ICmpPredicate::Eq,
            _ => ICmpPredicate::Ne,
        }
    }
}

/// A floating-point comparison: `result = fcmp predicate lhs, rhs`.
#[derive(Debug, Clone, Copy, PartialEq, Eq)]
pub struct FCmp {
    predicate: FCmpPredicate,
    operands: [ValueID; 2],
}

impl FCmp {
    /// It always has exactly two operands.
    pub proof fn lemma_operand_count(&self)
        ensures
            self.uses().len() == 2,
    {
    }

    pub fn new(predicate: FCmpPredicate, lhs: ValueID, rhs: ValueID) -> (r: Self)
        ensures
            r.predicate_spec() == predicate,
            r.uses() == seq![lhs, rhs],
    {
        FCmp { predicate, operands: [lhs, rhs] }
    }

    pub closed spec fn predicate_spec(&self) -> FCmpPredicate {
        self.predicate
    }

    pub fn predicate(&self) -> (r: FCmpPredicate)
        ensures
            r == self.predicate_spec(),
    {
        self.predicate
    }

    pub fn lhs(&self) -> (r: ValueID)
        ensures
            r == self.uses()[0],
    {
        self.operands[0]
    }

    pub fn rhs(&self) -> (r: ValueID)
        ensures
            r == self.uses()[1],
    {
        self.operands[1]
    }
}

impl User for FCmp {
    closed spec fn uses(&self) -> Seq<ValueID> {
        self.operands@
    }

    fn use_list(&self) -> (r: &[ValueID]) {
        array_as_slice(&self.operands)
    }
}

/// Floating-point comparison predicates: ordered ones are false when an
/// operand is NaN, unordered ones true.
#[derive(Debug, Clone, Copy, PartialEq, Eq, Structural, Hash)]
pub enum FCmpPredicate {
    Oeq,
    One,
    Olt,
    Ole,
    Ogt,
    Oge,
    Ueq,
    Une,
    Ult,
    Ule,
    Ugt,
    Uge,
}

/// The floating comparison for a C relational or equality operator: ordered,
/// except `!=`, which holds when either operand is NaN.
pub open spec fn fcmp_predicate_for(operator: Operator) -> FCmpPredicate {
    match operator {
        Operator::Less => FCmpPredicate::Olt,
        Operator::LessEqual => FCmpPredicate::Ole,
        Operator::Greater => FCmpPredicate::Ogt,
        Operator::GreaterEqual => FCmpPredicate::Oge,
        Operator::EqualEqual => FCmpPredicate::Oeq,
        _ => FCmpPredicate::Une,
    }
}

impl FCmpPredicate {
    /// The floating comparison for a C relational or equality operator.
    pub fn from_op(operator: Operator) -> (r: Self)
        requires
            operator.is_comparison(),
        ensures
            r == fcmp_predicate_for(operator),
    {
        match operator {
            Operator::Less => FCmpPredicate::Olt,
            Operator::LessEqual => FCmpPredicate::Ole,
            Operator::Greater => FCmpPredicate::Ogt,
            Operator::GreaterEqual => FCmpPredicate::Oge,
            Operator::EqualEqual => FCmpPredicate::Oeq,
            _ => FCmpPredicate::Une,
        }
    }
}

/// A comparison.
#[derive(Debug, Clone, Copy, PartialEq, Eq)]
pub enum Cmp {
    ICmp(ICmp),
    FCmp(FCmp),
}

impl User for Cmp {
    open spec fn uses(&self) -> Seq<ValueID> {
        match self {
            Cmp::ICmp(c) => c.uses(),
            Cmp::FCmp(c) => c.uses(),
        }
    }

    fn use_list(&self) -> (r: &[ValueID]) {
        match self {
            Cmp::ICmp(c) => c.use_list(),
            Cmp::FCmp(c) => c.use_list(),
        }
    }
}

/// Stores a value to an address: `*dest = data`. The destination has pointer type.
#[derive(Debug, Clone, Copy, PartialEq, Eq)]
pub struct Store {
    operands: [ValueID; 2],
}

impl Store {
    /// It always has exactly two operands.
    pub proof fn lemma_operand_count(&self)
        ensures
            self.uses().len() == 2,
    {
    }

    pub fn new(dest: ValueID, data: ValueID) -> (r: Self)
        ensures
            r.uses() == seq![dest, data],
    {
        Store { operands: [dest, data] }
    }

    /// The address stored to.
    pub fn dest(&self) -> (r: ValueID)
        ensures
            r == self.uses()[0],
    {
        self.operands[0]
    }

    /// The value stored.
    pub fn data(&self) -> (r: ValueID)
        ensures
            r == self.uses()[1],
    {
        self.operands[1]
    }
}

impl User for Store {
    closed spec fn uses(&self) -> Seq<ValueID> {
        self.operands@
    }

    fn use_list(&self) -> (r: &[ValueID]) {
        array_as_slice(&self.operands)
    }
}
/// Loads a value from an address: `result = *addr`.
#[derive(Debug, Clone, Copy, PartialEq, Eq)]
pub struct Load {
    operands: [ValueID; 1],
}

impl Load {
    /// It always has exactly one operand.
    pub proof fn lemma_operand_count(&self)
        ensures
            self.uses().len() == 1,
    {
    }

    pub fn new(addr: ValueID) -> (r: Self)
        ensures
            r.uses() == seq![addr],
    {
        Load { operands: [addr] }
    }

    /// The address loaded from.
    pub fn addr(&self) -> (r: ValueID)
        ensures
            r == self.uses()[0],
    {
        self.operands[0]
    }
}

impl User for Load {
    closed spec fn uses(&self) -> Seq<ValueID> {
        self.operands@
    }

    fn use_list(&self) -> (r: &[ValueID]) {
        array_as_slice(&self.operands)
    }
}
/// A stack allocation, for locals that must live in memory.
#[derive(Debug, Clone, Copy, PartialEq, Eq)]
pub struct Alloca;

impl Alloca {
    pub fn new() -> (r: Self)
        ensures
            r == Alloca,
    {
        Alloca
    }
}

impl User for Alloca {
    open spec fn uses(&self) -> Seq<ValueID> {
        seq![]
    }

    fn use_list(&self) -> (r: &[ValueID]) {
        let empty: &[ValueID] = &[];
        empty
    }
}

/// A memory operation. Its address operand has pointer type.
#[derive(Debug, Clone, Copy, PartialEq, Eq)]
pub enum Memory {
    Store(Store),
    Load(Load),
    Alloca(Alloca),
}

impl User for Memory {
    open spec fn uses(&self) -> Seq<ValueID> {
        match self {
            Memory::Store(m) => m.uses(),
            Memory::Load(m) => m.uses(),
            Memory::Alloca(m) => m.uses(),
        }
    }

    fn use_list(&self) -> (r: &[ValueID]) {
        match self {
            Memory::Store(m) => m.use_list(),
            Memory::Load(m) => m.use_list(),
            Memory::Alloca(m) => m.use_list(),
        }
    }
}

/// Integer truncation to a narrower type.
#[derive(Debug, Clone, Copy, PartialEq, Eq)]
pub struct Trunc {
    operands: [ValueID; 1],
}

impl Trunc {
    /// It always has exactly one operand.
    pub proof fn lemma_operand_count(&self)
        ensures
            self.uses().len() == 1,
    {
    }

    pub fn new(operand: ValueID) -> (r: Self)
        ensures
            r.uses() == seq![operand],
    {
        Trunc { operands: [operand] }
    }

    /// The value converted.
    pub fn operand(&self) -> (r: ValueID)
        ensures
            r == self.uses()[0],
    {
        self.operands[0]
    }
}

impl User for Trunc {
    closed spec fn uses(&self) -> Seq<ValueID> {
        self.operands@
    }

    fn use_list(&self) -> (r: &[ValueID]) {
        array_as_slice(&self.operands)
    }
}
/// Integer zero extension to a wider type.
#[derive(Debug, Clone, Copy, PartialEq, Eq)]
pub struct Zext {
    operands: [ValueID; 1],
}

impl Zext {
    /// It always has exactly one operand.
    pub proof fn lemma_operand_count(&self)
        ensures
            self.uses().len() == 1,
    {
    }

    pub fn new(operand: ValueID) -> (r: Self)
        ensures
            r.uses() == seq![operand],
    {
        Zext { operands: [operand] }
    }

    /// The value converted.
    pub fn operand(&self) -> (r: ValueID)
        ensures
            r == self.uses()[0],
    {
        self.operands[0]
    }
}

impl User for Zext {
    closed spec fn uses(&self) -> Seq<ValueID> {
        self.operands@
    }

    fn use_list(&self) -> (r: &[ValueID]) {
        array_as_slice(&self.operands)
    }
}
/// Integer sign extension to a wider type.
#[derive(Debug, Clone, Copy, PartialEq, Eq)]
pub struct Sext {
    operands: [ValueID; 1],
}

impl Sext {
    /// It always has exactly one operand.
    pub proof fn lemma_operand_count(&self)
        ensures
            self.uses().len() == 1,
    {
    }

    pub fn new(operand: ValueID) -> (r: Self)
        ensures
            r.uses() == seq![operand],
    {
        Sext { operands: [operand] }
    }

    /// The value converted.
    pub fn operand(&self) -> (r: ValueID)
        ensures
            r == self.uses()[0],
    {
        self.operands[0]
    }
}

impl User for Sext {
    closed spec fn uses(&self) -> Seq<ValueID> {
        self.operands@
    }

    fn use_list(&self) -> (r: &[ValueID]) {
        array_as_slice(&self.operands)
    }
}
/// Floating-point extension to a wider type.
#[derive(Debug, Clone, Copy, PartialEq, Eq)]
pub struct FPExt {
    operands: [ValueID; 1],
}

impl FPExt {
    /// It always has exactly one operand.
    pub proof fn lemma_operand_count(&self)
        ensures
            self.uses().len() == 1,
    {
    }

    pub fn new(operand: ValueID) -> (r: Self)
        ensures
            r.uses() == seq![operand],
    {
        FPExt { operands: [operand] }
    }

    /// The value converted.
    pub fn operand(&self) -> (r: ValueID)
        ensures
            r == self.uses()[0],
    {
        self.operands[0]
    }
}

impl User for FPExt {
    closed spec fn uses(&self) -> Seq<ValueID> {
        self.operands@
    }

    fn use_list(&self) -> (r: &[ValueID]) {
        array_as_slice(&self.operands)
    }
}
/// Floating-point truncation to a narrower type.
#[derive(Debug, Clone, Copy, PartialEq, Eq)]
pub struct FPTrunc {
    operands: [ValueID; 1],
}

impl FPTrunc {
    /// It always has exactly one operand.
    pub proof fn lemma_operand_count(&self)
        ensures
            self.uses().len() == 1,
    {
    }

    pub fn new(operand: ValueID) -> (r: Self)
        ensures
            r.uses() == seq![operand],
    {
        FPTrunc { operands: [operand] }
    }

    /// The value converted.
    pub fn operand(&self) -> (r: ValueID)
        ensures
            r == self.uses()[0],
    {
        self.operands[0]
    }
}

impl User for FPTrunc {
    closed spec fn uses(&self) -> Seq<ValueID> {
        self.operands@
    }

    fn use_list(&self) -> (r: &[ValueID]) {
        array_as_slice(&self.operands)
    }
}
/// Floating-point to unsigned integer.
#[derive(Debug, Clone, Copy, PartialEq, Eq)]
pub struct FPToUI {
    operands: [ValueID; 1],
}

impl FPToUI {
    /// It always has exactly one operand.
    pub proof fn lemma_operand_count(&self)
        ensures
            self.uses().len() == 1,
    {
    }

    pub fn new(operand: ValueID) -> (r: Self)
        ensures
            r.uses() == seq![operand],
    {
        FPToUI { operands: [operand] }
    }

    /// The value converted.
    pub fn operand(&self) -> (r: ValueID)
        ensures
            r == self.uses()[0],
    {
        self.operands[0]
    }
}

impl User for FPToUI {
    closed spec fn uses(&self) -> Seq<ValueID> {
        self.operands@
    }

    fn use_list(&self) -> (r: &[ValueID]) {
        array_as_slice(&self.operands)
    }
}
/// Floating-point to signed integer.
#[derive(Debug, Clone, Copy, PartialEq, Eq)]
pub struct FPToSI {
    operands: [ValueID; 1],
}

impl FPToSI {
    /// It always has exactly one operand.
    pub proof fn lemma_operand_count(&self)
        ensures
            self.uses().len() == 1,
    {
    }

    pub fn new(operand: ValueID) -> (r: Self)
        ensures
            r.uses() == seq![operand],
    {
        FPToSI { operands: [operand] }
    }

    /// The value converted.
    pub fn operand(&self) -> (r: ValueID)
        ensures
            r == self.uses()[0],
    {
        self.operands[0]
    }
}

impl User for FPToSI {
    closed spec fn uses(&self) -> Seq<ValueID> {
        self.operands@
    }

    fn use_list(&self) -> (r: &[ValueID]) {
        array_as_slice(&self.operands)
    }
}
/// Unsigned integer to floating-point.
#[derive(Debug, Clone, Copy, PartialEq, Eq)]
pub struct UIToFP {
    operands: [ValueID; 1],
}

impl UIToFP {
    /// It always has exactly one operand.
    pub proof fn lemma_operand_count(&self)
        ensures
            self.uses().len() == 1,
    {
    }

    pub fn new(operand: ValueID) -> (r: Self)
        ensures
            r.uses() == seq![operand],
    {
        UIToFP { operands: [operand] }
    }

    /// The value converted.
    pub fn operand(&self) -> (r: ValueID)
        ensures
            r == self.uses()[0],
    {
        self.operands[0]
    }
}

impl User for UIToFP {
    closed spec fn uses(&self) -> Seq<ValueID> {
        self.operands@
    }

    fn use_list(&self) -> (r: &[ValueID]) {
        array_as_slice(&self.operands)
    }
}
/// Signed integer to floating-point.
#[derive(Debug, Clone, Copy, PartialEq, Eq)]
pub struct SIToFP {
    operands: [ValueID; 1],
}

impl SIToFP {
    /// It always has exactly one operand.
    pub proof fn lemma_operand_count(&self)
        ensures
            self.uses().len() == 1,
    {
    }

    pub fn new(operand: ValueID) -> (r: Self)
        ensures
            r.uses() == seq![operand],
    {
        SIToFP { operands: [operand] }
    }

    /// The value converted.
    pub fn operand(&self) -> (r: ValueID)
        ensures
            r == self.uses()[0],
    {
        self.operands[0]
    }
}

impl User for SIToFP {
    closed spec fn uses(&self) -> Seq<ValueID> {
        self.operands@
    }

    fn use_list(&self) -> (r: &[ValueID]) {
        array_as_slice(&self.operands)
    }
}
/// Pointer to integer.
#[derive(Debug, Clone, Copy, PartialEq, Eq)]
pub struct PtrToInt {
    operands: [ValueID; 1],
}

impl PtrToInt {
    /// It always has exactly one operand.
    pub proof fn lemma_operand_count(&self)
        ensures
            self.uses().len() == 1,
    {
    }

    pub fn new(operand: ValueID) -> (r: Self)
        ensures
            r.uses() == seq![operand],
    {
        PtrToInt { operands: [operand] }
    }

    /// The value converted.
    pub fn operand(&self) -> (r: ValueID)
        ensures
            r == self.uses()[0],
    {
        self.operands[0]
    }
}

impl User for PtrToInt {
    closed spec fn uses(&self) -> Seq<ValueID> {
        self.operands@
    }

    fn use_list(&self) -> (r: &[ValueID]) {
        array_as_slice(&self.operands)
    }
}
/// Integer to pointer.
#[derive(Debug, Clone, Copy, PartialEq, Eq)]
pub struct IntToPtr {
    operands: [ValueID; 1],
}

impl IntToPtr {
    /// It always has exactly one operand.
    pub proof fn lemma_operand_count(&self)
        ensures
            self.uses().len() == 1,
    {
    }

    pub fn new(operand: ValueID) -> (r: Self)
        ensures
            r.uses() == seq![operand],
    {
        IntToPtr { operands: [operand] }
    }

    /// The value converted.
    pub fn operand(&self) -> (r: ValueID)
        ensures
            r == self.uses()[0],
    {
        self.operands[0]
    }
}

impl User for IntToPtr {
    closed spec fn uses(&self) -> Seq<ValueID> {
        self.operands@
    }

    fn use_list(&self) -> (r: &[ValueID]) {
        array_as_slice(&self.operands)
    }
}
/// Reinterprets the bits.
#[derive(Debug, Clone, Copy, PartialEq, Eq)]
pub struct BitCast {
    operands: [ValueID; 1],
}

impl BitCast {
    /// It always has exactly one operand.
    pub proof fn lemma_operand_count(&self)
        ensures
            self.uses().len() == 1,
    {
    }

    pub fn new(operand: ValueID) -> (r: Self)
        ensures
            r.uses() == seq![operand],
    {
        BitCast { operands: [operand] }
    }

    /// The value converted.
    pub fn operand(&self) -> (r: ValueID)
        ensures
            r == self.uses()[0],
    {
        self.operands[0]
    }
}

impl User for BitCast {
    closed spec fn uses(&self) -> Seq<ValueID> {
        self.operands@
    }

    fn use_list(&self) -> (r: &[ValueID]) {
        array_as_slice(&self.operands)
    }
}
/// A conversion.
#[derive(Debug, Clone, Copy, PartialEq, Eq)]
pub enum Cast {
    Trunc(Trunc),
    Zext(Zext),
    Sext(Sext),
    FPExt(FPExt),
    FPTrunc(FPTrunc),
    FPToUI(FPToUI),
    FPToSI(FPToSI),
    UIToFP(UIToFP),
    SIToFP(SIToFP),
    PtrToInt(PtrToInt),
    IntToPtr(IntToPtr),
    BitCast(BitCast),
}

impl User for Cast {
    open spec fn uses(&self) -> Seq<ValueID> {
        match self {
            Cast::Trunc(c) => c.uses(),
            Cast::Zext(c) => c.uses(),
            Cast::Sext(c) => c.uses(),
            Cast::FPExt(c) => c.uses(),
            Cast::FPTrunc(c) => c.uses(),
            Cast::FPToUI(c) => c.uses(),
            Cast::FPToSI(c) => c.uses(),
            Cast::UIToFP(c) => c.uses(),
            Cast::SIToFP(c) => c.uses(),
            Cast::PtrToInt(c) => c.uses(),
            Cast::IntToPtr(c) => c.uses(),
            Cast::BitCast(c) => c.uses(),
        }
    }

    fn use_list(&self) -> (r: &[ValueID]) {
        match self {
            Cast::Trunc(c) => c.use_list(),
            Cast::Zext(c) => c.use_list(),
            Cast::Sext(c) => c.use_list(),
            Cast::FPExt(c) => c.use_list(),
            Cast::FPTrunc(c) => c.use_list(),
            Cast::FPToUI(c) => c.use_list(),
            Cast::FPToSI(c) => c.use_list(),
            Cast::UIToFP(c) => c.use_list(),
            Cast::SIToFP(c) => c.use_list(),
            Cast::PtrToInt(c) => c.use_list(),
            Cast::IntToPtr(c) => c.use_list(),
            Cast::BitCast(c) => c.use_list(),
        }
    }
}

/// A unary operation: `result = op operand`.
#[derive(Debug, Clone, Copy, PartialEq, Eq)]
pub struct Unary {
    operator: UnaryOp,
    operands: [ValueID; 1],
}

/// Unary operations.
#[derive(Debug, Clone, Copy, PartialEq, Eq, Structural, Hash)]
pub enum UnaryOp {
    /// Floating-point negation.
    FNeg,
}

impl Unary {
    /// It always has exactly one operand.
    pub proof fn lemma_operand_count(&self)
        ensures
            self.uses().len() == 1,
    {
    }

    pub fn new(operator: UnaryOp, operand: ValueID) -> (r: Self)
        ensures
            r.operator_spec() == operator,
            r.uses() == seq![operand],
    {
        Unary { operator, operands: [operand] }
    }

    pub closed spec fn operator_spec(&self) -> UnaryOp {
        self.operator
    }

    pub fn operand(&self) -> (r: ValueID)
        ensures
            r == self.uses()[0],
    {
        self.operands[0]
    }

    pub fn operator(&self) -> (r: &UnaryOp)
        ensures
            *r == self.operator_spec(),
    {
        &self.operator
    }

    pub fn set_operand(&mut self, operand: ValueID)
        ensures
            final(self).uses() == seq![operand],
            final(self).operator_spec() == old(self).operator_spec(),
    {
        self.operands[0] = operand;
    }
}

impl User for Unary {
    closed spec fn uses(&self) -> Seq<ValueID> {
        self.operands@
    }

    fn use_list(&self) -> (r: &[ValueID]) {
        array_as_slice(&self.operands)
    }
}

/// A function call: `result = call callee(args...)`. The operands are the
/// callee followed by the arguments.
#[derive(Debug, Clone, PartialEq, Eq)]
pub struct Call {
    operands: Vec<ValueID>,
}

impl Call {
    /// A call from its operands: the callee, then the arguments.
    pub fn new(operands: Vec<ValueID>) -> (r: Self)
        ensures
            r.uses() == operands@,
    {
        Call { operands }
    }

    /// The function called; the operands must not be empty.
    pub fn callee(&self) -> (r: ValueID)
        requires
            self.uses().len() >= 1,
        ensures
            r == self.uses()[0],
    {
        self.operands[0]
    }

    /// The arguments, every operand after the callee.
    pub fn args(&self) -> (r: &[ValueID])
        requires
            self.uses().len() >= 1,
        ensures
            r@ == self.uses().subrange(1, self.uses().len() as int),
    {
        let all = self.operands.as_slice();
        slice_subrange(all, 1, all.len())
    }
}

impl User for Call {
    closed spec fn uses(&self) -> Seq<ValueID> {
        self.operands@
    }

    fn use_list(&self) -> (r: &[ValueID]) {
        self.operands.as_slice()
    }
}

/// `result = phi [value, block], ...`: the operands are (value, incoming
/// block) pairs, flattened.
#[derive(Debug, Clone, PartialEq, Eq)]
pub struct Phi {
    operands: Vec<ValueID>,
}

impl Phi {
    pub fn new(operands: Vec<ValueID>) -> (r: Self)
        ensures
            r.uses() == operands@,
    {
        Phi { operands }
    }

    /// The operands, flattened.
    pub fn flat_view(&self) -> (r: &[ValueID])
        ensures
            r@ == self.uses(),
    {
        self.operands.as_slice()
    }

    /// The (value, incoming block) pairs; an odd last operand belongs to no pair.
    pub fn incomings(&self) -> (r: Vec<(ValueID, ValueID)>)
        ensures
            r@.len() == self.uses().len() / 2,
            forall|i: int|
                0 <= i < r@.len() ==> #[trigger] r@[i] == (self.uses()[2 * i], self.uses()[2 * i + 1]),
    {
        let mut pairs: Vec<(ValueID, ValueID)> = Vec::new();
        let n = self.operands.len() / 2;
        let mut i: usize = 0;
        while i < n
            invariant
                n == self.uses().len() / 2,
                n * 2 <= self.operands.len(),
                i <= n,
                pairs@.len() == i,
                forall|k: int|
                    0 <= k < i ==> #[trigger] pairs@[k] == (self.uses()[2 * k], self.uses()[2 * k + 1]),
            decreases n - i,
        {
            pairs.push((self.operands[2 * i], self.operands[2 * i + 1]));
            i = i + 1;
        }
        pairs
    }
}

impl User for Phi {
    closed spec fn uses(&self) -> Seq<ValueID> {
        self.operands@
    }

    fn use_list(&self) -> (r: &[ValueID]) {
        self.operands.as_slice()
    }
}

/// `result = select condition, true_value, false_value`.
#[derive(Debug, Clone, Copy, PartialEq, Eq)]
pub struct Select {
    operands: [ValueID; 3],
}

impl Select {
    /// It always has exactly three operands.
    pub proof fn lemma_operand_count(&self)
        ensures
            self.uses().len() == 3,
    {
    }

    pub fn new(condition: ValueID, true_value: ValueID, false_value: ValueID) -> (r: Self)
        ensures
            r.uses() == seq![condition, true_value, false_value],
    {
        Select { operands: [condition, true_value, false_value] }
    }

    /// The boolean condition.
    pub fn condition(&self) -> (r: ValueID)
        ensures
            r == self.uses()[0],
    {
        self.operands[0]
    }

    /// The result when the condition holds.
    pub fn true_value(&self) -> (r: ValueID)
        ensures
            r == self.uses()[1],
    {
        self.operands[1]
    }

    /// The result otherwise.
    pub fn false_value(&self) -> (r: ValueID)
        ensures
            r == self.uses()[2],
    {
        self.operands[2]
    }
}

impl User for Select {
    closed spec fn uses(&self) -> Seq<ValueID> {
        self.operands@
    }

    fn use_list(&self) -> (r: &[ValueID]) {
        array_as_slice(&self.operands)
    }
}

/// Address computation: `result = getelementptr base, indices...`.
#[derive(Debug, Clone, PartialEq, Eq)]
pub struct GetElementPtr {
    operands: Vec<ValueID>,
}

impl GetElementPtr {
    /// From its operands: the base address, then the indices.
    pub fn new(operands: Vec<ValueID>) -> (r: Self)
        ensures
            r.uses() == operands@,
    {
        GetElementPtr { operands }
    }

    /// The base address; the operands must not be empty.
    pub fn base(&self) -> (r: ValueID)
        requires
            self.uses().len() >= 1,
        ensures
            r == self.uses()[0],
    {
        self.operands[0]
    }

    /// The indices, every operand after the base.
    pub fn indices(&self) -> (r: &[ValueID])
        requires
            self.uses().len() >= 1,
        ensures
            r@ == self.uses().subrange(1, self.uses().len() as int),
    {
        let all = self.operands.as_slice();
        slice_subrange(all, 1, all.len())
    }
}

impl User for GetElementPtr {
    closed spec fn uses(&self) -> Seq<ValueID> {
        self.operands@
    }

    fn use_list(&self) -> (r: &[ValueID]) {
        self.operands.as_slice()
    }
}

/// An unconditional jump to a basic block.
#[derive(Debug, Clone, Copy, PartialEq, Eq)]
pub struct Jump {
    operands: [ValueID; 1],
}

impl Jump {
    /// It always has exactly one operand.
    pub proof fn lemma_operand_count(&self)
        ensures
            self.uses().len() == 1,
    {
    }

    pub fn new(target: ValueID) -> (r: Self)
        ensures
            r.uses() == seq![target],
    {
        Jump { operands: [target] }
    }

    /// The block jumped to.
    pub fn target(&self) -> (r: ValueID)
        ensures
            r == self.uses()[0],
    {
        self.operands[0]
    }

    pub fn set_target(&mut self, target: ValueID)
        ensures
            final(self).uses() == seq![target],
    {
        self.operands[0] = target;
    }
}

impl User for Jump {
    closed spec fn uses(&self) -> Seq<ValueID> {
        self.operands@
    }

    fn use_list(&self) -> (r: &[ValueID]) {
        array_as_slice(&self.operands)
    }
}

/// A conditional branch: to `then_branch` if the `i1` condition holds, else to `else_branch`.
#[derive(Debug, Clone, Copy, PartialEq, Eq)]
pub struct Branch {
    operands: [ValueID; 3],
}

impl Branch {
    /// It always has exactly three operands.
    pub proof fn lemma_operand_count(&self)
        ensures
            self.uses().len() == 3,
    {
    }

    pub fn new(condition: ValueID, then_branch: ValueID, else_branch: ValueID) -> (r: Self)
        ensures
            r.uses() == seq![condition, then_branch, else_branch],
    {
        Branch { operands: [condition, then_branch, else_branch] }
    }

    /// The `i1` condition.
    pub fn condition(&self) -> (r: ValueID)
        ensures
            r == self.uses()[0],
    {
        self.operands[0]
    }

    /// The block taken when the condition holds.
    pub fn then_branch(&self) -> (r: ValueID)
        ensures
            r == self.uses()[1],
    {
        self.operands[1]
    }

    /// The block taken otherwise.
    pub fn else_branch(&self) -> (r: ValueID)
        ensures
            r == self.uses()[2],
    {
        self.operands[2]
    }

    pub fn set_condition(&mut self, condition: ValueID)
        ensures
            final(self).uses() == seq![condition, old(self).uses()[1], old(self).uses()[2]],
    {
        self.operands[0] = condition;
    }

    pub fn set_then_branch(&mut self, then_branch: ValueID)
        ensures
            final(self).uses() == seq![old(self).uses()[0], then_branch, old(self).uses()[2]],
    {
        self.operands[1] = then_branch;
    }

    pub fn set_else_branch(&mut self, else_branch: ValueID)
        ensures
            final(self).uses() == seq![old(self).uses()[0], old(self).uses()[1], else_branch],
    {
        self.operands[2] = else_branch;
    }
}

impl User for Branch {
    closed spec fn uses(&self) -> Seq<ValueID> {
        self.operands@
    }

    fn use_list(&self) -> (r: &[ValueID]) {
        array_as_slice(&self.operands)
    }
}

/// Returns from the function, with a value unless the function returns
/// `void`. A void return holds the null handle as its operand.
#[derive(Debug, Clone, Copy, PartialEq, Eq)]
pub struct Return {
    operands: [ValueID; 1],
}

/// The operand that stands for an optional returned value.
pub open spec fn return_operand(result: Option<ValueID>) -> u64 {
    match result {
        Some(v) => v.id(),
        None => ValueID::null_id(),
    }
}

impl Return {
    /// The returned value, if any: none when the operand is the null handle.
    pub open spec fn result_spec(&self) -> Option<ValueID> {
        if self.operand_spec().id() == ValueID::null_id() {
            None
        } else {
            Some(self.operand_spec())
        }
    }

    pub closed spec fn operand_spec(&self) -> ValueID {
        self.operands[0]
    }

    pub fn new(result: Option<ValueID>) -> (r: Self)
        ensures
            r.operand_spec().id() == return_operand(result),
            result matches Some(v) ==> r.operand_spec() == v,
    {
        let operand = match result {
            Some(v) => v,
            None => ValueID::null(),
        };
        Return { operands: [operand] }
    }

    pub fn result(&self) -> (r: Option<ValueID>)
        ensures
            r == self.result_spec(),
    {
        if self.operands[0].is_null() {
            None
        } else {
            Some(self.operands[0])
        }
    }

    pub fn set_result(&mut self, result: Option<ValueID>)
        ensures
            final(self).operand_spec().id() == return_operand(result),
            result matches Some(v) ==> final(self).operand_spec() == v,
    {
        let operand = match result {
            Some(v) => v,
            None => ValueID::null(),
        };
        self.operands[0] = operand;
    }
}

impl User for Return {
    /// The returned value; a void return uses nothing.
    closed spec fn uses(&self) -> Seq<ValueID> {
        if self.operands[0].id() == ValueID::null_id() {
            seq![]
        } else {
            self.operands@
        }
    }

    fn use_list(&self) -> (r: &[ValueID]) {
        if self.operands[0].is_null() {
            let empty: &[ValueID] = &[];
            empty
        } else {
            array_as_slice(&self.operands)
        }
    }
}

/// Marks a point control never reaches.
#[derive(Debug, Clone, Copy, PartialEq, Eq)]
pub struct Unreachable;

impl Unreachable {
    pub fn new() -> (r: Self)
        ensures
            r == Unreachable,
    {
        Unreachable
    }
}

impl User for Unreachable {
    open spec fn uses(&self) -> Seq<ValueID> {
        seq![]
    }

    fn use_list(&self) -> (r: &[ValueID]) {
        let empty: &[ValueID] = &[];
        empty
    }
}

/// The instruction that ends a basic block.
#[derive(Debug, Clone, Copy, PartialEq, Eq)]
pub enum Terminator {
    Jump(Jump),
    Branch(Branch),
    Return(Return),
    Unreachable(Unreachable),
}

impl User for Terminator {
    open spec fn uses(&self) -> Seq<ValueID> {
        match self {
            Terminator::Jump(t) => t.uses(),
            Terminator::Branch(t) => t.uses(),
            Terminator::Return(t) => t.uses(),
            Terminator::Unreachable(t) => t.uses(),
        }
    }

    fn use_list(&self) -> (r: &[ValueID]) {
        match self {
            Terminator::Jump(t) => t.use_list(),
            Terminator::Branch(t) => t.use_list(),
            Terminator::Return(t) => t.use_list(),
            Terminator::Unreachable(t) => t.use_list(),
        }
    }
}

/// An instruction, in LLVM's categories.
#[derive(Debug, Clone, PartialEq, Eq)]
pub enum Instruction {
    Terminator(Terminator),
    Unary(Unary),
    Binary(Binary),
    Memory(Memory),
    Cast(Cast),
    Call(Call),
    Cmp(Cmp),
    Phi(Phi),
    Select(Select),
    GetElementPtr(GetElementPtr),
}

impl User for Instruction {
    open spec fn uses(&self) -> Seq<ValueID> {
        match self {
            Instruction::Terminator(i) => i.uses(),
            Instruction::Unary(i) => i.uses(),
            Instruction::Binary(i) => i.uses(),
            Instruction::Memory(i) => i.uses(),
            Instruction::Cast(i) => i.uses(),
            Instruction::Call(i) => i.uses(),
            Instruction::Cmp(i) => i.uses(),
            Instruction::Phi(i) => i.uses(),
            Instruction::Select(i) => i.uses(),
            Instruction::GetElementPtr(i) => i.uses(),
        }
    }

    fn use_list(&self) -> (r: &[ValueID]) {
        match self {
            Instruction::Terminator(i) => i.use_list(),
            Instruction::Unary(i) => i.use_list(),
            Instruction::Binary(i) => i.use_list(),
            Instruction::Memory(i) => i.use_list(),
            Instruction::Cast(i) => i.use_list(),
            Instruction::Call(i) => i.use_list(),
            Instruction::Cmp(i) => i.use_list(),
            Instruction::Phi(i) => i.use_list(),
            Instruction::Select(i) => i.use_list(),
            Instruction::GetElementPtr(i) => i.use_list(),
        }
    }
}

} // verus!
