use rcc::integral::Signedness;
use rcc::ir::instruction::{
    Binary, BinaryOp, Branch, Call, FCmpPredicate, ICmp, ICmpPredicate, Instruction, Jump, Phi, Select, User,
};
use rcc::ir::value::ValueID;
use rcc::operator::Operator;

fn v(n: u64) -> ValueID {
    ValueID::new(n)
}

#[test]
fn binary_ops_follow_operator_and_sign() {
    assert_eq!(BinaryOp::from_op_and_sign(Operator::Plus, Signedness::Signed, false), BinaryOp::Add);
    assert_eq!(BinaryOp::from_op_and_sign(Operator::Plus, Signedness::Signed, true), BinaryOp::FAdd);
    assert_eq!(BinaryOp::from_op_and_sign(Operator::Slash, Signedness::Signed, false), BinaryOp::SDiv);
    assert_eq!(BinaryOp::from_op_and_sign(Operator::Slash, Signedness::Unsigned, false), BinaryOp::UDiv);
    assert_eq!(BinaryOp::from_op_and_sign(Operator::Percent, Signedness::Unsigned, false), BinaryOp::URem);
    assert_eq!(BinaryOp::from_op_and_sign(Operator::RightShift, Signedness::Signed, false), BinaryOp::AShr);
    assert_eq!(BinaryOp::from_op_and_sign(Operator::RightShift, Signedness::Unsigned, false), BinaryOp::LShr);
    assert_eq!(BinaryOp::from_op_and_sign(Operator::Caret, Signedness::Unsigned, false), BinaryOp::Xor);
}

#[test]
fn comparisons_follow_operator_and_sign() {
    assert_eq!(ICmpPredicate::from_op_and_sign(Operator::Less, Signedness::Signed), ICmpPredicate::Slt);
    assert_eq!(ICmpPredicate::from_op_and_sign(Operator::Less, Signedness::Unsigned), ICmpPredicate::Ult);
    assert_eq!(ICmpPredicate::from_op_and_sign(Operator::EqualEqual, Signedness::Unsigned), ICmpPredicate::Eq);
    assert_eq!(ICmpPredicate::from_op_and_sign(Operator::NotEqual, Signedness::Signed), ICmpPredicate::Ne);
    assert_eq!(FCmpPredicate::from_op(Operator::GreaterEqual), FCmpPredicate::Oge);
    assert_eq!(FCmpPredicate::from_op(Operator::NotEqual), FCmpPredicate::Une);
}

#[test]
fn instructions_list_their_operands() {
    let b = Binary::new(BinaryOp::Sub, v(1), v(2));
    assert_eq!(b.use_list(), &[v(1), v(2)]);
    assert_eq!(b.left(), v(1));
    assert_eq!(b.right(), v(2));
    let c = ICmp::new(ICmpPredicate::Sge, v(3), v(4));
    assert_eq!(c.predicate(), ICmpPredicate::Sge);
    assert_eq!(c.use_list(), &[v(3), v(4)]);
    let s = Select::new(v(5), v(6), v(7));
    assert_eq!(s.use_list(), &[v(5), v(6), v(7)]);
    let call = Call::new(vec![v(9), v(1), v(2)]);
    assert_eq!(call.callee(), v(9));
    assert_eq!(call.args(), &[v(1), v(2)]);
    let phi = Phi::new(vec![v(1), v(10), v(2), v(11)]);
    assert_eq!(phi.incomings(), vec![(v(1), v(10)), (v(2), v(11))]);
    let i = Instruction::Binary(b);
    assert_eq!(i.use_list(), &[v(1), v(2)]);
}

#[test]
fn terminators_can_be_retargeted() {
    let mut j = Jump::new(v(1));
    j.set_target(v(2));
    assert_eq!(j.target(), v(2));
    let mut br = Branch::new(v(3), v(4), v(5));
    br.set_else_branch(v(6));
    assert_eq!(br.condition(), v(3));
    assert_eq!(br.then_branch(), v(4));
    assert_eq!(br.else_branch(), v(6));
    br.set_condition(v(7));
    assert_eq!(br.use_list(), &[v(7), v(4), v(6)]);
    br.set_then_branch(v(8));
    assert_eq!(br.use_list(), &[v(7), v(8), v(6)]);
    assert_eq!(j.use_list(), &[v(2)]);
}

#[test]
fn null_handle() {
    assert!(ValueID::null().is_null());
    assert!(!v(0).is_null());
}
