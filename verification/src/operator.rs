//! C operators, as the constant folder and the IR builder see them.
use vstd::prelude::*;

verus! {

/// A C operator token.
#[derive(Debug, Clone, Copy, PartialEq, Eq, Structural, Hash)]
pub enum Operator {
    Plus,
    Minus,
    Star,
    Slash,
    Percent,
    Ampersand,
    Pipe,
    Caret,
    Tilde,
    Not,
    LeftShift,
    RightShift,
    LogicalAnd,
    LogicalOr,
    Less,
    LessEqual,
    Greater,
    GreaterEqual,
    EqualEqual,
    NotEqual,
    PlusPlus,
    MinusMinus,
    Assign,
    Comma,
}

impl Operator {
    /// The relational and equality operators.
    pub open spec fn is_comparison(self) -> bool {
        match self {
            Operator::Less | Operator::LessEqual | Operator::Greater | Operator::GreaterEqual
            | Operator::EqualEqual | Operator::NotEqual => true,
            _ => false,
        }
    }
}

} // verus!
