//! Verified core of a small C compiler: width-aware integers, units of
//! measurement, the C primitive type system, target descriptions, IR
//! instruction shapes, redeclaration chains and constant folding.
pub mod bits;
pub mod text;
pub mod size;
pub mod alignment;
pub mod integral;
pub mod integral_order;
pub mod triple;
pub mod target_info;
pub mod primitive;
pub mod operator;
pub mod folding;
pub mod storage;
pub mod constant;
pub mod number;
pub mod ir;
pub mod redeclarable;
pub mod registry;
pub mod declref;
pub mod initialization;
pub mod types;
pub mod type_fmt;
pub mod langopts;
pub mod declaration;
