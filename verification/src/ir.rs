//! The intermediate representation: values are referred to by [`ValueID`],
//! and instructions record the values they use.
pub mod value;
pub mod instruction;
pub mod global;
pub mod data_layout;
pub mod types;
pub mod context;
pub mod slots;
pub mod module;
