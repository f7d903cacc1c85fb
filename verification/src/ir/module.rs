//! A translation unit in the IR.
use crate::ir::data_layout::DataLayout;
use crate::ir::value::ValueID;
use crate::triple::Triple;
use vstd::prelude::*;

verus! {

/// The IR of one source file: its target, its data layout and its global
/// functions, variables and constants.
#[derive(Debug)]
pub struct Module {
    /// The source file, by its index in the source manager.
    pub file_index: usize,
    pub triple: Triple,
    pub data_layout: DataLayout,
    pub globals: Vec<ValueID>,
}

impl Module {
    /// A module with no global yet.
    pub fn new_empty(file_index: usize, triple: Triple, data_layout: DataLayout) -> (r: Self)
        ensures
            r.file_index == file_index,
            r.triple == triple,
            r.data_layout == data_layout,
            r.globals@.len() == 0,
    {
        Module { file_index, triple, data_layout, globals: Vec::new() }
    }
}

} // verus!
