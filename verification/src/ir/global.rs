//! Global values of a module: functions and global variables, and the
//! basic blocks of function bodies.
use crate::constant::Constant;
use crate::ir::value::ValueID;
use vstd::prelude::*;

verus! {

/// The linkage of a global value.
#[derive(Debug, Clone, Copy, PartialEq, Eq, Structural, Hash)]
pub enum Linkage {
    /// Visible to other translation units (`extern`).
    External,
    /// Not visible to other translation units (`static`).
    Internal,
    /// Anonymous data such as string literals; also `static`.
    Private,
}

/// A static initializer of a global variable.
#[derive(Debug)]
pub enum Initializer {
    /// All bits zero.
    Zeroed,
    Scalar(Constant),
    Aggregate(Vec<Initializer>),
}

/// A function of the module.
#[derive(Debug, Clone, PartialEq, Eq)]
pub struct Function {
    pub name: String,
    pub linkage: Linkage,
    /// The parameters, as argument values.
    pub params: Vec<ValueID>,
    /// The basic blocks of the body, the entry block first.
    pub blocks: Vec<ValueID>,
    pub is_variadic: bool,
}

impl Function {
    /// A function with no body yet.
    pub fn new_empty(name: String, linkage: Linkage, params: Vec<ValueID>, is_variadic: bool) -> (r: Self)
        ensures
            r.name@ == name@,
            r.linkage == linkage,
            r.params@ == params@,
            r.blocks@.len() == 0,
            r.is_variadic == is_variadic,
    {
        Function { name, linkage, params, blocks: Vec::new(), is_variadic }
    }

    /// A function with a body is a definition.
    pub fn is_definition(&self) -> (r: bool)
        ensures
            r == (self.blocks@.len() > 0),
    {
        self.blocks.len() > 0
    }

    /// The entry block, or the null handle for a declaration.
    pub fn entry(&self) -> (r: ValueID)
        ensures
            self.blocks@.len() > 0 ==> r == self.blocks@[0],
            self.blocks@.len() == 0 ==> r.id() == ValueID::null_id(),
    {
        if self.blocks.len() > 0 {
            self.blocks[0]
        } else {
            ValueID::null()
        }
    }
}

/// A global variable.
#[derive(Debug)]
pub struct Variable {
    pub name: String,
    pub linkage: Linkage,
    pub initializer: Option<Initializer>,
}

impl Variable {
    pub fn new(name: String, linkage: Linkage, initializer: Option<Initializer>) -> (r: Self)
        ensures
            r.name@ == name@,
            r.linkage == linkage,
            r.initializer == initializer,
    {
        Variable { name, linkage, initializer }
    }

    /// A variable with an initializer is a definition.
    pub fn is_definition(&self) -> (r: bool)
        ensures
            r == (self.initializer is Some),
    {
        self.initializer.is_some()
    }
}

/// A global value.
#[derive(Debug)]
pub enum Global {
    Function(Function),
    Variable(Variable),
}

impl Global {
    /// The name of the global.
    pub fn name(&self) -> (r: &String)
        ensures
            r@ == (match self {
                Global::Function(f) => f.name@,
                Global::Variable(v) => v.name@,
            }),
    {
        match self {
            Global::Function(f) => &f.name,
            Global::Variable(v) => &v.name,
        }
    }
}

/// A basic block: straight-line instructions ending in a terminator.
#[derive(Debug, Clone, PartialEq, Eq)]
pub struct BasicBlock {
    pub instructions: Vec<ValueID>,
    /// The terminator; the null handle while the block is being built.
    pub terminator: ValueID,
}

impl BasicBlock {
    pub fn new(instructions: Vec<ValueID>, terminator: ValueID) -> (r: Self)
        ensures
            r.instructions@ == instructions@,
            r.terminator == terminator,
    {
        BasicBlock { instructions, terminator }
    }

    /// A block with no instruction and no terminator yet.
    pub fn is_empty(&self) -> (r: bool)
        ensures
            r == (self.instructions@.len() == 0 && self.terminator.id() == ValueID::null_id()),
    {
        self.instructions.len() == 0 && self.terminator.is_null()
    }
}

impl Default for BasicBlock {
    /// An empty block with no terminator.
    fn default() -> (r: Self)
        ensures
            r.instructions@.len() == 0,
            r.terminator.id() == ValueID::null_id(),
    {
        BasicBlock { instructions: Vec::new(), terminator: ValueID::null() }
    }
}

} // verus!
