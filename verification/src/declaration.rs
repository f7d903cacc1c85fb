//! What a declaration declares: a function, a variable or a type name.
use crate::declref::DeclRef;
use crate::initialization::InitNode;
use crate::storage::Storage;
use crate::types::FunctionSpecifier;
use vstd::prelude::*;

verus! {

/// A variable: its storage and its initializer, if it has one.
#[derive(Debug)]
pub struct VarDef {
    pub is_named_constant: bool,
    pub storage: Storage,
    pub initializer: Option<InitNode>,
}

impl VarDef {
    /// A variable with an initializer is a definition.
    pub fn is_definition(&self) -> (r: bool)
        ensures
            r == (self.initializer is Some),
    {
        self.initializer.is_some()
    }

    pub fn new(initializer: Option<InitNode>, is_named_constant: bool, storage: Storage) -> (r: Self)
        ensures
            r.initializer == initializer,
            r.is_named_constant == is_named_constant,
            r.storage == storage,
    {
        VarDef { initializer, is_named_constant, storage }
    }

    /// A declaration without initializer.
    pub fn decl(storage: Storage) -> (r: Self)
        ensures
            r.initializer is None,
            !r.is_named_constant,
            r.storage == storage,
    {
        VarDef { initializer: None, is_named_constant: false, storage }
    }

    /// A definition with an initializer.
    pub fn def(initializer: InitNode, is_named_constant: bool, storage: Storage) -> (r: Self)
        ensures
            r.initializer == Some(initializer),
            r.is_named_constant == is_named_constant,
            r.storage == storage,
    {
        VarDef { initializer: Some(initializer), is_named_constant, storage }
    }
}

/// A type name introduced by `typedef`.
#[derive(Debug, Clone, Copy, PartialEq, Eq, Structural, Default)]
pub struct Typedef {}

impl Typedef {
    pub fn new() -> (r: Self)
        ensures
            r == (Typedef {  }),
    {
        Typedef {  }
    }

    /// A `typedef` is never a definition.
    pub fn is_definition(&self) -> (r: bool)
        ensures
            !r,
    {
        false
    }
}

/// A function: its specifiers, its parameters (variables without
/// initializer) and whether it has a body, which makes it a definition.
#[derive(Debug)]
pub struct FunctionDecl {
    pub specifier: FunctionSpecifier,
    pub parameters: Vec<DeclRef>,
    pub has_body: bool,
}

impl FunctionDecl {
    pub fn new(specifier: FunctionSpecifier, parameters: Vec<DeclRef>, has_body: bool) -> (r: Self)
        ensures
            r.specifier == specifier,
            r.parameters@ == parameters@,
            r.has_body == has_body,
    {
        FunctionDecl { specifier, parameters, has_body }
    }

    /// A declaration without body.
    pub fn new_decl(specifier: FunctionSpecifier, parameters: Vec<DeclRef>) -> (r: Self)
        ensures
            r.specifier == specifier,
            r.parameters@ == parameters@,
            !r.has_body,
    {
        FunctionDecl { specifier, parameters, has_body: false }
    }

    pub fn is_definition(&self) -> (r: bool)
        ensures
            r == self.has_body,
    {
        self.has_body
    }
}

/// What a declaration declares.
#[derive(Debug)]
pub enum DeclarationData {
    Function(FunctionDecl),
    Variable(VarDef),
    Typedef(Typedef),
}

impl DeclarationData {
    pub fn is_definition(&self) -> (r: bool)
        ensures
            r == (match self {
                DeclarationData::Function(f) => f.has_body,
                DeclarationData::Variable(v) => v.initializer is Some,
                DeclarationData::Typedef(_) => false,
            }),
    {
        match self {
            DeclarationData::Function(f) => f.is_definition(),
            DeclarationData::Variable(v) => v.is_definition(),
            DeclarationData::Typedef(t) => t.is_definition(),
        }
    }
}

/// The declarations of a source file, in order.
#[derive(Debug)]
pub struct TranslationUnit {
    pub declarations: Vec<DeclRef>,
}

impl TranslationUnit {
    pub fn new(declarations: Vec<DeclRef>) -> (r: Self)
        ensures
            r.declarations@ == declarations@,
    {
        TranslationUnit { declarations }
    }
}

} // verus!
