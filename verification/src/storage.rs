//! Storage-class specifiers, linkage and storage duration.
use crate::text::{join, lemma_join_push};
use vstd::prelude::*;

verus! {

/// A set of storage-class specifiers, one bit each.
#[derive(Debug, Clone, Copy, PartialEq, Eq, Structural, Hash)]
pub struct StorageSpecifier {
    bits: u8,
}

impl StorageSpecifier {
    /// The specifier bits.
    pub closed spec fn bits_spec(self) -> u8 {
        self.bits
    }

    /// The specifier set with exactly these bits.
    pub closed spec fn of_bits(bits: u8) -> StorageSpecifier {
        StorageSpecifier { bits }
    }

    pub fn empty() -> (r: Self)
        ensures
            r.bits_spec() == 0,
            r == Self::of_bits(0),
    {
        StorageSpecifier { bits: 0 }
    }

    pub fn auto() -> (r: Self)
        ensures
            r.bits_spec() == 0x01,
            r == Self::of_bits(0x01),
    {
        StorageSpecifier { bits: 0x01 }
    }

    /// C 6.7.2p17: the value is fixed at translation time.
    pub fn constexpr() -> (r: Self)
        ensures
            r.bits_spec() == 0x02,
            r == Self::of_bits(0x02),
    {
        StorageSpecifier { bits: 0x02 }
    }

    pub fn extern_() -> (r: Self)
        ensures
            r.bits_spec() == 0x04,
            r == Self::of_bits(0x04),
    {
        StorageSpecifier { bits: 0x04 }
    }

    /// C 6.7.2p12: treated as `auto`, but the address cannot be taken.
    pub fn register() -> (r: Self)
        ensures
            r.bits_spec() == 0x08,
            r == Self::of_bits(0x08),
    {
        StorageSpecifier { bits: 0x08 }
    }

    pub fn static_() -> (r: Self)
        ensures
            r.bits_spec() == 0x10,
            r == Self::of_bits(0x10),
    {
        StorageSpecifier { bits: 0x10 }
    }

    pub fn thread_local() -> (r: Self)
        ensures
            r.bits_spec() == 0x20,
            r == Self::of_bits(0x20),
    {
        StorageSpecifier { bits: 0x20 }
    }

    /// A storage-class specifier for syntactic convenience only (C 6.7.2).
    pub fn typedef() -> (r: Self)
        ensures
            r.bits_spec() == 0x40,
            r == Self::of_bits(0x40),
    {
        StorageSpecifier { bits: 0x40 }
    }

    /// The specifier bits.
    pub fn bits(&self) -> (r: u8)
        ensures
            r == self.bits_spec(),
    {
        self.bits
    }

    /// The specifiers of both sets.
    pub fn union(self, other: Self) -> (r: Self)
        ensures
            r.bits_spec() == self.bits_spec() | other.bits_spec(),
            r == Self::of_bits(self.bits_spec() | other.bits_spec()),
    {
        StorageSpecifier { bits: self.bits | other.bits }
    }

    /// Every specifier of `other` is in this set.
    pub fn contains(&self, other: Self) -> (r: bool)
        ensures
            r == (self.bits_spec() & other.bits_spec() == other.bits_spec()),
    {
        self.bits & other.bits == other.bits
    }

    /// The set has no specifier.
    pub fn is_empty(&self) -> (r: bool)
        ensures
            r == (self.bits_spec() == 0),
    {
        self.bits == 0
    }

    /// Clears every specifier.
    pub fn reset(&mut self)
        ensures
            final(self).bits_spec() == 0,
            *final(self) == Self::of_bits(0),
    {
        self.bits = 0;
    }

    /// The set with exactly these bits has them.
    pub proof fn lemma_of_bits(bits: u8)
        ensures
            Self::of_bits(bits).bits_spec() == bits,
    {
    }

    /// A specifier set is determined by its bits.
    pub proof fn lemma_bits_determine(a: Self, b: Self)
        requires
            a.bits_spec() == b.bits_spec(),
        ensures
            a == b,
    {
    }
}

/// The name of the specifier of bit `k`, in the order `auto constexpr
/// extern register static threadlocal typedef`.
pub open spec fn specifier_name(k: nat) -> Seq<char> {
    if k == 0 {
        "auto"@
    } else if k == 1 {
        "constexpr"@
    } else if k == 2 {
        "extern"@
    } else if k == 3 {
        "register"@
    } else if k == 4 {
        "static"@
    } else if k == 5 {
        "threadlocal"@
    } else {
        "typedef"@
    }
}

/// The bit of the specifier `k`.
pub open spec fn specifier_bit(k: nat) -> u8 {
    if k == 0 {
        0x01
    } else if k == 1 {
        0x02
    } else if k == 2 {
        0x04
    } else if k == 3 {
        0x08
    } else if k == 4 {
        0x10
    } else if k == 5 {
        0x20
    } else {
        0x40
    }
}

/// The names of the first `n` specifiers that are in the set.
pub open spec fn names_upto(bits: u8, n: nat) -> Seq<Seq<char>>
    decreases n,
{
    if n == 0 {
        Seq::empty()
    } else {
        let k = (n - 1) as nat;
        names_upto(bits, k) + (if bits & specifier_bit(k) != 0 {
            seq![specifier_name(k)]
        } else {
            Seq::empty()
        })
    }
}

/// The names of the specifiers in a set, in the order `auto constexpr
/// extern register static threadlocal typedef`.
pub open spec fn specifier_names(bits: u8) -> Seq<Seq<char>> {
    names_upto(bits, 7)
}

/// The spelling of a specifier set: its names separated by spaces, or
/// `<empty>` when it names none.
pub open spec fn specifier_text(bits: u8) -> Seq<char> {
    if specifier_names(bits).len() == 0 {
        "<empty>"@
    } else {
        join(specifier_names(bits), " "@)
    }
}

impl StorageSpecifier {
    /// The spelling of the set: the names of its specifiers in lower case,
    /// separated by spaces, or `<empty>`.
    pub fn to_string(&self) -> (r: String)
        ensures
            r@ == specifier_text(self.bits_spec()),
    {
        let mut out = String::new();
        let ghost mut words: Seq<Seq<char>> = Seq::empty();
        let mut first = true;
        let bits = self.bits;
        assert(names_upto(bits, 0) =~= Seq::<Seq<char>>::empty());
        if bits & 0x01 != 0 {
            append_word(&mut out, first, "auto", Ghost(words));
            first = false;
            proof {
                words = words.push("auto"@);
            }
        }
        assert(words =~= names_upto(bits, 1));
        if bits & 0x02 != 0 {
            append_word(&mut out, first, "constexpr", Ghost(words));
            first = false;
            proof {
                words = words.push("constexpr"@);
            }
        }
        assert(words =~= names_upto(bits, 2));
        if bits & 0x04 != 0 {
            append_word(&mut out, first, "extern", Ghost(words));
            first = false;
            proof {
                words = words.push("extern"@);
            }
        }
        assert(words =~= names_upto(bits, 3));
        if bits & 0x08 != 0 {
            append_word(&mut out, first, "register", Ghost(words));
            first = false;
            proof {
                words = words.push("register"@);
            }
        }
        assert(words =~= names_upto(bits, 4));
        if bits & 0x10 != 0 {
            append_word(&mut out, first, "static", Ghost(words));
            first = false;
            proof {
                words = words.push("static"@);
            }
        }
        assert(words =~= names_upto(bits, 5));
        if bits & 0x20 != 0 {
            append_word(&mut out, first, "threadlocal", Ghost(words));
            first = false;
            proof {
                words = words.push("threadlocal"@);
            }
        }
        assert(words =~= names_upto(bits, 6));
        if bits & 0x40 != 0 {
            append_word(&mut out, first, "typedef", Ghost(words));
            first = false;
            proof {
                words = words.push("typedef"@);
            }
        }
        assert(words =~= names_upto(bits, 7));
        if first {
            out.append("<empty>");
        }
        out
    }
}

/// Appends `word` to the words in `out`, after a space unless it is the
/// first.
fn append_word(out: &mut String, first: bool, word: &str, Ghost(words): Ghost<Seq<Seq<char>>>)
    requires
        old(out)@ == join(words, " "@),
        first == (words.len() == 0),
    ensures
        final(out)@ == join(words.push(word@), " "@),
{
    proof {
        lemma_join_push(words, word@, " "@);
    }
    if !first {
        out.append(" ");
    }
    out.append(word);
}

/// The linkage of an identifier.
#[derive(Debug, Clone, Copy, PartialEq, Eq, Structural, Hash)]
pub enum Linkage {
    /// No linkage (automatic storage).
    NoLinkage,
    /// A tentative definition.
    Common,
    /// Not visible to other translation units (`static`).
    Internal,
    /// Visible to other translation units (`extern`).
    External,
}

/// Why two declarations of one identifier disagree on its linkage.
#[derive(Debug, Clone, Copy, PartialEq, Eq, Structural, Hash)]
pub enum LinkageConflict {
    /// A `static` declaration followed by a tentative one.
    StaticThenTentative,
    /// A tentative declaration followed by a `static` one.
    TentativeThenStatic,
    /// An `extern` declaration followed by a `static` one.
    ExternThenStatic,
}

/// The linkage of an identifier after a declaration with linkage `incoming`
/// follows one with linkage `prev`, or why the two conflict.
pub open spec fn merge_linkage(prev: Linkage, incoming: Linkage) -> Result<Linkage, LinkageConflict> {
    match (prev, incoming) {
        (Linkage::Internal, Linkage::Common) => Err(LinkageConflict::StaticThenTentative),
        (Linkage::Common, Linkage::Internal) => Err(LinkageConflict::TentativeThenStatic),
        (Linkage::External, Linkage::Internal) => Err(LinkageConflict::ExternThenStatic),
        (Linkage::Internal, Linkage::External) => Ok(Linkage::Internal),
        (Linkage::External, Linkage::Common) => Ok(Linkage::Common),
        (Linkage::Common, Linkage::External) => Ok(Linkage::External),
        _ => Ok(prev),
    }
}

impl LinkageConflict {
    /// The diagnostic text.
    pub open spec fn text(self) -> Seq<char> {
        match self {
            LinkageConflict::StaticThenTentative => "static declaration followed by non-static(tentative) declaration"@,
            LinkageConflict::TentativeThenStatic => "non-static(tentative) declaration followed by static declaration"@,
            LinkageConflict::ExternThenStatic => "non-static(extern) declaration followed by static declaration"@,
        }
    }

    /// The diagnostic text.
    pub fn message(&self) -> (r: &'static str)
        ensures
            r@ == self.text(),
    {
        match self {
            LinkageConflict::StaticThenTentative => "static declaration followed by non-static(tentative) declaration",
            LinkageConflict::TentativeThenStatic => "non-static(tentative) declaration followed by static declaration",
            LinkageConflict::ExternThenStatic => "non-static(extern) declaration followed by static declaration",
        }
    }
}

impl Linkage {
    /// The name of the linkage, in snake case.
    pub open spec fn name_spec(self) -> Seq<char> {
        match self {
            Linkage::NoLinkage => "none"@,
            Linkage::Common => "common"@,
            Linkage::Internal => "internal"@,
            Linkage::External => "external"@,
        }
    }

    /// The name of the linkage, in snake case.
    pub fn name(&self) -> (r: &'static str)
        ensures
            r@ == self.name_spec(),
    {
        match self {
            Linkage::NoLinkage => "none",
            Linkage::Common => "common",
            Linkage::Internal => "internal",
            Linkage::External => "external",
        }
    }

    /// Merges the linkage of a redeclaration into the linkage so far. Both
    /// declarations must have linkage, or neither.
    pub fn try_merge(prev: Self, incoming: Self) -> (r: Result<Self, LinkageConflict>)
        requires
            (prev == Linkage::NoLinkage) == (incoming == Linkage::NoLinkage),
        ensures
            r == merge_linkage(prev, incoming),
    {
        match (prev, incoming) {
            (Linkage::Internal, Linkage::Common) => Err(LinkageConflict::StaticThenTentative),
            (Linkage::Common, Linkage::Internal) => Err(LinkageConflict::TentativeThenStatic),
            (Linkage::External, Linkage::Internal) => Err(LinkageConflict::ExternThenStatic),
            (Linkage::Internal, Linkage::External) => Ok(Linkage::Internal),
            (Linkage::External, Linkage::Common) => Ok(Linkage::Common),
            (Linkage::Common, Linkage::External) => Ok(Linkage::External),
            _ => Ok(prev),
        }
    }
}

/// Storage duration.
#[derive(Debug, Clone, Copy, PartialEq, Eq, Structural, Hash)]
pub enum Storage {
    Static,
    Register,
    Automatic,
    ThreadLocal,
}

/// The kind of a variable declaration.
#[derive(Debug, Clone, Copy, PartialEq, Eq, Structural, Hash)]
pub enum VarDeclKind {
    /// A declaration that is not a definition (`extern int a;`).
    Declaration,
    /// A complete definition (with an initializer, or at block scope).
    Definition,
    /// C 6.9.3p2: a file-scope declaration without initializer and without
    /// `extern` or `thread_local`.
    Tentative,
}

/// The kind of an identifier declared twice: a definition wins, two
/// tentative definitions stay tentative, anything else is a declaration.
pub open spec fn merge_decl_kind(lhs: VarDeclKind, rhs: VarDeclKind) -> VarDeclKind {
    if lhs == VarDeclKind::Definition || rhs == VarDeclKind::Definition {
        VarDeclKind::Definition
    } else if lhs == VarDeclKind::Tentative && rhs == VarDeclKind::Tentative {
        VarDeclKind::Tentative
    } else {
        VarDeclKind::Declaration
    }
}

/// Merging declaration kinds is commutative, associative and idempotent, and
/// a definition absorbs every other kind.
pub proof fn law_merge_decl_kind(a: VarDeclKind, b: VarDeclKind, c: VarDeclKind)
    ensures
        merge_decl_kind(a, b) == merge_decl_kind(b, a),
        merge_decl_kind(merge_decl_kind(a, b), c) == merge_decl_kind(a, merge_decl_kind(b, c)),
        merge_decl_kind(a, a) == a,
        merge_decl_kind(a, VarDeclKind::Definition) == VarDeclKind::Definition,
{
}

/// Redeclaring with the same linkage keeps it; a successful merge gives one
/// of the two linkages; a `static` identifier stays internal after an
/// `extern` redeclaration, and only merges that involve `static` can fail.
pub proof fn law_merge_linkage(prev: Linkage, incoming: Linkage)
    requires
        (prev == Linkage::NoLinkage) == (incoming == Linkage::NoLinkage),
    ensures
        merge_linkage(prev, prev) == Ok::<Linkage, LinkageConflict>(prev),
        merge_linkage(prev, incoming) matches Ok(l) ==> l == prev || l == incoming,
        merge_linkage(Linkage::Internal, Linkage::External) == Ok::<Linkage, LinkageConflict>(Linkage::Internal),
        merge_linkage(prev, incoming) is Err ==> prev == Linkage::Internal || incoming == Linkage::Internal,
{
}

impl VarDeclKind {
    /// The kind of an identifier after two declarations of it.
    pub fn merge(lhs: Self, rhs: Self) -> (r: Self)
        ensures
            r == merge_decl_kind(lhs, rhs),
    {
        match (lhs, rhs) {
            (VarDeclKind::Tentative, VarDeclKind::Tentative) => VarDeclKind::Tentative,
            (VarDeclKind::Definition, _) | (_, VarDeclKind::Definition) => VarDeclKind::Definition,
            _ => VarDeclKind::Declaration,
        }
    }
}

impl Storage {
    /// The name of the storage duration, in snake case.
    pub open spec fn name_spec(self) -> Seq<char> {
        match self {
            Storage::Static => "static"@,
            Storage::Register => "register"@,
            Storage::Automatic => "automatic"@,
            Storage::ThreadLocal => "thread_local"@,
        }
    }

    /// The name of the storage duration, in snake case.
    pub fn name(&self) -> (r: &'static str)
        ensures
            r@ == self.name_spec(),
    {
        match self {
            Storage::Static => "static",
            Storage::Register => "register",
            Storage::Automatic => "automatic",
            Storage::ThreadLocal => "thread_local",
        }
    }
}

impl VarDeclKind {
    /// The name of the kind.
    pub open spec fn name_spec(self) -> Seq<char> {
        match self {
            VarDeclKind::Declaration => "Declaration"@,
            VarDeclKind::Definition => "Definition"@,
            VarDeclKind::Tentative => "Tentative"@,
        }
    }

    /// The name of the kind.
    pub fn name(&self) -> (r: &'static str)
        ensures
            r@ == self.name_spec(),
    {
        match self {
            VarDeclKind::Declaration => "Declaration",
            VarDeclKind::Definition => "Definition",
            VarDeclKind::Tentative => "Tentative",
        }
    }
}

} // verus!
