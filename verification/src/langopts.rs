//! The language being compiled: a C standard or a SysY dialect.
use vstd::prelude::*;

verus! {

/// C standard revisions, oldest first.
#[derive(Debug, Clone, Copy, PartialEq, Eq, Structural, Hash, PartialOrd, Ord)]
pub enum C {
    C99,
    C11,
    C17,
    C23,
}

/// SysY revisions.
#[derive(Debug, Clone, Copy, PartialEq, Eq, Structural, Hash, PartialOrd, Ord)]
pub enum SysY {
    SysY2026,
}

/// The language: C or SysY, with the revision.
#[derive(Debug, Clone, Copy, PartialEq, Eq, Structural, Hash)]
pub enum Kind {
    C(C),
    SysY(SysY),
}

impl Kind {
    /// The language is C and the revision satisfies `f`.
    pub fn is_c_and<F: FnOnce(C) -> bool>(&self, f: F) -> (r: bool)
        requires
            *self matches Kind::C(c) ==> call_requires(f, (c,)),
        ensures
            match *self {
                Kind::C(c) => call_ensures(f, (c,), r),
                Kind::SysY(_) => !r,
            },
    {
        match self {
            Kind::C(c) => f(*c),
            Kind::SysY(_) => false,
        }
    }

    /// The language is SysY and the revision satisfies `f`.
    pub fn is_sysy_and<F: FnOnce(SysY) -> bool>(&self, f: F) -> (r: bool)
        requires
            *self matches Kind::SysY(s) ==> call_requires(f, (s,)),
        ensures
            match *self {
                Kind::SysY(s) => call_ensures(f, (s,), r),
                Kind::C(_) => !r,
            },
    {
        match self {
            Kind::SysY(s) => f(*s),
            Kind::C(_) => false,
        }
    }
}

impl From<C> for Kind {
    fn from(c: C) -> (r: Kind) {
        Kind::C(c)
    }
}

impl vstd::std_specs::convert::FromSpecImpl<C> for Kind {
    open spec fn obeys_from_spec() -> bool {
        true
    }

    open spec fn from_spec(c: C) -> Kind {
        Kind::C(c)
    }
}

impl From<SysY> for Kind {
    fn from(s: SysY) -> (r: Kind) {
        Kind::SysY(s)
    }
}

impl vstd::std_specs::convert::FromSpecImpl<SysY> for Kind {
    open spec fn obeys_from_spec() -> bool {
        true
    }

    open spec fn from_spec(s: SysY) -> Kind {
        Kind::SysY(s)
    }
}

/// Language options.
#[derive(Debug, Clone, Copy, PartialEq, Eq, Structural)]
pub struct Options {
    lang: Kind,
}

impl Options {
    pub closed spec fn lang_spec(&self) -> Kind {
        self.lang
    }

    pub fn new(lang: Kind) -> (r: Self)
        ensures
            r.lang_spec() == lang,
    {
        Options { lang }
    }

    /// The language.
    pub fn lang(&self) -> (r: &Kind)
        ensures
            *r == self.lang_spec(),
    {
        &self.lang
    }
}

} // verus!
