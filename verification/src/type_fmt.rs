//! How types are spelled: C declarator syntax read back from the type, the
//! base type first and then the abstract declarator around it.
use crate::primitive::Primitive;
use crate::types::{ArraySize, FunctionSpecifier, QualifiedType, Qualifiers, Type};
use crate::text::{decimal_text, join, lemma_join_push, push_decimal};
use vstd::prelude::*;

verus! {

/// The words of a qualifier set, in the order `const volatile restrict`.
pub open spec fn qualifier_words(q: Qualifiers) -> Seq<Seq<char>> {
    (if q.bits & 1 != 0 { seq!["const"@] } else { Seq::empty() })
        + (if q.bits & 2 != 0 { seq!["volatile"@] } else { Seq::empty() })
        + (if q.bits & 4 != 0 { seq!["restrict"@] } else { Seq::empty() })
}

/// The words of a function specifier set, in the order `inline _Noreturn`.
pub open spec fn specifier_words(s: FunctionSpecifier) -> Seq<Seq<char>> {
    (if s.bits & 1 != 0 { seq!["inline"@] } else { Seq::empty() })
        + (if s.bits & 2 != 0 { seq!["_Noreturn"@] } else { Seq::empty() })
}

/// The spelling of a function specifier set.
pub open spec fn specifiers_text(s: FunctionSpecifier) -> Seq<char> {
    join(specifier_words(s), " "@)
}

/// The spelling of a qualifier set.
pub open spec fn qualifiers_text(q: Qualifiers) -> Seq<char> {
    join(qualifier_words(q), " "@)
}

/// The spelling of a tag name, `<unnamed>` for an anonymous tag.
pub open spec fn tag_name_text(name: Option<String>) -> Seq<char> {
    match name {
        Some(n) => n@,
        None => "<unnamed>"@,
    }
}

/// The base type: what remains of a type once arrays, pointers and
/// functions are peeled off.
pub open spec fn base_text(t: Type) -> Seq<char>
    decreases t,
{
    match t {
        Type::Array(e, _) => base_text(e.unqualified_type),
        Type::Pointer(p) => base_text(p.unqualified_type),
        Type::FunctionProto(r, _, _) => base_text(r.unqualified_type),
        Type::Primitive(p) => p.name_spec(),
        Type::Record(n) => "<struct "@ + tag_name_text(n) + ">"@,
        Type::Enum(n, _) => "<enum "@ + tag_name_text(n) + ">"@,
        Type::Union(n) => "<union "@ + tag_name_text(n) + ">"@,
    }
}

/// The spelling of a whole type: its base type, then its declarator.
pub open spec fn type_text(t: Type) -> Seq<char>
    decreases t, 1int,
{
    base_text(t) + declarator_text(t)
}

/// The spelling of a qualified type: the qualifiers, if any, then the type.
pub open spec fn qualified_text(q: QualifiedType) -> Seq<char>
    decreases q, 2int,
{
    if q.qualifiers.bits == 0 {
        type_text(q.unqualified_type)
    } else {
        qualifiers_text(q.qualifiers) + " "@ + type_text(q.unqualified_type)
    }
}

/// The parameter list of a function type, separated by commas.
pub open spec fn params_text(ps: Seq<QualifiedType>) -> Seq<char>
    decreases ps, 0int,
{
    if ps.len() == 0 {
        Seq::empty()
    } else if ps.len() == 1 {
        qualified_text(ps[0])
    } else {
        params_text(ps.drop_last()) + ", "@ + qualified_text(ps.last())
    }
}

/// The abstract declarator of a type, read from the outside in.
pub open spec fn declarator_text(t: Type) -> Seq<char>
    decreases t, 0int,
{
    match t {
        Type::Array(e, size) => "["@ + (match size {
            ArraySize::Constant(n) => decimal_text(n as nat),
            _ => Seq::empty(),
        }) + "]"@ + declarator_text(e.unqualified_type),
        Type::Pointer(p) => {
            let parens = p.unqualified_type is Array || p.unqualified_type is FunctionProto;
            (if parens { "("@ } else { Seq::empty() }) + "*"@ + (if parens { ")"@ } else { Seq::empty() })
                + qualifiers_text(p.qualifiers) + declarator_text(p.unqualified_type)
        },
        Type::FunctionProto(r, ps, variadic) => "("@ + (if variadic {
            (if ps@.len() != 0 { ", "@ } else { Seq::empty() }) + "..."@
        } else if ps@.len() == 0 {
            "void"@
        } else {
            params_text(ps@)
        }) + ")"@ + declarator_text(r.unqualified_type),
        _ => Seq::empty(),
    }
}

/// The types that can be spelled: the IR's bit type appears nowhere in them.
pub open spec fn printable(t: Type) -> bool
    decreases t,
{
    match t {
        Type::Primitive(p) => !(p is __IRBit),
        Type::Array(e, _) => printable(e.unqualified_type),
        Type::Pointer(p) => printable(p.unqualified_type),
        Type::FunctionProto(r, ps, _) => printable(r.unqualified_type) && forall|i: int|
            0 <= i < ps@.len() ==> printable(#[trigger] ps@[i].unqualified_type),
        _ => true,
    }
}

/// Listing one more parameter.
proof fn lemma_params_take(ps: Seq<QualifiedType>, i: int)
    requires
        0 <= i < ps.len(),
    ensures
        params_text(ps.take(i + 1)) == (if i == 0 { qualified_text(ps[0]) } else { params_text(
            ps.take(i),
        ) + ", "@ + qualified_text(ps[i]) }),
{
    assert(ps.take(i + 1).drop_last() =~= ps.take(i));
}

impl Qualifiers {
    /// Appends the spelling of the qualifiers to `out`.
    pub fn print(&self, out: &mut String)
        ensures
            final(out)@ == old(out)@ + qualifiers_text(*self),
    {
        let ghost start = out@;
        let ghost mut words: Seq<Seq<char>> = Seq::empty();
        let mut first = true;
        if self.is_const() {
            proof {
                lemma_join_push(words, "const"@, " "@);
            }
            out.append("const");
            first = false;
            proof {
                words = words.push("const"@);
            }
        }
        if self.is_volatile() {
            proof {
                lemma_join_push(words, "volatile"@, " "@);
            }
            if !first {
                out.append(" ");
            }
            out.append("volatile");
            first = false;
            proof {
                words = words.push("volatile"@);
            }
        }
        if self.is_restrict() {
            proof {
                lemma_join_push(words, "restrict"@, " "@);
            }
            if !first {
                out.append(" ");
            }
            out.append("restrict");
            proof {
                words = words.push("restrict"@);
            }
        }
        assert(words =~= qualifier_words(*self));
    }

    /// The spelling of the qualifiers, `const volatile restrict` in that
    /// order, separated by spaces.
    pub fn to_string(&self) -> (r: String)
        ensures
            r@ == qualifiers_text(*self),
    {
        let mut out = String::new();
        self.print(&mut out);
        out
    }
}

impl FunctionSpecifier {
    /// The spelling of the specifiers, `inline _Noreturn` in that order,
    /// separated by a space.
    pub fn to_string(&self) -> (r: String)
        ensures
            r@ == specifiers_text(*self),
    {
        let mut out = String::new();
        let ghost mut words: Seq<Seq<char>> = Seq::empty();
        let mut first = true;
        if self.is_inline() {
            proof {
                lemma_join_push(words, "inline"@, " "@);
            }
            out.append("inline");
            first = false;
            proof {
                words = words.push("inline"@);
            }
        }
        if self.is_noreturn() {
            proof {
                lemma_join_push(words, "_Noreturn"@, " "@);
            }
            if !first {
                out.append(" ");
            }
            out.append("_Noreturn");
            proof {
                words = words.push("_Noreturn"@);
            }
        }
        assert(words =~= specifier_words(*self));
        out
    }
}

/// Appends a tag name, or `<unnamed>`, to `out`.
fn push_tag_name(name: &Option<String>, out: &mut String)
    ensures
        final(out)@ == old(out)@ + tag_name_text(*name),
{
    match name {
        Some(n) => out.append(n.as_str()),
        None => out.append("<unnamed>"),
    }
}

impl Type {
    /// Appends the base type to `out`.
    pub fn print_base_type(&self, out: &mut String)
        requires
            printable(*self),
        ensures
            final(out)@ == old(out)@ + base_text(*self),
        decreases self,
    {
        match self {
            Type::Array(e, _) => e.unqualified_type.print_base_type(out),
            Type::Pointer(p) => p.unqualified_type.print_base_type(out),
            Type::FunctionProto(r, _, _) => r.unqualified_type.print_base_type(out),
            Type::Primitive(p) => out.append(p.name()),
            Type::Record(n) => {
                out.append("<struct ");
                push_tag_name(n, out);
                out.append(">");
            },
            Type::Enum(n, _) => {
                out.append("<enum ");
                push_tag_name(n, out);
                out.append(">");
            },
            Type::Union(n) => {
                out.append("<union ");
                push_tag_name(n, out);
                out.append(">");
            },
        }
    }

    /// Appends the abstract declarator to `out`, from the outside in.
    pub fn print_declarator(&self, out: &mut String)
        requires
            printable(*self),
        ensures
            final(out)@ == old(out)@ + declarator_text(*self),
        decreases self, 0int,
    {
        let ghost start = out@;
        match self {
            Type::Array(e, size) => {
                out.append("[");
                match size {
                    ArraySize::Constant(n) => push_decimal(*n, out),
                    _ => {},
                }
                out.append("]");
                e.unqualified_type.print_declarator(out);
            },
            Type::Pointer(p) => {
                let parens = match &p.unqualified_type {
                    Type::Array(_, _) | Type::FunctionProto(_, _, _) => true,
                    _ => false,
                };
                if parens {
                    out.append("(");
                }
                out.append("*");
                if parens {
                    out.append(")");
                }
                p.qualifiers.print(out);
                p.unqualified_type.print_declarator(out);
            },
            Type::FunctionProto(r, ps, variadic) => {
                out.append("(");
                if *variadic {
                    if ps.len() != 0 {
                        out.append(", ");
                    }
                    out.append("...");
                } else if ps.len() == 0 {
                    out.append("void");
                } else {
                    let ghost mid = out@;
                    let mut i: usize = 0;
                    while i < ps.len()
                        invariant
                            0 <= i <= ps@.len(),
                            ps@.len() > 0,
                            printable(*self),
                            *self matches Type::FunctionProto(_, qs, _) && qs@ == ps@,
                            out@ == mid + (if i == 0 { Seq::empty() } else { params_text(ps@.take(i as int)) }),
                        decreases ps@.len() - i,
                    {
                        proof {
                            lemma_params_take(ps@, i as int);
                        }
                        if i > 0 {
                            out.append(", ");
                        }
                        ps[i].print(out);
                        i = i + 1;
                    }
                    assert(ps@.take(ps@.len() as int) =~= ps@);
                }
                out.append(")");
                r.unqualified_type.print_declarator(out);
            },
            _ => {},
        }
    }

    /// Appends the whole spelling of the type to `out`.
    pub fn print(&self, out: &mut String)
        requires
            printable(*self),
        ensures
            final(out)@ == old(out)@ + type_text(*self),
        decreases self, 1int,
    {
        self.print_base_type(out);
        self.print_declarator(out);
    }

    /// The spelling of the type: the base type, then the abstract
    /// declarator, as in `int (*)[10]`.
    pub fn pretty_print(&self) -> (r: String)
        requires
            printable(*self),
        ensures
            r@ == type_text(*self),
    {
        let mut out = String::new();
        self.print(&mut out);
        out
    }
}

impl QualifiedType {
    /// Appends the spelling of the qualified type to `out`.
    pub fn print(&self, out: &mut String)
        requires
            printable(self.unqualified_type),
        ensures
            final(out)@ == old(out)@ + qualified_text(*self),
        decreases self, 2int,
    {
        if self.qualifiers.is_empty() {
            self.unqualified_type.print(out);
        } else {
            self.qualifiers.print(out);
            out.append(" ");
            self.unqualified_type.print(out);
        }
    }

    /// The spelling of the qualified type: its qualifiers, if any, then the
    /// type.
    pub fn to_string(&self) -> (r: String)
        requires
            printable(self.unqualified_type),
        ensures
            r@ == qualified_text(*self),
    {
        let mut out = String::new();
        self.print(&mut out);
        out
    }
}

} // verus!
