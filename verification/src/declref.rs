//! Declarations of an identifier, kept as a redeclaration chain.
use crate::redeclarable::{chain_from, lemma_chain_step, walk_from, RedeclarableArena};
use crate::storage::{Storage, VarDeclKind};
use crate::types::QualifiedType;
use vstd::prelude::*;

verus! {

/// What one declaration says of an identifier.
#[derive(Debug)]
pub struct DeclNode {
    pub name: String,
    pub qualified_type: QualifiedType,
    pub storage_class: Storage,
    /// The kind of the declaration; how it combines with the storage class
    /// is decided by linkage.
    pub declkind: VarDeclKind,
}

/// All declarations of a translation unit.
pub type DeclTable = RedeclarableArena<DeclNode>;

/// A declaration in a [`DeclTable`].
#[derive(Debug, Clone, Copy, PartialEq, Eq, Structural, Hash)]
pub struct DeclRef {
    pub index: usize,
}

/// The first declaration of `s` that is a definition.
pub open spec fn first_definition(table: DeclTable, s: Seq<usize>) -> Option<usize>
    decreases s.len(),
{
    if s.len() == 0 {
        None
    } else if table.data_of(s[0]).declkind == VarDeclKind::Definition {
        Some(s[0])
    } else {
        first_definition(table, s.drop_first())
    }
}

/// The definition found in a list of declarations is the first of them
/// that is a definition; there is none exactly when none of them is one.
pub proof fn law_first_definition(table: DeclTable, s: Seq<usize>)
    ensures
        first_definition(table, s) matches Some(d) ==> exists|k: int|
            0 <= k < s.len() && s[k] == d && table.data_of(d).declkind == VarDeclKind::Definition && (
            forall|j: int| 0 <= j < k ==> table.data_of(#[trigger] s[j]).declkind != VarDeclKind::Definition),
        first_definition(table, s) is None ==> forall|k: int|
            0 <= k < s.len() ==> table.data_of(#[trigger] s[k]).declkind != VarDeclKind::Definition,
    decreases s.len(),
{
    if s.len() > 0 {
        law_first_definition(table, s.drop_first());
        if table.data_of(s[0]).declkind != VarDeclKind::Definition {
            match first_definition(table, s.drop_first()) {
                Some(d) => {
                    let k = choose|k: int|
                        0 <= k < s.drop_first().len() && s.drop_first()[k] == d && table.data_of(d).declkind
                            == VarDeclKind::Definition && (forall|j: int|
                            0 <= j < k ==> table.data_of(#[trigger] s.drop_first()[j]).declkind
                                != VarDeclKind::Definition);
                    assert(s[k + 1] == d);
                    assert forall|j: int| 0 <= j < k + 1 implies table.data_of(#[trigger] s[j]).declkind
                        != VarDeclKind::Definition by {
                        if j > 0 {
                            assert(s[j] == s.drop_first()[j - 1]);
                        }
                    }
                },
                None => {
                    assert forall|k: int| 0 <= k < s.len() implies table.data_of(#[trigger] s[k]).declkind
                        != VarDeclKind::Definition by {
                        if k > 0 {
                            assert(s[k] == s.drop_first()[k - 1]);
                        }
                    }
                },
            }
        }
    }
}

impl DeclRef {
    /// The declaration is in the table.
    pub open spec fn valid_in(self, table: DeclTable) -> bool {
        table.wf() && table.valid(self.index)
    }

    /// Records a declaration, redeclaring `previous_decl` if there is one.
    pub fn new(
        table: &mut DeclTable,
        qualified_type: QualifiedType,
        storage_class: Storage,
        name: String,
        declkind: VarDeclKind,
        previous_decl: Option<DeclRef>,
    ) -> (r: DeclRef)
        requires
            old(table).wf(),
            previous_decl matches Some(p) ==> old(table).valid(p.index),
            old(table).len() < usize::MAX,
        ensures
            final(table).wf(),
            r.index == old(table).len(),
            final(table).data_of(r.index) == (DeclNode { name, qualified_type, storage_class, declkind }),
            final(table).prev_of(r.index) == (match previous_decl {
                Some(p) => Some(p.index),
                None => None,
            }),
            final(table).latest_of(r.index) == r.index,
            final(table).canonical_of(r.index) == (match previous_decl {
                Some(p) => old(table).canonical_of(p.index),
                None => r.index,
            }),
            forall|h: usize|
                old(table).valid(h) ==> final(table).data_of(h) == old(table).data_of(h)
                    && final(table).canonical_of(h) == old(table).canonical_of(h),
    {
        let prev = match previous_decl {
            Some(p) => Some(p.index),
            None => None,
        };
        let index = table.new(prev, DeclNode { name, qualified_type, storage_class, declkind });
        DeclRef { index }
    }

    /// Records a declaration that is not a definition.
    pub fn decl(
        table: &mut DeclTable,
        qualified_type: QualifiedType,
        storage_class: Storage,
        name: String,
        previous_decl: Option<DeclRef>,
    ) -> (r: DeclRef)
        requires
            old(table).wf(),
            previous_decl matches Some(p) ==> old(table).valid(p.index),
            old(table).len() < usize::MAX,
        ensures
            final(table).wf(),
            r.index == old(table).len(),
            final(table).data_of(r.index) == (DeclNode { name, qualified_type, storage_class, declkind: VarDeclKind::Declaration }),
            final(table).latest_of(r.index) == r.index,
            final(table).prev_of(r.index) == (match previous_decl {
                Some(p) => Some(p.index),
                None => None,
            }),
            forall|h: usize|
                old(table).valid(h) ==> final(table).data_of(h) == old(table).data_of(h)
                    && final(table).canonical_of(h) == old(table).canonical_of(h),
    {
        DeclRef::new(table, qualified_type, storage_class, name, VarDeclKind::Declaration, previous_decl)
    }

    /// Records a definition.
    pub fn def(
        table: &mut DeclTable,
        qualified_type: QualifiedType,
        storage_class: Storage,
        name: String,
        previous_decl: Option<DeclRef>,
    ) -> (r: DeclRef)
        requires
            old(table).wf(),
            previous_decl matches Some(p) ==> old(table).valid(p.index),
            old(table).len() < usize::MAX,
        ensures
            final(table).wf(),
            r.index == old(table).len(),
            final(table).data_of(r.index) == (DeclNode { name, qualified_type, storage_class, declkind: VarDeclKind::Definition }),
            final(table).latest_of(r.index) == r.index,
            final(table).prev_of(r.index) == (match previous_decl {
                Some(p) => Some(p.index),
                None => None,
            }),
            forall|h: usize|
                old(table).valid(h) ==> final(table).data_of(h) == old(table).data_of(h)
                    && final(table).canonical_of(h) == old(table).canonical_of(h),
    {
        DeclRef::new(table, qualified_type, storage_class, name, VarDeclKind::Definition, previous_decl)
    }

    /// Records a tentative definition.
    pub fn tentative(
        table: &mut DeclTable,
        qualified_type: QualifiedType,
        storage_class: Storage,
        name: String,
        previous_decl: Option<DeclRef>,
    ) -> (r: DeclRef)
        requires
            old(table).wf(),
            previous_decl matches Some(p) ==> old(table).valid(p.index),
            old(table).len() < usize::MAX,
        ensures
            final(table).wf(),
            r.index == old(table).len(),
            final(table).data_of(r.index) == (DeclNode { name, qualified_type, storage_class, declkind: VarDeclKind::Tentative }),
            final(table).latest_of(r.index) == r.index,
            final(table).prev_of(r.index) == (match previous_decl {
                Some(p) => Some(p.index),
                None => None,
            }),
            forall|h: usize|
                old(table).valid(h) ==> final(table).data_of(h) == old(table).data_of(h)
                    && final(table).canonical_of(h) == old(table).canonical_of(h),
    {
        DeclRef::new(table, qualified_type, storage_class, name, VarDeclKind::Tentative, previous_decl)
    }

    /// The declared type.
    pub fn qualified_type(self, table: &DeclTable) -> (r: &QualifiedType)
        requires
            self.valid_in(*table),
        ensures
            *r == table.data_of(self.index).qualified_type,
    {
        &table.get(self.index).qualified_type
    }

    pub fn name(self, table: &DeclTable) -> (r: &String)
        requires
            self.valid_in(*table),
        ensures
            r@ == table.data_of(self.index).name@,
    {
        &table.get(self.index).name
    }

    pub fn storage_class(self, table: &DeclTable) -> (r: Storage)
        requires
            self.valid_in(*table),
        ensures
            r == table.data_of(self.index).storage_class,
    {
        table.get(self.index).storage_class
    }

    pub fn declkind(self, table: &DeclTable) -> (r: VarDeclKind)
        requires
            self.valid_in(*table),
        ensures
            r == table.data_of(self.index).declkind,
    {
        table.get(self.index).declkind
    }

    /// The declaration this one redeclares; none for the first.
    pub fn previous_decl(self, table: &DeclTable) -> (r: Option<DeclRef>)
        requires
            self.valid_in(*table),
        ensures
            r == (match table.prev_of(self.index) {
                Some(p) => Some(DeclRef { index: p }),
                None => None,
            }),
    {
        match table.prev(self.index) {
            Some(p) => Some(DeclRef { index: p }),
            None => None,
        }
    }

    /// The first declaration of the identifier.
    pub fn canonical_decl(self, table: &DeclTable) -> (r: DeclRef)
        requires
            self.valid_in(*table),
        ensures
            r.index == table.canonical_of(self.index),
    {
        DeclRef { index: table.canonical(self.index) }
    }

    /// The latest declaration of the identifier, which knows the most of it.
    pub fn latest_decl(self, table: &DeclTable) -> (r: DeclRef)
        requires
            self.valid_in(*table),
        ensures
            r.index == table.latest_of(self.index),
    {
        DeclRef { index: table.latest(self.index) }
    }

    pub fn is_canonical(self, table: &DeclTable) -> (r: bool)
        requires
            self.valid_in(*table),
        ensures
            r == (table.canonical_of(self.index) == self.index),
    {
        table.is_canonical(self.index)
    }

    pub fn is_latest(self, table: &DeclTable) -> (r: bool)
        requires
            self.valid_in(*table),
        ensures
            r == (table.latest_of(self.index) == self.index),
    {
        table.is_latest(self.index)
    }

    pub fn is_definition(self, table: &DeclTable) -> (r: bool)
        requires
            self.valid_in(*table),
        ensures
            r == (table.data_of(self.index).declkind == VarDeclKind::Definition),
    {
        matches!(table.get(self.index).declkind, VarDeclKind::Definition)
    }

    /// Whether the declaration's storage class is `typedef`. A typedef name
    /// is never recorded with a [`Storage`]: `Storage` has no such class, so
    /// no declaration here is one.
    pub fn is_typedef(self, table: &DeclTable) -> (r: bool)
        requires
            self.valid_in(*table),
        ensures
            !r,
    {
        match table.get(self.index).storage_class {
            Storage::Static | Storage::Register | Storage::Automatic | Storage::ThreadLocal => false,
        }
    }

    /// All declarations of the identifier, latest first.
    pub fn iter(self, table: &DeclTable) -> (r: DeclIter)
        requires
            self.valid_in(*table),
        ensures
            r.current.index == table.latest_of(self.index),
            !r.done,
    {
        DeclIter::new(self, table)
    }

    /// The latest definition of the identifier, if it has one.
    pub fn definition(self, table: &DeclTable) -> (r: Option<DeclRef>)
        requires
            self.valid_in(*table),
        ensures
            r == (match first_definition(*table, chain_from(*table, table.latest_of(self.index))) {
                Some(d) => Some(DeclRef { index: d }),
                None => None,
            }),
    {
        let mut it = self.iter(table);
        let ghost full = chain_from(*table, table.latest_of(self.index));
        proof {
            assert(table.canonical_of(self.index) == table.canonical_of(self.index));
        }
        while !it.done
            invariant
                table.wf(),
                table.valid(it.current.index),
                full == chain_from(*table, table.latest_of(self.index)),
                first_definition(*table, full) == first_definition(*table, it.rest(*table)),
            decreases (if it.done {
                0
            } else {
                it.current.index + 1
            }),
        {
            proof {
                lemma_chain_step(*table, it.current.index);
            }
            let ghost before_rest = it.rest(*table);
            assert(before_rest.len() > 0 && before_rest[0] == it.current.index);
            let d = it.next(table);
            match d {
                Some(d) => {
                    if d.is_definition(table) {
                        assert(first_definition(*table, before_rest) == Some(d.index));
                        return Some(d);
                    }
                },
                None => {},
            }
            assert(first_definition(*table, before_rest) == first_definition(*table, it.rest(*table)));
        }
        None
    }
}

/// A walk over the declarations of an identifier, latest first, ending after
/// the first declaration.
#[derive(Debug, Clone, Copy, PartialEq, Eq, Structural)]
pub struct DeclIter {
    pub current: DeclRef,
    /// The first declaration has been yielded.
    pub done: bool,
}

impl DeclIter {
    /// The declarations the walk has still to yield.
    pub open spec fn rest(self, table: DeclTable) -> Seq<usize> {
        if self.done {
            Seq::empty()
        } else {
            chain_from(table, self.current.index)
        }
    }

    /// A walk from the latest declaration of `decl`'s identifier.
    pub fn new(decl: DeclRef, table: &DeclTable) -> (r: Self)
        requires
            decl.valid_in(*table),
        ensures
            r.current.index == table.latest_of(decl.index),
            !r.done,
    {
        DeclIter { current: decl.latest_decl(table), done: false }
    }

    /// The next declaration, latest first.
    pub fn next(&mut self, table: &DeclTable) -> (r: Option<DeclRef>)
        requires
            table.wf(),
            table.valid(old(self).current.index),
        ensures
            r == (if old(self).done {
                None
            } else {
                Some(old(self).current)
            }),
            table.valid(final(self).current.index),
            !old(self).done ==> final(self).rest(*table) == old(self).rest(*table).drop_first(),
            old(self).done ==> final(self).done,
            !old(self).done && !final(self).done ==> final(self).current.index < old(self).current.index,
    {
        if self.done {
            None
        } else {
            let yielded = self.current;
            proof {
                lemma_chain_step(*table, yielded.index);
            }
            match table.prev(yielded.index) {
                None => {
                    self.done = true;
                },
                Some(p) => {
                    self.current = DeclRef { index: p };
                },
            }
            assert(old(self).rest(*table).drop_first() =~= walk_from(*table, table.prev_of(yielded.index)));
            Some(yielded)
        }
    }
}

} // verus!
