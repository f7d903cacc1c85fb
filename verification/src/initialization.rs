//! Initialization of objects: arrays initialized with brace-enclosed lists,
//! designators (C 6.7.11) and brace elision.
//!
//! An initializer list is consumed entry by entry against the array type it
//! initializes. A cursor counts the scalar leaves filled so far, so that an
//! entry without braces fills the next scalar of the flattened array, while
//! a braced entry or a designator starts a new element. What is recorded is
//! a tree of array indices whose leaves are the initializing expressions;
//! an initializer recorded twice for one object replaces the first.
use crate::integral::Integral;
use vstd::prelude::*;
use vstd::slice::slice_subrange;

verus! {

/// The index that stands for no valid index, after an error.
pub open spec fn npos() -> usize {
    usize::MAX
}

/// `a * b`, saturating at `usize::MAX`.
pub open spec fn sat_mul(a: nat, b: nat) -> nat {
    if a * b > usize::MAX {
        usize::MAX as nat
    } else {
        a * b
    }
}

/// `a + b`, saturating at `usize::MAX`.
pub open spec fn sat_add(a: nat, b: nat) -> nat {
    if a + b > usize::MAX {
        usize::MAX as nat
    } else {
        a + b
    }
}

/// The length of an array type.
#[derive(Debug, Clone, Copy, PartialEq, Eq, Structural, Hash)]
pub enum ArraySize {
    Constant(usize),
    Incomplete,
    /// A variable length array.
    Variable,
}

/// The type of an object being initialized, as initialization sees it.
#[derive(Debug, PartialEq, Eq)]
pub enum ObjType {
    /// A scalar; `is_character` for the character types.
    Scalar { is_character: bool },
    Array(Box<ObjType>, ArraySize),
    /// A structure or union.
    Record,
}

/// A parsed expression that initializes a scalar, by its id.
#[derive(Debug, Clone, Copy, PartialEq, Eq, Structural, Hash)]
pub struct ExprId {
    pub id: usize,
    /// The expression is a string literal.
    pub is_string_literal: bool,
}

/// A parsed initializer.
#[derive(Debug)]
pub enum InitInput {
    Expression(ExprId),
    /// A brace-enclosed list.
    List(Vec<InitEntry>),
}

/// An entry of a parsed initializer list.
#[derive(Debug)]
pub enum InitEntry {
    Anonymous(InitInput),
    Designated(Vec<DesignatorInput>, InitInput),
}

/// A parsed designator. An array designator carries its index when that
/// folded to a nonnegative integer constant; `None` when it did not, which
/// [`designator_index`] reports.
#[derive(Debug, Clone, Copy, PartialEq, Eq, Structural, Hash)]
pub enum DesignatorInput {
    Index(Option<usize>),
    Field,
}

/// What initialization reports.
#[derive(Debug, Clone, PartialEq, Eq)]
pub enum InitDiag {
    /// Warning: more initializers than the array has elements.
    ExcessElemInInitializer,
    /// Warning: the object at this path was initialized before.
    DuplicateInitializer(Vec<usize>),
    /// Error: designator index, array length.
    DesignatorIndexOutOfBound(usize, usize),
    /// Error: an array designator applied to a type that is not an array.
    DesignatorOnNonArray(usize),
    /// Error: a field designator in an array initializer.
    InvalidDesignator,
    /// Error: structure and union initializers are not supported.
    UnsupportedFeature,
    /// Warning: braces around a scalar initializer.
    ExcessBraceAroundScalarInitializer,
    /// Error: a designator in the initializer of a scalar.
    DesignatorForNonAggregate,
    /// Error: a variable length array initialized with a nonempty list.
    NonEmptyInitVLA,
    /// Error: a braced initializer for a declaration whose type is deduced.
    DeducedTypeWithBracedInitializer,
    /// Error: a string literal of this length initializes a character
    /// array of this smaller length.
    InitializerStringTooLong(usize, usize),
    /// Error: an array designator index whose type is not an integer type.
    NonIntegerInArraySubscript,
    /// Error: an array designator index that is not an integer constant expression.
    ExprNotConstant,
    /// Error: an array designator index that is negative, or too large for an index.
    DesignatorIndexNegative(Integral),
}

/// The index that an array designator `[e]` names, from what analysis and
/// folding made of `e`: whether its type is an integer type, and the integer
/// constant it folded to, if it folded to one.
pub fn designator_index(is_integer: bool, folded: Option<Integral>) -> (r: Result<usize, InitDiag>)
    ensures
        !is_integer ==> r == Err::<usize, InitDiag>(InitDiag::NonIntegerInArraySubscript),
        is_integer && folded is None ==> r == Err::<usize, InitDiag>(InitDiag::ExprNotConstant),
        is_integer ==> (folded matches Some(v) ==> r == (if 0 <= v.value() <= usize::MAX {
            Ok::<usize, InitDiag>(v.value() as usize)
        } else {
            Err::<usize, InitDiag>(InitDiag::DesignatorIndexNegative(v))
        })),
{
    if !is_integer {
        return Err(InitDiag::NonIntegerInArraySubscript);
    }
    match folded {
        None => Err(InitDiag::ExprNotConstant),
        Some(v) => {
            let n: u128 = if v.is_signed() {
                let s = v.as_signed();
                if s < 0 {
                    return Err(InitDiag::DesignatorIndexNegative(v));
                }
                s as u128
            } else {
                v.as_unsigned()
            };
            if n <= usize::MAX as u128 {
                Ok(n as usize)
            } else {
                Err(InitDiag::DesignatorIndexNegative(v))
            }
        },
    }
}

/// A recorded initializer: an expression or a nested list.
#[derive(Debug)]
pub enum InitNode {
    Scalar(ExprId),
    List(ArrayTree),
}

/// The initializer recorded for one array index.
#[derive(Debug)]
pub struct TreeEntry {
    pub index: usize,
    pub node: InitNode,
    /// The entry was reached without a designator.
    pub is_implicit: bool,
}

/// The initializers recorded for an array, in the order their indices were
/// first initialized.
#[derive(Debug)]
pub struct ArrayTree {
    pub entries: Vec<TreeEntry>,
    /// The largest index initialized.
    pub max_index: usize,
}

/// A recorded initializer, as a mathematical value.
#[verifier::ext_equal]
pub enum NodeV {
    Scalar(ExprId),
    List(TreeV),
}

/// The initializer recorded for one index, as a mathematical value.
#[verifier::ext_equal]
pub struct EntryV {
    pub index: usize,
    pub node: NodeV,
    pub is_implicit: bool,
}

/// The initializers recorded for an array, as a mathematical value.
#[verifier::ext_equal]
pub struct TreeV {
    pub entries: Seq<EntryV>,
    pub max_index: usize,
}

/// The empty tree.
pub open spec fn empty_tree() -> TreeV {
    TreeV { entries: Seq::empty(), max_index: 0 }
}

pub open spec fn tree_view(t: ArrayTree) -> TreeV
    decreases t, t.entries@.len() + 1,
{
    TreeV { entries: entries_view(t, 0), max_index: t.max_index }
}

pub open spec fn entries_view(t: ArrayTree, i: int) -> Seq<EntryV>
    decreases t, t.entries@.len() - i,
{
    if i < 0 || i >= t.entries@.len() {
        Seq::empty()
    } else {
        seq![entry_view(t.entries@[i])] + entries_view(t, i + 1)
    }
}

pub open spec fn entry_view(e: TreeEntry) -> EntryV
    decreases e, 0int,
{
    EntryV { index: e.index, node: node_view(e.node), is_implicit: e.is_implicit }
}

pub open spec fn node_view(n: InitNode) -> NodeV
    decreases n, 0int,
{
    match n {
        InitNode::Scalar(x) => NodeV::Scalar(x),
        InitNode::List(c) => NodeV::List(tree_view(c)),
    }
}

/// The view of the entries is the view of each entry.
pub proof fn lemma_entries_view(t: ArrayTree, i: int)
    requires
        0 <= i <= t.entries@.len(),
    ensures
        entries_view(t, i) =~= t.entries@.subrange(i, t.entries@.len() as int).map_values(
            |e: TreeEntry| entry_view(e),
        ),
        i == 0 ==> tree_view(t).entries =~= t.entries@.map_values(|e: TreeEntry| entry_view(e)),
    decreases t.entries@.len() - i,
{
    if i < t.entries@.len() {
        lemma_entries_view(t, i + 1);
    }
    assert(t.entries@.subrange(0, t.entries@.len() as int) =~= t.entries@);
}

/// The position of the first entry with `index` at or after position `i`.
pub open spec fn find_from(entries: Seq<EntryV>, index: usize, i: int) -> Option<int>
    decreases entries.len() - i,
{
    if i < 0 || i >= entries.len() {
        None
    } else if entries[i].index == index {
        Some(i)
    } else {
        find_from(entries, index, i + 1)
    }
}

/// The position of the first entry with `index`.
pub open spec fn find_pos(entries: Seq<EntryV>, index: usize) -> Option<int> {
    find_from(entries, index, 0)
}

/// The largest index after initializing `index`; the error index counts for nothing.
pub open spec fn bump_max(max_index: usize, index: usize) -> usize {
    if index == npos() || index <= max_index {
        max_index
    } else {
        index
    }
}

/// Records `node` at `index`, replacing what was there; says whether
/// something was.
pub open spec fn insert_leaf_v(t: TreeV, index: usize, node: NodeV, implicit: bool) -> (TreeV, bool) {
    let max_index = bump_max(t.max_index, index);
    let e = EntryV { index, node, is_implicit: implicit };
    match find_pos(t.entries, index) {
        Some(p) => (TreeV { entries: t.entries.update(p, e), max_index }, true),
        None => (TreeV { entries: t.entries.push(e), max_index }, false),
    }
}

/// Records `node` at the nested position `path`, creating the nested lists
/// on the way; says whether something recorded before was replaced, a
/// scalar on the way included.
pub open spec fn insert_path_v(t: TreeV, path: Seq<usize>, node: NodeV, implicit: bool) -> (TreeV, bool)
    decreases path.len(),
{
    if path.len() == 0 {
        (t, false)
    } else if path.len() == 1 {
        insert_leaf_v(t, path[0], node, implicit)
    } else {
        let index = path[0];
        let max_index = bump_max(t.max_index, index);
        let (entries, pos) = match find_pos(t.entries, index) {
            Some(p) => (t.entries, p),
            None => (
                t.entries.push(EntryV { index, node: NodeV::List(empty_tree()), is_implicit: implicit }),
                t.entries.len() as int,
            ),
        };
        let (child, overridden) = match entries[pos].node {
            NodeV::List(c) => (c, false),
            NodeV::Scalar(_) => (empty_tree(), true),
        };
        let (child2, deeper) = insert_path_v(child, path.drop_first(), node, implicit);
        (
            TreeV {
                entries: entries.update(pos, EntryV { index, node: NodeV::List(child2), is_implicit: implicit }),
                max_index,
            },
            overridden || deeper,
        )
    }
}


/// A report of initialization, as a mathematical value.
#[verifier::ext_equal]
pub enum DiagV {
    ExcessElemInInitializer,
    DuplicateInitializer(Seq<usize>),
    DesignatorIndexOutOfBound(usize, usize),
    DesignatorOnNonArray(usize),
    InvalidDesignator,
    UnsupportedFeature,
    ExcessBraceAroundScalarInitializer,
    DesignatorForNonAggregate,
    NonEmptyInitVLA,
    DeducedTypeWithBracedInitializer,
    InitializerStringTooLong(usize, usize),
    NonIntegerInArraySubscript,
    ExprNotConstant,
    DesignatorIndexNegative(Integral),
}

pub open spec fn diag_view(d: InitDiag) -> DiagV {
    match d {
        InitDiag::ExcessElemInInitializer => DiagV::ExcessElemInInitializer,
        InitDiag::DuplicateInitializer(p) => DiagV::DuplicateInitializer(p@),
        InitDiag::DesignatorIndexOutOfBound(i, b) => DiagV::DesignatorIndexOutOfBound(i, b),
        InitDiag::DesignatorOnNonArray(i) => DiagV::DesignatorOnNonArray(i),
        InitDiag::InvalidDesignator => DiagV::InvalidDesignator,
        InitDiag::UnsupportedFeature => DiagV::UnsupportedFeature,
        InitDiag::ExcessBraceAroundScalarInitializer => DiagV::ExcessBraceAroundScalarInitializer,
        InitDiag::DesignatorForNonAggregate => DiagV::DesignatorForNonAggregate,
        InitDiag::NonEmptyInitVLA => DiagV::NonEmptyInitVLA,
        InitDiag::DeducedTypeWithBracedInitializer => DiagV::DeducedTypeWithBracedInitializer,
        InitDiag::InitializerStringTooLong(n, b) => DiagV::InitializerStringTooLong(n, b),
        InitDiag::NonIntegerInArraySubscript => DiagV::NonIntegerInArraySubscript,
        InitDiag::ExprNotConstant => DiagV::ExprNotConstant,
        InitDiag::DesignatorIndexNegative(v) => DiagV::DesignatorIndexNegative(v),
    }
}

/// The reports, as mathematical values.
pub open spec fn diags_view(d: Seq<InitDiag>) -> Seq<DiagV> {
    d.map_values(|x: InitDiag| diag_view(x))
}

/// The state of a list being consumed: what is recorded and what was reported.
#[verifier::ext_equal]
pub struct InitState {
    pub tree: TreeV,
    pub diags: Seq<DiagV>,
}

/// The number of scalars an object of type `t` holds: arrays of unknown
/// length count as none.
pub open spec fn leaf_width(t: ObjType) -> nat
    decreases t,
{
    match t {
        ObjType::Array(e, ArraySize::Constant(n)) => sat_mul(n as nat, leaf_width(*e)),
        ObjType::Array(_, _) => 0,
        _ => 1,
    }
}

/// The array indices that lead to the scalar at position `flat` of the
/// flattened object; an array of elements of unknown length takes index zero.
pub open spec fn flat_path(t: ObjType, flat: nat) -> Seq<usize>
    decreases t,
{
    match t {
        ObjType::Array(e, _) => {
            let stride = leaf_width(*e);
            if stride == 0 {
                seq![0usize] + flat_path(*e, flat)
            } else {
                seq![(flat / stride) as usize] + flat_path(*e, flat % stride)
            }
        },
        _ => seq![],
    }
}

/// The type inside all levels of arrays.
pub open spec fn innermost(t: ObjType) -> ObjType
    decreases t,
{
    match t {
        ObjType::Array(e, _) => innermost(*e),
        _ => t,
    }
}

/// A string literal initializing an array of characters.
pub open spec fn is_char_array_string(e: ExprId, t: ObjType) -> bool {
    &&& e.is_string_literal
    &&& t matches ObjType::Array(elem, _) && *elem == (ObjType::Scalar { is_character: true })
}

/// The element type of an array type.
pub open spec fn element_of(t: ObjType) -> ObjType {
    match t {
        ObjType::Array(e, _) => *e,
        _ => t,
    }
}

/// The length of an array type, when it is a constant.
pub open spec fn bound_of(t: ObjType) -> Option<usize> {
    match t {
        ObjType::Array(_, ArraySize::Constant(n)) => Some(n),
        _ => None,
    }
}

/// The type `t[1]`.
pub open spec fn singleton_of(t: ObjType) -> ObjType {
    ObjType::Array(Box::new(t), ArraySize::Constant(1))
}

/// Resolves the array designators `ds` from position `i` on against type
/// `t`, continuing `resolved` and `diags`: the indices, the designated type
/// and what was reported.
pub open spec fn resolve_from(
    ds: Seq<DesignatorInput>,
    i: int,
    t: ObjType,
    resolved: Seq<usize>,
    diags: Seq<DiagV>,
) -> (Seq<usize>, ObjType, Seq<DiagV>)
    decreases ds.len() - i,
{
    if i < 0 || i >= ds.len() {
        (resolved, t, diags)
    } else {
        match ds[i] {
            DesignatorInput::Index(index) => match t {
                ObjType::Array(e, size) => {
                    let diags2 = match (size, index) {
                        (ArraySize::Constant(b), Some(x)) => if x >= b {
                            diags.push(DiagV::DesignatorIndexOutOfBound(x, b))
                        } else {
                            diags
                        },
                        _ => diags,
                    };
                    let idx = match index {
                        Some(x) => x,
                        None => npos(),
                    };
                    resolve_from(ds, i + 1, *e, resolved.push(idx), diags2)
                },
                _ => {
                    let diags2 = match index {
                        Some(x) => diags.push(DiagV::DesignatorOnNonArray(x)),
                        None => diags,
                    };
                    (resolved.push(npos()), t, diags2)
                },
            },
            DesignatorInput::Field => (resolved, t, diags.push(DiagV::InvalidDesignator)),
        }
    }
}

/// Records `node` at `path`, reporting an initializer it replaces; a path
/// that is empty or holds the error index records nothing.
pub open spec fn record_v(st: InitState, path: Seq<usize>, node: NodeV, implicit: bool) -> InitState {
    if path.len() == 0 || path.contains(npos()) {
        st
    } else {
        let (t2, dup) = insert_path_v(st.tree, path, node, implicit);
        InitState {
            tree: t2,
            diags: if dup {
                st.diags.push(DiagV::DuplicateInitializer(path))
            } else {
                st.diags
            },
        }
    }
}

/// Consumes an initializer for an object of type `t` at `path`.
pub open spec fn object_init_v(init: InitInput, t: ObjType, path: Seq<usize>, st: InitState, implicit: bool) -> InitState
    decreases init, 0nat, 0nat,
{
    match t {
        ObjType::Array(_, _) => match init {
            InitInput::List(entries) => {
                let local = ilist_v(entries@, t, InitState { tree: empty_tree(), diags: st.diags });
                record_v(InitState { tree: st.tree, diags: local.diags }, path, NodeV::List(local.tree), implicit)
            },
            InitInput::Expression(e) => if is_char_array_string(e, t) {
                record_v(st, path, NodeV::Scalar(e), implicit)
            } else {
                record_v(st, path + flat_path(t, 0), NodeV::Scalar(e), implicit)
            },
        },
        ObjType::Record => {
            let st1 = InitState { tree: st.tree, diags: st.diags.push(DiagV::UnsupportedFeature) };
            match init {
                InitInput::Expression(e) => record_v(st1, path, NodeV::Scalar(e), implicit),
                InitInput::List(_) => record_v(st1, path, NodeV::List(empty_tree()), implicit),
            }
        },
        ObjType::Scalar { .. } => match init {
            InitInput::Expression(e) => record_v(st, path, NodeV::Scalar(e), implicit),
            InitInput::List(entries) => braced_scalar_v(t, path, st, implicit, entries@),
        },
    }
}

/// Consumes a braced initializer of a scalar: it is read as the initializer
/// of a one-element array, and its single element stands for the scalar.
pub open spec fn braced_scalar_v(t: ObjType, path: Seq<usize>, st: InitState, implicit: bool, entries: Seq<InitEntry>) -> InitState
    decreases entries, 2nat, 0nat,
{
    let local = ilist_v(
        entries,
        singleton_of(t),
        InitState { tree: empty_tree(), diags: st.diags.push(DiagV::ExcessBraceAroundScalarInitializer) },
    );
    if local.tree.entries.len() == 0 {
        record_v(InitState { tree: st.tree, diags: local.diags }, path, NodeV::List(local.tree), implicit)
    } else if !local.tree.entries[0].is_implicit {
        InitState { tree: st.tree, diags: local.diags.push(DiagV::DesignatorForNonAggregate) }
    } else {
        record_v(InitState { tree: st.tree, diags: local.diags }, path, local.tree.entries[0].node, implicit)
    }
}

/// Consumes the entries of a list initializing an array of type `array_ty`.
pub open spec fn ilist_v(entries: Seq<InitEntry>, array_ty: ObjType, st: InitState) -> InitState
    decreases entries, 1nat, 0nat,
{
    let width = if leaf_width(element_of(array_ty)) == 0 {
        1
    } else {
        leaf_width(element_of(array_ty))
    };
    ilist_from(entries, 0, array_ty, st, 0, width).0
}

/// Consumes the entries from position `i` on, with the cursor at `cursor`
/// and `width` scalars in each element.
pub open spec fn ilist_from(
    entries: Seq<InitEntry>,
    i: int,
    array_ty: ObjType,
    st: InitState,
    cursor: nat,
    width: nat,
) -> (InitState, nat)
    decreases entries, 0nat, entries.len() - i,
{
    if i < 0 || i >= entries.len() {
        (st, cursor)
    } else {
        let (st1, c1) = entry_v(entries[i], array_ty, st, cursor, width);
        ilist_from(entries, i + 1, array_ty, st1, c1, width)
    }
}

/// Consumes one entry of an array's list.
pub open spec fn entry_v(entry: InitEntry, array_ty: ObjType, st: InitState, cursor: nat, width: nat) -> (InitState, nat)
    decreases entry, 0nat, 0nat,
{
    match entry {
        InitEntry::Anonymous(init) => anon_v(init, array_ty, st, cursor, width),
        InitEntry::Designated(ds, init) => designated_v(ds@, init, array_ty, st, cursor, width),
    }
}

/// Consumes a designated entry: it initializes the designated object, and
/// the cursor moves past the element its first designator names.
pub open spec fn designated_v(
    ds: Seq<DesignatorInput>,
    init: InitInput,
    array_ty: ObjType,
    st: InitState,
    cursor: nat,
    width: nat,
) -> (InitState, nat)
    decreases init, 1nat, 0nat,
{
    let (path, dty, diags) = resolve_from(ds, 0, array_ty, seq![], st.diags);
    let st1 = InitState { tree: st.tree, diags };
    if path.len() == 0 || path.contains(npos()) {
        (st1, cursor)
    } else {
        let st2 = object_init_v(init, dty, path, st1, false);
        (st2, sat_mul(sat_add(path[0] as nat, 1), width))
    }
}

/// Consumes an entry without designator: a braced one initializes the
/// element the cursor is in and the cursor moves to the next element; an
/// expression initializes the next scalar, brace elision filling the
/// elements of nested arrays in order.
pub open spec fn anon_v(init: InitInput, array_ty: ObjType, st: InitState, cursor: nat, width: nat) -> (InitState, nat)
    decreases init, 1nat, 0nat,
{
    let element = element_of(array_ty);
    let bound = bound_of(array_ty);
    let excess = InitState { tree: st.tree, diags: st.diags.push(DiagV::ExcessElemInInitializer) };
    match init {
        InitInput::List(_) => {
            let object_index = cursor / width;
            if bound matches Some(b) && object_index >= b {
                (excess, sat_add(cursor, width))
            } else {
                let st2 = object_init_v(init, element, seq![object_index as usize], st, true);
                (st2, sat_mul(sat_add(object_index, 1), width))
            }
        },
        InitInput::Expression(e) => {
            if bound matches Some(b) && cursor >= sat_mul(b as nat, width) {
                (excess, sat_add(cursor, 1))
            } else if element is Array {
                if is_char_array_string(e, element) {
                    let object_index = cursor / width;
                    if bound matches Some(b) && object_index >= b {
                        (excess, sat_add(cursor, 1))
                    } else {
                        let st2 = object_init_v(init, element, seq![object_index as usize], st, true);
                        (st2, sat_mul(sat_add(object_index, 1), width))
                    }
                } else {
                    (record_v(st, flat_path(array_ty, cursor), NodeV::Scalar(e), true), sat_add(cursor, 1))
                }
            } else {
                (record_v(st, seq![cursor as usize], NodeV::Scalar(e), true), sat_add(cursor, 1))
            }
        },
    }
}


/// The state as a mathematical value.
pub open spec fn state_of(tree: ArrayTree, diags: Seq<InitDiag>) -> InitState {
    InitState { tree: tree.view(), diags: diags_view(diags) }
}

/// `a * b`, saturating.
fn sat_mul_usize(a: usize, b: usize) -> (r: usize)
    ensures
        r == sat_mul(a as nat, b as nat),
{
    match a.checked_mul(b) {
        Some(p) => p,
        None => usize::MAX,
    }
}

/// `a + b`, saturating.
fn sat_add_usize(a: usize, b: usize) -> (r: usize)
    ensures
        r == sat_add(a as nat, b as nat),
{
    a.saturating_add(b)
}

/// Pushes a report, keeping the view of the reports in step.
fn report(diags: &mut Vec<InitDiag>, d: InitDiag)
    ensures
        diags_view(final(diags)@) == diags_view(old(diags)@).push(diag_view(d)),
{
    diags.push(d);
    assert(diags_view(diags@) =~= diags_view(old(diags)@).push(diag_view(d)));
}

/// The number of scalars an object of type `t` holds, saturating.
pub fn scalar_leaf_width(t: &ObjType) -> (r: usize)
    ensures
        r == leaf_width(*t),
    decreases *t,
{
    match t {
        ObjType::Array(e, ArraySize::Constant(n)) => sat_mul_usize(*n, scalar_leaf_width(e)),
        ObjType::Array(_, _) => 0,
        _ => 1,
    }
}

/// The array indices leading to the scalar at position `flat` of the
/// flattened object of type `t`.
pub fn relative_scalar_path_from_flat(t: &ObjType, flat: usize) -> (r: Vec<usize>)
    ensures
        r@ == flat_path(*t, flat as nat),
    decreases *t,
{
    match t {
        ObjType::Array(e, _) => {
            let stride = scalar_leaf_width(e);
            let (head, rest) = if stride == 0 {
                (0usize, flat)
            } else {
                (flat / stride, flat % stride)
            };
            let tail = relative_scalar_path_from_flat(e, rest);
            let mut path: Vec<usize> = Vec::new();
            path.push(head);
            let mut k: usize = 0;
            while k < tail.len()
                invariant
                    k <= tail@.len(),
                    path@ =~= seq![head] + tail@.subrange(0, k as int),
                decreases tail@.len() - k,
            {
                path.push(tail[k]);
                k = k + 1;
                assert(path@ =~= seq![head] + tail@.subrange(0, k as int));
            }
            assert(tail@.subrange(0, tail@.len() as int) =~= tail@);
            path
        },
        _ => Vec::new(),
    }
}

/// A string literal initializing an array of characters.
pub fn is_char_array_string_literal(e: ExprId, t: &ObjType) -> (r: bool)
    ensures
        r == is_char_array_string(e, *t),
{
    match t {
        ObjType::Array(elem, _) => e.is_string_literal && match **elem {
            ObjType::Scalar { is_character } => is_character,
            _ => false,
        },
        _ => false,
    }
}

/// Resolves a designation against an array type: the indices, in order,
/// and the type designated. An index that is missing or out of range, or a
/// designator that does not apply, is reported.
pub fn resolve_array_designator_path<'a>(designators: &Vec<DesignatorInput>, target_type: &'a ObjType, diags: &mut Vec<InitDiag>) -> (r: (Vec<usize>, &'a ObjType))
    ensures
        ({
            let (path, t, d) = resolve_from(designators@, 0, *target_type, seq![], diags_view(old(diags)@));
            r.0@ == path && *r.1 == t && diags_view(final(diags)@) == d
        }),
{
    let mut resolved: Vec<usize> = Vec::new();
    let mut t = target_type;
    let mut i: usize = 0;
    while i < designators.len()
        invariant
            i <= designators@.len(),
            resolve_from(designators@, 0, *target_type, seq![], diags_view(old(diags)@))
                == resolve_from(designators@, i as int, *t, resolved@, diags_view(diags@)),
        decreases designators@.len() - i,
    {
        match designators[i] {
            DesignatorInput::Index(index) => {
                match t {
                    ObjType::Array(e, size) => {
                        match (size, index) {
                            (ArraySize::Constant(b), Some(x)) => {
                                if x >= *b {
                                    report(diags, InitDiag::DesignatorIndexOutOfBound(x, *b));
                                }
                            },
                            _ => {},
                        }
                        let idx = match index {
                            Some(x) => x,
                            None => usize::MAX,
                        };
                        resolved.push(idx);
                        t = e;
                    },
                    _ => {
                        match index {
                            Some(x) => report(diags, InitDiag::DesignatorOnNonArray(x)),
                            None => {},
                        }
                        resolved.push(usize::MAX);
                        return (resolved, t);
                    },
                }
            },
            DesignatorInput::Field => {
                report(diags, InitDiag::InvalidDesignator);
                return (resolved, t);
            },
        }
        i = i + 1;
    }
    (resolved, t)
}

/// Whether a path holds the error index.
fn path_has_npos(path: &Vec<usize>) -> (r: bool)
    ensures
        r == path@.contains(npos()),
{
    let mut k: usize = 0;
    while k < path.len()
        invariant
            k <= path@.len(),
            forall|j: int| 0 <= j < k ==> path@[j] != npos(),
        decreases path@.len() - k,
    {
        if path[k] == usize::MAX {
            assert(path@[k as int] == npos());
            return true;
        }
        k = k + 1;
    }
    false
}

/// Records `node` at `path` of `state`, reporting an initializer it
/// replaces; a path that is empty or holds the error index records nothing.
pub fn record_array_node(state: &mut ArrayTree, diags: &mut Vec<InitDiag>, path: Vec<usize>, node: InitNode, is_implicit: bool)
    ensures
        state_of(*final(state), final(diags)@) == record_v(state_of(*old(state), old(diags)@), path@, node_view(node), is_implicit),
{
    if path.len() == 0 || path_has_npos(&path) {
        return;
    }
    let overridden = state.insert_path(path.as_slice(), node, is_implicit);
    if overridden {
        report(diags, InitDiag::DuplicateInitializer(path));
    }
}


/// Processes the initializers of declarations.
#[derive(Debug, Clone, Copy, PartialEq, Eq)]
pub struct Initialization {
    /// The object has static storage (a global or a local `static`), so
    /// its initializers must be constant expressions.
    pub requires_folding: bool,
}

impl Initialization {
    pub fn new(requires_folding: bool) -> (r: Self)
        ensures
            r.requires_folding == requires_folding,
    {
        Initialization { requires_folding }
    }

    /// Consumes an initializer for an object of type `target` at `path`.
    fn consume_object_initializer(
        &self,
        init: InitInput,
        target: &ObjType,
        path: Vec<usize>,
        state: &mut ArrayTree,
        diags: &mut Vec<InitDiag>,
        is_implicit: bool,
    )
        ensures
            state_of(*final(state), final(diags)@) == object_init_v(
                init,
                *target,
                path@,
                state_of(*old(state), old(diags)@),
                is_implicit,
            ),
        decreases init, 0nat, 0nat,
    {
        match target {
            ObjType::Array(_, _) => match init {
                InitInput::List(entries) => {
                    let mut local = ArrayTree::new();
                    self.consume_array_ilist(entries, target, &mut local, diags);
                    record_array_node(state, diags, path, InitNode::List(local), is_implicit);
                },
                InitInput::Expression(e) => {
                    if is_char_array_string_literal(e, target) {
                        record_array_node(state, diags, path, InitNode::Scalar(e), is_implicit);
                    } else {
                        let rel = relative_scalar_path_from_flat(target, 0);
                        let mut full = path;
                        let ghost head = full@;
                        let mut k: usize = 0;
                        while k < rel.len()
                            invariant
                                k <= rel@.len(),
                                full@ =~= head + rel@.subrange(0, k as int),
                            decreases rel@.len() - k,
                        {
                            full.push(rel[k]);
                            k = k + 1;
                            assert(full@ =~= head + rel@.subrange(0, k as int));
                        }
                        assert(rel@.subrange(0, rel@.len() as int) =~= rel@);
                        record_array_node(state, diags, full, InitNode::Scalar(e), is_implicit);
                    }
                },
            },
            ObjType::Record => {
                report(diags, InitDiag::UnsupportedFeature);
                match init {
                    InitInput::Expression(e) => {
                        record_array_node(state, diags, path, InitNode::Scalar(e), is_implicit);
                    },
                    InitInput::List(_) => {
                        record_array_node(state, diags, path, InitNode::List(ArrayTree::new()), is_implicit);
                    },
                }
            },
            ObjType::Scalar { is_character } => match init {
                InitInput::Expression(e) => {
                    record_array_node(state, diags, path, InitNode::Scalar(e), is_implicit);
                },
                InitInput::List(entries) => {
                    self.consume_braced_scalar(*is_character, path, state, diags, is_implicit, entries);
                },
            },
        }
    }

    /// Consumes a braced initializer of a scalar of a character type or not.
    fn consume_braced_scalar(
        &self,
        is_character: bool,
        path: Vec<usize>,
        state: &mut ArrayTree,
        diags: &mut Vec<InitDiag>,
        is_implicit: bool,
        entries: Vec<InitEntry>,
    )
        ensures
            state_of(*final(state), final(diags)@) == braced_scalar_v(
                ObjType::Scalar { is_character },
                path@,
                state_of(*old(state), old(diags)@),
                is_implicit,
                entries@,
            ),
        decreases entries@, 2nat, 0nat,
    {
        report(diags, InitDiag::ExcessBraceAroundScalarInitializer);
        let pseudo_scalar = ObjType::Array(Box::new(ObjType::Scalar { is_character }), ArraySize::Constant(1));
        let mut local = ArrayTree::new();
        self.consume_array_ilist(entries, &pseudo_scalar, &mut local, diags);
        if local.is_empty() {
            record_array_node(state, diags, path, InitNode::List(local), is_implicit);
            return;
        }
        proof {
            lemma_entries_view(local, 0);
        }
        let first = local.entries.remove(0);
        if !first.is_implicit {
            report(diags, InitDiag::DesignatorForNonAggregate);
            return;
        }
        record_array_node(state, diags, path, first.node, is_implicit);
    }

    /// Consumes the entries of a list initializing an array of type `array_type`.
    fn consume_array_ilist(&self, entries: Vec<InitEntry>, array_type: &ObjType, state: &mut ArrayTree, diags: &mut Vec<InitDiag>)
        requires
            *array_type is Array,
        ensures
            state_of(*final(state), final(diags)@) == ilist_v(
                entries@,
                *array_type,
                state_of(*old(state), old(diags)@),
            ),
        decreases entries@, 1nat, 0nat,
    {
        let element: &ObjType = match array_type {
            ObjType::Array(e, _) => e,
            _ => array_type,
        };
        let leaf = scalar_leaf_width(element);
        let width = if leaf == 0 {
            1
        } else {
            leaf
        };
        let mut cursor: usize = 0;
        let ghost all = entries@;
        let ghost mut i: int = 0;
        let mut rest = entries;
        while rest.len() > 0
            invariant
                *array_type is Array,
                all == entries@,
                0 <= i <= all.len(),
                rest@ == all.subrange(i, all.len() as int),
                width as nat == (if leaf_width(element_of(*array_type)) == 0 {
                    1
                } else {
                    leaf_width(element_of(*array_type))
                }),
                ilist_v(all, *array_type, state_of(*old(state), old(diags)@)) == ilist_from(
                    all,
                    i,
                    *array_type,
                    state_of(*state, diags@),
                    cursor as nat,
                    width as nat,
                ).0,
            decreases rest@.len(),
        {
            let entry = rest.remove(0);
            assert(entry == all[i]);
            assert(decreases_to!(all => all[i]));
            self.consume_array_entry(array_type, state, diags, &mut cursor, width, entry);
            proof {
                i = i + 1;
            }
            assert(rest@ =~= all.subrange(i, all.len() as int));
        }
    }

    /// Consumes one entry of an array's list.
    fn consume_array_entry(
        &self,
        array_type: &ObjType,
        state: &mut ArrayTree,
        diags: &mut Vec<InitDiag>,
        cursor: &mut usize,
        width: usize,
        entry: InitEntry,
    )
        requires
            *array_type is Array,
            width >= 1,
        ensures
            (state_of(*final(state), final(diags)@), *final(cursor) as nat) == entry_v(
                entry,
                *array_type,
                state_of(*old(state), old(diags)@),
                *old(cursor) as nat,
                width as nat,
            ),
        decreases entry, 0nat, 0nat,
    {
        match entry {
            InitEntry::Anonymous(init) => {
                self.consume_anonymous_array_entry(array_type, state, diags, width, cursor, init);
            },
            InitEntry::Designated(designators, init) => {
                self.consume_designated_array_entry(array_type, state, diags, width, cursor, designators, init);
            },
        }
    }

    /// Consumes a designated entry.
    fn consume_designated_array_entry(
        &self,
        array_type: &ObjType,
        state: &mut ArrayTree,
        diags: &mut Vec<InitDiag>,
        width: usize,
        cursor: &mut usize,
        designators: Vec<DesignatorInput>,
        init: InitInput,
    )
        requires
            *array_type is Array,
            width >= 1,
        ensures
            (state_of(*final(state), final(diags)@), *final(cursor) as nat) == designated_v(
                designators@,
                init,
                *array_type,
                state_of(*old(state), old(diags)@),
                *old(cursor) as nat,
                width as nat,
            ),
        decreases init, 1nat, 0nat,
    {
        let (path, designated_type) = resolve_array_designator_path(&designators, array_type, diags);
        if path.len() == 0 || path_has_npos(&path) {
            return;
        }
        let first_index = path[0];
        *cursor = sat_mul_usize(first_index, width);
        self.consume_object_initializer(init, designated_type, path, state, diags, false);
        *cursor = sat_mul_usize(sat_add_usize(first_index, 1), width);
    }

    /// Consumes an entry without designator.
    fn consume_anonymous_array_entry(
        &self,
        array_type: &ObjType,
        state: &mut ArrayTree,
        diags: &mut Vec<InitDiag>,
        width: usize,
        cursor: &mut usize,
        init: InitInput,
    )
        requires
            *array_type is Array,
            width >= 1,
        ensures
            (state_of(*final(state), final(diags)@), *final(cursor) as nat) == anon_v(
                init,
                *array_type,
                state_of(*old(state), old(diags)@),
                *old(cursor) as nat,
                width as nat,
            ),
        decreases init, 1nat, 0nat,
    {
        let element: &ObjType = match array_type {
            ObjType::Array(e, _) => e,
            _ => array_type,
        };
        let bound: Option<usize> = match array_type {
            ObjType::Array(_, ArraySize::Constant(n)) => Some(*n),
            _ => None,
        };
        let expr = match &init {
            InitInput::Expression(e) => Some(*e),
            InitInput::List(_) => None,
        };
        match expr {
            None => {
                let object_index = *cursor / width;
                if let Some(b) = bound {
                    if object_index >= b {
                        report(diags, InitDiag::ExcessElemInInitializer);
                        *cursor = sat_add_usize(*cursor, width);
                        return;
                    }
                }
                let mut object_path: Vec<usize> = Vec::new();
                object_path.push(object_index);
                self.consume_object_initializer(init, element, object_path, state, diags, true);
                *cursor = sat_mul_usize(sat_add_usize(object_index, 1), width);
            },
            Some(e) => {
                if let Some(b) = bound {
                    if *cursor >= sat_mul_usize(b, width) {
                        report(diags, InitDiag::ExcessElemInInitializer);
                        *cursor = sat_add_usize(*cursor, 1);
                        return;
                    }
                }
                if matches!(element, ObjType::Array(..)) {
                    if is_char_array_string_literal(e, element) {
                        let object_index = *cursor / width;
                        if let Some(b) = bound {
                            if object_index >= b {
                                report(diags, InitDiag::ExcessElemInInitializer);
                                *cursor = sat_add_usize(*cursor, 1);
                                return;
                            }
                        }
                        let mut object_path: Vec<usize> = Vec::new();
                        object_path.push(object_index);
                        self.consume_object_initializer(init, element, object_path, state, diags, true);
                        *cursor = sat_mul_usize(sat_add_usize(object_index, 1), width);
                        return;
                    }
                    let rel_path = relative_scalar_path_from_flat(array_type, *cursor);
                    record_array_node(state, diags, rel_path, InitNode::Scalar(e), true);
                } else {
                    let mut full_path: Vec<usize> = Vec::new();
                    full_path.push(*cursor);
                    record_array_node(state, diags, full_path, InitNode::Scalar(e), true);
                }
                *cursor = sat_add_usize(*cursor, 1);
            },
        }
    }
}


/// The larger of two array types, level by level: a constant length wins
/// over an unknown one, and of two constant lengths the larger.
pub open spec fn merge_max_v(lhs: ObjType, rhs: ObjType) -> ObjType
    decreases lhs,
{
    match (lhs, rhs) {
        (ObjType::Array(le, ls), ObjType::Array(re, rs)) => {
            let element = if (*le is Array) && (*re is Array) {
                merge_max_v(*le, *re)
            } else {
                *le
            };
            let size = match (ls, rs) {
                (ArraySize::Constant(a), ArraySize::Constant(b)) => ArraySize::Constant(
                    if a >= b { a } else { b },
                ),
                (ArraySize::Constant(a), _) => ArraySize::Constant(a),
                (_, ArraySize::Constant(b)) => ArraySize::Constant(b),
                _ => ArraySize::Incomplete,
            };
            ObjType::Array(Box::new(element), size)
        },
        _ => lhs,
    }
}

/// The type of an array initialized as `tree` records: an array of unknown
/// length gets one more element than the largest index initialized, and
/// nested arrays are inferred from the nested lists.
pub open spec fn infer_v(t: ObjType, tree: TreeV) -> ObjType
    decreases tree, 1nat, 0nat,
{
    match t {
        ObjType::Array(e, size) => {
            let element = if *e is Array {
                infer_child_from(*e, tree, 0, None)
            } else {
                *e
            };
            let size2 = match size {
                ArraySize::Constant(n) => ArraySize::Constant(n),
                _ => ArraySize::Constant(sat_add(tree.max_index as nat, 1) as usize),
            };
            ObjType::Array(Box::new(element), size2)
        },
        _ => t,
    }
}

/// The element type inferred from the nested lists of `tree` from entry
/// `i` on, merged into `acc`; `default` when there is none.
pub open spec fn infer_child_from(default: ObjType, tree: TreeV, i: int, acc: Option<ObjType>) -> ObjType
    decreases tree, 0nat, tree.entries.len() - i,
{
    if i < 0 || i >= tree.entries.len() {
        match acc {
            Some(t) => t,
            None => default,
        }
    } else {
        let acc2 = match tree.entries[i].node {
            NodeV::List(child) => {
                let c = infer_v(default, child);
                Some(
                    match acc {
                        Some(prev) => merge_max_v(prev, c),
                        None => c,
                    },
                )
            },
            NodeV::Scalar(_) => acc,
        };
        infer_child_from(default, tree, i + 1, acc2)
    }
}

/// A copy of a type.
pub fn copy_type(t: &ObjType) -> (r: ObjType)
    ensures
        r == *t,
    decreases *t,
{
    match t {
        ObjType::Scalar { is_character } => ObjType::Scalar { is_character: *is_character },
        ObjType::Array(e, size) => ObjType::Array(Box::new(copy_type(e)), *size),
        ObjType::Record => ObjType::Record,
    }
}

/// The type an object gets from its initializer: a character array of
/// unknown length initialized with a string literal of `n` characters has
/// length `n + 1`, for the terminating NUL; any other type stays.
pub open spec fn completed_type(target: ObjType, string_len: Option<usize>) -> ObjType {
    match (target, string_len) {
        (ObjType::Array(e, ArraySize::Incomplete), Some(n)) => if *e == (ObjType::Scalar { is_character: true }) {
            ObjType::Array(e, ArraySize::Constant(sat_add(n as nat, 1) as usize))
        } else {
            target
        },
        _ => target,
    }
}

/// Completes the type of an object initialized with a string literal of
/// `string_len` characters (`None` for any other initializer).
pub fn complete_type_if_eligible(target: &ObjType, string_len: Option<usize>) -> (r: ObjType)
    ensures
        r == completed_type(*target, string_len),
{
    match (target, string_len) {
        (ObjType::Array(e, ArraySize::Incomplete), Some(n)) => {
            match &**e {
                ObjType::Scalar { is_character: true } => ObjType::Array(
                    Box::new(ObjType::Scalar { is_character: true }),
                    ArraySize::Constant(n.saturating_add(1)),
                ),
                _ => copy_type(target),
            }
        },
        _ => copy_type(target),
    }
}

/// The error, if any, for initializing an object of type `target` with a
/// string literal of `string_len` characters: a character array of known
/// length shorter than the literal cannot hold it.
pub fn check_string_initializer(target: &ObjType, string_len: usize) -> (r: Option<InitDiag>)
    ensures
        r == (match *target {
            ObjType::Array(e, ArraySize::Constant(bound)) => if *e == (ObjType::Scalar { is_character: true })
                && bound < string_len {
                Some(InitDiag::InitializerStringTooLong(string_len, bound))
            } else {
                None
            },
            _ => None,
        }),
{
    match target {
        ObjType::Array(e, ArraySize::Constant(bound)) => match &**e {
            ObjType::Scalar { is_character: true } => if *bound < string_len {
                Some(InitDiag::InitializerStringTooLong(string_len, *bound))
            } else {
                None
            },
            _ => None,
        },
        _ => None,
    }
}

/// The larger of two array types, level by level.
pub fn merge_array_types_max(lhs: &ObjType, rhs: &ObjType) -> (r: ObjType)
    ensures
        r == merge_max_v(*lhs, *rhs),
    decreases *lhs,
{
    match (lhs, rhs) {
        (ObjType::Array(le, ls), ObjType::Array(re, rs)) => {
            let element = if matches!(**le, ObjType::Array(..)) && matches!(**re, ObjType::Array(..)) {
                merge_array_types_max(le, re)
            } else {
                copy_type(le)
            };
            let size = match (*ls, *rs) {
                (ArraySize::Constant(a), ArraySize::Constant(b)) => ArraySize::Constant(
                    if a >= b { a } else { b },
                ),
                (ArraySize::Constant(a), _) => ArraySize::Constant(a),
                (_, ArraySize::Constant(b)) => ArraySize::Constant(b),
                _ => ArraySize::Incomplete,
            };
            ObjType::Array(Box::new(element), size)
        },
        _ => copy_type(lhs),
    }
}

/// The type of an array initialized as `tree` records.
pub fn infer_array_type(array_type: &ObjType, tree: &ArrayTree) -> (r: ObjType)
    ensures
        r == infer_v(*array_type, tree.view()),
    decreases *tree, 1nat, 0nat,
{
    match array_type {
        ObjType::Array(e, size) => {
            let element = if matches!(**e, ObjType::Array(..)) {
                infer_child_element_type(e, tree)
            } else {
                copy_type(e)
            };
            let size2 = match size {
                ArraySize::Constant(n) => ArraySize::Constant(*n),
                _ => ArraySize::Constant(sat_add_usize(tree.max_index, 1)),
            };
            proof {
                lemma_entries_view(*tree, 0);
            }
            ObjType::Array(Box::new(element), size2)
        },
        _ => copy_type(array_type),
    }
}

/// The element type inferred from the nested lists of `tree`, merged level
/// by level; `default_element_type` when there is none.
pub fn infer_child_element_type(default_element_type: &ObjType, tree: &ArrayTree) -> (r: ObjType)
    ensures
        r == infer_child_from(*default_element_type, tree.view(), 0, None),
    decreases *tree, 0nat, tree.entries@.len() + 1,
{
    proof {
        lemma_entries_view(*tree, 0);
    }
    let mut inferred: Option<ObjType> = None;
    let mut k: usize = 0;
    while k < tree.entries.len()
        invariant
            k <= tree.entries@.len(),
            tree.view().entries =~= tree.entries@.map_values(|e: TreeEntry| entry_view(e)),
            infer_child_from(*default_element_type, tree.view(), 0, None) == infer_child_from(
                *default_element_type,
                tree.view(),
                k as int,
                inferred,
            ),
        decreases tree.entries@.len() - k,
    {
        match &tree.entries[k].node {
            InitNode::List(child) => {
                assert(decreases_to!(*tree => tree.entries@[k as int].node));
                let c = infer_array_type(default_element_type, child);
                inferred = Some(
                    match inferred {
                        Some(prev) => merge_array_types_max(&prev, &c),
                        None => c,
                    },
                );
            },
            InitNode::Scalar(_) => {},
        }
        k = k + 1;
    }
    match inferred {
        Some(t) => t,
        None => copy_type(default_element_type),
    }
}

/// Some dimension of the type is a variable length.
pub open spec fn has_vla_dim(t: ObjType) -> bool
    decreases t,
{
    match t {
        ObjType::Array(e, size) => size == ArraySize::Variable || has_vla_dim(*e),
        _ => false,
    }
}

/// The error expression.
pub open spec fn error_expr() -> ExprId {
    ExprId { id: usize::MAX, is_string_literal: false }
}

/// What a brace-enclosed initializer list gives for an object of type `t`:
/// the recorded initializers, the object's type with unknown array lengths
/// completed, and the reports.
pub open spec fn list_v(entries: Seq<InitEntry>, t: ObjType, diags: Seq<DiagV>) -> (TreeV, ObjType, Seq<DiagV>) {
    let start = InitState { tree: empty_tree(), diags };
    match t {
        ObjType::Scalar { .. } => {
            let st = ilist_v(entries, singleton_of(t), start);
            (st.tree, t, st.diags)
        },
        ObjType::Array(_, _) => {
            let st = ilist_v(entries, t, start);
            (st.tree, infer_v(t, st.tree), st.diags)
        },
        ObjType::Record => (
            TreeV {
                entries: seq![EntryV { index: npos(), node: NodeV::Scalar(error_expr()), is_implicit: true }],
                max_index: 0,
            },
            t,
            diags.push(DiagV::UnsupportedFeature),
        ),
    }
}

impl Initialization {
    /// Whether a dimension of `t` has variable length.
    pub fn has_vla(t: &ObjType) -> (r: bool)
        ensures
            r == has_vla_dim(*t),
        decreases *t,
    {
        match t {
            ObjType::Array(e, size) => matches!(size, ArraySize::Variable) || Self::has_vla(e),
            _ => false,
        }
    }

    /// The initializers of an array from a brace-enclosed list, and the
    /// array's type with unknown lengths completed.
    pub fn array(&self, entries: Vec<InitEntry>, array_type: &ObjType, diags: &mut Vec<InitDiag>) -> (r: (ArrayTree, ObjType))
        requires
            *array_type is Array,
        ensures
            ({
                let st = ilist_v(entries@, *array_type, InitState { tree: empty_tree(), diags: diags_view(old(diags)@) });
                &&& r.0.view() == st.tree
                &&& r.1 == infer_v(*array_type, st.tree)
                &&& diags_view(final(diags)@) == st.diags
            }),
    {
        let mut state = ArrayTree::new();
        self.consume_array_ilist(entries, array_type, &mut state, diags);
        let inferred = infer_array_type(array_type, &state);
        (state, inferred)
    }

    /// The initializers of an object from a brace-enclosed list, and the
    /// object's type. A scalar is read as an array of one element.
    pub fn list(&self, entries: Vec<InitEntry>, target_type: &ObjType, diags: &mut Vec<InitDiag>) -> (r: (ArrayTree, ObjType))
        ensures
            ({
                let (t, ty, d) = list_v(entries@, *target_type, diags_view(old(diags)@));
                r.0.view() == t && r.1 == ty && diags_view(final(diags)@) == d
            }),
    {
        match target_type {
            ObjType::Scalar { is_character } => {
                let singleton = ObjType::Array(Box::new(ObjType::Scalar { is_character: *is_character }), ArraySize::Constant(1));
                let (tree, _inferred) = self.array(entries, &singleton, diags);
                (tree, ObjType::Scalar { is_character: *is_character })
            },
            ObjType::Array(_, _) => self.array(entries, target_type, diags),
            ObjType::Record => {
                report(diags, InitDiag::UnsupportedFeature);
                let mut tree = ArrayTree::new();
                let _ = tree.insert_leaf(usize::MAX, InitNode::Scalar(ExprId { id: usize::MAX, is_string_literal: false }), true);
                proof {
                    lemma_entries_view(tree, 0);
                }
                assert(tree.view().entries =~= seq![EntryV { index: npos(), node: NodeV::Scalar(error_expr()), is_implicit: true }]);
                (tree, ObjType::Record)
            },
        }
    }

    /// A brace-enclosed initializer of a declaration: without a declared
    /// type it is an error, and a variable length array may only be
    /// initialized with an empty list. `None` for the first error.
    pub fn top_list(&self, entries: Vec<InitEntry>, target_type: Option<&ObjType>, diags: &mut Vec<InitDiag>) -> (r: Option<(ArrayTree, ObjType)>)
        ensures
            match target_type {
                None => r is None && diags_view(final(diags)@) == diags_view(old(diags)@).push(
                    DiagV::DeducedTypeWithBracedInitializer,
                ),
                Some(t) => if has_vla_dim(*t) && entries@.len() > 0 {
                    r matches Some(x) && x.0.view() == empty_tree() && x.1 == *t && diags_view(final(diags)@)
                        == diags_view(old(diags)@).push(DiagV::NonEmptyInitVLA)
                } else {
                    r matches Some(x) && ({
                        let (tv, ty, d) = list_v(entries@, *t, diags_view(old(diags)@));
                        x.0.view() == tv && x.1 == ty && diags_view(final(diags)@) == d
                    })
                },
            },
    {
        match target_type {
            None => {
                report(diags, InitDiag::DeducedTypeWithBracedInitializer);
                None
            },
            Some(t) => {
                if Self::has_vla(t) && entries.len() > 0 {
                    report(diags, InitDiag::NonEmptyInitVLA);
                    Some((ArrayTree::new(), copy_type(t)))
                } else {
                    Some(self.list(entries, t, diags))
                }
            },
        }
    }
}

/// Searching a sequence with one more entry, which has the index sought.
proof fn lemma_find_from_push(s: Seq<EntryV>, e: EntryV, index: usize, k: int)
    requires
        0 <= k <= s.len(),
        e.index == index,
    ensures
        find_from(s.push(e), index, k) == (match find_from(s, index, k) {
            Some(p) => Some(p),
            None => Some(s.len() as int),
        }),
    decreases s.len() - k,
{
    if k < s.len() {
        assert(s.push(e)[k] == s[k]);
        lemma_find_from_push(s, e, index, k + 1);
    } else {
        assert(s.push(e)[k] == e);
    }
}

/// Searching a sequence whose entry at `p` is replaced by one with the same index.
proof fn lemma_find_from_update(s: Seq<EntryV>, p: int, e: EntryV, index: usize, k: int)
    requires
        0 <= k,
        0 <= p < s.len(),
        s[p].index == e.index,
    ensures
        find_from(s.update(p, e), index, k) == find_from(s, index, k),
    decreases s.len() - k,
{
    if k < s.len() {
        assert(s.update(p, e)[k].index == s[k].index);
        lemma_find_from_update(s, p, e, index, k + 1);
    }
}

/// After a designated entry, an entry without designator goes on with the
/// element after the designated one, however many scalars an element
/// holds: in `T a[n] = {[i] = {...}, {...}}` the second list initializes
/// `a[i + 1]`, so both lists are recorded, at `i` and at `i + 1`, and
/// neither replaces the other.
pub proof fn law_designator_then_next_element(
    ds: Vec<DesignatorInput>,
    xs: Vec<InitEntry>,
    ys: Vec<InitEntry>,
    elem: ObjType,
    n: usize,
    i: usize,
    diags: Seq<DiagV>,
)
    requires
        ds@ == seq![DesignatorInput::Index(Some(i))],
        i + 1 < n,
        elem is Array,
        (n as nat) * leaf_width(elem) <= usize::MAX,
    ensures
        ({
            let arr = ObjType::Array(Box::new(elem), ArraySize::Constant(n));
            let entries = seq![
                InitEntry::Designated(ds, InitInput::List(xs)),
                InitEntry::Anonymous(InitInput::List(ys)),
            ];
            let st = ilist_v(entries, arr, InitState { tree: empty_tree(), diags });
            &&& st.tree.entries.len() == 2
            &&& st.tree.entries[0].index == i
            &&& st.tree.entries[1].index == i + 1
            &&& st.tree.max_index == i + 1
        }),
{
    let arr = ObjType::Array(Box::new(elem), ArraySize::Constant(n));
    let entries = seq![
        InitEntry::Designated(ds, InitInput::List(xs)),
        InitEntry::Anonymous(InitInput::List(ys)),
    ];
    let st0 = InitState { tree: empty_tree(), diags };
    let w: nat = if leaf_width(elem) == 0 { 1 } else { leaf_width(elem) };
    assert(element_of(arr) == elem);
    // the designated entry
    let (path, dty, d1) = resolve_from(ds@, 0, arr, seq![], diags);
    assert(resolve_from(ds@, 1, elem, seq![i], diags) == (seq![i], elem, diags));
    assert(path == seq![i]);
    assert(dty == elem);
    assert(!path.contains(npos())) by {
        if path.contains(npos()) {
            let k = choose|k: int| 0 <= k < path.len() && path[k] == npos();
            assert(path[k] == i);
        }
    }
    let st1 = InitState { tree: st0.tree, diags: d1 };
    let local_x = ilist_v(xs@, elem, InitState { tree: empty_tree(), diags: st1.diags });
    let st2 = object_init_v(InitInput::List(xs), elem, path, st1, false);
    assert(find_pos(empty_tree().entries, i) is None);
    assert(st2.tree.entries =~= seq![EntryV { index: i, node: NodeV::List(local_x.tree), is_implicit: false }]);
    assert(st2.tree.max_index == i);
    assert(i + 1 <= n);
    assert((i + 1) * w <= n * w) by {
        vstd::arithmetic::mul::lemma_mul_inequality((i + 1) as int, n as int, w as int);
    }
    assert((i + 1) * w <= usize::MAX) by {
        if leaf_width(elem) > 0 {
            assert(n * w == (n as nat) * leaf_width(elem));
        }
    }
    let c1 = sat_mul(sat_add(i as nat, 1), w);
    assert(c1 == (i + 1) * w);
    assert(designated_v(ds@, InitInput::List(xs), arr, st0, 0, w) == (st2, c1));
    assert(entry_v(entries[0], arr, st0, 0, w) == (st2, c1));
    // the entry without designator
    assert(c1 / w == i + 1) by {
        vstd::arithmetic::div_mod::lemma_div_by_multiple((i + 1) as int, w as int);
    }
    let local_y = ilist_v(ys@, elem, InitState { tree: empty_tree(), diags: st2.diags });
    let st3 = object_init_v(InitInput::List(ys), elem, seq![(i + 1) as usize], st2, true);
    assert(find_from(st2.tree.entries, (i + 1) as usize, 1) is None);
    assert(find_pos(st2.tree.entries, (i + 1) as usize) is None);
    let next_path = seq![(i + 1) as usize];
    assert(!next_path.contains(npos())) by {
        if next_path.contains(npos()) {
            let k = choose|k: int| 0 <= k < next_path.len() && next_path[k] == npos();
            assert(next_path[k] == i + 1);
        }
    }
    assert(st3.tree.entries =~= st2.tree.entries.push(
        EntryV { index: (i + 1) as usize, node: NodeV::List(local_y.tree), is_implicit: true },
    ));
    let c2 = sat_mul(sat_add((i + 1) as nat, 1), w);
    assert(anon_v(InitInput::List(ys), arr, st2, c1, w) == (st3, c2));
    assert(entry_v(entries[1], arr, st2, c1, w) == (st3, c2));
    assert(ilist_from(entries, 2, arr, st3, c2, w) == (st3, c2));
    assert(ilist_from(entries, 1, arr, st2, c1, w) == (st3, c2));
    assert(ilist_from(entries, 0, arr, st0, 0, w) == (st3, c2));
}

/// An initializer recorded twice for one index replaces the first: the
/// second recording reports it and adds no entry, and the entry then holds
/// the second initializer.
pub proof fn law_reinitialization_replaces(t: TreeV, index: usize, first: NodeV, second: NodeV, i1: bool, i2: bool)
    ensures
        ({
            let t1 = insert_leaf_v(t, index, first, i1).0;
            let (t2, replaced) = insert_leaf_v(t1, index, second, i2);
            &&& replaced
            &&& t2.entries.len() == t1.entries.len()
            &&& find_pos(t2.entries, index) matches Some(p) && t2.entries[p] == (EntryV {
                index,
                node: second,
                is_implicit: i2,
            })
        }),
{
    let e1 = EntryV { index, node: first, is_implicit: i1 };
    let e2 = EntryV { index, node: second, is_implicit: i2 };
    let t1 = insert_leaf_v(t, index, first, i1).0;
    match find_pos(t.entries, index) {
        Some(p) => {
            lemma_find_from_bounds(t.entries, index, 0);
            lemma_find_from_update(t.entries, p, e1, index, 0);
            assert(find_pos(t1.entries, index) == Some(p));
            lemma_find_from_update(t1.entries, p, e2, index, 0);
        },
        None => {
            lemma_find_from_push(t.entries, e1, index, 0);
            let p = t.entries.len() as int;
            assert(find_pos(t1.entries, index) == Some(p));
            lemma_find_from_update(t1.entries, p, e2, index, 0);
        },
    }
}

/// A found position is in range and holds the index sought, and no earlier
/// position from the start of the search does.
proof fn lemma_find_from_bounds(s: Seq<EntryV>, index: usize, k: int)
    requires
        0 <= k,
    ensures
        find_from(s, index, k) matches Some(p) ==> k <= p < s.len() && s[p].index == index,
    decreases s.len() - k,
{
    if k < s.len() && s[k].index != index {
        lemma_find_from_bounds(s, index, k + 1);
    }
}

impl ArrayTree {
    pub open spec fn view(self) -> TreeV {
        tree_view(self)
    }

    /// An empty tree.
    pub fn new() -> (r: Self)
        ensures
            r.view() == empty_tree(),
    {
        let r = ArrayTree { entries: Vec::new(), max_index: 0 };
        assert(entries_view(r, 0) =~= Seq::<EntryV>::empty());
        r
    }

    pub fn is_empty(&self) -> (r: bool)
        ensures
            r == (self.view().entries.len() == 0),
    {
        proof {
            lemma_entries_view(*self, 0);
        }
        self.entries.len() == 0
    }

    /// The position of the first entry with `index`.
    fn position(&self, index: usize) -> (r: Option<usize>)
        ensures
            r matches Some(p) ==> find_pos(self.view().entries, index) == Some(p as int) && p
                < self.entries@.len(),
            r is None ==> find_pos(self.view().entries, index) is None,
    {
        proof {
            lemma_entries_view(*self, 0);
        }
        let ghost v = self.view().entries;
        let mut k: usize = 0;
        while k < self.entries.len()
            invariant
                k <= self.entries@.len(),
                v == self.entries@.map_values(|e: TreeEntry| entry_view(e)),
                v == self.view().entries,
                find_pos(v, index) == find_from(v, index, k as int),
            decreases self.entries@.len() - k,
        {
            assert(v[k as int].index == self.entries@[k as int].index);
            if self.entries[k].index == index {
                return Some(k);
            }
            k = k + 1;
        }
        None
    }
    /// Records `node` at `index`, replacing what was recorded there; says
    /// whether something was.
    pub fn insert_leaf(&mut self, index: usize, node: InitNode, is_implicit: bool) -> (r: bool)
        ensures
            (final(self).view(), r) == insert_leaf_v(old(self).view(), index, node_view(node), is_implicit),
    {
        let ghost old_entries = self.entries@;
        let ghost ov = self.view();
        proof {
            lemma_entries_view(*self, 0);
        }
        let pos = self.position(index);
        if index != usize::MAX && index > self.max_index {
            self.max_index = index;
        }
        let ghost e = TreeEntry { index, node, is_implicit };
        match pos {
            Some(p) => {
                self.entries.set(p, TreeEntry { index, node, is_implicit });
                proof {
                    lemma_entries_view(*self, 0);
                    assert(self.entries@ == old_entries.update(p as int, e));
                    assert(self.entries@.map_values(|x: TreeEntry| entry_view(x)) =~= old_entries.map_values(
                        |x: TreeEntry| entry_view(x),
                    ).update(p as int, entry_view(e)));
                    assert(find_pos(ov.entries, index) == Some(p as int));
                    assert(self.view().max_index == insert_leaf_v(ov, index, node_view(node), is_implicit).0.max_index);
                    assert(self.view().entries =~= insert_leaf_v(ov, index, node_view(node), is_implicit).0.entries);
                }
                true
            },
            None => {
                self.entries.push(TreeEntry { index, node, is_implicit });
                proof {
                    lemma_entries_view(*self, 0);
                    assert(self.entries@.map_values(|x: TreeEntry| entry_view(x)) =~= old_entries.map_values(
                        |x: TreeEntry| entry_view(x),
                    ).push(entry_view(e)));
                }
                false
            },
        }
    }

    /// Records `node` at the nested position `path`, creating the nested
    /// lists on the way; says whether something recorded before was
    /// replaced.
    pub fn insert_path(&mut self, path: &[usize], node: InitNode, is_implicit: bool) -> (r: bool)
        ensures
            (final(self).view(), r) == insert_path_v(old(self).view(), path@, node_view(node), is_implicit),
        decreases path@.len(),
    {
        if path.len() == 0 {
            return false;
        }
        let index = path[0];
        if path.len() == 1 {
            return self.insert_leaf(index, node, is_implicit);
        }
        let ghost v0 = self.view();
        proof {
            lemma_entries_view(*self, 0);
        }
        if index != usize::MAX && index > self.max_index {
            self.max_index = index;
        }
        proof {
            lemma_entries_view(*self, 0);
        }
        let pos = match self.position(index) {
            Some(p) => p,
            None => {
                let ghost before = self.entries@;
                self.entries.push(TreeEntry { index, node: InitNode::List(ArrayTree::new()), is_implicit });
                proof {
                    lemma_entries_view(*self, 0);
                    assert(self.entries@.map_values(|x: TreeEntry| entry_view(x)) =~= before.map_values(
                        |x: TreeEntry| entry_view(x),
                    ).push(EntryV { index, node: NodeV::List(empty_tree()), is_implicit }));
                }
                self.entries.len() - 1
            },
        };
        let ghost entries1 = self.entries@;
        proof {
            lemma_entries_view(*self, 0);
        }
        let ghost spec_entries = match find_pos(v0.entries, index) {
            Some(p) => v0.entries,
            None => v0.entries.push(EntryV { index, node: NodeV::List(empty_tree()), is_implicit }),
        };
        let ghost spec_pos = match find_pos(v0.entries, index) {
            Some(p) => p,
            None => v0.entries.len() as int,
        };
        assert(spec_pos == pos as int);
        assert(self.view().entries =~= spec_entries);
        let mut entry = TreeEntry {
            index,
            node: InitNode::Scalar(ExprId { id: 0, is_string_literal: false }),
            is_implicit,
        };
        self.entries.set_and_swap(pos, &mut entry);
        let (mut child, overridden) = match entry.node {
            InitNode::List(c) => (c, false),
            InitNode::Scalar(_) => (ArrayTree::new(), true),
        };
        let rest = slice_subrange(path, 1, path.len());
        assert(rest@ =~= path@.drop_first());
        let deeper = child.insert_path(rest, node, is_implicit);
        let ghost new_entry = TreeEntry { index, node: InitNode::List(child), is_implicit };
        self.entries.set(pos, TreeEntry { index, node: InitNode::List(child), is_implicit });
        proof {
            lemma_entries_view(*self, 0);
            assert(self.entries@ == entries1.update(pos as int, new_entry));
            assert(self.entries@.map_values(|x: TreeEntry| entry_view(x)) =~= entries1.map_values(
                |x: TreeEntry| entry_view(x),
            ).update(pos as int, entry_view(new_entry)));
            assert(self.view().max_index == insert_path_v(v0, path@, node_view(node), is_implicit).0.max_index);
            assert(self.view().entries =~= insert_path_v(v0, path@, node_view(node), is_implicit).0.entries);
        }
        overridden || deeper
    }
}

} // verus!
