//! The IR context: it owns every value, hands out their handles, keeps for
//! each value the list of the values that use it, and interns constants.
//! The values live in a `slotmap` slot map and the lists of users in a
//! secondary map of it; a handle is the number of its value's key. The
//! interned constants are paired with their handles in a `bimap` map.
use crate::constant::{same_constant, Constant};
use crate::ir::instruction::{Instruction, User};
use crate::ir::slots::{
    constant_pairs, is_key_id, key_index, key_view, lists_get, lists_insert, lists_new, lists_remove, slot_values,
    table_contains_left, table_get_by_right, table_insert, table_new, user_lists, values_get, values_insert,
    values_len, values_new, ConstantTable, UserLists, ValueSlots,
};
use crate::integral::{lemma_integral_ext, lemma_integral_fields_fit, Signedness};
use crate::ir::types::{ir_type, lowerable, lowers_to, IrType};
use crate::target_info::TargetInfo;
use crate::types::QualifiedType;
use crate::ir::value::{group_value_id, lemma_value_id_eq, ValueID};
use crate::primitive::FloatFormat;
use vstd::prelude::*;

verus! {

broadcast use group_value_id;

/// What a value is.
#[derive(Debug)]
pub enum ValueData {
    Constant(Constant),
    Instruction(Instruction),
    /// A function's parameter.
    Argument,
}

/// A value of the IR: its type and what it is.
#[derive(Debug)]
pub struct Value {
    pub ir_type: IrType,
    pub data: ValueData,
}

impl User for Value {
    /// Only instructions use values.
    open spec fn uses(&self) -> Seq<ValueID> {
        match self.data {
            ValueData::Instruction(i) => i.uses(),
            _ => Seq::empty(),
        }
    }

    fn use_list(&self) -> (r: &[ValueID]) {
        match &self.data {
            ValueData::Instruction(i) => i.use_list(),
            _ => &[],
        }
    }
}

/// How often `v` occurs in `s`.
pub open spec fn occurrences(s: Seq<ValueID>, v: ValueID) -> nat
    decreases s.len(),
{
    if s.len() == 0 {
        0
    } else {
        occurrences(s.drop_last(), v) + (if s.last() == v { 1nat } else { 0nat })
    }
}

/// `n` copies of `v`.
pub open spec fn copies(v: ValueID, n: nat) -> Seq<ValueID> {
    Seq::new(n, |_i: int| v)
}

/// The users of `v` among the first `n` values, whose handles are the first
/// `n` of `order`: each value, in the order the values were made, as often
/// as it uses `v`.
pub open spec fn users_among(values: Seq<Value>, order: Seq<ValueID>, v: ValueID, n: nat) -> Seq<ValueID>
    decreases n,
{
    if n == 0 {
        Seq::empty()
    } else {
        let u = (n - 1) as nat;
        users_among(values, order, v, u) + copies(order[u as int], occurrences(values[u as int].uses(), v))
    }
}

/// A value only uses the null handle and the handles in `earlier`.
pub open spec fn uses_only(value: Value, earlier: Seq<ValueID>) -> bool {
    forall|k: int|
        0 <= k < value.uses().len() ==> {
            let w = #[trigger] value.uses()[k];
            w.id() == ValueID::null_id() || earlier.contains(w)
        }
}

/// The IR context.
pub struct Context {
    values: ValueSlots,
    def_use: UserLists,
    /// The handles, in the order their values were made.
    order: Ghost<Seq<ValueID>>,
    constants: ConstantTable,
}

impl Context {
    /// The values held, by the numbers of their handles.
    pub closed spec fn contents(&self) -> Map<u64, Value> {
        slot_values(self.values)
    }

    /// The handles, in the order their values were made.
    pub closed spec fn order(&self) -> Seq<ValueID> {
        self.order@
    }

    /// The number of values.
    pub open spec fn len(&self) -> nat {
        self.order().len()
    }

    /// `v` is the handle of a value of this context.
    pub open spec fn holds(&self, v: ValueID) -> bool {
        self.contents().dom().contains(v.id())
    }

    /// The value that `v` refers to.
    pub open spec fn value(&self, v: ValueID) -> Value {
        self.contents()[v.id()]
    }

    /// The values, in the order they were made.
    pub open spec fn values(&self) -> Seq<Value> {
        Seq::new(self.len(), |i: int| self.value(self.order()[i]))
    }

    /// The users recorded for `v`.
    pub closed spec fn users(&self, v: ValueID) -> Seq<ValueID> {
        user_lists(self.def_use)[v.id()]
    }

    /// `v` has a list of users: it was added by [`Context::insert`].
    /// Interned constants have none, and their users are not recorded.
    pub closed spec fn chained(&self, v: ValueID) -> bool {
        user_lists(self.def_use).dom().contains(v.id())
    }

    /// The numbers of the handles of the interned constants.
    pub closed spec fn interned(&self) -> Set<u64> {
        constant_pairs(self.constants).dom()
    }

    /// `v` is the handle of an interned constant.
    pub open spec fn is_interned(&self, v: ValueID) -> bool {
        self.interned().contains(v.id())
    }

    /// The keys behind the handles: each has an odd version and a slot
    /// index of its own below `u32::MAX`, and the lists of users are kept
    /// only for values held.
    pub closed spec fn keys_wf(&self) -> bool {
        &&& self.contents().dom().finite()
        &&& self.contents().dom().len() == self.len()
        &&& forall|a: u64| #[trigger] self.contents().dom().contains(a) ==> is_key_id(a) && key_index(a) < u32::MAX
        &&& forall|a: u64, b: u64|
            #[trigger] self.contents().dom().contains(a) && #[trigger] self.contents().dom().contains(b) && a != b
                ==> key_index(a) != key_index(b)
        &&& forall|a: u64| #[trigger] user_lists(self.def_use).dom().contains(a) ==> self.contents().dom().contains(a)
    }

    /// The constant `v` holds, if it is one.
    pub open spec fn constant_of(&self, v: ValueID) -> Option<Constant> {
        match self.value(v).data {
            ValueData::Constant(c) => Some(c),
            _ => None,
        }
    }

    /// The handles are the distinct handles of the values held, every value
    /// uses only values made before it, and the users recorded for each
    /// value with a list are exactly its users.
    pub closed spec fn values_wf(&self) -> bool {
        &&& self.keys_wf()
        &&& forall|i: int, j: int| 0 <= i < j < self.len() ==> self.order()[i] != self.order()[j]
        &&& forall|i: int| 0 <= i < self.len() ==> self.holds(#[trigger] self.order()[i])
        &&& forall|v: ValueID| #[trigger] self.holds(v) ==> self.order().contains(v)
        &&& forall|i: int|
            0 <= i < self.len() ==> uses_only(#[trigger] self.values()[i], self.order().take(i))
        &&& forall|v: ValueID| #[trigger]
            self.chained(v) ==> self.holds(v) && self.users(v) == users_among(
                self.values(),
                self.order(),
                v,
                self.len(),
            )
    }

    /// Each interned handle is a constant of the context, paired with that
    /// constant, and no two are paired with the same constant.
    pub closed spec fn interned_wf(&self) -> bool {
        &&& forall|l: u64| #[trigger] constant_pairs(self.constants).dom().contains(l) ==> {
            let v = ValueID::from_id(l);
            &&& self.holds(v)
            &&& self.constant_of(v) is Some
            &&& constant_pairs(self.constants)[l] == constant_key(self.constant_of(v)->0)
        }
        &&& forall|a: u64, b: u64|
            #[trigger] constant_pairs(self.constants).dom().contains(a) && #[trigger] constant_pairs(self.constants).dom().contains(b)
                && a != b ==> constant_pairs(self.constants)[a] != constant_pairs(self.constants)[b]
    }

    /// The context's invariant: the values, their lists of users and the
    /// interned constants are as [`Context::values_wf`] and
    /// [`Context::interned_wf`] say.
    pub open spec fn wf(&self) -> bool {
        &&& self.values_wf()
        &&& self.interned_wf()
    }

    /// An empty context.
    pub fn new() -> (r: Self)
        ensures
            r.wf(),
            r.len() == 0,
            r.interned().is_empty(),
    {
        let r = Context { values: values_new(), def_use: lists_new(), order: Ghost(Seq::empty()), constants: table_new() };
        proof {
            assert(r.contents().dom() =~= Set::<u64>::empty());
        }
        r
    }

    /// The number of values.
    pub fn num_values(&self) -> (r: usize)
        requires
            self.wf(),
        ensures
            r == self.len(),
    {
        values_len(&self.values)
    }

    /// The value `id` refers to.
    pub fn get(&self, id: ValueID) -> (r: &Value)
        requires
            self.wf(),
            self.holds(id),
        ensures
            *r == self.value(id),
    {
        match values_get(&self.values, id) {
            Some(v) => v,
            None => vstd::pervasive::unreached(),
        }
    }

    /// The values that use `usee`, each as often as it uses it, in the order
    /// they were made.
    pub fn get_use_list(&self, usee: ValueID) -> (r: &Vec<ValueID>)
        requires
            self.wf(),
            self.chained(usee),
        ensures
            r@ == users_among(self.values(), self.order(), usee, self.len()),
    {
        match lists_get(&self.def_use, usee) {
            Some(l) => l,
            None => vstd::pervasive::unreached(),
        }
    }

    /// Adds a value with a list of users, and records it as a user of each
    /// value it uses that has one. The value may use the null handle and
    /// values already made.
    pub fn insert(&mut self, value: Value) -> (r: ValueID)
        requires
            old(self).wf(),
            old(self).len() + 2 < u32::MAX,
            uses_only(value, old(self).order()),
        ensures
            final(self).wf(),
            !old(self).holds(r),
            final(self).order() == old(self).order().push(r),
            final(self).values() == old(self).values().push(value),
            final(self).interned() == old(self).interned(),
            final(self).chained(r),
            forall|v: ValueID| old(self).holds(v) ==> final(self).chained(v) == old(self).chained(v),
    {
        let ghost before = self.values();
        let ghost old_order = self.order@;
        let ghost old_lists = user_lists(self.def_use);
        let ghost n = self.len();
        let uses = value.use_list();
        let mut list: Vec<ValueID> = Vec::new();
        let mut k: usize = 0;
        while k < uses.len()
            invariant
                k <= uses@.len(),
                list@ == uses@.take(k as int),
            decreases uses@.len() - k,
        {
            list.push(uses[k]);
            k = k + 1;
        }
        assert(uses@.take(uses@.len() as int) =~= uses@);
        let ghost uses_seq = list@;
        let user = values_insert(&mut self.values, value);
        self.order = Ghost(self.order@.push(user));
        proof {
            if old_order.contains(user) {
                let p = choose|p: int| 0 <= p < old_order.len() && old_order[p] == user;
                assert(old(self).holds(old_order[p]));
            }
        }
        let _ = lists_insert(&mut self.def_use, user, Vec::new());
        proof {
            assert(uses_seq.take(0) =~= Seq::<ValueID>::empty());
            assert(copies(user, 0) =~= Seq::<ValueID>::empty());
            assert forall|v: ValueID| #[trigger] old_lists.dom().contains(v.id()) implies user_lists(self.def_use)[v.id()]
                == users_among(before, old_order, v, n) + copies(user, occurrences(uses_seq.take(0), v)) by {
                assert(old(self).chained(v));
                assert(v.id() != user.id());
                assert(users_among(before, old_order, v, n) + Seq::<ValueID>::empty()
                    =~= users_among(before, old_order, v, n));
            }
            assert(user_lists(self.def_use).dom() =~= old_lists.dom().insert(user.id()));
        }
        let mut k: usize = 0;
        while k < list.len()
            invariant
                k <= list@.len(),
                list@ == uses_seq,
                uses_seq == value.uses(),
                uses_only(value, old_order),
                !old_order.contains(user),
                !old(self).holds(user),
                self.order@ == old_order.push(user),
                old_order == old(self).order(),
                before == old(self).values(),
                n == old(self).len(),
                old_lists == user_lists(old(self).def_use),
                self.constants == old(self).constants,
                old(self).wf(),
                slot_values(self.values) == slot_values(old(self).values).insert(user.id(), value),
                forall|a: u64| #[trigger] slot_values(self.values).dom().contains(a) ==> is_key_id(a),
                forall|a: u64, b: u64|
                    #[trigger] slot_values(self.values).dom().contains(a) && #[trigger] slot_values(self.values).dom().contains(b)
                        && a != b ==> key_index(a) != key_index(b),
                user_lists(self.def_use).dom() == old_lists.dom().insert(user.id()),
                user_lists(self.def_use)[user.id()] == Seq::<ValueID>::empty(),
                forall|v: ValueID| #[trigger] old_lists.dom().contains(v.id()) ==> user_lists(self.def_use)[v.id()]
                    == users_among(before, old_order, v, n) + copies(user, occurrences(uses_seq.take(k as int), v)),
            decreases list@.len() - k,
        {
            let usee = list[k];
            proof {
                lemma_occurrences_take(uses_seq, k as int);
            }
            if !usee.is_null() {
                proof {
                    assert(value.uses()[k as int] == usee);
                    assert(old_order.contains(usee));
                    let p = choose|p: int| 0 <= p < old_order.len() && old_order[p] == usee;
                    assert(old(self).holds(old_order[p]));
                    assert(usee != user);
                    assert(usee.id() != user.id());
                }
                match lists_remove(&mut self.def_use, usee) {
                    Some(mut users) => {
                        users.push(user);
                        proof {
                            assert forall|j: u64| #[trigger] user_lists(self.def_use).dom().contains(j) && j != usee.id()
                                implies key_index(j) != key_index(usee.id()) by {
                                if j != user.id() {
                                    assert(old_lists.dom().contains(j));
                                    assert(old(self).contents().dom().contains(j));
                                }
                                assert(slot_values(self.values).dom().contains(j));
                                assert(slot_values(self.values).dom().contains(usee.id()));
                            }
                        }
                        let _ = lists_insert(&mut self.def_use, usee, users);
                        proof {
                            assert forall|v: ValueID| #[trigger] old_lists.dom().contains(v.id()) implies user_lists(self.def_use)[v.id()]
                                == users_among(before, old_order, v, n) + copies(user, occurrences(uses_seq.take(k as int + 1), v)) by {
                                if v.id() == usee.id() {
                                    lemma_value_id_eq(v, usee);
                                    assert(copies(user, occurrences(uses_seq.take(k as int), v)).push(user)
                                        =~= copies(user, occurrences(uses_seq.take(k as int), v) + 1));
                                } else {
                                    assert(v != usee);
                                }
                            }
                            assert(user_lists(self.def_use).dom() =~= old_lists.dom().insert(user.id()));
                        }
                    },
                    None => {
                        proof {
                            assert forall|v: ValueID| #[trigger] old_lists.dom().contains(v.id()) implies user_lists(self.def_use)[v.id()]
                                == users_among(before, old_order, v, n) + copies(user, occurrences(uses_seq.take(k as int + 1), v)) by {
                                if v.id() == usee.id() {
                                    lemma_value_id_eq(v, usee);
                                } else {
                                    assert(v != usee);
                                }
                            }
                            assert(user_lists(self.def_use).dom() =~= old_lists.dom().insert(user.id()));
                        }
                    },
                }
            } else {
                proof {
                    assert forall|v: ValueID| #[trigger] old_lists.dom().contains(v.id()) implies user_lists(self.def_use)[v.id()]
                        == users_among(before, old_order, v, n) + copies(user, occurrences(uses_seq.take(k as int + 1), v)) by {
                        assert(v.id() != ValueID::null_id());
                        assert(v != usee);
                    }
                }
            }
            k = k + 1;
        }
        proof {
            assert(uses_seq.take(uses_seq.len() as int) =~= uses_seq);
            assert(self.values() =~= before.push(value)) by {
                assert forall|i: int| 0 <= i < n implies #[trigger] self.values()[i] == before[i] by {
                    assert(self.order()[i] == old_order[i]);
                    assert(old(self).holds(old_order[i]));
                }
            }
            lemma_push_keeps_wf(self, old(self), user, value, true);
        }
        user
    }

    /// The handle of the constant `value`: the interned one that is the
    /// same value, else a new value of type `ir_type` that is then interned.
    pub fn intern_constant(&mut self, value: Constant, ir_type: IrType) -> (r: ValueID)
        requires
            old(self).wf(),
            old(self).len() + 2 < u32::MAX,
        ensures
            final(self).wf(),
            final(self).holds(r),
            final(self).constant_of(r) is Some,
            same_constant(final(self).constant_of(r)->0, value),
            final(self).is_interned(r),
            (exists|w: ValueID| #[trigger] old(self).is_interned(w) && same_constant(old(self).constant_of(w)->0, value))
                ==> {
                &&& *final(self) == *old(self)
                &&& old(self).is_interned(r)
            },
            (forall|w: ValueID| #[trigger] old(self).is_interned(w) ==> !same_constant(old(self).constant_of(w)->0, value))
                ==> {
                &&& !old(self).holds(r)
                &&& final(self).order() == old(self).order().push(r)
                &&& final(self).values() == old(self).values().push(
                    Value { ir_type, data: ValueData::Constant(value) },
                )
                &&& final(self).interned() == old(self).interned().insert(r.id())
                &&& !final(self).chained(r)
                &&& forall|v: ValueID| old(self).holds(v) ==> final(self).chained(v) == old(self).chained(v)
            },
    {
        let key = key_of(&value);
        if let Some(l) = table_get_by_right(&self.constants, &key) {
            let id = ValueID::new(l);
            proof {
                let c = self.constant_of(id)->0;
                lemma_constant_key(c, value);
                assert(self.is_interned(id));
            }
            return id;
        }
        proof {
            assert forall|w: ValueID| #[trigger] old(self).is_interned(w) implies !same_constant(
                old(self).constant_of(w)->0,
                value,
            ) by {
                lemma_value_id_eq(ValueID::from_id(w.id()), w);
                assert(constant_pairs(self.constants).dom().contains(w.id()));
                lemma_constant_key(old(self).constant_of(w)->0, value);
            }
        }
        let ghost old_order = self.order@;
        let constant = Value { ir_type, data: ValueData::Constant(value) };
        assert(constant.uses() =~= Seq::<ValueID>::empty());
        let id = values_insert(&mut self.values, constant);
        self.order = Ghost(self.order@.push(id));
        proof {
            if old_order.contains(id) {
                let p = choose|p: int| 0 <= p < old_order.len() && old_order[p] == id;
                assert(old(self).holds(old_order[p]));
            }
            lemma_push_keeps_wf(self, old(self), id, constant, false);
            if constant_pairs(self.constants).dom().contains(id.id()) {
                lemma_value_id_eq(ValueID::from_id(id.id()), id);
                assert(old(self).holds(id));
            }
        }
        let ghost mid = *self;
        table_insert(&mut self.constants, id.get(), key);
        proof {
            lemma_values_wf_keeps(&mid, self);
            lemma_value_id_eq(ValueID::from_id(id.id()), id);
            assert forall|l: u64| #[trigger] constant_pairs(self.constants).dom().contains(l) implies {
                let v = ValueID::from_id(l);
                &&& self.holds(v)
                &&& self.constant_of(v) is Some
                &&& constant_pairs(self.constants)[l] == constant_key(self.constant_of(v)->0)
            } by {
                if l != id.id() {
                    assert(constant_pairs(old(self).constants).dom().contains(l));
                    assert(old(self).holds(ValueID::from_id(l)));
                }
            }
            assert(self.interned_wf());
            assert(self.interned() =~= old(self).interned().insert(id.id()));
        }
        id
    }

    /// The constant interned under `id`, if `id` is an interned constant.
    pub fn get_by_constant_id(&self, id: ValueID) -> (r: Option<&Constant>)
        requires
            self.wf(),
        ensures
            self.is_interned(id) ==> r is Some && self.constant_of(id) == Some(*r->0),
            !self.is_interned(id) ==> r is None,
    {
        if table_contains_left(&self.constants, id.get()) {
            proof {
                lemma_value_id_eq(ValueID::from_id(id.id()), id);
            }
            match &self.get(id).data {
                ValueData::Constant(c) => Some(c),
                _ => None,
            }
        } else {
            None
        }
    }

    /// The type of nothing.
    pub fn void_type(&self) -> (r: IrType)
        ensures
            r == IrType::Void,
    {
        IrType::Void
    }

    /// The type of basic blocks.
    pub fn label_type(&self) -> (r: IrType)
        ensures
            r == IrType::Label,
    {
        IrType::Label
    }

    /// IEEE single precision.
    pub fn float32_type(&self) -> (r: IrType)
        ensures
            r == IrType::Floating(FloatFormat::IEEE32),
    {
        IrType::Floating(FloatFormat::IEEE32)
    }

    /// IEEE double precision.
    pub fn float64_type(&self) -> (r: IrType)
        ensures
            r == IrType::Floating(FloatFormat::IEEE64),
    {
        IrType::Floating(FloatFormat::IEEE64)
    }

    /// The opaque pointer.
    pub fn pointer_type(&self) -> (r: IrType)
        ensures
            r == IrType::Pointer,
    {
        IrType::Pointer
    }

    /// The IR type of a C type on a target.
    pub fn ir_type(&self, qualified_type: &QualifiedType, target_info: &TargetInfo) -> (r: IrType)
        requires
            lowerable(qualified_type.unqualified_type),
            target_info.wf(),
        ensures
            lowers_to(qualified_type.unqualified_type, r, *target_info),
    {
        ir_type(qualified_type, target_info)
    }

    /// The integer type of `bits` bits.
    pub fn make_integer(&self, bits: u8) -> (r: IrType)
        ensures
            r == IrType::Integer(bits),
    {
        IrType::Integer(bits)
    }

    /// The array of `length` elements of `element_type`.
    pub fn make_array(&self, element_type: IrType, length: usize) -> (r: IrType)
        ensures
            r == IrType::Array(Box::new(element_type), length),
    {
        IrType::Array(Box::new(element_type), length)
    }

    /// The function type with the given result and parameters.
    pub fn make_function(&self, result_type: IrType, params: Vec<IrType>, is_variadic: bool) -> (r: IrType)
        ensures
            r matches IrType::Function(rt, ps, v) && *rt == result_type && ps@ == params@ && v == is_variadic,
    {
        IrType::Function(Box::new(result_type), params, is_variadic)
    }
}


/// Each value is listed among the users of `v` as often as it uses `v`: the
/// list that [`Context::get_use_list`] gives for `v` holds `u` exactly when
/// `u` uses `v`.
pub proof fn law_use_lists_match_uses(ctx: &Context, v: ValueID, u: ValueID)
    requires
        ctx.wf(),
        ctx.holds(v),
        ctx.holds(u),
    ensures
        occurrences(users_among(ctx.values(), ctx.order(), v, ctx.len()), u) == occurrences(ctx.value(u).uses(), v),
        users_among(ctx.values(), ctx.order(), v, ctx.len()).contains(u) <==> ctx.value(u).uses().contains(v),
{
    let p = choose|p: int| 0 <= p < ctx.order().len() && ctx.order()[p] == u;
    lemma_occurrences_in_users(ctx.values(), ctx.order(), v, u, ctx.len(), p);
    assert(ctx.values()[p] == ctx.value(u));
    lemma_contains_iff_occurs(users_among(ctx.values(), ctx.order(), v, ctx.len()), u);
    lemma_contains_iff_occurs(ctx.value(u).uses(), v);
}

/// A constant is interned once: two interned handles whose constants are the
/// same value are the same handle, so interning a value again gives back
/// the handle it got the first time.
pub proof fn law_interned_once(ctx: &Context, v: ValueID, w: ValueID)
    requires
        ctx.wf(),
        ctx.is_interned(v),
        ctx.is_interned(w),
        same_constant(ctx.constant_of(v)->0, ctx.constant_of(w)->0),
    ensures
        v == w,
{
    lemma_value_id_eq(ValueID::from_id(v.id()), v);
    lemma_value_id_eq(ValueID::from_id(w.id()), w);
    lemma_constant_key(ctx.constant_of(v)->0, ctx.constant_of(w)->0);
    if v.id() != w.id() {
        assert(constant_pairs(ctx.constants).dom().contains(v.id()));
        assert(constant_pairs(ctx.constants).dom().contains(w.id()));
    }
    lemma_value_id_eq(v, w);
}

/// A constant written with std types only: a tag for the kind, then the
/// bits, then the width and signedness or the format, then the bytes.
pub open spec fn constant_key(c: Constant) -> (u8, u128, u64, Seq<u8>) {
    match c {
        Constant::Nullptr => (0u8, 0u128, 0u64, Seq::empty()),
        Constant::Integral(i) => (
            1u8,
            i.raw() as u128,
            (i.bit_width() * 2 + (if i.sign() == Signedness::Signed { 1int } else { 0int })) as u64,
            Seq::empty(),
        ),
        Constant::Floating(f) => (2u8, f.bits as u128, if f.format == FloatFormat::IEEE32 { 0u64 } else { 1u64 }, Seq::empty()),
        Constant::String(s) => (3u8, 0u128, 0u64, s@),
        Constant::Address(s) => (4u8, 0u128, 0u64, s@),
    }
}

/// Two constants are written alike exactly when they are the same value.
pub proof fn lemma_constant_key(a: Constant, b: Constant)
    ensures
        constant_key(a) == constant_key(b) <==> same_constant(a, b),
{
    match (a, b) {
        (Constant::Integral(x), Constant::Integral(y)) => {
            if constant_key(a) == constant_key(b) {
                lemma_integral_fields_fit(x);
                lemma_integral_fields_fit(y);
                lemma_integral_ext(x, y);
            }
        },
        (Constant::String(x), Constant::String(y)) => {},
        (Constant::Address(x), Constant::Address(y)) => {},
        _ => {},
    }
}

/// The constant written with std types only.
fn key_of(c: &Constant) -> (r: (u8, u128, u64, Vec<u8>))
    ensures
        key_view(r) == constant_key(*c),
{
    match c {
        Constant::Nullptr => (0, 0, 0, Vec::new()),
        Constant::Integral(i) => {
            let width = i.width().get();
            let sign: u64 = match i.signedness() {
                Signedness::Signed => 1,
                Signedness::Unsigned => 0,
            };
            (1, i.bits(), width as u64 * 2 + sign, Vec::new())
        },
        Constant::Floating(f) => {
            let format: u64 = match f.format {
                FloatFormat::IEEE32 => 0,
                FloatFormat::IEEE64 => 1,
            };
            (2, f.bits as u128, format, Vec::new())
        },
        Constant::String(s) => (3, 0, 0, copy_bytes(s)),
        Constant::Address(s) => (4, 0, 0, copy_bytes(s)),
    }
}

/// A copy of a byte string.
fn copy_bytes(s: &Vec<u8>) -> (r: Vec<u8>)
    ensures
        r@ == s@,
{
    let mut r: Vec<u8> = Vec::new();
    let mut i: usize = 0;
    while i < s.len()
        invariant
            i <= s@.len(),
            r@ == s@.take(i as int),
        decreases s@.len() - i,
    {
        r.push(s[i]);
        i = i + 1;
        assert(r@ =~= s@.take(i as int));
    }
    assert(s@.take(i as int) =~= s@);
    r
}

/// Adding one value under a fresh handle keeps the values, their handles and
/// their lists of users well formed. With `chain` the new value got an
/// empty list and each value with a list that it uses lists it; without,
/// the lists are untouched and the new value uses nothing.
proof fn lemma_push_keeps_wf(new: &Context, old: &Context, user: ValueID, value: Value, chain: bool)
    requires
        old.values_wf(),
        !old.holds(user),
        !old.order().contains(user),
        is_key_id(user.id()),
        key_index(user.id()) < u32::MAX,
        forall|j: u64| #[trigger] slot_values(old.values).dom().contains(j) ==> key_index(j) != key_index(user.id()),
        slot_values(new.values) == slot_values(old.values).insert(user.id(), value),
        new.order@ == old.order@.push(user),
        uses_only(value, old.order()),
        chain ==> user_lists(new.def_use).dom() == user_lists(old.def_use).dom().insert(user.id()),
        chain ==> user_lists(new.def_use)[user.id()] == Seq::<ValueID>::empty(),
        chain ==> forall|v: ValueID| #[trigger] user_lists(old.def_use).dom().contains(v.id())
            ==> user_lists(new.def_use)[v.id()] == users_among(old.values(), old.order(), v, old.len())
                + copies(user, occurrences(value.uses(), v)),
        !chain ==> user_lists(new.def_use) == user_lists(old.def_use),
        !chain ==> value.uses().len() == 0,
    ensures
        new.values_wf(),
        new.values() == old.values().push(value),
        new.chained(user) == chain,
        forall|v: ValueID| old.holds(v) ==> new.chained(v) == old.chained(v),
        forall|v: ValueID| #[trigger] old.holds(v) ==> new.holds(v) && new.value(v) == old.value(v),
{
    let n = old.len();
    let before = old.values();
    let old_order = old.order();
    assert(user.id() != ValueID::null_id());
    assert forall|v: ValueID| #[trigger] old.holds(v) implies new.holds(v) && new.value(v) == old.value(v) by {
        assert(v.id() != user.id());
    }
    assert forall|i: int| 0 <= i < n implies #[trigger] new.values()[i] == before[i] by {
        assert(new.order()[i] == old_order[i]);
        assert(old.holds(old_order[i]));
    }
    assert(new.values()[n as int] == value);
    assert(new.values() =~= before.push(value));
    // the keys
    assert(new.contents().dom() =~= old.contents().dom().insert(user.id()));
    assert forall|a: u64, b: u64|
        #[trigger] new.contents().dom().contains(a) && #[trigger] new.contents().dom().contains(b) && a != b
            implies key_index(a) != key_index(b) by {
        if a != user.id() && b != user.id() {
            assert(old.contents().dom().contains(a) && old.contents().dom().contains(b));
        }
    }
    assert forall|a: u64| #[trigger] user_lists(new.def_use).dom().contains(a) implies new.contents().dom().contains(a) by {
        if a != user.id() {
            assert(user_lists(old.def_use).dom().contains(a));
        }
    }
    assert(new.keys_wf());
    // the handles
    assert forall|v: ValueID| #[trigger] new.holds(v) implies new.order().contains(v) by {
        if v.id() == user.id() {
            lemma_value_id_eq(v, user);
            assert(new.order()[n as int] == user);
        } else {
            assert(old.holds(v));
            assert(old_order.contains(v));
            let p = choose|p: int| 0 <= p < old_order.len() && old_order[p] == v;
            assert(new.order()[p] == v);
        }
    }
    assert forall|i: int| 0 <= i < new.len() implies new.holds(#[trigger] new.order()[i]) by {
        if i < n {
            assert(new.order()[i] == old_order[i]);
            assert(old.holds(old_order[i]));
        }
    }
    assert forall|i: int, j: int| 0 <= i < j < new.len() implies new.order()[i] != new.order()[j] by {
        if j == n {
            assert(new.order()[i] == old_order[i]);
            assert(old_order.contains(old_order[i]));
        } else {
            assert(new.order()[i] == old_order[i]);
            assert(new.order()[j] == old_order[j]);
        }
    }
    assert forall|i: int| 0 <= i < new.len() implies uses_only(#[trigger] new.values()[i], new.order().take(i)) by {
        assert(new.order().take(i) =~= old_order.take(i));
        if i < n {
            assert(uses_only(before[i], old_order.take(i)));
        } else {
            assert(old_order.take(n as int) =~= old_order);
        }
    }
    // the lists of users
    assert forall|i: int| 0 <= i < n implies uses_only(#[trigger] before[i], old_order.take(i)) by {
        assert(old.values()[i] == before[i]);
    }
    assert forall|i: int| 0 <= i < n implies old_order[i] != user by {
        assert(old_order.contains(old_order[i]));
    }
    lemma_no_users_yet(before, old_order, user, n);
    assert forall|k: int| 0 <= k < value.uses().len() implies value.uses()[k] != user by {
        let w = value.uses()[k];
        assert(w.id() == ValueID::null_id() || old_order.contains(w));
    }
    lemma_no_occurrence(value.uses(), user);
    assert forall|v: ValueID| #[trigger] new.chained(v) implies new.holds(v) && new.users(v) == users_among(
        new.values(),
        new.order(),
        v,
        new.len(),
    ) by {
        lemma_users_among_prefix(before, old_order, new.values(), new.order(), v, n);
        assert(users_among(new.values(), new.order(), v, n + 1) == users_among(new.values(), new.order(), v, n)
            + copies(user, occurrences(value.uses(), v)));
        if v.id() == user.id() {
            lemma_value_id_eq(v, user);
            assert(copies(user, 0) =~= Seq::<ValueID>::empty());
            assert(Seq::<ValueID>::empty() + Seq::<ValueID>::empty() =~= Seq::<ValueID>::empty());
        } else {
            assert(user_lists(old.def_use).dom().contains(v.id()));
            assert(old.chained(v));
            if !chain {
                assert(value.uses() =~= Seq::<ValueID>::empty());
                assert(copies(user, 0) =~= Seq::<ValueID>::empty());
                assert(users_among(before, old_order, v, n) + Seq::<ValueID>::empty() =~= users_among(before, old_order, v, n));
            }
        }
    }
    assert(new.values_wf());
    assert forall|v: ValueID| old.holds(v) implies new.chained(v) == old.chained(v) by {
        assert(v.id() != user.id());
    }
}

/// The values, their handles and their lists alone make `values_wf`.
proof fn lemma_values_wf_keeps(a: &Context, b: &Context)
    requires
        a.values_wf(),
        a.values == b.values,
        a.def_use == b.def_use,
        a.order == b.order,
    ensures
        b.values_wf(),
{
    assert(a.contents() == b.contents());
    assert(a.order() == b.order());
    assert(a.values() == b.values());
    assert(user_lists(a.def_use) == user_lists(b.def_use));
    assert(b.keys_wf());
    assert forall|i: int, j: int| 0 <= i < j < b.len() implies b.order()[i] != b.order()[j] by {
        assert(a.order()[i] != a.order()[j]);
    }
    assert forall|i: int| 0 <= i < b.len() implies b.holds(#[trigger] b.order()[i]) by {
        assert(a.holds(a.order()[i]));
    }
    assert forall|v: ValueID| #[trigger] b.holds(v) implies b.order().contains(v) by {
        assert(a.holds(v));
    }
    assert forall|i: int| 0 <= i < b.len() implies uses_only(#[trigger] b.values()[i], b.order().take(i)) by {
        assert(uses_only(a.values()[i], a.order().take(i)));
    }
    assert forall|v: ValueID| #[trigger] b.chained(v) implies b.holds(v) && b.users(v) == users_among(
        b.values(),
        b.order(),
        v,
        b.len(),
    ) by {
        assert(a.chained(v));
    }
}

/// Occurrences in a concatenation add up.
proof fn lemma_occurrences_concat(a: Seq<ValueID>, b: Seq<ValueID>, v: ValueID)
    ensures
        occurrences(a + b, v) == occurrences(a, v) + occurrences(b, v),
    decreases b.len(),
{
    if b.len() > 0 {
        lemma_occurrences_concat(a, b.drop_last(), v);
        assert((a + b).drop_last() =~= a + b.drop_last());
    }
}

/// `n` copies of `w` hold `v` `n` times if it is `w`, else never.
proof fn lemma_occurrences_copies(w: ValueID, n: nat, v: ValueID)
    ensures
        occurrences(copies(w, n), v) == (if w == v { n } else { 0 }),
    decreases n,
{
    if n > 0 {
        lemma_occurrences_copies(w, (n - 1) as nat, v);
        assert(copies(w, n).drop_last() =~= copies(w, (n - 1) as nat));
    }
}

/// `v` occurs in `s` exactly when `s` contains it.
proof fn lemma_contains_iff_occurs(s: Seq<ValueID>, v: ValueID)
    ensures
        s.contains(v) <==> occurrences(s, v) > 0,
    decreases s.len(),
{
    if s.len() > 0 {
        lemma_contains_iff_occurs(s.drop_last(), v);
        if s.drop_last().contains(v) {
            let k = choose|k: int| 0 <= k < s.drop_last().len() && s.drop_last()[k] == v;
            assert(s[k] == v);
        }
        if s.contains(v) && s.last() != v {
            let k = choose|k: int| 0 <= k < s.len() && s[k] == v;
            assert(s.drop_last()[k] == v);
        }
    }
}

/// How often `u`, the handle at position `p`, is listed among the users of
/// `v` in the first `n` values.
proof fn lemma_occurrences_in_users(values: Seq<Value>, order: Seq<ValueID>, v: ValueID, u: ValueID, n: nat, p: int)
    requires
        n <= order.len(),
        0 <= p < order.len(),
        order[p] == u,
        forall|i: int, j: int| 0 <= i < j < order.len() ==> order[i] != order[j],
    ensures
        occurrences(users_among(values, order, v, n), u) == (if p < n {
            occurrences(values[p].uses(), v)
        } else {
            0
        }),
    decreases n,
{
    if n > 0 {
        let m = (n - 1) as nat;
        let w = order[m as int];
        lemma_occurrences_in_users(values, order, v, u, m, p);
        lemma_occurrences_concat(users_among(values, order, v, m), copies(w, occurrences(values[m as int].uses(), v)), u);
        lemma_occurrences_copies(w, occurrences(values[m as int].uses(), v), u);
        if m < p {
            assert(order[m as int] != order[p]);
        } else if p < m {
            assert(order[p] != order[m as int]);
        }
    }
}

/// `same_constant` does not depend on the order of its arguments.
pub proof fn lemma_same_constant_symmetric(a: Constant, b: Constant)
    ensures
        same_constant(a, b) == same_constant(b, a),
{
}

/// Counting in one more element.
proof fn lemma_occurrences_take(s: Seq<ValueID>, k: int)
    requires
        0 <= k < s.len(),
    ensures
        forall|v: ValueID| #[trigger]
            occurrences(s.take(k + 1), v) == occurrences(s.take(k), v) + (if s[k] == v {
                1nat
            } else {
                0nat
            }),
{
    assert(s.take(k + 1).drop_last() =~= s.take(k));
}

/// The users among the first `n` values depend on those values and their
/// handles only.
proof fn lemma_users_among_prefix(
    a: Seq<Value>,
    a_order: Seq<ValueID>,
    b: Seq<Value>,
    b_order: Seq<ValueID>,
    v: ValueID,
    n: nat,
)
    requires
        n <= a.len(),
        n <= b.len(),
        n <= a_order.len(),
        n <= b_order.len(),
        forall|i: int| 0 <= i < n ==> a[i] == b[i] && a_order[i] == b_order[i],
    ensures
        users_among(a, a_order, v, n) == users_among(b, b_order, v, n),
    decreases n,
{
    if n > 0 {
        lemma_users_among_prefix(a, a_order, b, b_order, v, (n - 1) as nat);
        assert(a[n - 1] == b[n - 1]);
        assert(a_order[n - 1] == b_order[n - 1]);
    }
}

/// A sequence in which `v` does not occur has no occurrence of it.
proof fn lemma_no_occurrence(s: Seq<ValueID>, v: ValueID)
    requires
        forall|k: int| 0 <= k < s.len() ==> s[k] != v,
    ensures
        occurrences(s, v) == 0,
    decreases s.len(),
{
    if s.len() > 0 {
        lemma_no_occurrence(s.drop_last(), v);
    }
}

/// A handle that is not among the first `n` has no users among them.
proof fn lemma_no_users_yet(values: Seq<Value>, order: Seq<ValueID>, v: ValueID, n: nat)
    requires
        n <= values.len(),
        n <= order.len(),
        v.id() != ValueID::null_id(),
        forall|i: int| 0 <= i < n ==> order[i] != v,
        forall|i: int| 0 <= i < n ==> uses_only(#[trigger] values[i], order.take(i)),
    ensures
        users_among(values, order, v, n) == Seq::<ValueID>::empty(),
    decreases n,
{
    if n > 0 {
        let u = (n - 1) as nat;
        lemma_no_users_yet(values, order, v, u);
        let s = values[u as int].uses();
        assert(uses_only(values[u as int], order.take(u as int)));
        assert forall|k: int| 0 <= k < s.len() implies s[k] != v by {
            let w = s[k];
            if w.id() != ValueID::null_id() {
                assert(order.take(u as int).contains(w));
                let j = choose|j: int| 0 <= j < order.take(u as int).len() && order.take(u as int)[j] == w;
                assert(order[j] == w);
            }
        }
        lemma_no_occurrence(s, v);
        assert(copies(order[u as int], 0) =~= Seq::<ValueID>::empty());
    }
}

} // verus!
