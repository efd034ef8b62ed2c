//! How a generated builder behaves when it runs.
//!
//! `RecordBuilder<V>` is the generated builder with every field's value taken
//! from one type `V`: slot `i` stands for the record's `i`-th field, `set` is
//! that field's setter and `build` is the finalizer. The finalizer reads the
//! slots in declaration order, clones what it reads, and fails at the first
//! slot that is unset.
use vstd::prelude::*;
use crate::schema::{RecordSchema, field_names};
use crate::codegen::{missing_message, missing_field_message, strings_view};

verus! {

/// The finalizer's error: the named field has no value.
#[derive(PartialEq, Eq, Debug)]
pub struct MissingFieldError {
    pub field: String,
}

impl MissingFieldError {
    /// A human-readable description naming the unset field.
    pub fn message(&self) -> (r: String)
        ensures
            r@ == missing_message(self.field@),
    {
        missing_field_message(&self.field)
    }
}

/// A builder in some state: the field names in declaration order and, for
/// each field, its slot (absent, or present with a value).
pub struct RecordBuilder<V> {
    pub fields: Vec<String>,
    pub slots: Vec<Option<V>>,
}

/// `n` absent slots.
pub open spec fn absent_slots<V>(n: nat) -> Seq<Option<V>> {
    Seq::new(n, |i: int| None)
}

/// Every slot is present.
pub open spec fn all_set<V>(s: Seq<Option<V>>) -> bool {
    forall|i: int| 0 <= i < s.len() ==> (#[trigger] s[i]).is_some()
}

/// The values held by slots that are all present.
pub open spec fn slot_values<V>(s: Seq<Option<V>>) -> Seq<V> {
    s.map_values(|o: Option<V>| o->0)
}

/// Slot `k` is unset and every slot before it is set.
pub open spec fn is_first_unset<V>(s: Seq<Option<V>>, k: int) -> bool {
    &&& 0 <= k < s.len()
    &&& s[k].is_none()
    &&& forall|j: int| 0 <= j < k ==> (#[trigger] s[j]).is_some()
}

/// The slots after setter `i` stored `v`; there is no setter for an index
/// outside the slots.
pub open spec fn set_slot<V>(s: Seq<Option<V>>, i: int, v: V) -> Seq<Option<V>> {
    if 0 <= i < s.len() {
        s.update(i, Some(v))
    } else {
        s
    }
}

/// The slots after a sequence of setter calls `(field index, value)`, in order.
pub open spec fn apply_sets<V>(s: Seq<Option<V>>, sets: Seq<(int, V)>) -> Seq<Option<V>>
    decreases sets.len(),
{
    if sets.len() == 0 {
        s
    } else {
        set_slot(apply_sets(s, sets.drop_last()), sets.last().0, sets.last().1)
    }
}

/// One setter call per field, in declaration order, with the values `vs`.
pub open spec fn sets_in_order<V>(vs: Seq<V>) -> Seq<(int, V)> {
    Seq::new(vs.len(), |i: int| (i, vs[i]))
}

impl<V: Clone> RecordBuilder<V> {
    /// One slot per field name.
    pub open spec fn wf(&self) -> bool {
        self.fields@.len() == self.slots@.len()
    }

    /// The factory: a builder for `schema` with every slot absent.
    pub fn new(schema: &RecordSchema) -> (r: Self)
        ensures
            r.wf(),
            strings_view(r.fields@) == field_names(schema.fields@),
            r.slots@ == absent_slots::<V>(schema.fields@.len()),
    {
        let mut fields: Vec<String> = Vec::new();
        let mut slots: Vec<Option<V>> = Vec::new();
        let mut i: usize = 0;
        while i < schema.fields.len()
            invariant
                i <= schema.fields@.len(),
                fields@.len() == i,
                slots@.len() == i,
                forall|k: int| 0 <= k < i ==> #[trigger] fields@[k]@ == schema.fields@[k].name@,
                forall|k: int| 0 <= k < i ==> (#[trigger] slots@[k]).is_none(),
            decreases schema.fields@.len() - i,
        {
            fields.push(schema.fields[i].name.clone());
            slots.push(None);
            i = i + 1;
        }
        assert(strings_view(fields@) =~= field_names(schema.fields@));
        assert(slots@ =~= absent_slots::<V>(schema.fields@.len()));
        RecordBuilder { fields, slots }
    }

    /// The setter of field `i`: stores `v` as present in slot `i`, replacing
    /// what was there, and hands back this same builder for the next call.
    pub fn set(&mut self, i: usize, v: V) -> (r: &mut Self)
        requires
            i < old(self).slots@.len(),
        ensures
            r.fields@ == old(self).fields@,
            r.slots@ == set_slot(old(self).slots@, i as int, v),
            *final(self) == *final(r),
    {
        self.slots.set(i, Some(v));
        self
    }

    /// The finalizer: the values of all fields, in declaration order, each a
    /// clone of what its slot holds; or, when some slot is unset, the first
    /// such field. The builder is left as it was.
    pub fn build(&self) -> (r: Result<Vec<V>, MissingFieldError>)
        requires
            self.wf(),
        ensures
            match r {
                Ok(vals) => {
                    &&& all_set(self.slots@)
                    &&& vals@.len() == self.slots@.len()
                    &&& forall|i: int| 0 <= i < vals@.len() ==> cloned(
                        #[trigger] slot_values(self.slots@)[i],
                        vals@[i],
                    )
                },
                Err(e) => exists|k: int|
                    #[trigger] is_first_unset(self.slots@, k) && e.field@ == self.fields@[k]@,
            },
    {
        let mut vals: Vec<V> = Vec::new();
        let mut i: usize = 0;
        while i < self.slots.len()
            invariant
                self.wf(),
                i <= self.slots@.len(),
                vals@.len() == i,
                forall|k: int| 0 <= k < i ==> (#[trigger] self.slots@[k]).is_some(),
                forall|k: int| 0 <= k < i ==> cloned(
                    #[trigger] slot_values(self.slots@)[k],
                    vals@[k],
                ),
            decreases self.slots@.len() - i,
        {
            match &self.slots[i] {
                Some(v) => {
                    vals.push(v.clone());
                },
                None => {
                    assert(is_first_unset(self.slots@, i as int));
                    return Err(MissingFieldError { field: self.fields[i].clone() });
                },
            }
            i = i + 1;
        }
        Ok(vals)
    }
}

/// Setter calls accumulate on one builder: running `xs` and then `ys` leaves
/// the same slots as running `xs` followed by `ys` as one sequence.
pub proof fn lemma_setter_calls_accumulate<V>(s: Seq<Option<V>>, xs: Seq<(int, V)>, ys: Seq<(int, V)>)
    ensures
        apply_sets(s, xs + ys) == apply_sets(apply_sets(s, xs), ys),
    decreases ys.len(),
{
    if ys.len() == 0 {
        assert(xs + ys =~= xs);
    } else {
        lemma_setter_calls_accumulate(s, xs, ys.drop_last());
        assert((xs + ys).drop_last() =~= xs + ys.drop_last());
        assert((xs + ys).last() == ys.last());
    }
}

/// Calling the setters of two different fields in either order leaves the same
/// slots, and so the same finalizer result.
pub proof fn lemma_setters_commute<V>(s: Seq<Option<V>>, i: int, a: V, j: int, b: V)
    requires
        i != j,
    ensures
        set_slot(set_slot(s, i, a), j, b) == set_slot(set_slot(s, j, b), i, a),
{
    assert(set_slot(set_slot(s, i, a), j, b) =~= set_slot(set_slot(s, j, b), i, a));
}

/// Within any sequence of setter calls, two adjacent calls on different fields
/// can be swapped without changing the final slots.
pub proof fn lemma_swap_adjacent_setters<V>(
    s: Seq<Option<V>>,
    xs: Seq<(int, V)>,
    i: int,
    a: V,
    j: int,
    b: V,
    ys: Seq<(int, V)>,
)
    requires
        i != j,
    ensures
        apply_sets(s, xs + seq![(i, a), (j, b)] + ys) == apply_sets(
            s,
            xs + seq![(j, b), (i, a)] + ys,
        ),
{
    let p = seq![(i, a), (j, b)];
    let q = seq![(j, b), (i, a)];
    lemma_setter_calls_accumulate(s, xs + p, ys);
    lemma_setter_calls_accumulate(s, xs + q, ys);
    lemma_setter_calls_accumulate(s, xs, p);
    lemma_setter_calls_accumulate(s, xs, q);
    let t = apply_sets(s, xs);
    let e = Seq::<(int, V)>::empty();
    let pa = seq![(i, a)];
    let qb = seq![(j, b)];
    assert(apply_sets(t, e) == t);
    assert(pa.drop_last() =~= e && pa.last() == (i, a));
    assert(qb.drop_last() =~= e && qb.last() == (j, b));
    assert(apply_sets(t, pa) == set_slot(t, i, a));
    assert(apply_sets(t, qb) == set_slot(t, j, b));
    assert(p.drop_last() =~= pa && p.last() == (j, b));
    assert(q.drop_last() =~= qb && q.last() == (i, a));
    assert(apply_sets(t, p) == set_slot(set_slot(t, i, a), j, b));
    assert(apply_sets(t, q) == set_slot(set_slot(t, j, b), i, a));
    lemma_setters_commute(t, i, a, j, b);
}

/// Calling a field's setter again replaces the value that it stored before.
pub proof fn lemma_setter_overwrites<V>(s: Seq<Option<V>>, i: int, a: V, b: V)
    ensures
        set_slot(set_slot(s, i, a), i, b) == set_slot(s, i, b),
{
    assert(set_slot(set_slot(s, i, a), i, b) =~= set_slot(s, i, b));
}

proof fn lemma_fill_prefix<V>(vs: Seq<V>, k: int)
    requires
        0 <= k <= vs.len(),
    ensures
        apply_sets(absent_slots::<V>(vs.len()), sets_in_order(vs).take(k)) == Seq::new(
            vs.len(),
            |i: int| if i < k { Some(vs[i]) } else { None },
        ),
    decreases k,
{
    let n = vs.len();
    if k == 0 {
        assert(sets_in_order(vs).take(0) =~= Seq::<(int, V)>::empty());
        assert(absent_slots::<V>(n) =~= Seq::new(n, |i: int| if i < 0 { Some(vs[i]) } else { None }));
    } else {
        lemma_fill_prefix(vs, k - 1);
        assert(sets_in_order(vs).take(k).drop_last() =~= sets_in_order(vs).take(k - 1));
        assert(sets_in_order(vs).take(k).last() == (k - 1, vs[k - 1]));
        assert(apply_sets(absent_slots::<V>(n), sets_in_order(vs).take(k)) =~= Seq::new(
            n,
            |i: int| if i < k { Some(vs[i]) } else { None },
        ));
    }
}

/// Starting from the factory's builder and calling every field's setter once,
/// every slot is set and the slots hold exactly the values given: the
/// finalizer then succeeds with those values.
pub proof fn lemma_setting_every_field_completes<V>(vs: Seq<V>)
    ensures
        all_set(apply_sets(absent_slots::<V>(vs.len()), sets_in_order(vs))),
        slot_values(apply_sets(absent_slots::<V>(vs.len()), sets_in_order(vs))) == vs,
{
    lemma_fill_prefix(vs, vs.len() as int);
    assert(sets_in_order(vs).take(vs.len() as int) =~= sets_in_order(vs));
    let s = apply_sets(absent_slots::<V>(vs.len()), sets_in_order(vs));
    assert(slot_values(s) =~= vs);
}

proof fn lemma_untouched_slot<V>(s: Seq<Option<V>>, sets: Seq<(int, V)>, i: int)
    requires
        0 <= i < s.len(),
        forall|j: int| 0 <= j < sets.len() ==> 0 <= (#[trigger] sets[j]).0 < s.len(),
        forall|j: int| 0 <= j < sets.len() ==> (#[trigger] sets[j]).0 != i,
    ensures
        apply_sets(s, sets).len() == s.len(),
        apply_sets(s, sets)[i] == s[i],
    decreases sets.len(),
{
    if sets.len() > 0 {
        let rest = sets.drop_last();
        assert forall|j: int| 0 <= j < rest.len() implies 0 <= (#[trigger] rest[j]).0 < s.len()
            && rest[j].0 != i by {
            assert(rest[j] == sets[j]);
        }
        lemma_untouched_slot(s, rest, i);
        assert(sets.last() == sets[sets.len() - 1]);
    }
}

/// A field whose setter was never called stays unset, so the finalizer fails
/// rather than returning a record.
pub proof fn lemma_unset_field_blocks_build<V>(n: nat, sets: Seq<(int, V)>, i: int)
    requires
        0 <= i < n,
        forall|j: int| 0 <= j < sets.len() ==> 0 <= (#[trigger] sets[j]).0 < n,
        forall|j: int| 0 <= j < sets.len() ==> (#[trigger] sets[j]).0 != i,
    ensures
        apply_sets(absent_slots::<V>(n), sets)[i].is_none(),
        !all_set(apply_sets(absent_slots::<V>(n), sets)),
{
    lemma_untouched_slot(absent_slots::<V>(n), sets, i);
}

} // verus!
