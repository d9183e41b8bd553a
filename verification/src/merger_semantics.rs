//! What the routines on mergers compute when they run on the reference
//! machine, and what follows for their use together: merges into the scalar
//! lane and merges into the vector lane do not disturb one another, so the
//! result of a merger depends on the values merged into each lane and on
//! their order within the lane, and on nothing else.

use vstd::prelude::*;
use crate::ir::Module;
use crate::ir::Value;
use crate::machine::call;
use crate::machine::int_val;
use crate::machine::lanes_apply;
use crate::machine::lemma_call_routine;
use crate::machine::lemma_return;
use crate::machine::lemma_return_void;
use crate::machine::lemma_step;
use crate::machine::no_locals;
use crate::machine::ptr_val;
use crate::machine::splat;
use crate::merger::Merger;
use crate::merger::Part;
use crate::numeric::apply;
use crate::numeric::identity;
use crate::numeric::lemma_identity_neutral;
use crate::numeric::lemma_apply_defined;
use crate::numeric::pattern;
use crate::numeric::supported;
use crate::runtime::RunView;
use crate::value::Atom;
use crate::value::Lanes;
use crate::value::Outcome;
use crate::value::Ptr;
use crate::value::Val;

verus! {

/// The lanes of a merger.
pub struct MergerVal {
    pub scalar: u64,
    pub lanes: Lanes,
}

/// Whether the record at `p` holds the merger.
pub open spec fn holds(st: RunView, p: Ptr, mv: MergerVal) -> bool {
    &&& st.in_slots(p, 2)
    &&& p->1 < u64::MAX
    &&& st.load(p) == Some(Atom::Int(mv.scalar))
    &&& st.load(Ptr::At(p->0, (p->1 + 1) as u64)) == Some(Atom::Simd(mv.lanes))
}

/// The state in which the record at `p` holds the merger and all else is as
/// in `st`.
pub open spec fn put(st: RunView, p: Ptr, mv: MergerVal) -> RunView {
    st.set_slot(p->0 as int, p->1 as int, Atom::Int(mv.scalar)).set_slot(
        p->0 as int,
        p->1 + 1,
        Atom::Simd(mv.lanes),
    )
}

/// A value that is merged: a scalar into the scalar lane, or a SIMD value
/// into the vector lane.
pub enum Merge {
    Scalar(u64),
    Vector(Lanes),
}

/// The scalars among the values, in their order.
pub open spec fn scalars(values: Seq<Merge>) -> Seq<u64>
    decreases values.len(),
{
    if values.len() == 0 {
        Seq::empty()
    } else {
        match values.last() {
            Merge::Scalar(x) => scalars(values.drop_last()).push(x),
            Merge::Vector(_) => scalars(values.drop_last()),
        }
    }
}

/// The SIMD values among the values, in their order.
pub open spec fn vectors(values: Seq<Merge>) -> Seq<Lanes>
    decreases values.len(),
{
    if values.len() == 0 {
        Seq::empty()
    } else {
        match values.last() {
            Merge::Scalar(_) => vectors(values.drop_last()),
            Merge::Vector(v) => vectors(values.drop_last()).push(v),
        }
    }
}

impl Merger {
    /// Whether the machine gives the operator a meaning at the scalar kind.
    pub open spec fn applies(&self) -> bool {
        self.scalar_kind.spec_is_integer() && supported(self.op, self.scalar_kind)
    }

    /// The merger after `x` was merged into its scalar lane.
    pub open spec fn merged(&self, mv: MergerVal, x: u64) -> MergerVal {
        MergerVal { scalar: apply(self.op, self.scalar_kind, mv.scalar, x)->0, lanes: mv.lanes }
    }

    /// The merger after `v` was merged into its vector lane, lane by lane.
    pub open spec fn vmerged(&self, mv: MergerVal, v: Lanes) -> MergerVal {
        MergerVal {
            scalar: mv.scalar,
            lanes: lanes_apply(self.op, self.scalar_kind, mv.lanes, v)->0,
        }
    }

    /// The result of the merger: the scalar lane combined with each vector
    /// lane in turn, from the first to the last.
    pub open spec fn folded(&self, mv: MergerVal) -> u64 {
        let r0 = apply(self.op, self.scalar_kind, mv.scalar, mv.lanes.l0)->0;
        let r1 = apply(self.op, self.scalar_kind, r0, mv.lanes.l1)->0;
        let r2 = apply(self.op, self.scalar_kind, r1, mv.lanes.l2)->0;
        apply(self.op, self.scalar_kind, r2, mv.lanes.l3)->0
    }

    /// The merger after the values were merged, one after another.
    pub open spec fn after(&self, mv: MergerVal, values: Seq<Merge>) -> MergerVal
        decreases values.len(),
    {
        if values.len() == 0 {
            mv
        } else {
            match values.last() {
                Merge::Scalar(x) => self.merged(self.after(mv, values.drop_last()), x),
                Merge::Vector(v) => self.vmerged(self.after(mv, values.drop_last()), v),
            }
        }
    }

    /// The scalar lane after the scalars were merged into it in their order.
    pub open spec fn scalar_after(&self, scalar: u64, xs: Seq<u64>) -> u64
        decreases xs.len(),
    {
        if xs.len() == 0 {
            scalar
        } else {
            apply(
                self.op,
                self.scalar_kind,
                self.scalar_after(scalar, xs.drop_last()),
                xs.last(),
            )->0
        }
    }

    /// The vector lane after the SIMD values were merged into it in their
    /// order.
    pub open spec fn lanes_after(&self, lanes: Lanes, vs: Seq<Lanes>) -> Lanes
        decreases vs.len(),
    {
        if vs.len() == 0 {
            lanes
        } else {
            lanes_apply(
                self.op,
                self.scalar_kind,
                self.lanes_after(lanes, vs.drop_last()),
                vs.last(),
            )->0
        }
    }

    /// Each lane of a merger holds what was merged into that lane, in the
    /// order in which it was merged, whatever was merged into the other lane
    /// in between.
    pub proof fn lemma_lanes_are_independent(&self, mv: MergerVal, values: Seq<Merge>)
        ensures
            self.after(mv, values) == (MergerVal {
                scalar: self.scalar_after(mv.scalar, scalars(values)),
                lanes: self.lanes_after(mv.lanes, vectors(values)),
            }),
        decreases values.len(),
    {
        if values.len() > 0 {
            self.lemma_lanes_are_independent(mv, values.drop_last());
            match values.last() {
                Merge::Scalar(x) => {
                    assert(scalars(values).drop_last() =~= scalars(values.drop_last()));
                },
                Merge::Vector(v) => {
                    assert(vectors(values).drop_last() =~= vectors(values.drop_last()));
                },
            }
        }
    }

    /// The result of a merger does not depend on how the merges of scalars
    /// and the merges of SIMD values were interleaved: two sequences of
    /// merges with the same scalars in the same order and the same SIMD
    /// values in the same order give the same merger, and so the same
    /// result.
    pub proof fn lemma_interleaving_is_irrelevant(
        &self,
        mv: MergerVal,
        a: Seq<Merge>,
        b: Seq<Merge>,
    )
        requires
            scalars(a) == scalars(b),
            vectors(a) == vectors(b),
        ensures
            self.after(mv, a) == self.after(mv, b),
            self.folded(self.after(mv, a)) == self.folded(self.after(mv, b)),
    {
        self.lemma_lanes_are_independent(mv, a);
        self.lemma_lanes_are_independent(mv, b);
    }

    /// The result of a new merger is its initial element: the identity in the
    /// vector lanes does not change it.
    pub proof fn lemma_result_of_new(&self, init: u64)
        requires
            self.scalar_kind.spec_is_integer(),
            identity(self.op, self.scalar_kind) is Some,
        ensures
            self.folded(
                MergerVal {
                    scalar: init,
                    lanes: splat(identity(self.op, self.scalar_kind)->0),
                },
            ) == pattern(self.scalar_kind, init),
    {
        let p = pattern(self.scalar_kind, init) as u64;
        lemma_identity_neutral(self.op, self.scalar_kind, init);
        lemma_identity_neutral(self.op, self.scalar_kind, p);
        assert(pattern(self.scalar_kind, p) == p);
    }

    /// `new` returns the merger whose scalar lane holds the initial element
    /// and whose vector lanes hold the identity of the operator, and changes
    /// nothing.
    #[verifier::rlimit(50)]
    pub proof fn lemma_new_runs(&self, m: &Module, init: Atom, st: RunView)
        requires
            self.wf(m),
            self.new is Some,
        ensures
            call(m, (self.new->0).0 as int, seq![Val::Atom(init)], st) == (
                Outcome::Value(
                    Val::Record(
                        init,
                        Atom::Simd(splat(identity(self.op, self.scalar_kind)->0)),
                    ),
                ),
                st,
            ),
    {
        let f = (self.new->0).0 as int;
        let params = seq![Val::Atom(init)];
        let lanes = Atom::Simd(splat(identity(self.op, self.scalar_kind)->0));
        lemma_call_routine(m, f, params, st);
        let l0 = no_locals(4);
        lemma_step(m, f, 0, 4, params, l0, st, Val::Record(Atom::Undef, Atom::Undef), st);
        let l1 = l0.update(0, Val::Record(Atom::Undef, Atom::Undef));
        lemma_step(m, f, 1, 4, params, l1, st, Val::Record(init, Atom::Undef), st);
        let l2 = l1.update(1, Val::Record(init, Atom::Undef));
        lemma_step(m, f, 2, 4, params, l2, st, Val::Record(init, lanes), st);
        let l3 = l2.update(2, Val::Record(init, lanes));
        lemma_return(m, f, 3, 4, params, l3, st, Value::Local(2));
    }

    /// `merge` combines the value into the scalar lane of the merger at `p`
    /// and changes nothing else.
    #[verifier::rlimit(50)]
    pub proof fn lemma_merge_runs(&self, m: &Module, p: Ptr, mv: MergerVal, x: u64, st: RunView)
        requires
            self.wf(m),
            self.merge is Some,
            self.applies(),
            holds(st, p, mv),
        ensures
            call(m, (self.merge->0).0 as int, seq![ptr_val(p), int_val(x)], st) == (
                Outcome::Value(Val::Unit),
                put(st, p, self.merged(mv, x)),
            ),
            holds(put(st, p, self.merged(mv, x)), p, self.merged(mv, x)),
    {
        let f = (self.merge->0).0 as int;
        let params = seq![ptr_val(p), int_val(x)];
        lemma_apply_defined(self.op, self.scalar_kind, mv.scalar, x);
        let r = apply(self.op, self.scalar_kind, mv.scalar, x)->0;
        let st2 = st.set_slot(p->0 as int, p->1 as int, Atom::Int(r));
        lemma_call_routine(m, f, params, st);
        let l0 = no_locals(5);
        lemma_step(m, f, 0, 5, params, l0, st, ptr_val(p), st);
        let l1 = l0.update(0, ptr_val(p));
        lemma_step(m, f, 1, 5, params, l1, st, int_val(mv.scalar), st);
        let l2 = l1.update(1, int_val(mv.scalar));
        lemma_step(m, f, 2, 5, params, l2, st, int_val(r), st);
        let l3 = l2.update(2, int_val(r));
        lemma_step(m, f, 3, 5, params, l3, st, Val::Unit, st2);
        let l4 = l3.update(3, Val::Unit);
        lemma_return_void(m, f, 4, 5, params, l4, st2);
        assert(put(st, p, self.merged(mv, x)) =~= st2) by {
            let slots = st2.blocks[p->0 as int]->Slots_0;
            assert(slots.update(p->1 + 1, Atom::Simd(mv.lanes)) =~= slots);
            assert(st2.blocks.update(
                p->0 as int,
                crate::runtime::BlockView::Slots(slots),
            ) =~= st2.blocks);
        }
    }

    /// `vmerge` combines the value, lane by lane, into the vector lane of the
    /// merger at `p` and changes nothing else.
    #[verifier::rlimit(50)]
    pub proof fn lemma_vmerge_runs(&self, m: &Module, p: Ptr, mv: MergerVal, v: Lanes, st: RunView)
        requires
            self.wf(m),
            self.vmerge is Some,
            self.applies(),
            holds(st, p, mv),
        ensures
            call(
                m,
                (self.vmerge->0).0 as int,
                seq![ptr_val(p), Val::Atom(Atom::Simd(v))],
                st,
            ) == (Outcome::Value(Val::Unit), put(st, p, self.vmerged(mv, v))),
            holds(put(st, p, self.vmerged(mv, v)), p, self.vmerged(mv, v)),
    {
        let f = (self.vmerge->0).0 as int;
        let params = seq![ptr_val(p), Val::Atom(Atom::Simd(v))];
        lemma_apply_defined(self.op, self.scalar_kind, mv.lanes.l0, v.l0);
        lemma_apply_defined(self.op, self.scalar_kind, mv.lanes.l1, v.l1);
        lemma_apply_defined(self.op, self.scalar_kind, mv.lanes.l2, v.l2);
        lemma_apply_defined(self.op, self.scalar_kind, mv.lanes.l3, v.l3);
        let r = lanes_apply(self.op, self.scalar_kind, mv.lanes, v)->0;
        let q = Ptr::At(p->0, (p->1 + 1) as u64);
        let st2 = st.set_slot(p->0 as int, p->1 + 1, Atom::Simd(r));
        lemma_call_routine(m, f, params, st);
        let l0 = no_locals(5);
        lemma_step(m, f, 0, 5, params, l0, st, ptr_val(q), st);
        let l1 = l0.update(0, ptr_val(q));
        lemma_step(m, f, 1, 5, params, l1, st, Val::Atom(Atom::Simd(mv.lanes)), st);
        let l2 = l1.update(1, Val::Atom(Atom::Simd(mv.lanes)));
        lemma_step(m, f, 2, 5, params, l2, st, Val::Atom(Atom::Simd(r)), st);
        let l3 = l2.update(2, Val::Atom(Atom::Simd(r)));
        lemma_step(m, f, 3, 5, params, l3, st, Val::Unit, st2);
        let l4 = l3.update(3, Val::Unit);
        lemma_return_void(m, f, 4, 5, params, l4, st2);
        assert(put(st, p, self.vmerged(mv, v)) =~= st2) by {
            let slots = st.blocks[p->0 as int]->Slots_0;
            assert(slots.update(p->1 as int, Atom::Int(mv.scalar)) =~= slots);
            assert(st.blocks.update(p->0 as int, crate::runtime::BlockView::Slots(slots))
                =~= st.blocks);
        }
    }

    /// `result` returns the scalar lane of the merger at `p` combined with
    /// each vector lane in turn, and changes nothing.
    #[verifier::rlimit(50)]
    pub proof fn lemma_result_runs(&self, m: &Module, p: Ptr, mv: MergerVal, st: RunView)
        requires
            self.wf(m),
            self.result is Some,
            self.applies(),
            holds(st, p, mv),
        ensures
            call(m, (self.result->0).0 as int, seq![ptr_val(p)], st) == (
                Outcome::Value(int_val(self.folded(mv))),
                st,
            ),
    {
        let f = (self.result->0).0 as int;
        let params = seq![ptr_val(p)];
        let q = Ptr::At(p->0, (p->1 + 1) as u64);
        let r0 = apply(self.op, self.scalar_kind, mv.scalar, mv.lanes.l0)->0;
        let r1 = apply(self.op, self.scalar_kind, r0, mv.lanes.l1)->0;
        let r2 = apply(self.op, self.scalar_kind, r1, mv.lanes.l2)->0;
        let r3 = apply(self.op, self.scalar_kind, r2, mv.lanes.l3)->0;
        lemma_apply_defined(self.op, self.scalar_kind, mv.scalar, mv.lanes.l0);
        lemma_apply_defined(self.op, self.scalar_kind, r0, mv.lanes.l1);
        lemma_apply_defined(self.op, self.scalar_kind, r1, mv.lanes.l2);
        lemma_apply_defined(self.op, self.scalar_kind, r2, mv.lanes.l3);
        lemma_call_routine(m, f, params, st);
        let l0 = no_locals(13);
        lemma_step(m, f, 0, 13, params, l0, st, ptr_val(p), st);
        let l1 = l0.update(0, ptr_val(p));
        lemma_step(m, f, 1, 13, params, l1, st, int_val(mv.scalar), st);
        let l2 = l1.update(1, int_val(mv.scalar));
        lemma_step(m, f, 2, 13, params, l2, st, ptr_val(q), st);
        let l3 = l2.update(2, ptr_val(q));
        lemma_step(m, f, 3, 13, params, l3, st, Val::Atom(Atom::Simd(mv.lanes)), st);
        let l4 = l3.update(3, Val::Atom(Atom::Simd(mv.lanes)));
        lemma_step(m, f, 4, 13, params, l4, st, int_val(mv.lanes.l0), st);
        let l5 = l4.update(4, int_val(mv.lanes.l0));
        lemma_step(m, f, 5, 13, params, l5, st, int_val(r0), st);
        let l6 = l5.update(5, int_val(r0));
        lemma_step(m, f, 6, 13, params, l6, st, int_val(mv.lanes.l1), st);
        let l7 = l6.update(6, int_val(mv.lanes.l1));
        lemma_step(m, f, 7, 13, params, l7, st, int_val(r1), st);
        let l8 = l7.update(7, int_val(r1));
        lemma_step(m, f, 8, 13, params, l8, st, int_val(mv.lanes.l2), st);
        let l9 = l8.update(8, int_val(mv.lanes.l2));
        lemma_step(m, f, 9, 13, params, l9, st, int_val(r2), st);
        let l10 = l9.update(9, int_val(r2));
        lemma_step(m, f, 10, 13, params, l10, st, int_val(mv.lanes.l3), st);
        let l11 = l10.update(10, int_val(mv.lanes.l3));
        lemma_step(m, f, 11, 13, params, l11, st, int_val(r3), st);
        let l12 = l11.update(11, int_val(r3));
        lemma_return(m, f, 12, 13, params, l12, st, Value::Local(11));
    }

    /// A merge into the scalar lane and a merge into the vector lane leave
    /// the same state in either order.
    #[verifier::rlimit(50)]
    pub proof fn lemma_merges_commute(
        &self,
        m: &Module,
        p: Ptr,
        mv: MergerVal,
        x: u64,
        v: Lanes,
        st: RunView,
    )
        requires
            self.wf(m),
            self.merge is Some,
            self.vmerge is Some,
            self.applies(),
            holds(st, p, mv),
        ensures
            ({
                let scalar_first = call(
                    m,
                    (self.vmerge->0).0 as int,
                    seq![ptr_val(p), Val::Atom(Atom::Simd(v))],
                    call(m, (self.merge->0).0 as int, seq![ptr_val(p), int_val(x)], st).1,
                );
                let vector_first = call(
                    m,
                    (self.merge->0).0 as int,
                    seq![ptr_val(p), int_val(x)],
                    call(
                        m,
                        (self.vmerge->0).0 as int,
                        seq![ptr_val(p), Val::Atom(Atom::Simd(v))],
                        st,
                    ).1,
                );
                &&& scalar_first == vector_first
                &&& holds(scalar_first.1, p, self.vmerged(self.merged(mv, x), v))
            }),
    {
        self.lemma_merge_runs(m, p, mv, x, st);
        let s1 = put(st, p, self.merged(mv, x));
        self.lemma_vmerge_runs(m, p, self.merged(mv, x), v, s1);
        self.lemma_vmerge_runs(m, p, mv, v, st);
        let s2 = put(st, p, self.vmerged(mv, v));
        self.lemma_merge_runs(m, p, self.vmerged(mv, v), x, s2);
        let both = self.vmerged(self.merged(mv, x), v);
        assert(both == self.merged(self.vmerged(mv, v), x));
        assert(put(s1, p, both) =~= put(s2, p, both)) by {
            let b = p->0 as int;
            let off = p->1 as int;
            assert(put(s1, p, both).blocks[b]->Slots_0 =~= put(s2, p, both).blocks[b]->Slots_0);
            assert(put(s1, p, both).blocks =~= put(s2, p, both).blocks);
        }
    }

    /// What `new` does: see `lemma_new_runs`.
    pub open spec fn new_meaning(&self, init: Atom, st: RunView) -> (Outcome, RunView) {
        (
            Outcome::Value(
                Val::Record(init, Atom::Simd(splat(identity(self.op, self.scalar_kind)->0))),
            ),
            st,
        )
    }

    /// What `merge` does to the merger at `p`: see `lemma_merge_runs`.
    pub open spec fn merge_meaning(&self, p: Ptr, mv: MergerVal, x: u64, st: RunView) -> (
        Outcome,
        RunView,
    ) {
        (Outcome::Value(Val::Unit), put(st, p, self.merged(mv, x)))
    }

    /// What `vmerge` does to the merger at `p`: see `lemma_vmerge_runs`.
    pub open spec fn vmerge_meaning(&self, p: Ptr, mv: MergerVal, v: Lanes, st: RunView) -> (
        Outcome,
        RunView,
    ) {
        (Outcome::Value(Val::Unit), put(st, p, self.vmerged(mv, v)))
    }

    /// What `result` does with the merger at `p`: see `lemma_result_runs`.
    pub open spec fn result_meaning(&self, p: Ptr, mv: MergerVal, st: RunView) -> (
        Outcome,
        RunView,
    ) {
        (Outcome::Value(int_val(self.folded(mv))), st)
    }

    /// Whether the routine, if it was generated, does in the module what it
    /// is meant to do, for all arguments and in every state of the run. For
    /// the routines that apply the operator this is said of the operators
    /// and kinds that the machine gives a meaning to, and of pointers to
    /// records that hold a merger.
    pub open spec fn means(&self, m: &Module, which: Part) -> bool {
        let f = (self.routine(which)->0).0 as int;
        self.routine(which) is Some ==> match which {
            Part::New => forall|init: Atom, st: RunView|
                call(m, f, seq![Val::Atom(init)], st) == #[trigger] self.new_meaning(init, st),
            Part::Merge => self.applies() ==> forall|p: Ptr, mv: MergerVal, x: u64, st: RunView|
                holds(st, p, mv) ==> call(m, f, seq![ptr_val(p), int_val(x)], st)
                    == #[trigger] self.merge_meaning(p, mv, x, st),
            Part::Vmerge => self.applies() ==> forall|
                p: Ptr,
                mv: MergerVal,
                v: Lanes,
                st: RunView,
            |
                holds(st, p, mv) ==> call(m, f, seq![ptr_val(p), Val::Atom(Atom::Simd(v))], st)
                    == #[trigger] self.vmerge_meaning(p, mv, v, st),
            Part::Result => self.applies() ==> forall|p: Ptr, mv: MergerVal, st: RunView|
                holds(st, p, mv) ==> call(m, f, seq![ptr_val(p)], st)
                    == #[trigger] self.result_meaning(p, mv, st),
        }
    }

    /// Each routine of a consistent merger type does what it is meant to do.
    pub proof fn lemma_means(&self, m: &Module, which: Part)
        requires
            self.wf(m),
        ensures
            self.means(m, which),
    {
        if self.routine(which) is Some {
            let f = (self.routine(which)->0).0 as int;
            match which {
                Part::New => {
                    assert forall|init: Atom, st: RunView|
                        call(m, f, seq![Val::Atom(init)], st) == #[trigger] self.new_meaning(
                            init,
                            st,
                        ) by {
                        self.lemma_new_runs(m, init, st);
                    }
                },
                Part::Merge => {
                    if self.applies() {
                        assert forall|p: Ptr, mv: MergerVal, x: u64, st: RunView|
                            holds(st, p, mv) implies call(
                                m,
                                f,
                                seq![ptr_val(p), int_val(x)],
                                st,
                            ) == #[trigger] self.merge_meaning(p, mv, x, st) by {
                            self.lemma_merge_runs(m, p, mv, x, st);
                        }
                    }
                },
                Part::Vmerge => {
                    if self.applies() {
                        assert forall|p: Ptr, mv: MergerVal, v: Lanes, st: RunView|
                            holds(st, p, mv) implies call(
                                m,
                                f,
                                seq![ptr_val(p), Val::Atom(Atom::Simd(v))],
                                st,
                            ) == #[trigger] self.vmerge_meaning(p, mv, v, st) by {
                            self.lemma_vmerge_runs(m, p, mv, v, st);
                        }
                    }
                },
                Part::Result => {
                    if self.applies() {
                        assert forall|p: Ptr, mv: MergerVal, st: RunView|
                            holds(st, p, mv) implies call(m, f, seq![ptr_val(p)], st)
                                == #[trigger] self.result_meaning(p, mv, st) by {
                            self.lemma_result_runs(m, p, mv, st);
                        }
                    }
                },
            }
        }
    }
}

} // verus!
