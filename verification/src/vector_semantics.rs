//! What the routines on vectors compute when they run on the reference
//! machine, and what follows for their use together.
//!
//! A vector is the record of a pointer and a length. The lemmas named
//! `lemma_*_runs` give the outcome and final state of each routine for all
//! arguments; the proofs after them state what holds across routines.

use vstd::prelude::*;
use crate::ir::Module;
use crate::machine::call;
use crate::machine::exec_from;
use crate::machine::gep;
use crate::machine::int_val;
use crate::machine::lemma_call_declared;
use crate::machine::lemma_call_routine;
use crate::machine::lemma_step;
use crate::machine::lemma_return;
use crate::machine::lemma_branch;
use crate::machine::lemma_cond_branch;
use crate::machine::lemma_call_ends;
use crate::machine::lemma_stuck;
use crate::machine::eval_all;
use crate::ir::Value;
use crate::kinds::ScalarKind;
use crate::machine::mul64;
use crate::machine::no_locals;
use crate::machine::nsw_mul64;
use crate::machine::ptr_val;
use crate::machine::signed64;
use crate::machine::sub64;
use crate::runtime::RunView;
use crate::value::Atom;
use crate::value::Outcome;
use crate::value::Ptr;
use crate::value::Val;
use crate::vector::Routine;
use crate::vector::Vector;
use crate::host::Callee;
use crate::host::HostFn;

verus! {

/// The vector with the given pointer and length.
pub open spec fn vector_val(p: Ptr, len: u64) -> Val {
    Val::Record(Atom::Ptr(p), Atom::Int(len))
}

/// The handle of the run.
pub open spec fn run_val() -> Val {
    Val::Atom(Atom::Run)
}

impl Vector {
    /// The size of an element in bytes.
    pub open spec fn elem_bytes(&self) -> u64 {
        self.elem_ty.spec_size() as u64
    }

    /// `size` returns the length of the vector and changes nothing.
    pub proof fn lemma_size_runs(&self, m: &Module, p: Ptr, len: u64, st: RunView)
        requires
            self.wf(m),
            self.size is Some,
        ensures
            call(m, (self.size->0).0 as int, seq![vector_val(p, len)], st) == (
                Outcome::Value(int_val(len)),
                st,
            ),
    {
        let f = (self.size->0).0 as int;
        let params = seq![vector_val(p, len)];
        lemma_call_routine(m, f, params, st);
        let l0 = no_locals(2);
        lemma_step(m, f, 0, 2, params, l0, st, int_val(len), st);
        lemma_return(m, f, 1, 2, params, l0.update(0, int_val(len)), st, Value::Local(0));
    }

    /// `at` returns the pointer of the vector advanced by `index` elements
    /// and changes nothing. It does not look at the length.
    pub proof fn lemma_at_runs(&self, m: &Module, p: Ptr, len: u64, index: u64, st: RunView)
        requires
            self.wf(m),
            self.at is Some,
        ensures
            call(m, (self.at->0).0 as int, seq![vector_val(p, len), int_val(index)], st) == (
                Outcome::Value(ptr_val(gep(p, index, self.elem_bytes()))),
                st,
            ),
    {
        let f = (self.at->0).0 as int;
        let params = seq![vector_val(p, len), int_val(index)];
        let q = gep(p, index, self.elem_bytes());
        lemma_call_routine(m, f, params, st);
        let l0 = no_locals(3);
        lemma_step(m, f, 0, 3, params, l0, st, ptr_val(p), st);
        let l1 = l0.update(0, ptr_val(p));
        lemma_step(m, f, 1, 3, params, l1, st, ptr_val(q), st);
        let l2 = l1.update(1, ptr_val(q));
        lemma_return(m, f, 2, 3, params, l2, st, Value::Local(1));
    }

    /// `vat` returns the same pointer as `at` and changes nothing.
    #[verifier::rlimit(50)]
    pub proof fn lemma_vat_runs(&self, m: &Module, p: Ptr, len: u64, index: u64, st: RunView)
        requires
            self.wf(m),
            self.vat is Some,
        ensures
            call(m, (self.vat->0).0 as int, seq![vector_val(p, len), int_val(index)], st) == (
                Outcome::Value(ptr_val(gep(p, index, self.elem_bytes()))),
                st,
            ),
    {
        let f = (self.vat->0).0 as int;
        let params = seq![vector_val(p, len), int_val(index)];
        let q = gep(p, index, self.elem_bytes());
        lemma_call_routine(m, f, params, st);
        let l0 = no_locals(4);
        lemma_step(m, f, 0, 4, params, l0, st, ptr_val(p), st);
        let l1 = l0.update(0, ptr_val(p));
        lemma_step(m, f, 1, 4, params, l1, st, ptr_val(q), st);
        let l2 = l1.update(1, ptr_val(q));
        lemma_step(m, f, 2, 4, params, l2, st, ptr_val(q), st);
        let l3 = l2.update(2, ptr_val(q));
        lemma_return(m, f, 3, 4, params, l3, st, Value::Local(2));
    }

    /// The length of a slice: the requested size, or what remains of the
    /// vector from the index on where that is less.
    pub open spec fn slice_len(len: u64, index: u64, size: u64) -> u64 {
        if size > sub64(len, index) {
            sub64(len, index)
        } else {
            size
        }
    }

    /// `slice` returns the vector that starts `index` elements into the given
    /// one and has the length `slice_len`. It allocates nothing and changes
    /// nothing.
    #[verifier::rlimit(50)]
    pub proof fn lemma_slice_runs(
        &self,
        m: &Module,
        p: Ptr,
        len: u64,
        index: u64,
        size: u64,
        st: RunView,
    )
        requires
            self.wf(m),
            self.slice is Some,
        ensures
            call(
                m,
                (self.slice->0).0 as int,
                seq![vector_val(p, len), int_val(index), int_val(size)],
                st,
            ) == (
                Outcome::Value(
                    vector_val(
                        gep(p, index, self.elem_bytes()),
                        Self::slice_len(len, index, size),
                    ),
                ),
                st,
            ),
    {
        let f = (self.slice->0).0 as int;
        let params = seq![vector_val(p, len), int_val(index), int_val(size)];
        let q = gep(p, index, self.elem_bytes());
        let remaining = sub64(len, index);
        let n = Self::slice_len(len, index, size);
        let flag: u64 = if size > remaining {
            1
        } else {
            0
        };
        lemma_call_routine(m, f, params, st);
        let l0 = no_locals(10);
        lemma_step(m, f, 0, 10, params, l0, st, int_val(len), st);
        let l1 = l0.update(0, int_val(len));
        lemma_step(m, f, 1, 10, params, l1, st, int_val(remaining), st);
        let l2 = l1.update(1, int_val(remaining));
        lemma_step(m, f, 2, 10, params, l2, st, int_val(flag), st);
        let l3 = l2.update(2, int_val(flag));
        lemma_step(m, f, 3, 10, params, l3, st, int_val(n), st);
        let l4 = l3.update(3, int_val(n));
        lemma_step(m, f, 4, 10, params, l4, st, ptr_val(p), st);
        let l5 = l4.update(4, ptr_val(p));
        lemma_step(m, f, 5, 10, params, l5, st, ptr_val(q), st);
        let l6 = l5.update(5, ptr_val(q));
        lemma_step(m, f, 6, 10, params, l6, st, Val::Record(Atom::Undef, Atom::Undef), st);
        let l7 = l6.update(6, Val::Record(Atom::Undef, Atom::Undef));
        lemma_step(m, f, 7, 10, params, l7, st, Val::Record(Atom::Ptr(q), Atom::Undef), st);
        let l8 = l7.update(7, Val::Record(Atom::Ptr(q), Atom::Undef));
        lemma_step(m, f, 8, 10, params, l8, st, vector_val(q, n), st);
        let l9 = l8.update(8, vector_val(q, n));
        lemma_return(m, f, 9, 10, params, l9, st, Value::Local(8));
    }

    /// Number of bytes that `n` elements take, as the routines compute it:
    /// the product wraps at 64 bits.
    pub open spec fn bytes_for(&self, n: u64) -> u64 {
        mul64(self.elem_bytes(), n)
    }

    /// `new` asks the run for as many bytes as `n` elements take, and returns
    /// the vector of what the run hands out and the length `n`. The state
    /// changes as `malloc` changes it.
    #[verifier::rlimit(50)]
    pub proof fn lemma_new_runs(&self, m: &Module, n: u64, st: RunView)
        requires
            self.wf(m),
            self.new is Some,
        ensures
            call(m, (self.new->0).0 as int, seq![int_val(n), run_val()], st) == (
                Outcome::Value(vector_val(st.malloc(self.bytes_for(n)).0, n)),
                st.malloc(self.bytes_for(n)).1,
            ),
    {
        let f = (self.new->0).0 as int;
        let params = seq![int_val(n), run_val()];
        let bytes = self.bytes_for(n);
        let q = st.malloc(bytes).0;
        let st1 = st.malloc(bytes).1;
        let blank = Val::Record(Atom::Undef, Atom::Undef);
        lemma_call_routine(m, f, params, st);
        let l0 = no_locals(7);
        lemma_step(m, f, 0, 7, params, l0, st, int_val(bytes), st);
        let l1 = l0.update(0, int_val(bytes));
        let values = seq![run_val(), int_val(bytes)];
        assert(eval_all(seq![Value::Param(1), Value::Local(0)], params, l1) =~= values);
        lemma_call_declared(
            m,
            f,
            1,
            7,
            params,
            l1,
            st,
            Callee::Host(HostFn::Malloc),
            values,
            ptr_val(q),
            st1,
        );
        let l2 = l1.update(1, ptr_val(q));
        lemma_step(m, f, 2, 7, params, l2, st1, ptr_val(q), st1);
        let l3 = l2.update(2, ptr_val(q));
        lemma_step(m, f, 3, 7, params, l3, st1, blank, st1);
        let l4 = l3.update(3, blank);
        lemma_step(m, f, 4, 7, params, l4, st1, Val::Record(Atom::Ptr(q), Atom::Undef), st1);
        let l5 = l4.update(4, Val::Record(Atom::Ptr(q), Atom::Undef));
        lemma_step(m, f, 5, 7, params, l5, st1, vector_val(q, n), st1);
        let l6 = l5.update(5, vector_val(q, n));
        lemma_return(m, f, 6, 7, params, l6, st1, Value::Local(5));
    }

    /// What `clone` does to a vector: it asks the run for as many bytes as
    /// the elements take and copies the elements there. Where the copy has no
    /// meaning, neither has the routine.
    pub open spec fn clone_meaning(&self, p: Ptr, len: u64, st: RunView) -> (Outcome, RunView) {
        let bytes = self.bytes_for(len);
        let q = st.malloc(bytes).0;
        let st1 = st.malloc(bytes).1;
        match st1.memcpy(q, p, bytes) {
            Some(st2) => (Outcome::Value(vector_val(q, len)), st2),
            None => (Outcome::Stuck, st1),
        }
    }

    /// `clone` has the meaning `clone_meaning`.
    #[verifier::rlimit(50)]
    pub proof fn lemma_clone_runs(&self, m: &Module, p: Ptr, len: u64, st: RunView)
        requires
            self.wf(m),
            self.clone is Some,
        ensures
            call(m, (self.clone->0).0 as int, seq![vector_val(p, len), run_val()], st)
                == self.clone_meaning(p, len, st),
    {
        let f = (self.clone->0).0 as int;
        let params = seq![vector_val(p, len), run_val()];
        let bytes = self.bytes_for(len);
        let q = st.malloc(bytes).0;
        let st1 = st.malloc(bytes).1;
        let blank = Val::Record(Atom::Undef, Atom::Undef);
        lemma_call_routine(m, f, params, st);
        let l0 = no_locals(11);
        lemma_step(m, f, 0, 11, params, l0, st, int_val(len), st);
        let l1 = l0.update(0, int_val(len));
        lemma_step(m, f, 1, 11, params, l1, st, int_val(bytes), st);
        let l2 = l1.update(1, int_val(bytes));
        let asked = seq![run_val(), int_val(bytes)];
        assert(eval_all(seq![Value::Param(1), Value::Local(1)], params, l2) =~= asked);
        lemma_call_declared(
            m,
            f,
            2,
            11,
            params,
            l2,
            st,
            Callee::Host(HostFn::Malloc),
            asked,
            ptr_val(q),
            st1,
        );
        let l3 = l2.update(2, ptr_val(q));
        lemma_step(m, f, 3, 11, params, l3, st1, ptr_val(p), st1);
        let l4 = l3.update(3, ptr_val(p));
        lemma_step(m, f, 4, 11, params, l4, st1, ptr_val(p), st1);
        let l5 = l4.update(4, ptr_val(p));
        let copied = seq![ptr_val(q), ptr_val(p), int_val(bytes), int_val(8), int_val(0)];
        assert(eval_all(
            seq![
                Value::Local(2),
                Value::Local(4),
                Value::Local(1),
                Value::Const(ScalarKind::I32, 8),
                Value::Const(ScalarKind::Bool, 0),
            ],
            params,
            l5,
        ) =~= copied);
        match st1.memcpy(q, p, bytes) {
            None => {
                lemma_call_ends(m, f, 5, 11, params, l5, st1, Callee::Memcpy, copied);
            },
            Some(st2) => {
                lemma_call_declared(
                    m,
                    f,
                    5,
                    11,
                    params,
                    l5,
                    st1,
                    Callee::Memcpy,
                    copied,
                    Val::Unit,
                    st2,
                );
                let l6 = l5.update(5, Val::Unit);
                lemma_step(m, f, 6, 11, params, l6, st2, ptr_val(q), st2);
                let l7 = l6.update(6, ptr_val(q));
                lemma_step(m, f, 7, 11, params, l7, st2, blank, st2);
                let l8 = l7.update(7, blank);
                lemma_step(
                    m,
                    f,
                    8,
                    11,
                    params,
                    l8,
                    st2,
                    Val::Record(Atom::Ptr(q), Atom::Undef),
                    st2,
                );
                let l9 = l8.update(8, Val::Record(Atom::Ptr(q), Atom::Undef));
                lemma_step(m, f, 9, 11, params, l9, st2, vector_val(q, len), st2);
                let l10 = l9.update(9, vector_val(q, len));
                lemma_return(m, f, 10, 11, params, l10, st2, Value::Local(9));
            },
        }
    }

    /// What `extend` does to a vector: where the requested size, as a signed
    /// number, is not larger than the length, it returns the vector and
    /// changes nothing. Otherwise it asks the run to reallocate the elements
    /// to as many bytes as the requested size takes, and returns the vector
    /// of what the run hands out and the requested size. The routine has no
    /// meaning where the number of bytes is out of the signed range, or the
    /// pointer of the vector is neither null nor the start of an allocation.
    pub open spec fn extend_meaning(&self, p: Ptr, len: u64, size: u64, st: RunView) -> (
        Outcome,
        RunView,
    ) {
        if signed64(size) <= signed64(len) {
            (Outcome::Value(vector_val(p, len)), st)
        } else {
            match nsw_mul64(size, self.elem_bytes()) {
                None => (Outcome::Stuck, st),
                Some(bytes) => if p is Null || st.owns(p) {
                    (
                        Outcome::Value(vector_val(st.realloc(p, bytes).0, size)),
                        st.realloc(p, bytes).1,
                    )
                } else {
                    (Outcome::Stuck, st)
                },
            }
        }
    }

    #[verifier::rlimit(50)]
    proof fn lemma_extend_enters(&self, m: &Module, p: Ptr, len: u64, size: u64, st: RunView)
        requires
            self.wf(m),
            self.extend is Some,
        ensures
            call(
                m,
                (self.extend->0).0 as int,
                seq![vector_val(p, len), int_val(size), run_val()],
                st,
            ) == exec_from(
                m,
                (self.extend->0).0 as int,
                if signed64(size) > signed64(len) {
                    3
                } else {
                    12
                },
                2,
                seq![vector_val(p, len), int_val(size), run_val()],
                no_locals(14).update(0, int_val(len)).update(
                    1,
                    int_val(
                        if signed64(size) > signed64(len) {
                            1
                        } else {
                            0
                        },
                    ),
                ),
                st,
            ),
    {
        let f = (self.extend->0).0 as int;
        let params = seq![vector_val(p, len), int_val(size), run_val()];
        let grows = signed64(size) > signed64(len);
        let flag: u64 = if grows {
            1
        } else {
            0
        };
        lemma_call_routine(m, f, params, st);
        let l0 = no_locals(14);
        lemma_step(m, f, 0, 14, params, l0, st, int_val(len), st);
        let l1 = l0.update(0, int_val(len));
        lemma_step(m, f, 1, 14, params, l1, st, int_val(flag), st);
        let l2 = l1.update(1, int_val(flag));
        lemma_cond_branch(m, f, 2, 14, params, l2, st, Value::Local(1), 3, 12, grows);
    }

    proof fn lemma_extend_ends(
        &self,
        m: &Module,
        prev: int,
        params: Seq<Val>,
        locals: Seq<Val>,
        st: RunView,
    )
        requires
            self.wf(m),
            self.extend is Some,
            prev == 2 || prev == 11,
            locals.len() == 14,
        ensures
            exec_from(m, (self.extend->0).0 as int, 12, prev, params, locals, st) == (
                Outcome::Value(
                    if prev == 2 {
                        crate::machine::eval(Value::Param(0), params, locals)
                    } else {
                        crate::machine::eval(Value::Local(10), params, locals)
                    },
                ),
                st,
            ),
    {
        let f = (self.extend->0).0 as int;
        let v = if prev == 2 {
            crate::machine::eval(Value::Param(0), params, locals)
        } else {
            crate::machine::eval(Value::Local(10), params, locals)
        };
        lemma_step(m, f, 12, prev, params, locals, st, v, st);
        lemma_return(m, f, 13, prev, params, locals.update(12, v), st, Value::Local(12));
    }

    /// `extend` has the meaning `extend_meaning`.
    #[verifier::rlimit(50)]
    pub proof fn lemma_extend_runs(&self, m: &Module, p: Ptr, len: u64, size: u64, st: RunView)
        requires
            self.wf(m),
            self.extend is Some,
        ensures
            call(
                m,
                (self.extend->0).0 as int,
                seq![vector_val(p, len), int_val(size), run_val()],
                st,
            ) == self.extend_meaning(p, len, size, st),
    {
        let f = (self.extend->0).0 as int;
        let params = seq![vector_val(p, len), int_val(size), run_val()];
        let blank = Val::Record(Atom::Undef, Atom::Undef);
        self.lemma_extend_enters(m, p, len, size, st);
        if signed64(size) <= signed64(len) {
            let l2 = no_locals(14).update(0, int_val(len)).update(1, int_val(0));
            self.lemma_extend_ends(m, 2, params, l2, st);
        } else {
            let l2 = no_locals(14).update(0, int_val(len)).update(1, int_val(1));
            lemma_step(m, f, 3, 2, params, l2, st, ptr_val(p), st);
            let l4 = l2.update(3, ptr_val(p));
            match nsw_mul64(size, self.elem_bytes()) {
                None => {
                    lemma_stuck(m, f, 4, 2, params, l4, st);
                },
                Some(bytes) => {
                    lemma_step(m, f, 4, 2, params, l4, st, int_val(bytes), st);
                    let l5 = l4.update(4, int_val(bytes));
                    lemma_step(m, f, 5, 2, params, l5, st, ptr_val(p), st);
                    let l6 = l5.update(5, ptr_val(p));
                    let asked = seq![run_val(), ptr_val(p), int_val(bytes)];
                    assert(eval_all(
                        seq![Value::Param(2), Value::Local(5), Value::Local(4)],
                        params,
                        l6,
                    ) =~= asked);
                    if p is Null || st.owns(p) {
                        let q = st.realloc(p, bytes).0;
                        let st1 = st.realloc(p, bytes).1;
                        lemma_call_declared(
                            m,
                            f,
                            6,
                            2,
                            params,
                            l6,
                            st,
                            Callee::Host(HostFn::Realloc),
                            asked,
                            ptr_val(q),
                            st1,
                        );
                        let l7 = l6.update(6, ptr_val(q));
                        lemma_step(m, f, 7, 2, params, l7, st1, ptr_val(q), st1);
                        let l8 = l7.update(7, ptr_val(q));
                        lemma_step(m, f, 8, 2, params, l8, st1, blank, st1);
                        let l9 = l8.update(8, blank);
                        lemma_step(
                            m,
                            f,
                            9,
                            2,
                            params,
                            l9,
                            st1,
                            Val::Record(Atom::Ptr(q), Atom::Undef),
                            st1,
                        );
                        let l10 = l9.update(9, Val::Record(Atom::Ptr(q), Atom::Undef));
                        lemma_step(m, f, 10, 2, params, l10, st1, vector_val(q, size), st1);
                        let l11 = l10.update(10, vector_val(q, size));
                        lemma_branch(m, f, 11, 2, params, l11, st1, 12);
                        self.lemma_extend_ends(m, 11, params, l11, st1);
                    } else {
                        lemma_call_ends(
                            m,
                            f,
                            6,
                            2,
                            params,
                            l6,
                            st,
                            Callee::Host(HostFn::Realloc),
                            asked,
                        );
                    }
                },
            }
        }
    }

    /// The size of a new vector is the size it was made with, for every size
    /// and in every state of the run.
    pub proof fn lemma_size_of_new(&self, m: &Module, n: u64, st: RunView)
        requires
            self.wf(m),
            self.new is Some,
            self.size is Some,
        ensures
            ({
                let made = call(m, (self.new->0).0 as int, seq![int_val(n), run_val()], st);
                &&& made.0 is Value
                &&& call(m, (self.size->0).0 as int, seq![made.0->Value_0], made.1) == (
                    Outcome::Value(int_val(n)),
                    made.1,
                )
            }),
    {
        self.lemma_new_runs(m, n, st);
        let q = st.malloc(self.bytes_for(n)).0;
        self.lemma_size_runs(m, q, n, st.malloc(self.bytes_for(n)).1);
    }

    /// A new vector that is not empty points to the start of an allocation of
    /// its own that holds exactly its elements. This holds where the run
    /// grants the allocation.
    pub proof fn lemma_new_owns(&self, m: &Module, n: u64, st: RunView)
        requires
            self.wf(m),
            self.new is Some,
            st.wf(),
            n > 0,
            self.elem_bytes() > 0,
            self.elem_bytes() * n <= u64::MAX,
            st.fits(0, (self.elem_bytes() * n) as u64),
        ensures
            ({
                let r = call(m, (self.new->0).0 as int, seq![int_val(n), run_val()], st);
                let q = Ptr::At(st.blocks.len() as usize, 0);
                &&& r.0 == Outcome::Value(vector_val(q, n))
                &&& r.1.owns(q)
                &&& r.1.bytes(q).len() == self.elem_bytes() * n
                &&& !st.owns(q)
                &&& r.1.allocated == st.allocated + self.elem_bytes() * n
                &&& r.1.errno == st.errno
                &&& r.1.wf()
            }),
    {
        self.lemma_new_runs(m, n, st);
        let product = self.elem_bytes() * n;
        assert(product > 0) by (nonlinear_arith)
            requires
                product == self.elem_bytes() * n,
                self.elem_bytes() > 0,
                n > 0,
        ;
        assert(self.bytes_for(n) == product);
        st.lemma_malloc_wf(self.bytes_for(n));
    }

    /// A clone of a vector that is not empty has the same length and the same
    /// bytes as the vector, in an allocation of its own; the vector keeps its
    /// bytes. This holds where the elements of the vector lie in a live
    /// allocation and the run grants the allocation of the clone.
    #[verifier::rlimit(50)]
    pub proof fn lemma_clone_copies(&self, m: &Module, p: Ptr, len: u64, st: RunView)
        requires
            self.wf(m),
            self.clone is Some,
            st.wf(),
            len > 0,
            self.elem_bytes() > 0,
            self.elem_bytes() * len <= u64::MAX,
            st.in_bounds(p, self.elem_bytes() * len),
            st.fits(0, (self.elem_bytes() * len) as u64),
        ensures
            ({
                let bytes = self.elem_bytes() * len;
                let r = call(m, (self.clone->0).0 as int, seq![vector_val(p, len), run_val()], st);
                let q = Ptr::At(st.blocks.len() as usize, 0);
                &&& r.0 == Outcome::Value(vector_val(q, len))
                &&& q->0 != p->0
                &&& r.1.in_bounds(q, bytes)
                &&& r.1.read(q, bytes) == st.read(p, bytes)
                &&& r.1.in_bounds(p, bytes)
                &&& r.1.read(p, bytes) == st.read(p, bytes)
                &&& r.1.wf()
            }),
    {
        self.lemma_clone_runs(m, p, len, st);
        let product = self.elem_bytes() * len;
        assert(product > 0) by (nonlinear_arith)
            requires
                product == self.elem_bytes() * len,
                self.elem_bytes() > 0,
                len > 0,
        ;
        let bytes = self.bytes_for(len);
        assert(bytes == product);
        let q = Ptr::At(st.blocks.len() as usize, 0);
        let st1 = st.malloc(bytes).1;
        assert(st.malloc(bytes).0 == q);
        assert(st1.in_bounds(p, bytes as int));
        assert(st1.in_bounds(q, bytes as int));
        let st2 = st1.write(q, st1.read(p, bytes as int));
        assert(st1.memcpy(q, p, bytes) == Some(st2));
        assert(st2.read(q, bytes as int) =~= st.read(p, bytes as int));
        assert(st2.read(p, bytes as int) =~= st.read(p, bytes as int));
        st.lemma_malloc_wf(bytes);
        st1.lemma_write_wf(q, st1.read(p, bytes as int));
    }

    /// The length of a slice that starts inside the vector is the requested
    /// size or, where that is less, the number of elements from the start of
    /// the slice to the end of the vector.
    pub proof fn lemma_slice_length(
        &self,
        m: &Module,
        p: Ptr,
        len: u64,
        index: u64,
        size: u64,
        st: RunView,
    )
        requires
            self.wf(m),
            self.slice is Some,
            index <= len,
        ensures
            call(
                m,
                (self.slice->0).0 as int,
                seq![vector_val(p, len), int_val(index), int_val(size)],
                st,
            ) == (
                Outcome::Value(
                    vector_val(
                        gep(p, index, self.elem_bytes()),
                        if size <= len - index {
                            size
                        } else {
                            (len - index) as u64
                        },
                    ),
                ),
                st,
            ),
    {
        self.lemma_slice_runs(m, p, len, index, size, st);
    }

    /// Extending a vector to a size that it already has room for returns the
    /// vector itself, with the same pointer and length, and changes nothing.
    pub proof fn lemma_extend_within(&self, m: &Module, p: Ptr, len: u64, size: u64, st: RunView)
        requires
            self.wf(m),
            self.extend is Some,
            size <= len <= i64::MAX,
        ensures
            call(
                m,
                (self.extend->0).0 as int,
                seq![vector_val(p, len), int_val(size), run_val()],
                st,
            ) == (Outcome::Value(vector_val(p, len)), st),
    {
        self.lemma_extend_runs(m, p, len, size, st);
    }

    /// Extending a vector beyond its length returns a vector of exactly the
    /// requested size, in a new allocation of as many bytes as that size
    /// takes, whose leading bytes are the bytes of the given vector. This
    /// holds where the vector is empty and points nowhere, or owns an
    /// allocation that holds its elements, and the run grants the larger
    /// allocation.
    #[verifier::rlimit(50)]
    pub proof fn lemma_extend_grows(&self, m: &Module, p: Ptr, len: u64, size: u64, st: RunView)
        requires
            self.wf(m),
            self.extend is Some,
            st.wf(),
            len < size <= i64::MAX,
            self.elem_bytes() > 0,
            self.elem_bytes() * size <= i64::MAX,
            p is Null ==> len == 0 && st.fits(0, (self.elem_bytes() * size) as u64),
            !(p is Null) ==> st.owns(p) && self.elem_bytes() * len <= st.bytes(p).len()
                && st.fits(st.bytes(p).len() as int, (self.elem_bytes() * size) as u64),
        ensures
            ({
                let bytes = self.elem_bytes() * size;
                let r = call(
                    m,
                    (self.extend->0).0 as int,
                    seq![vector_val(p, len), int_val(size), run_val()],
                    st,
                );
                let q = Ptr::At(st.blocks.len() as usize, 0);
                &&& r.0 == Outcome::Value(vector_val(q, size))
                &&& r.1.owns(q)
                &&& r.1.bytes(q).len() == bytes
                &&& !(p is Null) ==> forall|k: int|
                    0 <= k < self.elem_bytes() * len ==> r.1.bytes(q)[k] == st.bytes(p)[k]
                &&& r.1.wf()
            }),
    {
        self.lemma_extend_runs(m, p, len, size, st);
        let product = self.elem_bytes() * size;
        assert(product > 0 && self.elem_bytes() * len <= product) by (nonlinear_arith)
            requires
                product == self.elem_bytes() * size,
                self.elem_bytes() > 0,
                0 <= len < size,
        ;
        assert(self.elem_bytes() <= product) by (nonlinear_arith)
            requires
                product == self.elem_bytes() * size,
                self.elem_bytes() > 0,
                size >= 1,
        ;
        assert(signed64(size) == size && signed64(self.elem_bytes()) == self.elem_bytes());
        assert(signed64(size) * signed64(self.elem_bytes()) == product) by (nonlinear_arith)
            requires
                product == self.elem_bytes() * size,
                signed64(size) == size,
                signed64(self.elem_bytes()) == self.elem_bytes(),
        ;
        let bytes = product as u64;
        assert(nsw_mul64(size, self.elem_bytes()) == Some(bytes));
        st.lemma_realloc_wf(p, bytes);
    }

    /// What `new` does: see `lemma_new_runs`.
    pub open spec fn new_meaning(&self, n: u64, st: RunView) -> (Outcome, RunView) {
        (
            Outcome::Value(vector_val(st.malloc(self.bytes_for(n)).0, n)),
            st.malloc(self.bytes_for(n)).1,
        )
    }

    /// What `size` does: see `lemma_size_runs`.
    pub open spec fn size_meaning(&self, p: Ptr, len: u64, st: RunView) -> (Outcome, RunView) {
        (Outcome::Value(int_val(len)), st)
    }

    /// What `at` and `vat` do: see `lemma_at_runs`.
    pub open spec fn at_meaning(&self, p: Ptr, len: u64, index: u64, st: RunView) -> (
        Outcome,
        RunView,
    ) {
        (Outcome::Value(ptr_val(gep(p, index, self.elem_bytes()))), st)
    }

    /// What `slice` does: see `lemma_slice_runs`.
    pub open spec fn slice_meaning(&self, p: Ptr, len: u64, index: u64, size: u64, st: RunView)
        -> (Outcome, RunView) {
        (
            Outcome::Value(
                vector_val(gep(p, index, self.elem_bytes()), Self::slice_len(len, index, size)),
            ),
            st,
        )
    }

    /// Whether the routine, if it was generated, does in the module what it
    /// is meant to do, for all arguments and in every state of the run.
    pub open spec fn means(&self, m: &Module, which: Routine) -> bool {
        let f = (self.routine(which)->0).0 as int;
        self.routine(which) is Some ==> match which {
            Routine::New => forall|n: u64, st: RunView|
                call(m, f, seq![int_val(n), run_val()], st) == #[trigger] self.new_meaning(n, st),
            Routine::Clone => forall|p: Ptr, len: u64, st: RunView|
                call(m, f, seq![vector_val(p, len), run_val()], st)
                    == #[trigger] self.clone_meaning(p, len, st),
            Routine::At => forall|p: Ptr, len: u64, index: u64, st: RunView|
                call(m, f, seq![vector_val(p, len), int_val(index)], st)
                    == #[trigger] self.at_meaning(p, len, index, st),
            Routine::Vat => forall|p: Ptr, len: u64, index: u64, st: RunView|
                call(m, f, seq![vector_val(p, len), int_val(index)], st)
                    == #[trigger] self.at_meaning(p, len, index, st),
            Routine::Size => forall|p: Ptr, len: u64, st: RunView|
                call(m, f, seq![vector_val(p, len)], st) == #[trigger] self.size_meaning(
                    p,
                    len,
                    st,
                ),
            Routine::Slice => forall|p: Ptr, len: u64, index: u64, size: u64, st: RunView|
                call(m, f, seq![vector_val(p, len), int_val(index), int_val(size)], st)
                    == #[trigger] self.slice_meaning(p, len, index, size, st),
            Routine::Extend => forall|p: Ptr, len: u64, size: u64, st: RunView|
                call(m, f, seq![vector_val(p, len), int_val(size), run_val()], st)
                    == #[trigger] self.extend_meaning(p, len, size, st),
        }
    }

    /// Each routine of a consistent vector type does what it is meant to do.
    pub proof fn lemma_means(&self, m: &Module, which: Routine)
        requires
            self.wf(m),
        ensures
            self.means(m, which),
    {
        if self.routine(which) is Some {
            let f = (self.routine(which)->0).0 as int;
            match which {
                Routine::New => {
                    assert forall|n: u64, st: RunView|
                        call(m, f, seq![int_val(n), run_val()], st)
                            == #[trigger] self.new_meaning(n, st) by {
                        self.lemma_new_runs(m, n, st);
                    }
                },
                Routine::Clone => {
                    assert forall|p: Ptr, len: u64, st: RunView|
                        call(m, f, seq![vector_val(p, len), run_val()], st)
                            == #[trigger] self.clone_meaning(p, len, st) by {
                        self.lemma_clone_runs(m, p, len, st);
                    }
                },
                Routine::At => {
                    assert forall|p: Ptr, len: u64, index: u64, st: RunView|
                        call(m, f, seq![vector_val(p, len), int_val(index)], st)
                            == #[trigger] self.at_meaning(p, len, index, st) by {
                        self.lemma_at_runs(m, p, len, index, st);
                    }
                },
                Routine::Vat => {
                    assert forall|p: Ptr, len: u64, index: u64, st: RunView|
                        call(m, f, seq![vector_val(p, len), int_val(index)], st)
                            == #[trigger] self.at_meaning(p, len, index, st) by {
                        self.lemma_vat_runs(m, p, len, index, st);
                    }
                },
                Routine::Size => {
                    assert forall|p: Ptr, len: u64, st: RunView|
                        call(m, f, seq![vector_val(p, len)], st)
                            == #[trigger] self.size_meaning(p, len, st) by {
                        self.lemma_size_runs(m, p, len, st);
                    }
                },
                Routine::Slice => {
                    assert forall|p: Ptr, len: u64, index: u64, size: u64, st: RunView|
                        call(m, f, seq![vector_val(p, len), int_val(index), int_val(size)], st)
                            == #[trigger] self.slice_meaning(p, len, index, size, st) by {
                        self.lemma_slice_runs(m, p, len, index, size, st);
                    }
                },
                Routine::Extend => {
                    assert forall|p: Ptr, len: u64, size: u64, st: RunView|
                        call(m, f, seq![vector_val(p, len), int_val(size), run_val()], st)
                            == #[trigger] self.extend_meaning(p, len, size, st) by {
                        self.lemma_extend_runs(m, p, len, size, st);
                    }
                },
            }
        }
    }
}

} // verus!
