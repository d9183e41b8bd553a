//! The reference machine: what the operations of a routine compute, and an
//! interpreter that runs a routine of a module against a run context.
//!
//! The meaning of a routine is the pair of an outcome and a final run state,
//! given by `call`. The interpreter `run` computes exactly that pair. The
//! machine gives integer operators a meaning, and moves buffer contents only
//! as bytes; what it gives no meaning to ends in `Outcome::Stuck`.

use vstd::prelude::*;
use crate::kinds::BinOpKind;
use crate::kinds::ScalarKind;
use crate::ir::FuncRef;
use crate::ir::Inst;
use crate::ir::IntPredicate;
use crate::ir::Module;
use crate::ir::Ty;
use crate::ir::Value;
use crate::value::Atom;
use crate::value::Lanes;
use crate::value::Outcome;
use crate::value::Ptr;
use crate::value::Val;
use crate::runtime::RunContext;
use crate::runtime::RunView;
use crate::host::Callee;
use crate::host::HostFn;
use crate::host::resolve;
use crate::host::lookup;
use crate::host::lemma_resolve_name;
use crate::numeric::apply;
use crate::numeric::apply_binop;

verus! {

/// Two to the power of 64.
pub open spec fn two64() -> int {
    0x1_0000_0000_0000_0000
}

/// The number that a 64-bit pattern stands for as a signed integer.
pub open spec fn signed64(x: u64) -> int {
    if x < 0x8000_0000_0000_0000 {
        x as int
    } else {
        x - two64()
    }
}

/// The 64-bit pattern of an integer in the signed or unsigned 64-bit range.
pub open spec fn pattern64(i: int) -> u64 {
    if i >= 0 {
        i as u64
    } else {
        (i + two64()) as u64
    }
}

/// 64-bit multiplication that wraps.
pub open spec fn mul64(x: u64, y: u64) -> u64 {
    ((x * y) % two64()) as u64
}

/// 64-bit subtraction that wraps.
pub open spec fn sub64(x: u64, y: u64) -> u64 {
    if x >= y {
        (x - y) as u64
    } else {
        (x + two64() - y) as u64
    }
}

/// 64-bit signed multiplication, where the product is in range.
pub open spec fn nsw_mul64(x: u64, y: u64) -> Option<u64> {
    let p = signed64(x) * signed64(y);
    if -0x8000_0000_0000_0000 <= p < 0x8000_0000_0000_0000 {
        Some(pattern64(p))
    } else {
        None
    }
}

/// 64-bit comparison.
pub open spec fn compare64(pred: IntPredicate, x: u64, y: u64) -> bool {
    match pred {
        IntPredicate::Ugt => x > y,
        IntPredicate::Sgt => signed64(x) > signed64(y),
    }
}

/// The pointer `index` elements of `size` bytes beyond `p`.
pub open spec fn gep(p: Ptr, index: u64, size: u64) -> Ptr {
    match p {
        Ptr::Null => Ptr::Null,
        Ptr::At(block, off) => Ptr::At(block, ((off + index * size) % two64()) as u64),
    }
}

/// The pointer `field` slots beyond `p`, where the offset stays in range.
pub open spec fn field_ptr(p: Ptr, field: u32) -> Option<Ptr> {
    match p {
        Ptr::Null => None,
        Ptr::At(block, off) => if off + field <= u64::MAX {
            Some(Ptr::At(block, (off + field) as u64))
        } else {
            None
        },
    }
}

/// The operator applied lane by lane.
pub open spec fn lanes_apply(op: BinOpKind, kind: ScalarKind, a: Lanes, b: Lanes) -> Option<Lanes> {
    if apply(op, kind, a.l0, b.l0) is Some && apply(op, kind, a.l1, b.l1) is Some && apply(
        op,
        kind,
        a.l2,
        b.l2,
    ) is Some && apply(op, kind, a.l3, b.l3) is Some {
        Some(
            Lanes {
                l0: apply(op, kind, a.l0, b.l0)->0,
                l1: apply(op, kind, a.l1, b.l1)->0,
                l2: apply(op, kind, a.l2, b.l2)->0,
                l3: apply(op, kind, a.l3, b.l3)->0,
            },
        )
    } else {
        None
    }
}

/// The lane with the given index.
pub open spec fn lane(l: Lanes, i: u64) -> Option<u64> {
    if i == 0 {
        Some(l.l0)
    } else if i == 1 {
        Some(l.l1)
    } else if i == 2 {
        Some(l.l2)
    } else if i == 3 {
        Some(l.l3)
    } else {
        None
    }
}

/// A SIMD value whose lanes all hold `x`.
pub open spec fn splat(x: u64) -> Lanes {
    Lanes { l0: x, l1: x, l2: x, l3: x }
}

/// The undefined value.
pub open spec fn undef() -> Val {
    Val::Atom(Atom::Undef)
}

/// An integer as a value.
pub open spec fn int_val(x: u64) -> Val {
    Val::Atom(Atom::Int(x))
}

/// A pointer as a value.
pub open spec fn ptr_val(p: Ptr) -> Val {
    Val::Atom(Atom::Ptr(p))
}

/// The integer that a value is, if it is one.
pub open spec fn as_int(v: Val) -> Option<u64> {
    match v {
        Val::Atom(Atom::Int(x)) => Some(x),
        _ => None,
    }
}

/// The pointer that a value is, if it is one.
pub open spec fn as_ptr(v: Val) -> Option<Ptr> {
    match v {
        Val::Atom(Atom::Ptr(p)) => Some(p),
        _ => None,
    }
}

/// The value of an operand in a routine with the given parameters and local
/// values. An operand that names no value is undefined.
pub open spec fn eval(v: Value, params: Seq<Val>, locals: Seq<Val>) -> Val {
    match v {
        Value::Param(i) => if i < params.len() {
            params[i as int]
        } else {
            undef()
        },
        Value::Local(i) => if i < locals.len() {
            locals[i as int]
        } else {
            undef()
        },
        Value::Const(_, bits) => int_val(bits),
        Value::Splat(_, bits) => Val::Atom(Atom::Simd(splat(bits))),
    }
}

/// Number of slots that a value of the type takes in a record.
pub open spec fn slots_of(ty: Ty) -> nat {
    if ty is Record {
        2
    } else {
        1
    }
}

/// What an operation other than a call, a branch or a return computes: the
/// value it defines and the state it leaves, or nothing where it has no
/// meaning.
pub open spec fn step(inst: Inst, params: Seq<Val>, locals: Seq<Val>, prev: int, st: RunView)
    -> Option<(Val, RunView)> {
    match inst {
        Inst::Undef(ty) => Some(
            (
                if ty is Record {
                    Val::Record(Atom::Undef, Atom::Undef)
                } else {
                    undef()
                },
                st,
            ),
        ),
        Inst::Mul(a, b) => match (eval(a, params, locals), eval(b, params, locals)) {
            (Val::Atom(Atom::Int(x)), Val::Atom(Atom::Int(y))) => Some((int_val(mul64(x, y)), st)),
            _ => None,
        },
        Inst::NswMul(a, b) => match (eval(a, params, locals), eval(b, params, locals)) {
            (Val::Atom(Atom::Int(x)), Val::Atom(Atom::Int(y))) => match nsw_mul64(x, y) {
                Some(p) => Some((int_val(p), st)),
                None => None,
            },
            _ => None,
        },
        Inst::Sub(a, b) => match (eval(a, params, locals), eval(b, params, locals)) {
            (Val::Atom(Atom::Int(x)), Val::Atom(Atom::Int(y))) => Some((int_val(sub64(x, y)), st)),
            _ => None,
        },
        Inst::Compare(pred, a, b) => match (eval(a, params, locals), eval(b, params, locals)) {
            (Val::Atom(Atom::Int(x)), Val::Atom(Atom::Int(y))) => Some(
                (
                    int_val(
                        if compare64(pred, x, y) {
                            1
                        } else {
                            0
                        },
                    ),
                    st,
                ),
            ),
            _ => None,
        },
        Inst::Select(c, a, b) => match eval(c, params, locals) {
            Val::Atom(Atom::Int(1)) => Some((eval(a, params, locals), st)),
            Val::Atom(Atom::Int(0)) => Some((eval(b, params, locals), st)),
            _ => None,
        },
        Inst::BinOp(op, kind, a, b) => match (eval(a, params, locals), eval(b, params, locals)) {
            (Val::Atom(Atom::Int(x)), Val::Atom(Atom::Int(y))) => match apply(op, kind, x, y) {
                Some(r) => Some((int_val(r), st)),
                None => None,
            },
            (Val::Atom(Atom::Simd(x)), Val::Atom(Atom::Simd(y))) => match lanes_apply(
                op,
                kind,
                x,
                y,
            ) {
                Some(r) => Some((Val::Atom(Atom::Simd(r)), st)),
                None => None,
            },
            _ => None,
        },
        Inst::ExtractValue(r, i) => match eval(r, params, locals) {
            Val::Record(a, b) => if i == 0 {
                Some((Val::Atom(a), st))
            } else if i == 1 {
                Some((Val::Atom(b), st))
            } else {
                None
            },
            _ => None,
        },
        Inst::InsertValue(r, v, i) => match (eval(r, params, locals), eval(v, params, locals)) {
            (Val::Record(a, b), Val::Atom(x)) => if i == 0 {
                Some((Val::Record(x, b), st))
            } else if i == 1 {
                Some((Val::Record(a, x), st))
            } else {
                None
            },
            _ => None,
        },
        Inst::ExtractElement(s, i) => match (eval(s, params, locals), eval(i, params, locals)) {
            (Val::Atom(Atom::Simd(l)), Val::Atom(Atom::Int(k))) => match lane(l, k) {
                Some(x) => Some((int_val(x), st)),
                None => None,
            },
            _ => None,
        },
        Inst::BitCast(v, _) => match eval(v, params, locals) {
            Val::Atom(Atom::Ptr(p)) => Some((ptr_val(p), st)),
            _ => None,
        },
        Inst::Gep(p, i, ty) => match (eval(p, params, locals), eval(i, params, locals)) {
            (Val::Atom(Atom::Ptr(q)), Val::Atom(Atom::Int(k))) => Some(
                (ptr_val(gep(q, k, ty.spec_size() as u64)), st),
            ),
            _ => None,
        },
        Inst::StructGep(p, field) => match eval(p, params, locals) {
            Val::Atom(Atom::Ptr(q)) => match field_ptr(q, field) {
                Some(r) => Some((ptr_val(r), st)),
                None => None,
            },
            _ => None,
        },
        Inst::Alloca(ty) => Some((ptr_val(st.alloca(slots_of(ty)).0), st.alloca(slots_of(ty)).1)),
        Inst::Load(p) => match eval(p, params, locals) {
            Val::Atom(Atom::Ptr(q)) => match st.load(q) {
                Some(a) => Some((Val::Atom(a), st)),
                None => None,
            },
            _ => None,
        },
        Inst::Store(v, p) => match eval(p, params, locals) {
            Val::Atom(Atom::Ptr(q)) => match st.store(q, eval(v, params, locals)) {
                Some(st2) => Some((Val::Unit, st2)),
                None => None,
            },
            _ => None,
        },
        Inst::Phi(_, a, i, b, j) => if prev == i {
            Some((eval(a, params, locals), st))
        } else if prev == j {
            Some((eval(b, params, locals), st))
        } else {
            None
        },
        Inst::Call(_, _) | Inst::CondBr(_, _, _) | Inst::Br(_) | Inst::Ret(_) | Inst::RetVoid => None,
    }
}

/// The 32-bit signed number in the low bits of a pattern.
pub open spec fn signed32(x: u64) -> i32 {
    let p = x as int % 0x1_0000_0000;
    if p < 0x8000_0000 {
        p as i32
    } else {
        (p - 0x1_0000_0000) as i32
    }
}

/// What a call of a runtime entry point or memory primitive does. A call with
/// the wrong number or kind of arguments has no meaning.
pub open spec fn host_call(c: Callee, args: Seq<Val>, st: RunView) -> (Outcome, RunView) {
    let stuck = (Outcome::Stuck, st);
    let unit = Outcome::Value(Val::Unit);
    match c {
        Callee::Host(HostFn::Init) => if args.len() == 2 && as_int(args[0]) is Some && as_int(
            args[1],
        ) is Some {
            (
                Outcome::Value(Val::Atom(Atom::Run)),
                RunView::init(signed32(as_int(args[0])->0), as_int(args[1])->0),
            )
        } else {
            stuck
        },
        Callee::Host(HostFn::GetResult) => if args.len() == 1 && args[0] == Val::Atom(Atom::Run) {
            (Outcome::Value(ptr_val(st.result)), st)
        } else {
            stuck
        },
        Callee::Host(HostFn::SetResult) => if args.len() == 2 && args[0] == Val::Atom(Atom::Run)
            && as_ptr(args[1]) is Some {
            (unit, RunView { result: as_ptr(args[1])->0, ..st })
        } else {
            stuck
        },
        Callee::Host(HostFn::Malloc) => if args.len() == 2 && args[0] == Val::Atom(Atom::Run)
            && as_int(args[1]) is Some {
            (
                Outcome::Value(ptr_val(st.malloc(as_int(args[1])->0).0)),
                st.malloc(as_int(args[1])->0).1,
            )
        } else {
            stuck
        },
        Callee::Host(HostFn::Realloc) => if args.len() == 3 && args[0] == Val::Atom(Atom::Run)
            && as_ptr(args[1]) is Some && as_int(args[2]) is Some && (as_ptr(args[1])->0 is Null
            || st.owns(as_ptr(args[1])->0)) {
            (
                Outcome::Value(ptr_val(st.realloc(as_ptr(args[1])->0, as_int(args[2])->0).0)),
                st.realloc(as_ptr(args[1])->0, as_int(args[2])->0).1,
            )
        } else {
            stuck
        },
        Callee::Host(HostFn::Free) => if args.len() == 2 && args[0] == Val::Atom(Atom::Run)
            && as_ptr(args[1]) is Some && (as_ptr(args[1])->0 is Null || st.owns(
            as_ptr(args[1])->0,
        )) {
            (unit, st.free(as_ptr(args[1])->0))
        } else {
            stuck
        },
        Callee::Host(HostFn::GetErrno) => if args.len() == 1 && args[0] == Val::Atom(Atom::Run) {
            (Outcome::Value(int_val(pattern64(st.errno as int))), st)
        } else {
            stuck
        },
        Callee::Host(HostFn::SetErrno) => if args.len() == 2 && args[0] == Val::Atom(Atom::Run)
            && as_int(args[1]) is Some {
            (Outcome::Halted, st.set_errno(signed64(as_int(args[1])->0) as i64))
        } else {
            stuck
        },
        Callee::Host(HostFn::Assert) => if args.len() == 2 && args[0] == Val::Atom(Atom::Run)
            && args[1] == int_val(1) {
            (Outcome::Value(int_val(1)), st)
        } else if args.len() == 2 && args[0] == Val::Atom(Atom::Run) && args[1] == int_val(0) {
            (Outcome::Halted, st.check(false))
        } else {
            stuck
        },
        Callee::Host(HostFn::Print) => if args.len() == 2 && args[0] == Val::Atom(Atom::Run)
            && as_ptr(args[1]) is Some {
            (unit, st)
        } else {
            stuck
        },
        Callee::Memcpy => if args.len() == 5 && as_ptr(args[0]) is Some && as_ptr(args[1]) is Some
            && as_int(args[2]) is Some && st.memcpy(
            as_ptr(args[0])->0,
            as_ptr(args[1])->0,
            as_int(args[2])->0,
        ) is Some {
            (unit, st.memcpy(as_ptr(args[0])->0, as_ptr(args[1])->0, as_int(args[2])->0)->0)
        } else {
            stuck
        },
        Callee::Memset => if args.len() == 5 && as_ptr(args[0]) is Some && as_int(args[1]) is Some
            && as_int(args[2]) is Some && st.memset(
            as_ptr(args[0])->0,
            (as_int(args[1])->0 % 0x100) as u8,
            as_int(args[2])->0,
        ) is Some {
            (
                unit,
                st.memset(
                    as_ptr(args[0])->0,
                    (as_int(args[1])->0 % 0x100) as u8,
                    as_int(args[2])->0,
                )->0,
            )
        } else {
            stuck
        },
    }
}

/// Number of operations of the routine at entry `f`; 0 for a declaration.
pub open spec fn body_len(m: &Module, f: int) -> int {
    if 0 <= f < m.funcs@.len() && m.funcs@[f].body is Some {
        m.funcs@[f].body->0@.len() as int
    } else {
        0
    }
}

/// The values of the operands of a call.
pub open spec fn eval_all(args: Seq<Value>, params: Seq<Val>, locals: Seq<Val>) -> Seq<Val> {
    Seq::new(args.len(), |i: int| eval(args[i], params, locals))
}

/// The meaning of the routine at entry `f` from operation `pc` on. `prev` is
/// the index of the branch through which control arrived.
#[verifier::opaque]
pub open spec fn exec_from(
    m: &Module,
    f: int,
    pc: int,
    prev: int,
    params: Seq<Val>,
    locals: Seq<Val>,
    st: RunView,
) -> (Outcome, RunView)
    decreases f, body_len(m, f) - pc,
{
    if !(0 <= pc < body_len(m, f)) {
        (Outcome::Stuck, st)
    } else {
        match m.funcs@[f].body->0@[pc] {
            Inst::Ret(v) => (Outcome::Value(eval(v, params, locals)), st),
            Inst::RetVoid => (Outcome::Value(Val::Unit), st),
            Inst::Br(t) => if pc < t < body_len(m, f) {
                exec_from(m, f, t as int, pc, params, locals, st)
            } else {
                (Outcome::Stuck, st)
            },
            Inst::CondBr(c, t, e) => match eval(c, params, locals) {
                Val::Atom(Atom::Int(1)) => if pc < t < body_len(m, f) {
                    exec_from(m, f, t as int, pc, params, locals, st)
                } else {
                    (Outcome::Stuck, st)
                },
                Val::Atom(Atom::Int(0)) => if pc < e < body_len(m, f) {
                    exec_from(m, f, e as int, pc, params, locals, st)
                } else {
                    (Outcome::Stuck, st)
                },
                _ => (Outcome::Stuck, st),
            },
            Inst::Call(g, args) => if g.0 < f {
                let r = call(m, g.0 as int, eval_all(args@, params, locals), st);
                match r.0 {
                    Outcome::Value(v) => exec_from(
                        m,
                        f,
                        pc + 1,
                        prev,
                        params,
                        locals.update(pc, v),
                        r.1,
                    ),
                    _ => r,
                }
            } else {
                (Outcome::Stuck, st)
            },
            inst => match step(inst, params, locals, prev, st) {
                Some((v, st2)) => exec_from(m, f, pc + 1, prev, params, locals.update(pc, v), st2),
                None => (Outcome::Stuck, st),
            },
        }
    }
}

/// The meaning of a call of entry `f` with the given arguments: the meaning
/// of its operations where it is a routine, and of the function it is named
/// after where it is a declaration.
pub open spec fn call(m: &Module, f: int, args: Seq<Val>, st: RunView) -> (Outcome, RunView)
    decreases f, body_len(m, f) + 1,
{
    if !(0 <= f < m.funcs@.len()) {
        (Outcome::Stuck, st)
    } else if m.funcs@[f].body is Some {
        exec_from(
            m,
            f,
            0,
            body_len(m, f),
            args,
            no_locals(body_len(m, f)),
            st,
        )
    } else {
        match resolve(m.funcs@[f].name@) {
            Some(c) => host_call(c, args, st),
            None => (Outcome::Stuck, st),
        }
    }
}

/// The local values of a routine of `len` operations before any of them
/// ran.
pub open spec fn no_locals(len: int) -> Seq<Val> {
    Seq::new(len as nat, |i: int| undef())
}

/// The operation at `pc` of the routine at entry `f`.
pub open spec fn inst_at(m: &Module, f: int, pc: int) -> Inst {
    (m.funcs@[f].body->0)@[pc]
}

/// An operation that `step` gives a meaning to is followed by the next one.
pub proof fn lemma_step(
    m: &Module,
    f: int,
    pc: int,
    prev: int,
    params: Seq<Val>,
    locals: Seq<Val>,
    st: RunView,
    v: Val,
    st2: RunView,
)
    requires
        0 <= pc < body_len(m, f),
        step(inst_at(m, f, pc), params, locals, prev, st) == Some((v, st2)),
    ensures
        exec_from(m, f, pc, prev, params, locals, st) == exec_from(
            m,
            f,
            pc + 1,
            prev,
            params,
            locals.update(pc, v),
            st2,
        ),
{
    reveal(exec_from);
}

/// A return ends the routine with the value of its operand.
pub proof fn lemma_return(
    m: &Module,
    f: int,
    pc: int,
    prev: int,
    params: Seq<Val>,
    locals: Seq<Val>,
    st: RunView,
    v: Value,
)
    requires
        0 <= pc < body_len(m, f),
        inst_at(m, f, pc) == Inst::Ret(v),
    ensures
        exec_from(m, f, pc, prev, params, locals, st) == (
            Outcome::Value(eval(v, params, locals)),
            st,
        ),
{
    reveal(exec_from);
}

/// A return without a value ends the routine.
pub proof fn lemma_return_void(
    m: &Module,
    f: int,
    pc: int,
    prev: int,
    params: Seq<Val>,
    locals: Seq<Val>,
    st: RunView,
)
    requires
        0 <= pc < body_len(m, f),
        inst_at(m, f, pc) == Inst::RetVoid,
    ensures
        exec_from(m, f, pc, prev, params, locals, st) == (Outcome::Value(Val::Unit), st),
{
    reveal(exec_from);
}

/// A branch continues at its target.
pub proof fn lemma_branch(
    m: &Module,
    f: int,
    pc: int,
    prev: int,
    params: Seq<Val>,
    locals: Seq<Val>,
    st: RunView,
    target: usize,
)
    requires
        0 <= pc < target < body_len(m, f),
        inst_at(m, f, pc) == Inst::Br(target),
    ensures
        exec_from(m, f, pc, prev, params, locals, st) == exec_from(
            m,
            f,
            target as int,
            pc,
            params,
            locals,
            st,
        ),
{
    reveal(exec_from);
}

/// A conditional branch continues at the target that its condition selects.
pub proof fn lemma_cond_branch(
    m: &Module,
    f: int,
    pc: int,
    prev: int,
    params: Seq<Val>,
    locals: Seq<Val>,
    st: RunView,
    c: Value,
    t: usize,
    e: usize,
    taken: bool,
)
    requires
        0 <= pc < body_len(m, f),
        inst_at(m, f, pc) == Inst::CondBr(c, t, e),
        eval(c, params, locals) == int_val(
            if taken {
                1
            } else {
                0
            },
        ),
        pc < (if taken {
            t
        } else {
            e
        }) < body_len(m, f),
    ensures
        exec_from(m, f, pc, prev, params, locals, st) == exec_from(
            m,
            f,
            if taken {
                t as int
            } else {
                e as int
            },
            pc,
            params,
            locals,
            st,
        ),
{
    reveal(exec_from);
}

/// A call of a declaration that returns is a call of the function that the
/// declaration is named after, followed by the next operation.
pub proof fn lemma_call_declared(
    m: &Module,
    f: int,
    pc: int,
    prev: int,
    params: Seq<Val>,
    locals: Seq<Val>,
    st: RunView,
    c: Callee,
    values: Seq<Val>,
    v: Val,
    st2: RunView,
)
    requires
        0 <= pc < body_len(m, f),
        inst_at(m, f, pc) matches Inst::Call(g, args) && g.0 < f && m.funcs@[g.0 as int].body
            is None && m.funcs@[g.0 as int].name@ == c.spec_name() && eval_all(
            args@,
            params,
            locals,
        ) == values,
        host_call(c, values, st) == (Outcome::Value(v), st2),
    ensures
        exec_from(m, f, pc, prev, params, locals, st) == exec_from(
            m,
            f,
            pc + 1,
            prev,
            params,
            locals.update(pc, v),
            st2,
        ),
{
    reveal(exec_from);
    lemma_resolve_name(c);
    let g = inst_at(m, f, pc)->Call_0;
    assert(call(m, g.0 as int, values, st) == host_call(c, values, st));
}

/// A call of a declaration that does not return ends the routine.
pub proof fn lemma_call_ends(
    m: &Module,
    f: int,
    pc: int,
    prev: int,
    params: Seq<Val>,
    locals: Seq<Val>,
    st: RunView,
    c: Callee,
    values: Seq<Val>,
)
    requires
        0 <= pc < body_len(m, f),
        inst_at(m, f, pc) matches Inst::Call(g, args) && g.0 < f && m.funcs@[g.0 as int].body
            is None && m.funcs@[g.0 as int].name@ == c.spec_name() && eval_all(
            args@,
            params,
            locals,
        ) == values,
        !(host_call(c, values, st).0 is Value),
    ensures
        exec_from(m, f, pc, prev, params, locals, st) == host_call(c, values, st),
{
    reveal(exec_from);
    lemma_resolve_name(c);
    let g = inst_at(m, f, pc)->Call_0;
    assert(call(m, g.0 as int, values, st) == host_call(c, values, st));
}

/// An operation without a meaning ends the routine.
pub proof fn lemma_stuck(
    m: &Module,
    f: int,
    pc: int,
    prev: int,
    params: Seq<Val>,
    locals: Seq<Val>,
    st: RunView,
)
    requires
        0 <= pc < body_len(m, f),
        !(inst_at(m, f, pc) is Call) && !(inst_at(m, f, pc) is Ret) && !(inst_at(m, f, pc)
            is RetVoid) && !(inst_at(m, f, pc) is Br) && !(inst_at(m, f, pc) is CondBr),
        step(inst_at(m, f, pc), params, locals, prev, st) is None,
    ensures
        exec_from(m, f, pc, prev, params, locals, st) == (Outcome::Stuck, st),
{
    reveal(exec_from);
}

/// A call of a routine is the meaning of the routine's operations.
pub proof fn lemma_call_routine(m: &Module, f: int, args: Seq<Val>, st: RunView)
    requires
        0 <= f < m.funcs@.len(),
        m.funcs@[f].body is Some,
    ensures
        call(m, f, args, st) == exec_from(
            m,
            f,
            0,
            body_len(m, f),
            args,
            no_locals(body_len(m, f)),
            st,
        ),
{
    reveal(exec_from);
}

fn eval_value(v: Value, params: &Vec<Val>, locals: &Vec<Val>) -> (r: Val)
    ensures
        r == eval(v, params@, locals@),
{
    match v {
        Value::Param(i) => if i < params.len() {
            params[i]
        } else {
            Val::Atom(Atom::Undef)
        },
        Value::Local(i) => if i < locals.len() {
            locals[i]
        } else {
            Val::Atom(Atom::Undef)
        },
        Value::Const(_, bits) => Val::Atom(Atom::Int(bits)),
        Value::Splat(_, bits) => Val::Atom(
            Atom::Simd(Lanes { l0: bits, l1: bits, l2: bits, l3: bits }),
        ),
    }
}

fn eval_values(args: &Vec<Value>, params: &Vec<Val>, locals: &Vec<Val>) -> (r: Vec<Val>)
    ensures
        r@ == eval_all(args@, params@, locals@),
{
    let mut r: Vec<Val> = Vec::new();
    let mut i: usize = 0;
    while i < args.len()
        invariant
            i <= args.len(),
            r@.len() == i,
            forall|j: int| 0 <= j < i ==> r@[j] == eval(args@[j], params@, locals@),
        decreases args.len() - i,
    {
        r.push(eval_value(args[i], params, locals));
        i = i + 1;
    }
    assert(r@ =~= eval_all(args@, params@, locals@));
    r
}

fn to_signed(x: u64) -> (n: i128)
    ensures
        n == signed64(x),
{
    if x < 0x8000_0000_0000_0000 {
        x as i128
    } else {
        x as i128 - 0x1_0000_0000_0000_0000
    }
}

fn to_pattern(n: i128) -> (x: u64)
    requires
        -0x8000_0000_0000_0000 <= n < 0x1_0000_0000_0000_0000,
    ensures
        x == pattern64(n as int),
{
    if n >= 0 {
        n as u64
    } else {
        (n + 0x1_0000_0000_0000_0000) as u64
    }
}

fn mul_wrapping(x: u64, y: u64) -> (r: u64)
    ensures
        r == mul64(x, y),
{
    assert(x * y <= 0xffff_ffff_ffff_ffff * 0xffff_ffff_ffff_ffff) by (nonlinear_arith)
        requires
            0 <= x <= 0xffff_ffff_ffff_ffff,
            0 <= y <= 0xffff_ffff_ffff_ffff,
    ;
    ((x as u128 * y as u128) % 0x1_0000_0000_0000_0000) as u64
}

fn mul_checked(x: u64, y: u64) -> (r: Option<u64>)
    ensures
        r == nsw_mul64(x, y),
{
    let a = to_signed(x);
    let b = to_signed(y);
    assert(-0x4000_0000_0000_0000_0000_0000_0000_0000 <= a * b
        <= 0x4000_0000_0000_0000_0000_0000_0000_0000) by (nonlinear_arith)
        requires
            -0x8000_0000_0000_0000 <= a <= 0x8000_0000_0000_0000,
            -0x8000_0000_0000_0000 <= b <= 0x8000_0000_0000_0000,
    ;
    let p = a * b;
    if -0x8000_0000_0000_0000 <= p && p < 0x8000_0000_0000_0000 {
        Some(to_pattern(p))
    } else {
        None
    }
}

fn sub_wrapping(x: u64, y: u64) -> (r: u64)
    ensures
        r == sub64(x, y),
{
    if x >= y {
        x - y
    } else {
        (x as u128 + 0x1_0000_0000_0000_0000 - y as u128) as u64
    }
}

fn holds(pred: IntPredicate, x: u64, y: u64) -> (b: bool)
    ensures
        b == compare64(pred, x, y),
{
    match pred {
        IntPredicate::Ugt => x > y,
        IntPredicate::Sgt => to_signed(x) > to_signed(y),
    }
}

fn advance(p: Ptr, index: u64, size: u64) -> (q: Ptr)
    ensures
        q == gep(p, index, size),
{
    match p {
        Ptr::Null => Ptr::Null,
        Ptr::At(block, off) => {
            assert(index * size <= 0xffff_ffff_ffff_ffff * 0xffff_ffff_ffff_ffff)
                by (nonlinear_arith)
                requires
                    0 <= index <= 0xffff_ffff_ffff_ffff,
                    0 <= size <= 0xffff_ffff_ffff_ffff,
            ;
            let sum = off as u128 + index as u128 * size as u128;
            Ptr::At(block, (sum % 0x1_0000_0000_0000_0000) as u64)
        },
    }
}

fn apply_lanes(op: BinOpKind, kind: ScalarKind, a: Lanes, b: Lanes) -> (r: Option<Lanes>)
    ensures
        r == lanes_apply(op, kind, a, b),
{
    match (
        apply_binop(op, kind, a.l0, b.l0),
        apply_binop(op, kind, a.l1, b.l1),
        apply_binop(op, kind, a.l2, b.l2),
        apply_binop(op, kind, a.l3, b.l3),
    ) {
        (Some(l0), Some(l1), Some(l2), Some(l3)) => Some(Lanes { l0, l1, l2, l3 }),
        _ => None,
    }
}

fn step_inst(inst: &Inst, params: &Vec<Val>, locals: &Vec<Val>, prev: usize, ctx: &mut RunContext)
    -> (r: Option<Val>)
    requires
        old(ctx).wf(),
    ensures
        final(ctx).wf(),
        match step(*inst, params@, locals@, prev as int, old(ctx)@) {
            Some((v, st)) => r == Some(v) && final(ctx)@ == st,
            None => r is None && final(ctx)@ == old(ctx)@,
        },
{
    match inst {
        Inst::Undef(ty) => match ty {
            Ty::Record(_, _) => Some(Val::Record(Atom::Undef, Atom::Undef)),
            _ => Some(Val::Atom(Atom::Undef)),
        },
        Inst::Mul(a, b) => match (eval_value(*a, params, locals), eval_value(*b, params, locals)) {
            (Val::Atom(Atom::Int(x)), Val::Atom(Atom::Int(y))) => Some(
                Val::Atom(Atom::Int(mul_wrapping(x, y))),
            ),
            _ => None,
        },
        Inst::NswMul(a, b) => match (
            eval_value(*a, params, locals),
            eval_value(*b, params, locals),
        ) {
            (Val::Atom(Atom::Int(x)), Val::Atom(Atom::Int(y))) => match mul_checked(x, y) {
                Some(p) => Some(Val::Atom(Atom::Int(p))),
                None => None,
            },
            _ => None,
        },
        Inst::Sub(a, b) => match (eval_value(*a, params, locals), eval_value(*b, params, locals)) {
            (Val::Atom(Atom::Int(x)), Val::Atom(Atom::Int(y))) => Some(
                Val::Atom(Atom::Int(sub_wrapping(x, y))),
            ),
            _ => None,
        },
        Inst::Compare(pred, a, b) => match (
            eval_value(*a, params, locals),
            eval_value(*b, params, locals),
        ) {
            (Val::Atom(Atom::Int(x)), Val::Atom(Atom::Int(y))) => Some(
                Val::Atom(
                    Atom::Int(
                        if holds(*pred, x, y) {
                            1
                        } else {
                            0
                        },
                    ),
                ),
            ),
            _ => None,
        },
        Inst::Select(c, a, b) => match eval_value(*c, params, locals) {
            Val::Atom(Atom::Int(flag)) => if flag == 1 {
                Some(eval_value(*a, params, locals))
            } else if flag == 0 {
                Some(eval_value(*b, params, locals))
            } else {
                None
            },
            _ => None,
        },
        Inst::BinOp(op, kind, a, b) => match (
            eval_value(*a, params, locals),
            eval_value(*b, params, locals),
        ) {
            (Val::Atom(Atom::Int(x)), Val::Atom(Atom::Int(y))) => match apply_binop(
                *op,
                *kind,
                x,
                y,
            ) {
                Some(r) => Some(Val::Atom(Atom::Int(r))),
                None => None,
            },
            (Val::Atom(Atom::Simd(x)), Val::Atom(Atom::Simd(y))) => match apply_lanes(
                *op,
                *kind,
                x,
                y,
            ) {
                Some(r) => Some(Val::Atom(Atom::Simd(r))),
                None => None,
            },
            _ => None,
        },
        Inst::ExtractValue(r, i) => match eval_value(*r, params, locals) {
            Val::Record(a, b) => if *i == 0 {
                Some(Val::Atom(a))
            } else if *i == 1 {
                Some(Val::Atom(b))
            } else {
                None
            },
            _ => None,
        },
        Inst::InsertValue(r, v, i) => match (
            eval_value(*r, params, locals),
            eval_value(*v, params, locals),
        ) {
            (Val::Record(a, b), Val::Atom(x)) => if *i == 0 {
                Some(Val::Record(x, b))
            } else if *i == 1 {
                Some(Val::Record(a, x))
            } else {
                None
            },
            _ => None,
        },
        Inst::ExtractElement(s, i) => match (
            eval_value(*s, params, locals),
            eval_value(*i, params, locals),
        ) {
            (Val::Atom(Atom::Simd(l)), Val::Atom(Atom::Int(k))) => if k == 0 {
                Some(Val::Atom(Atom::Int(l.l0)))
            } else if k == 1 {
                Some(Val::Atom(Atom::Int(l.l1)))
            } else if k == 2 {
                Some(Val::Atom(Atom::Int(l.l2)))
            } else if k == 3 {
                Some(Val::Atom(Atom::Int(l.l3)))
            } else {
                None
            },
            _ => None,
        },
        Inst::BitCast(v, _) => match eval_value(*v, params, locals) {
            Val::Atom(Atom::Ptr(p)) => Some(Val::Atom(Atom::Ptr(p))),
            _ => None,
        },
        Inst::Gep(p, i, ty) => match (
            eval_value(*p, params, locals),
            eval_value(*i, params, locals),
        ) {
            (Val::Atom(Atom::Ptr(q)), Val::Atom(Atom::Int(k))) => Some(
                Val::Atom(Atom::Ptr(advance(q, k, ty.size()))),
            ),
            _ => None,
        },
        Inst::StructGep(p, field) => match eval_value(*p, params, locals) {
            Val::Atom(Atom::Ptr(Ptr::At(block, off))) => match off.checked_add(*field as u64) {
                Some(sum) => Some(Val::Atom(Atom::Ptr(Ptr::At(block, sum)))),
                None => None,
            },
            _ => None,
        },
        Inst::Alloca(ty) => {
            let slots: usize = match ty {
                Ty::Record(_, _) => 2,
                _ => 1,
            };
            Some(Val::Atom(Atom::Ptr(ctx.alloca(slots))))
        },
        Inst::Load(p) => match eval_value(*p, params, locals) {
            Val::Atom(Atom::Ptr(q)) => match ctx.load(q) {
                Some(a) => Some(Val::Atom(a)),
                None => None,
            },
            _ => None,
        },
        Inst::Store(v, p) => match eval_value(*p, params, locals) {
            Val::Atom(Atom::Ptr(q)) => if ctx.store(q, eval_value(*v, params, locals)) {
                Some(Val::Unit)
            } else {
                None
            },
            _ => None,
        },
        Inst::Phi(_, a, i, b, j) => if prev == *i {
            Some(eval_value(*a, params, locals))
        } else if prev == *j {
            Some(eval_value(*b, params, locals))
        } else {
            None
        },
        _ => None,
    }
}

fn to_i32(x: u64) -> (n: i32)
    ensures
        n == signed32(x),
{
    let p = x % 0x1_0000_0000;
    if p < 0x8000_0000 {
        p as i32
    } else {
        (p as i64 - 0x1_0000_0000) as i32
    }
}

fn to_i64(x: u64) -> (n: i64)
    ensures
        n == signed64(x),
{
    if x < 0x8000_0000_0000_0000 {
        x as i64
    } else {
        (x - 0x8000_0000_0000_0000) as i64 + i64::MIN
    }
}

fn int_arg(args: &Vec<Val>, i: usize) -> (r: Option<u64>)
    requires
        i < args@.len(),
    ensures
        r == as_int(args@[i as int]),
{
    match args[i] {
        Val::Atom(Atom::Int(x)) => Some(x),
        _ => None,
    }
}

fn ptr_arg(args: &Vec<Val>, i: usize) -> (r: Option<Ptr>)
    requires
        i < args@.len(),
    ensures
        r == as_ptr(args@[i as int]),
{
    match args[i] {
        Val::Atom(Atom::Ptr(p)) => Some(p),
        _ => None,
    }
}

fn run_arg(args: &Vec<Val>) -> (r: bool)
    ensures
        r == (args@.len() > 0 && args@[0] == Val::Atom(Atom::Run)),
{
    if args.len() == 0 {
        return false;
    }
    match args[0] {
        Val::Atom(Atom::Run) => true,
        _ => false,
    }
}

/// Performs a call of a runtime entry point or memory primitive.
pub fn host(c: Callee, args: &Vec<Val>, ctx: &mut RunContext) -> (out: Outcome)
    requires
        old(ctx).wf(),
    ensures
        final(ctx).wf(),
        (out, final(ctx)@) == host_call(c, args@, old(ctx)@),
{
    let unit = Outcome::Value(Val::Unit);
    match c {
        Callee::Host(HostFn::Init) => {
            if args.len() != 2 {
                return Outcome::Stuck;
            }
            match (int_arg(args, 0), int_arg(args, 1)) {
                (Some(nworkers), Some(memlimit)) => {
                    *ctx = RunContext::init(to_i32(nworkers), memlimit);
                    Outcome::Value(Val::Atom(Atom::Run))
                },
                _ => Outcome::Stuck,
            }
        },
        Callee::Host(HostFn::GetResult) => {
            if args.len() != 1 || !run_arg(args) {
                return Outcome::Stuck;
            }
            Outcome::Value(Val::Atom(Atom::Ptr(ctx.get_result())))
        },
        Callee::Host(HostFn::SetResult) => {
            if args.len() != 2 || !run_arg(args) {
                return Outcome::Stuck;
            }
            match ptr_arg(args, 1) {
                Some(p) => {
                    ctx.set_result(p);
                    unit
                },
                None => Outcome::Stuck,
            }
        },
        Callee::Host(HostFn::Malloc) => {
            if args.len() != 2 || !run_arg(args) {
                return Outcome::Stuck;
            }
            match int_arg(args, 1) {
                Some(size) => Outcome::Value(Val::Atom(Atom::Ptr(ctx.malloc(size)))),
                None => Outcome::Stuck,
            }
        },
        Callee::Host(HostFn::Realloc) => {
            if args.len() != 3 || !run_arg(args) {
                return Outcome::Stuck;
            }
            match (ptr_arg(args, 1), int_arg(args, 2)) {
                (Some(p), Some(size)) => {
                    let valid = match p {
                        Ptr::Null => true,
                        _ => ctx.owns(p),
                    };
                    if valid {
                        Outcome::Value(Val::Atom(Atom::Ptr(ctx.realloc(p, size))))
                    } else {
                        Outcome::Stuck
                    }
                },
                _ => Outcome::Stuck,
            }
        },
        Callee::Host(HostFn::Free) => {
            if args.len() != 2 || !run_arg(args) {
                return Outcome::Stuck;
            }
            match ptr_arg(args, 1) {
                Some(p) => {
                    let valid = match p {
                        Ptr::Null => true,
                        _ => ctx.owns(p),
                    };
                    if valid {
                        ctx.free(p);
                        unit
                    } else {
                        Outcome::Stuck
                    }
                },
                None => Outcome::Stuck,
            }
        },
        Callee::Host(HostFn::GetErrno) => {
            if args.len() != 1 || !run_arg(args) {
                return Outcome::Stuck;
            }
            Outcome::Value(Val::Atom(Atom::Int(to_pattern(ctx.get_errno() as i128))))
        },
        Callee::Host(HostFn::SetErrno) => {
            if args.len() != 2 || !run_arg(args) {
                return Outcome::Stuck;
            }
            match int_arg(args, 1) {
                Some(code) => {
                    ctx.set_errno(to_i64(code));
                    Outcome::Halted
                },
                None => Outcome::Stuck,
            }
        },
        Callee::Host(HostFn::Assert) => {
            if args.len() != 2 || !run_arg(args) {
                return Outcome::Stuck;
            }
            match int_arg(args, 1) {
                Some(cond) => {
                    if cond == 1 {
                        Outcome::Value(Val::Atom(Atom::Int(1)))
                    } else if cond == 0 {
                        ctx.check(false);
                        Outcome::Halted
                    } else {
                        Outcome::Stuck
                    }
                },
                None => Outcome::Stuck,
            }
        },
        Callee::Host(HostFn::Print) => {
            if args.len() != 2 || !run_arg(args) {
                return Outcome::Stuck;
            }
            match ptr_arg(args, 1) {
                Some(_) => unit,
                None => Outcome::Stuck,
            }
        },
        Callee::Memcpy => {
            if args.len() != 5 {
                return Outcome::Stuck;
            }
            match (ptr_arg(args, 0), ptr_arg(args, 1), int_arg(args, 2)) {
                (Some(dst), Some(src), Some(n)) => {
                    if ctx.memcpy(dst, src, n) {
                        unit
                    } else {
                        Outcome::Stuck
                    }
                },
                _ => Outcome::Stuck,
            }
        },
        Callee::Memset => {
            if args.len() != 5 {
                return Outcome::Stuck;
            }
            match (ptr_arg(args, 0), int_arg(args, 1), int_arg(args, 2)) {
                (Some(dst), Some(byte), Some(n)) => {
                    if ctx.memset(dst, (byte % 0x100) as u8, n) {
                        unit
                    } else {
                        Outcome::Stuck
                    }
                },
                _ => Outcome::Stuck,
            }
        },
    }
}

/// Runs the entry `f` of the module on the arguments, against the run
/// context. The outcome and the state it leaves are the meaning of the call.
pub fn run(module: &Module, f: FuncRef, args: &Vec<Val>, ctx: &mut RunContext) -> (out: Outcome)
    requires
        old(ctx).wf(),
    ensures
        final(ctx).wf(),
        (out, final(ctx)@) == call(module, f.0 as int, args@, old(ctx)@),
    decreases f.0,
{
    if f.0 >= module.funcs.len() {
        return Outcome::Stuck;
    }
    let function = &module.funcs[f.0];
    match &function.body {
        None => match lookup(&function.name) {
            Some(c) => host(c, args, ctx),
            None => Outcome::Stuck,
        },
        Some(body) => {
            let len = body.len();
            let ghost goal = call(module, f.0 as int, args@, ctx@);
            let mut locals: Vec<Val> = Vec::new();
            let mut k: usize = 0;
            while k < len
                invariant
                    k <= len,
                    locals@.len() == k,
                    forall|j: int| 0 <= j < k ==> locals@[j] == undef(),
                decreases len - k,
            {
                locals.push(Val::Atom(Atom::Undef));
                k = k + 1;
            }
            assert(locals@ =~= no_locals(len as int));
            proof {
                lemma_call_routine(module, f.0 as int, args@, ctx@);
            }
            let mut pc: usize = 0;
            let mut prev: usize = len;
            loop
                invariant
                    ctx.wf(),
                    f.0 < module.funcs@.len(),
                    module.funcs@[f.0 as int].body == Some(*body),
                    len == body@.len(),
                    locals@.len() == len,
                    goal == call(module, f.0 as int, args@, old(ctx)@),
                    exec_from(module, f.0 as int, pc as int, prev as int, args@, locals@, ctx@)
                        == goal,
                decreases len - pc,
            {
                proof {
                    reveal(exec_from);
                }
                if pc >= len {
                    return Outcome::Stuck;
                }
                match &body[pc] {
                    Inst::Ret(v) => {
                        return Outcome::Value(eval_value(*v, args, &locals));
                    },
                    Inst::RetVoid => {
                        return Outcome::Value(Val::Unit);
                    },
                    Inst::Br(t) => {
                        if pc < *t && *t < len {
                            prev = pc;
                            pc = *t;
                        } else {
                            return Outcome::Stuck;
                        }
                    },
                    Inst::CondBr(c, t, e) => {
                        let target = match eval_value(*c, args, &locals) {
                            Val::Atom(Atom::Int(flag)) => if flag == 1 {
                                Some(*t)
                            } else if flag == 0 {
                                Some(*e)
                            } else {
                                None
                            },
                            _ => None,
                        };
                        match target {
                            Some(next) => {
                                if pc < next && next < len {
                                    prev = pc;
                                    pc = next;
                                } else {
                                    return Outcome::Stuck;
                                }
                            },
                            None => {
                                return Outcome::Stuck;
                            },
                        }
                    },
                    Inst::Call(g, operands) => {
                        if g.0 < f.0 {
                            let values = eval_values(operands, args, &locals);
                            let out = run(module, *g, &values, ctx);
                            match out {
                                Outcome::Value(v) => {
                                    locals.set(pc, v);
                                    pc = pc + 1;
                                },
                                _ => {
                                    return out;
                                },
                            }
                        } else {
                            return Outcome::Stuck;
                        }
                    },
                    inst => {
                        match step_inst(inst, args, &locals, prev, ctx) {
                            Some(v) => {
                                locals.set(pc, v);
                                pc = pc + 1;
                            },
                            None => {
                                return Outcome::Stuck;
                            },
                        }
                    },
                }
            }
        },
    }
}

} // verus!
