use weld::context::CContext;
use weld::host::Callee;
use weld::host::HostFn;
use weld::intrinsic::Intrinsics;
use weld::ir::Builder;
use weld::ir::FuncRef;
use weld::ir::Function;
use weld::ir::Inst;
use weld::ir::IntPredicate;
use weld::ir::Module;
use weld::ir::Ty;
use weld::ir::Value;
use weld::kinds::BinOpKind;
use weld::kinds::ScalarKind;
use weld::machine::host;
use weld::machine::run;
use weld::runtime::RunContext;
use weld::value::Atom;
use weld::value::Lanes;
use weld::value::Outcome;
use weld::value::Ptr;
use weld::value::Val;

fn word(x: u64) -> Val {
    Val::Atom(Atom::Int(x))
}

fn pointer(p: Ptr) -> Val {
    Val::Atom(Atom::Ptr(p))
}

fn run_val() -> Val {
    Val::Atom(Atom::Run)
}

fn constant(x: u64) -> Value {
    Value::Const(ScalarKind::I64, x)
}

/// Runs a routine with the given operations against a fresh run.
fn eval(body: Vec<Inst>, args: Vec<Val>) -> Outcome {
    let mut module = Module::new();
    let f = module.add_function(Function {
        name: "f".to_string(),
        params: vec![],
        ret: Ty::Void,
        attrs: vec![],
        body: Some(body),
    });
    let mut ctx = RunContext::init(1, 1000);
    run(&module, f, &args, &mut ctx)
}

fn value_of(inst: Inst, args: Vec<Val>) -> Outcome {
    eval(vec![inst, Inst::Ret(Value::Local(0))], args)
}

#[test]
fn arithmetic_on_64_bits() {
    assert_eq!(value_of(Inst::Mul(constant(6), constant(7)), vec![]), Outcome::Value(word(42)));
    assert_eq!(
        value_of(Inst::Mul(constant(1 << 63), constant(2)), vec![]),
        Outcome::Value(word(0))
    );
    assert_eq!(
        value_of(Inst::Mul(constant(u64::MAX), constant(u64::MAX)), vec![]),
        Outcome::Value(word(1))
    );
    assert_eq!(value_of(Inst::Sub(constant(5), constant(7)), vec![]), Outcome::Value(word(u64::MAX - 1)));
    assert_eq!(value_of(Inst::Sub(constant(7), constant(5)), vec![]), Outcome::Value(word(2)));
    assert_eq!(value_of(Inst::NswMul(constant(6), constant(7)), vec![]), Outcome::Value(word(42)));
    // -2 * 3 = -6
    assert_eq!(
        value_of(Inst::NswMul(constant(u64::MAX - 1), constant(3)), vec![]),
        Outcome::Value(word(u64::MAX - 5))
    );
    assert_eq!(
        value_of(Inst::NswMul(constant(1 << 62), constant(2)), vec![]),
        Outcome::Stuck
    );
    // -2^62 * 2 = -2^63 is still in range.
    assert_eq!(
        value_of(Inst::NswMul(constant(3 << 62), constant(2)), vec![]),
        Outcome::Value(word(1 << 63))
    );
}

#[test]
fn comparisons_and_selection() {
    let big = constant(u64::MAX);
    let one = constant(1);
    assert_eq!(
        value_of(Inst::Compare(IntPredicate::Ugt, big, one), vec![]),
        Outcome::Value(word(1))
    );
    assert_eq!(
        value_of(Inst::Compare(IntPredicate::Sgt, big, one), vec![]),
        Outcome::Value(word(0))
    );
    assert_eq!(
        value_of(Inst::Compare(IntPredicate::Sgt, one, big), vec![]),
        Outcome::Value(word(1))
    );
    assert_eq!(
        value_of(Inst::Compare(IntPredicate::Ugt, one, one), vec![]),
        Outcome::Value(word(0))
    );
    assert_eq!(
        value_of(Inst::Select(constant(1), constant(10), constant(20)), vec![]),
        Outcome::Value(word(10))
    );
    assert_eq!(
        value_of(Inst::Select(constant(0), constant(10), constant(20)), vec![]),
        Outcome::Value(word(20))
    );
    assert_eq!(value_of(Inst::Select(constant(2), constant(10), constant(20)), vec![]), Outcome::Stuck);
}

#[test]
fn records_and_lanes() {
    let record = Val::Record(Atom::Int(1), Atom::Int(2));
    assert_eq!(
        value_of(Inst::ExtractValue(Value::Param(0), 1), vec![record]),
        Outcome::Value(word(2))
    );
    assert_eq!(value_of(Inst::ExtractValue(Value::Param(0), 2), vec![record]), Outcome::Stuck);
    assert_eq!(value_of(Inst::ExtractValue(Value::Param(0), 0), vec![word(1)]), Outcome::Stuck);
    assert_eq!(
        value_of(Inst::InsertValue(Value::Param(0), constant(9), 0), vec![record]),
        Outcome::Value(Val::Record(Atom::Int(9), Atom::Int(2)))
    );
    assert_eq!(
        value_of(Inst::Undef(Ty::Record("r".to_string(), 16)), vec![]),
        Outcome::Value(Val::Record(Atom::Undef, Atom::Undef))
    );
    assert_eq!(
        value_of(Inst::Undef(Ty::Scalar(ScalarKind::I8)), vec![]),
        Outcome::Value(Val::Atom(Atom::Undef))
    );
    let lanes = Val::Atom(Atom::Simd(Lanes { l0: 10, l1: 11, l2: 12, l3: 13 }));
    assert_eq!(
        value_of(Inst::ExtractElement(Value::Param(0), constant(2)), vec![lanes]),
        Outcome::Value(word(12))
    );
    assert_eq!(
        value_of(Inst::ExtractElement(Value::Param(0), constant(4)), vec![lanes]),
        Outcome::Stuck
    );
    assert_eq!(
        value_of(
            Inst::BinOp(
                BinOpKind::Add,
                ScalarKind::U8,
                Value::Param(0),
                Value::Splat(ScalarKind::U8, 250)
            ),
            vec![lanes]
        ),
        Outcome::Value(Val::Atom(Atom::Simd(Lanes { l0: 4, l1: 5, l2: 6, l3: 7 })))
    );
    assert_eq!(
        value_of(
            Inst::BinOp(BinOpKind::Add, ScalarKind::U8, Value::Param(0), constant(1)),
            vec![lanes]
        ),
        Outcome::Stuck
    );
}

#[test]
fn pointers() {
    let p = pointer(Ptr::At(3, 10));
    assert_eq!(
        value_of(Inst::Gep(Value::Param(0), constant(2), Ty::Scalar(ScalarKind::I64)), vec![p]),
        Outcome::Value(pointer(Ptr::At(3, 26)))
    );
    assert_eq!(
        value_of(Inst::Gep(Value::Param(0), constant(2), Ty::Simd(ScalarKind::I16)), vec![p]),
        Outcome::Value(pointer(Ptr::At(3, 26)))
    );
    assert_eq!(
        value_of(
            Inst::Gep(Value::Param(0), constant(1), Ty::Record("vec0".to_string(), 16)),
            vec![p]
        ),
        Outcome::Value(pointer(Ptr::At(3, 26)))
    );
    assert_eq!(
        value_of(Inst::BitCast(Value::Param(0), Ty::Void), vec![p]),
        Outcome::Value(p)
    );
    assert_eq!(value_of(Inst::BitCast(Value::Param(0), Ty::Void), vec![word(1)]), Outcome::Stuck);
    assert_eq!(
        value_of(Inst::StructGep(Value::Param(0), 1), vec![p]),
        Outcome::Value(pointer(Ptr::At(3, 11)))
    );
    assert_eq!(
        value_of(Inst::StructGep(Value::Param(0), 1), vec![pointer(Ptr::Null)]),
        Outcome::Stuck
    );
    assert_eq!(
        value_of(Inst::StructGep(Value::Param(0), 1), vec![pointer(Ptr::At(0, u64::MAX))]),
        Outcome::Stuck
    );
}

#[test]
fn stack_records() {
    let body = vec![
        Inst::Alloca(Ty::Record("m".to_string(), 32)),
        Inst::Store(Value::Param(0), Value::Local(0)),
        Inst::StructGep(Value::Local(0), 1),
        Inst::Load(Value::Local(2)),
        Inst::Ret(Value::Local(3)),
    ];
    assert_eq!(
        eval(body, vec![Val::Record(Atom::Int(1), Atom::Int(2))]),
        Outcome::Value(word(2))
    );
    let body = || {
        vec![
            Inst::Alloca(Ty::Scalar(ScalarKind::I64)),
            Inst::Store(Value::Param(0), Value::Local(0)),
            Inst::Ret(Value::Local(1)),
        ]
    };
    assert_eq!(eval(body(), vec![word(5)]), Outcome::Value(Val::Unit));
    // A record does not fit into the slot of a scalar.
    assert_eq!(eval(body(), vec![Val::Record(Atom::Int(1), Atom::Int(2))]), Outcome::Stuck);
}

#[test]
fn branches_go_forward_and_phi_follows_the_branch_taken() {
    let body = |flag: u64| {
        vec![
            Inst::CondBr(constant(flag), 1, 3),
            Inst::Mul(constant(2), constant(3)),
            Inst::Br(3),
            Inst::Phi(Ty::Scalar(ScalarKind::I64), constant(100), 0, Value::Local(1), 2),
            Inst::Ret(Value::Local(3)),
        ]
    };
    assert_eq!(eval(body(1), vec![]), Outcome::Value(word(6)));
    assert_eq!(eval(body(0), vec![]), Outcome::Value(word(100)));
    assert_eq!(eval(body(7), vec![]), Outcome::Stuck);
    // A branch back, or out of the routine, has no meaning.
    assert_eq!(eval(vec![Inst::RetVoid, Inst::Br(0)], vec![]), Outcome::Value(Val::Unit));
    assert_eq!(eval(vec![Inst::Br(0)], vec![]), Outcome::Stuck);
    assert_eq!(eval(vec![Inst::Br(1)], vec![]), Outcome::Stuck);
    assert_eq!(eval(vec![Inst::Br(1), Inst::Br(1)], vec![]), Outcome::Stuck);
    // A phi that was not reached through one of its branches has no meaning.
    assert_eq!(
        eval(vec![Inst::Phi(Ty::Void, constant(1), 5, constant(2), 6)], vec![]),
        Outcome::Stuck
    );
}

#[test]
fn routines_end_with_a_return() {
    assert_eq!(eval(vec![], vec![]), Outcome::Stuck);
    assert_eq!(eval(vec![Inst::Mul(constant(1), constant(1))], vec![]), Outcome::Stuck);
    assert_eq!(eval(vec![Inst::RetVoid], vec![]), Outcome::Value(Val::Unit));
    assert_eq!(eval(vec![Inst::Ret(Value::Param(0))], vec![word(3)]), Outcome::Value(word(3)));
    // An operand that names nothing is undefined.
    assert_eq!(
        eval(vec![Inst::Ret(Value::Param(1))], vec![word(3)]),
        Outcome::Value(Val::Atom(Atom::Undef))
    );
    assert_eq!(eval(vec![Inst::Mul(Value::Local(5), constant(1)), Inst::RetVoid], vec![]), Outcome::Stuck);
}

#[test]
fn calls_target_earlier_entries_only() {
    let mut module = Module::new();
    let double = module.add_function(Function {
        name: "double".to_string(),
        params: vec![],
        ret: Ty::Void,
        attrs: vec![],
        body: Some(vec![Inst::Mul(Value::Param(0), constant(2)), Inst::Ret(Value::Local(0))]),
    });
    let caller = module.add_function(Function {
        name: "caller".to_string(),
        params: vec![],
        ret: Ty::Void,
        attrs: vec![],
        body: Some(vec![
            Inst::Call(double, vec![Value::Param(0)]),
            Inst::Call(double, vec![Value::Local(0)]),
            Inst::Ret(Value::Local(1)),
        ]),
    });
    let looping = module.add_function(Function {
        name: "looping".to_string(),
        params: vec![],
        ret: Ty::Void,
        attrs: vec![],
        body: Some(vec![Inst::Call(FuncRef(2), vec![]), Inst::RetVoid]),
    });
    let mut ctx = RunContext::init(1, 0);
    assert_eq!(run(&module, caller, &vec![word(5)], &mut ctx), Outcome::Value(word(20)));
    assert_eq!(run(&module, looping, &vec![], &mut ctx), Outcome::Stuck);
    assert_eq!(run(&module, FuncRef(9), &vec![], &mut ctx), Outcome::Stuck);
}

#[test]
fn declarations_are_resolved_by_name() {
    let mut module = Module::new();
    let mut ccontext = CContext::new();
    let mut intrinsics = Intrinsics::defaults(&mut module, &mut ccontext);
    assert!(intrinsics.add(&mut module, "llvm.sqrt.f32", Ty::Void, vec![]));
    let mut ctx = RunContext::init(1, 100);
    let malloc = intrinsics.get("weld_runst_malloc").unwrap();
    assert_eq!(
        run(&module, malloc, &vec![run_val(), word(10)], &mut ctx),
        Outcome::Value(pointer(Ptr::At(0, 0)))
    );
    assert_eq!(ctx.allocated(), 10);
    let unknown = intrinsics.get("llvm.sqrt.f32").unwrap();
    assert_eq!(run(&module, unknown, &vec![], &mut ctx), Outcome::Stuck);
}

#[test]
fn a_halting_call_ends_the_routines_that_called_it() {
    let mut module = Module::new();
    let mut ccontext = CContext::new();
    let mut intrinsics = Intrinsics::defaults(&mut module, &mut ccontext);
    let mut b = Builder::new();
    intrinsics.call_weld_run_set_errno(&mut b, Value::Param(0), constant(4));
    intrinsics.call_weld_run_malloc(&mut b, Value::Param(0), constant(10));
    b.push(Inst::RetVoid);
    let inner = module.add_function(Function {
        name: "inner".to_string(),
        params: vec![],
        ret: Ty::Void,
        attrs: vec![],
        body: Some(b.insts),
    });
    let outer = module.add_function(Function {
        name: "outer".to_string(),
        params: vec![],
        ret: Ty::Void,
        attrs: vec![],
        body: Some(vec![Inst::Call(inner, vec![Value::Param(0)]), Inst::RetVoid]),
    });
    let mut ctx = RunContext::init(1, 100);
    assert_eq!(run(&module, outer, &vec![run_val()], &mut ctx), Outcome::Halted);
    assert_eq!(ctx.get_errno(), 4);
    assert!(ctx.is_halted());
    assert_eq!(ctx.allocated(), 0);
}

#[test]
fn runtime_entry_points() {
    let mut ctx = RunContext::init(1, 100);
    let init = Callee::Host(HostFn::Init);
    assert_eq!(
        host(init, &vec![word(8), word(64)], &mut ctx),
        Outcome::Value(run_val())
    );
    assert_eq!((ctx.nworkers(), ctx.memlimit(), ctx.allocated()), (8, 64, 0));
    // The number of workers is a signed 32-bit number.
    assert_eq!(host(init, &vec![word(0xffff_ffff), word(64)], &mut ctx), Outcome::Value(run_val()));
    assert_eq!(ctx.nworkers(), -1);
    assert_eq!(host(init, &vec![word(8)], &mut ctx), Outcome::Stuck);

    let p = match host(Callee::Host(HostFn::Malloc), &vec![run_val(), word(16)], &mut ctx) {
        Outcome::Value(Val::Atom(Atom::Ptr(p))) => p,
        other => panic!("{:?}", other),
    };
    assert_eq!(ctx.allocated(), 16);
    assert_eq!(
        host(Callee::Host(HostFn::SetResult), &vec![run_val(), pointer(p)], &mut ctx),
        Outcome::Value(Val::Unit)
    );
    assert_eq!(
        host(Callee::Host(HostFn::GetResult), &vec![run_val()], &mut ctx),
        Outcome::Value(pointer(p))
    );
    assert_eq!(
        host(Callee::Host(HostFn::GetErrno), &vec![run_val()], &mut ctx),
        Outcome::Value(word(0))
    );
    assert_eq!(
        host(Callee::Host(HostFn::Print), &vec![run_val(), pointer(p)], &mut ctx),
        Outcome::Value(Val::Unit)
    );
    assert_eq!(
        host(Callee::Memset, &vec![pointer(p), word(0x1ff), word(4), word(8), word(0)], &mut ctx),
        Outcome::Value(Val::Unit)
    );
    assert_eq!(ctx.read_bytes(p, 5), Some(vec![0xff, 0xff, 0xff, 0xff, 0]));
    let q = match host(Callee::Host(HostFn::Realloc), &vec![run_val(), pointer(p), word(32)], &mut ctx)
    {
        Outcome::Value(Val::Atom(Atom::Ptr(q))) => q,
        other => panic!("{:?}", other),
    };
    assert_eq!(ctx.read_bytes(q, 5), Some(vec![0xff, 0xff, 0xff, 0xff, 0]));
    assert_eq!(
        host(Callee::Memcpy, &vec![pointer(Ptr::At(1, 8)), pointer(q), word(2), word(8), word(0)], &mut ctx),
        Outcome::Value(Val::Unit)
    );
    assert_eq!(ctx.read_bytes(Ptr::At(1, 7), 4), Some(vec![0, 0xff, 0xff, 0]));
    // The old allocation is gone.
    assert_eq!(
        host(Callee::Host(HostFn::Free), &vec![run_val(), pointer(p)], &mut ctx),
        Outcome::Stuck
    );
    assert_eq!(
        host(Callee::Host(HostFn::Free), &vec![run_val(), pointer(q)], &mut ctx),
        Outcome::Value(Val::Unit)
    );
    assert_eq!(ctx.allocated(), 0);
    assert_eq!(
        host(Callee::Host(HostFn::Free), &vec![run_val(), pointer(Ptr::Null)], &mut ctx),
        Outcome::Value(Val::Unit)
    );
}

#[test]
fn runtime_entry_points_need_the_run_handle() {
    let mut ctx = RunContext::init(1, 100);
    assert_eq!(host(Callee::Host(HostFn::Malloc), &vec![word(0), word(16)], &mut ctx), Outcome::Stuck);
    assert_eq!(host(Callee::Host(HostFn::Malloc), &vec![run_val()], &mut ctx), Outcome::Stuck);
    assert_eq!(
        host(Callee::Host(HostFn::Malloc), &vec![run_val(), word(1), word(2)], &mut ctx),
        Outcome::Stuck
    );
    assert_eq!(host(Callee::Host(HostFn::GetErrno), &vec![], &mut ctx), Outcome::Stuck);
    assert_eq!(
        host(Callee::Memcpy, &vec![pointer(Ptr::Null), pointer(Ptr::Null), word(0)], &mut ctx),
        Outcome::Stuck
    );
    assert_eq!(ctx.allocated(), 0);
}

#[test]
fn error_path_through_the_intrinsics() {
    let mut ctx = RunContext::init(1, 100);
    assert_eq!(
        host(Callee::Host(HostFn::Assert), &vec![run_val(), word(1)], &mut ctx),
        Outcome::Value(word(1))
    );
    assert!(!ctx.is_halted());
    assert_eq!(
        host(Callee::Host(HostFn::Assert), &vec![run_val(), word(0)], &mut ctx),
        Outcome::Halted
    );
    assert_eq!(ctx.get_errno(), 12);
    assert!(ctx.is_halted());
    let mut ctx = RunContext::init(1, 100);
    assert_eq!(
        host(Callee::Host(HostFn::Assert), &vec![run_val(), word(2)], &mut ctx),
        Outcome::Stuck
    );
    assert_eq!(
        host(Callee::Host(HostFn::SetErrno), &vec![run_val(), word(u64::MAX)], &mut ctx),
        Outcome::Halted
    );
    assert_eq!(ctx.get_errno(), -1);
    assert_eq!(
        host(Callee::Host(HostFn::GetErrno), &vec![run_val()], &mut ctx),
        Outcome::Value(word(u64::MAX))
    );
}
