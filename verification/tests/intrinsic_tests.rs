use weld::code::Code;
use weld::context::c_get_param;
use weld::context::c_pointer_type;
use weld::context::c_simd_type;
use weld::context::define_function;
use weld::context::CContext;
use weld::context::IdGenerator;
use weld::defaults::RUNTIME_TYPES;
use weld::host::lookup;
use weld::host::Callee;
use weld::host::HostFn;
use weld::intrinsic::Intrinsics;
use weld::ir::Attr;
use weld::ir::Builder;
use weld::ir::FuncRef;
use weld::ir::Inst;
use weld::ir::Module;
use weld::ir::Place;
use weld::ir::Ty;
use weld::ir::Value;
use weld::kinds::ScalarKind;

fn byte_pointer() -> Ty {
    Ty::Pointer(Box::new(Ty::Scalar(ScalarKind::I8)))
}

fn setup() -> (Module, CContext, Intrinsics) {
    let mut module = Module::new();
    let mut ccontext = CContext::new();
    let intrinsics = Intrinsics::defaults(&mut module, &mut ccontext);
    (module, ccontext, intrinsics)
}

#[test]
fn code_is_indented_by_its_braces() {
    let mut code = Code::new();
    assert_eq!(code.result(), "");
    code.add("class A {\nif (c) {\nduh\n     }\n}");
    assert_eq!(code.result(), "class A {\n  if (c) {\n    duh\n  }\n}\n");
}

#[test]
fn code_keeps_its_depth_between_additions() {
    let mut code = Code::new();
    code.add("void f() {");
    code.add("   return;   ");
    code.add("}");
    code.add("int x;");
    assert_eq!(code.result(), "void f() {\n  return;\n}\nint x;\n");
}

#[test]
fn fresh_names_count_up() {
    let mut ids = IdGenerator::new("t");
    assert_eq!(ids.next(), "t0");
    assert_eq!(ids.next(), "t1");
    assert_eq!(ids.next_id, 2);
    ids.next_id = u64::MAX;
    assert_eq!(ids.next(), "t18446744073709551615");
    assert_eq!(ids.next(), "t0");
}

#[test]
fn source_names_of_types_and_parameters() {
    assert_eq!(c_get_param(0), "arg0");
    assert_eq!(c_get_param(12), "arg12");
    assert_eq!(c_pointer_type("vec0"), "vec0*");
    assert_eq!(c_simd_type("int32_t", 4), "int32_tx4");
}

#[test]
fn routines_start_with_their_signature() {
    let (function, builder, code) = define_function(
        Ty::Scalar(ScalarKind::I64),
        "int64_t",
        vec![Ty::Scalar(ScalarKind::I64), byte_pointer()],
        &vec!["int64_t".to_string(), "void*".to_string()],
        "f.x".to_string(),
        "f_x",
        false,
    );
    assert_eq!(function.name, "f.x");
    assert_eq!(function.params, vec![Ty::Scalar(ScalarKind::I64), byte_pointer()]);
    assert_eq!(function.ret, Ty::Scalar(ScalarKind::I64));
    assert!(function.attrs.is_empty());
    assert_eq!(function.body, None);
    assert!(builder.insts.is_empty());
    assert_eq!(code.result(), "int64_t f_x(int64_t arg0, void* arg1)\n");

    let (_, _, code) =
        define_function(Ty::Void, "void", vec![], &vec![], "g".to_string(), "g", true);
    assert_eq!(code.result(), "static inline void g()\n");
}

#[test]
fn names_resolve_to_the_functions_of_the_runtime() {
    assert_eq!(lookup(&"weld_runst_init".to_string()), Some(Callee::Host(HostFn::Init)));
    assert_eq!(lookup(&"weld_runst_malloc".to_string()), Some(Callee::Host(HostFn::Malloc)));
    assert_eq!(lookup(&"weld_runst_assert".to_string()), Some(Callee::Host(HostFn::Assert)));
    assert_eq!(lookup(&"weld_runst_free".to_string()), Some(Callee::Host(HostFn::Free)));
    assert_eq!(
        lookup(&"weld_runst_set_errno".to_string()),
        Some(Callee::Host(HostFn::SetErrno))
    );
    assert_eq!(lookup(&"llvm.memcpy.p0i8.p0i8.i64".to_string()), Some(Callee::Memcpy));
    assert_eq!(lookup(&"llvm.memset.p0i8.i64".to_string()), Some(Callee::Memset));
    assert_eq!(lookup(&"weld_runst_initx".to_string()), None);
    assert_eq!(lookup(&"".to_string()), None);
}

#[test]
fn defaults_declare_the_runtime() {
    let (module, _, intrinsics) = setup();
    let names = [
        "weld_runst_init",
        "weld_runst_get_result",
        "weld_runst_set_result",
        "weld_runst_malloc",
        "weld_runst_realloc",
        "weld_runst_free",
        "weld_runst_get_errno",
        "weld_runst_set_errno",
        "weld_runst_assert",
        "weld_runst_print",
        "llvm.memcpy.p0i8.p0i8.i64",
        "llvm.memset.p0i8.i64",
    ];
    assert_eq!(module.funcs.len(), 12);
    for (i, name) in names.iter().enumerate() {
        assert_eq!(intrinsics.get(name), Some(FuncRef(i)));
        assert_eq!(module.funcs[i].name, *name);
        assert_eq!(module.funcs[i].body, None);
    }
    assert_eq!(intrinsics.get("weld_runst_unknown"), None);

    let i64t = Ty::Scalar(ScalarKind::I64);
    let i32t = Ty::Scalar(ScalarKind::I32);
    let flag = Ty::Scalar(ScalarKind::Bool);
    assert_eq!(module.funcs[0].params, vec![i32t.duplicate(), i64t.duplicate()]);
    assert_eq!(module.funcs[0].ret, byte_pointer());
    assert!(module.funcs[0].attrs.is_empty());
    assert_eq!(module.funcs[3].params, vec![byte_pointer(), i64t.duplicate()]);
    assert_eq!(module.funcs[3].ret, byte_pointer());
    assert_eq!(
        module.funcs[3].attrs,
        vec![
            (Place::Param(0), Attr::NoCapture),
            (Place::Param(0), Attr::NoAlias),
            (Place::Param(0), Attr::NonNull),
            (Place::Return, Attr::NoAlias),
        ]
    );
    assert_eq!(module.funcs[4].params, vec![byte_pointer(), byte_pointer(), i64t.duplicate()]);
    assert_eq!(
        module.funcs[6].attrs,
        vec![
            (Place::Function, Attr::NoUnwind),
            (Place::Param(0), Attr::NoCapture),
            (Place::Param(0), Attr::NoAlias),
            (Place::Param(0), Attr::NonNull),
            (Place::Param(0), Attr::ReadOnly),
        ]
    );
    assert_eq!(module.funcs[6].ret, i64t.duplicate());
    assert_eq!(module.funcs[7].attrs[0], (Place::Function, Attr::NoReturn));
    assert_eq!(module.funcs[7].ret, Ty::Void);
    assert_eq!(module.funcs[8].params, vec![byte_pointer(), flag.duplicate()]);
    assert_eq!(module.funcs[8].ret, flag.duplicate());
    assert_eq!(module.funcs[9].attrs.len(), 8);
    assert_eq!(
        module.funcs[10].params,
        vec![byte_pointer(), byte_pointer(), i64t.duplicate(), i32t.duplicate(), flag.duplicate()]
    );
    assert_eq!(
        module.funcs[11].params,
        vec![
            byte_pointer(),
            Ty::Scalar(ScalarKind::I8),
            i64t.duplicate(),
            i32t.duplicate(),
            flag.duplicate()
        ]
    );
    assert!(module.funcs[11].attrs.is_empty());
}

#[test]
fn defaults_define_the_runtime_in_the_prelude() {
    let (_, ccontext, _) = setup();
    let prelude = ccontext.prelude_code.result();
    assert!(prelude.starts_with("typedef int64_t WeldRuntimeErrno;\n"));
    assert!(prelude.contains("#define OutOfMemory             7\n"));
    assert!(prelude.contains("#define AssertionError          12\n"));
    assert!(prelude.contains("typedef struct {\n  WeldRuntimeErrno errno;\n  void* result;\n"));
    assert!(prelude.contains("typedef WeldRuntimeContext* WeldRuntimeContextRef;\n"));
    assert!(prelude.contains(
        "void* weld_runst_get_result(WeldRuntimeContextRef run)\n{\n  return run->result;\n}\n"
    ));
    for name in [
        "weld_runst_init(",
        "weld_runst_set_result(",
        "weld_runst_malloc(WeldRuntimeContextRef run, int64_t size)",
        "weld_runst_realloc(",
        "weld_runst_free(",
        "weld_runst_get_errno(",
        "weld_runst_set_errno(",
        "weld_runst_assert(",
        "weld_runst_print(",
    ] {
        assert!(prelude.contains(name), "{}", name);
    }
    assert!(!prelude.contains("memcpy.p0i8"));
    assert_eq!(ccontext.body_code.result(), "");
    assert!(RUNTIME_TYPES.contains("ErrnoMax                13"));
    assert!(HostFn::Init.c_definition().starts_with("WeldRuntimeContextRef weld_runst_init("));
}

#[test]
fn mappings_list_the_host_functions_only() {
    let (_, _, intrinsics) = setup();
    let mut mappings = intrinsics.mappings();
    mappings.sort_by(|a, b| a.0.cmp(&b.0));
    let expected = vec![
        ("weld_runst_assert".to_string(), HostFn::Assert),
        ("weld_runst_free".to_string(), HostFn::Free),
        ("weld_runst_get_errno".to_string(), HostFn::GetErrno),
        ("weld_runst_get_result".to_string(), HostFn::GetResult),
        ("weld_runst_init".to_string(), HostFn::Init),
        ("weld_runst_malloc".to_string(), HostFn::Malloc),
        ("weld_runst_print".to_string(), HostFn::Print),
        ("weld_runst_realloc".to_string(), HostFn::Realloc),
        ("weld_runst_set_errno".to_string(), HostFn::SetErrno),
        ("weld_runst_set_result".to_string(), HostFn::SetResult),
    ];
    assert_eq!(mappings, expected);
}

#[test]
fn add_registers_a_builtin_once() {
    let (mut module, _, mut intrinsics) = setup();
    let f32t = Ty::Scalar(ScalarKind::F32);
    assert!(intrinsics.add(&mut module, "llvm.sqrt.f32", f32t.duplicate(), vec![f32t.duplicate()]));
    assert_eq!(module.funcs.len(), 13);
    assert_eq!(intrinsics.get("llvm.sqrt.f32"), Some(FuncRef(12)));
    assert_eq!(module.funcs[12].name, "llvm.sqrt.f32");
    assert_eq!(module.funcs[12].params, vec![f32t.duplicate()]);
    assert_eq!(module.funcs[12].ret, f32t.duplicate());
    assert_eq!(module.funcs[12].body, None);
    assert!(!intrinsics.add(&mut module, "llvm.sqrt.f32", Ty::Void, vec![]));
    assert_eq!(module.funcs.len(), 13);
    assert_eq!(intrinsics.get("llvm.sqrt.f32"), Some(FuncRef(12)));
    assert!(!intrinsics.add(&mut module, "weld_runst_malloc", Ty::Void, vec![]));
    // A builtin is not handed to the host for linking.
    assert_eq!(intrinsics.mappings().len(), 10);
    assert!(intrinsics.mappings().iter().all(|m| m.0 != "llvm.sqrt.f32"));
}

#[test]
fn registry_starts_empty() {
    let intrinsics = Intrinsics::new();
    assert_eq!(intrinsics.get("weld_runst_malloc"), None);
    assert!(intrinsics.mappings().is_empty());
}

#[test]
fn call_takes_exactly_the_arguments_given() {
    let (module, _, mut intrinsics) = setup();
    let mut builder = Builder::new();
    builder.push(Inst::RetVoid);
    let args = vec![Value::Param(0), Value::Const(ScalarKind::I64, 16)];
    assert!(intrinsics.accepts(&module, "weld_runst_malloc", args.len()));
    let v = intrinsics.call(&module, &mut builder, "weld_runst_malloc", args.clone());
    assert_eq!(v, Ok(Value::Local(1)));
    assert_eq!(builder.insts.len(), 2);
    assert_eq!(builder.insts[1], Inst::Call(FuncRef(3), args));
}

#[test]
fn call_is_refused_for_a_wrong_count_or_an_unknown_name() {
    let (module, _, intrinsics) = setup();
    assert!(intrinsics.accepts(&module, "weld_runst_malloc", 2));
    assert!(!intrinsics.accepts(&module, "weld_runst_malloc", 1));
    assert!(!intrinsics.accepts(&module, "weld_runst_malloc", 3));
    assert!(!intrinsics.accepts(&module, "weld_runst_malloc", 0));
    assert!(intrinsics.accepts(&module, "llvm.memcpy.p0i8.p0i8.i64", 5));
    assert!(!intrinsics.accepts(&module, "llvm.memcpy.p0i8.p0i8.i64", 3));
    assert!(!intrinsics.accepts(&module, "weld_runst_nothing", 0));
}

#[test]
fn numeric_intrinsic_names() {
    assert_eq!(Intrinsics::llvm_numeric("sqrt", ScalarKind::F32, false), "llvm.sqrt.f32");
    assert_eq!(Intrinsics::llvm_numeric("sqrt", ScalarKind::F64, true), "llvm.sqrt.v4f64");
    assert_eq!(Intrinsics::llvm_numeric("ctpop", ScalarKind::I8, false), "llvm.ctpop.i32");
    assert_eq!(Intrinsics::llvm_numeric("ctpop", ScalarKind::U8, true), "llvm.ctpop.v4i32");
    assert_eq!(Intrinsics::llvm_numeric("ctpop", ScalarKind::I16, false), "llvm.ctpop.i16");
    assert_eq!(Intrinsics::llvm_numeric("ctpop", ScalarKind::U64, false), "llvm.ctpop.i64");
    assert_eq!(Intrinsics::llvm_numeric("x", ScalarKind::Bool, false), "llvm.x.i1");
    assert_eq!(Intrinsics::llvm_numeric("", ScalarKind::U32, true), "llvm..v4i32");
}

#[test]
fn argument_lines() {
    let mut intrinsics = Intrinsics::new();
    let s = |x: &str| x.to_string();
    assert_eq!(intrinsics.c_args(&[]), "");
    assert_eq!(intrinsics.c_args(&[s("a")]), "a");
    assert_eq!(intrinsics.c_args(&[s("a"), s("b"), s("c")]), "a, b, c");
    // An empty argument before the last one leaves no trace.
    assert_eq!(intrinsics.c_args(&[s("a"), s(""), s("c")]), "a, c");
    assert_eq!(intrinsics.c_args(&[s(""), s("b")]), "b");
    assert_eq!(intrinsics.c_args(&[s("a"), s("")]), "a, ");
    assert_eq!(intrinsics.c_args(&[s("")]), "");
}

#[test]
fn calls_in_source_text() {
    let (_, mut ccontext, mut intrinsics) = setup();
    let s = |x: &str| x.to_string();
    let r = intrinsics.c_call(&mut ccontext, "f", &[s("a"), s("b")], "int64_t", Some(s("x")));
    assert_eq!(r, "x");
    assert_eq!(ccontext.body_code.result(), "x = f(a, b);\n");
    let r = intrinsics.c_call(&mut ccontext, "g", &[], "void*", None);
    assert_eq!(r, "t0");
    assert_eq!(ccontext.body_code.result(), "x = f(a, b);\nvoid* t0 = g();\n");
    let r = intrinsics.c_call(&mut ccontext, "h", &[s("t0")], "int32_t", None);
    assert_eq!(r, "t1");
    intrinsics.c_call_void(&mut ccontext, "k", &[s("t1"), s("2")]);
    assert_eq!(
        ccontext.body_code.result(),
        "x = f(a, b);\nvoid* t0 = g();\nint32_t t1 = h(t0);\n(void)k(t1, 2);\n"
    );
}

#[test]
fn calls_of_the_runtime_in_source_text() {
    let (_, mut ccontext, mut intrinsics) = setup();
    let s = |x: &str| x.to_string();
    let run = intrinsics.c_call_weld_run_init(&mut ccontext, s("4"), s("1000"), None);
    assert_eq!(run, "t0");
    let run2 = intrinsics.c_call_weld_run_init(&mut ccontext, s("1"), s("2"), Some(s("run")));
    assert_eq!(run2, "run");
    let res = intrinsics.c_call_weld_run_get_result(&mut ccontext, run, None);
    assert_eq!(res, "t1");
    assert_eq!(
        ccontext.body_code.result(),
        "WeldRuntimeContextRef t0 = weld_runst_init(4, 1000);\nrun = weld_runst_init(1, 2);\nvoid* t1 = weld_runst_get_result(t0);\n"
    );
}

#[test]
fn calls_of_the_runtime() {
    let (_, _, mut intrinsics) = setup();
    let mut b = Builder::new();
    let (r, p, n, x) = (Value::Param(0), Value::Param(1), Value::Param(2), Value::Param(3));
    assert_eq!(intrinsics.call_weld_run_init(&mut b, n, x), Value::Local(0));
    assert_eq!(intrinsics.call_weld_run_get_result(&mut b, r), Value::Local(1));
    assert_eq!(intrinsics.call_weld_run_set_result(&mut b, r, p), Value::Local(2));
    assert_eq!(intrinsics.call_weld_run_malloc(&mut b, r, n), Value::Local(3));
    assert_eq!(intrinsics.call_weld_run_realloc(&mut b, r, p, n), Value::Local(4));
    assert_eq!(intrinsics.call_weld_run_free(&mut b, r, p), Value::Local(5));
    assert_eq!(intrinsics.call_weld_run_get_errno(&mut b, r), Value::Local(6));
    assert_eq!(intrinsics.call_weld_run_set_errno(&mut b, r, x), Value::Local(7));
    assert_eq!(intrinsics.call_weld_run_assert(&mut b, r, x), Value::Local(8));
    assert_eq!(intrinsics.call_weld_run_print(&mut b, r, p), Value::Local(9));
    assert_eq!(intrinsics.call_memcpy(&mut b, p, x, n), Value::Local(10));
    assert_eq!(intrinsics.call_memset_zero(&mut b, p, n), Value::Local(11));
    let eight = Value::Const(ScalarKind::I32, 8);
    let no = Value::Const(ScalarKind::Bool, 0);
    assert_eq!(
        b.insts,
        vec![
            Inst::Call(FuncRef(0), vec![n, x]),
            Inst::Call(FuncRef(1), vec![r]),
            Inst::Call(FuncRef(2), vec![r, p]),
            Inst::Call(FuncRef(3), vec![r, n]),
            Inst::Call(FuncRef(4), vec![r, p, n]),
            Inst::Call(FuncRef(5), vec![r, p]),
            Inst::Call(FuncRef(6), vec![r]),
            Inst::Call(FuncRef(7), vec![r, x]),
            Inst::Call(FuncRef(8), vec![r, x]),
            Inst::Call(FuncRef(9), vec![r, p]),
            Inst::Call(FuncRef(10), vec![p, x, n, eight, no]),
            Inst::Call(FuncRef(11), vec![p, Value::Const(ScalarKind::I8, 0), n, eight, no]),
        ]
    );
}

#[test]
fn types_and_source_names_of_the_shared_context() {
    assert_eq!(weld::context::i64_type(), Ty::Scalar(ScalarKind::I64));
    assert_eq!(weld::context::u64_type(), Ty::Scalar(ScalarKind::U64));
    assert_eq!(weld::context::i32_type(), Ty::Scalar(ScalarKind::I32));
    assert_eq!(weld::context::i8_type(), Ty::Scalar(ScalarKind::I8));
    assert_eq!(weld::context::bool_type(), Ty::Scalar(ScalarKind::Bool));
    assert_eq!(weld::context::void_pointer_type(), byte_pointer());
    assert_eq!(weld::context::run_handle_type(), byte_pointer());
    assert_eq!(
        weld::context::size_of(&Ty::Simd(ScalarKind::I64)),
        Value::Const(ScalarKind::I64, 32)
    );
    assert_eq!(weld::context::c_i64_type(), "int64_t");
    assert_eq!(weld::context::c_u64_type(), "uint64_t");
    assert_eq!(weld::context::c_i32_type(), "int32_t");
    assert_eq!(weld::context::c_void_type(), "void");
    assert_eq!(weld::context::c_run_handle_type(), "WeldRuntimeContextRef");
    let context = CContext::new();
    assert_eq!(context.prelude_code.result(), "");
    assert_eq!(context.body_code.result(), "");
    assert_eq!(context.var_ids.prefix, "t");
}
