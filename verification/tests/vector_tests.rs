use weld::context::CContext;
use weld::error::WeldError;
use weld::intrinsic::Intrinsics;
use weld::ir::Attr;
use weld::ir::Builder;
use weld::ir::FuncRef;
use weld::ir::Function;
use weld::ir::Inst;
use weld::ir::IntPredicate;
use weld::ir::Module;
use weld::ir::Place;
use weld::ir::Ty;
use weld::ir::Value;
use weld::kinds::ScalarKind;
use weld::machine::run;
use weld::runtime::RunContext;
use weld::value::Atom;
use weld::value::Outcome;
use weld::value::Ptr;
use weld::value::Val;
use weld::vector::Vector;
use weld::vector::POINTER_INDEX;
use weld::vector::SIZE_INDEX;

struct Fixture {
    module: Module,
    ccontext: CContext,
    intrinsics: Intrinsics,
    vector: Vector,
}

fn fixture(elem: ScalarKind, c_elem: &str) -> Fixture {
    let mut module = Module::new();
    let mut ccontext = CContext::new();
    let intrinsics = Intrinsics::defaults(&mut module, &mut ccontext);
    let vector =
        Vector::define("vec0", Ty::Scalar(elem), c_elem.to_string(), &mut module, &mut ccontext);
    Fixture { module, ccontext, intrinsics, vector }
}

fn run_val() -> Val {
    Val::Atom(Atom::Run)
}

fn word(x: u64) -> Val {
    Val::Atom(Atom::Int(x))
}

fn vec_val(p: Ptr, len: u64) -> Val {
    Val::Record(Atom::Ptr(p), Atom::Int(len))
}

fn i64t() -> Ty {
    Ty::Scalar(ScalarKind::I64)
}

fn byte_pointer() -> Ty {
    Ty::Pointer(Box::new(Ty::Scalar(ScalarKind::I8)))
}

impl Fixture {
    fn new_fn(&mut self) -> FuncRef {
        let mut b = Builder::new();
        self.vector
            .gen_new(
                &mut b,
                &mut self.intrinsics,
                &mut self.module,
                &mut self.ccontext,
                Value::Param(0),
                Value::Param(1),
            )
            .unwrap();
        self.vector.new.unwrap()
    }

    fn clone_fn(&mut self) -> FuncRef {
        let mut b = Builder::new();
        self.vector
            .gen_clone(
                &mut b,
                &mut self.intrinsics,
                &mut self.module,
                &mut self.ccontext,
                Value::Param(0),
                Value::Param(1),
            )
            .unwrap();
        self.vector.clone.unwrap()
    }

    fn size_fn(&mut self) -> FuncRef {
        let mut b = Builder::new();
        self.vector
            .gen_size(&mut b, &mut self.module, &mut self.ccontext, Value::Param(0))
            .unwrap();
        self.vector.size.unwrap()
    }

    fn at_fn(&mut self) -> FuncRef {
        let mut b = Builder::new();
        self.vector
            .gen_at(&mut b, &mut self.module, &mut self.ccontext, Value::Param(0), Value::Param(1))
            .unwrap();
        self.vector.at.unwrap()
    }

    fn vat_fn(&mut self) -> FuncRef {
        let mut b = Builder::new();
        self.vector
            .gen_vat(&mut b, &mut self.module, &mut self.ccontext, Value::Param(0), Value::Param(1))
            .unwrap();
        self.vector.vat.unwrap()
    }

    fn slice_fn(&mut self) -> FuncRef {
        let mut b = Builder::new();
        self.vector
            .gen_slice(
                &mut b,
                &mut self.module,
                &mut self.ccontext,
                Value::Param(0),
                Value::Param(1),
                Value::Param(2),
            )
            .unwrap();
        self.vector.slice.unwrap()
    }

    fn extend_fn(&mut self) -> FuncRef {
        let mut b = Builder::new();
        self.vector
            .gen_extend(
                &mut b,
                &mut self.intrinsics,
                &mut self.module,
                &mut self.ccontext,
                Value::Param(0),
                Value::Param(1),
                Value::Param(2),
            )
            .unwrap();
        self.vector.extend.unwrap()
    }

    fn call(&self, f: FuncRef, args: Vec<Val>, ctx: &mut RunContext) -> Val {
        match run(&self.module, f, &args, ctx) {
            Outcome::Value(v) => v,
            other => panic!("routine did not return: {:?}", other),
        }
    }
}

#[test]
fn define_declares_the_record() {
    let f = fixture(ScalarKind::I32, "int32_t");
    assert_eq!(f.vector.name, "vec0");
    assert_eq!(f.vector.vector_ty, Ty::Record("vec0".to_string(), 16));
    assert_eq!(f.vector.elem_ty, Ty::Scalar(ScalarKind::I32));
    assert_eq!(f.vector.c_elem_ty, "int32_t");
    assert_eq!(f.vector.new, None);
    assert_eq!(f.vector.extend, None);
    assert_eq!(f.vector.c_at, "");
    assert_eq!(f.vector.c_new, "");
    assert_eq!(f.module.funcs.len(), 12);
    assert_eq!(f.module.records.len(), 1);
    assert_eq!(f.module.records[0].name, "vec0");
    assert_eq!(
        f.module.records[0].fields,
        vec![Ty::Pointer(Box::new(Ty::Scalar(ScalarKind::I32))), i64t()]
    );
    assert!(f.ccontext.prelude_code.result().ends_with(
        "typedef int32_t int32_tx4 __attribute__((vector_size(16)));\ntypedef struct {\n  int32_t* data;\n  uint64_t size;\n} vec0;\n"
    ));
    assert_eq!((POINTER_INDEX, SIZE_INDEX), (0, 1));
}

#[test]
fn routines_are_generated_once() {
    let mut f = fixture(ScalarKind::I32, "int32_t");
    let mut b = Builder::new();
    let v = f
        .vector
        .gen_new(
            &mut b,
            &mut f.intrinsics,
            &mut f.module,
            &mut f.ccontext,
            Value::Param(0),
            Value::Param(1),
        )
        .unwrap();
    assert_eq!(v, Value::Local(0));
    assert_eq!(f.module.funcs.len(), 13);
    assert_eq!(f.vector.new, Some(FuncRef(12)));
    let w = f
        .vector
        .gen_new(
            &mut b,
            &mut f.intrinsics,
            &mut f.module,
            &mut f.ccontext,
            Value::Param(0),
            Value::Const(ScalarKind::I64, 3),
        )
        .unwrap();
    assert_eq!(w, Value::Local(1));
    assert_eq!(f.module.funcs.len(), 13);
    assert_eq!(f.vector.new, Some(FuncRef(12)));
    assert_eq!(
        b.insts,
        vec![
            Inst::Call(FuncRef(12), vec![Value::Param(1), Value::Param(0)]),
            Inst::Call(FuncRef(12), vec![Value::Const(ScalarKind::I64, 3), Value::Param(0)]),
        ]
    );
    let s = f.vector.gen_size(&mut b, &mut f.module, &mut f.ccontext, v).unwrap();
    assert_eq!(s, Value::Local(2));
    assert_eq!(f.vector.size, Some(FuncRef(13)));
    f.vector.define_size(&mut f.module, &mut f.ccontext);
    assert_eq!(f.module.funcs.len(), 14);
    assert_eq!(b.insts[2], Inst::Call(FuncRef(13), vec![v]));
}

#[test]
fn new_is_an_allocation_and_a_record() {
    let mut f = fixture(ScalarKind::I32, "int32_t");
    let new = f.new_fn();
    let function: &Function = &f.module.funcs[new.0];
    assert_eq!(function.name, "vec0.new");
    assert_eq!(function.params, vec![i64t(), byte_pointer()]);
    assert_eq!(function.ret, Ty::Record("vec0".to_string(), 16));
    assert!(function.attrs.is_empty());
    assert_eq!(
        function.body,
        Some(vec![
            Inst::Mul(Value::Const(ScalarKind::I64, 4), Value::Param(0)),
            Inst::Call(FuncRef(3), vec![Value::Param(1), Value::Local(0)]),
            Inst::BitCast(Value::Local(1), Ty::Pointer(Box::new(Ty::Scalar(ScalarKind::I32)))),
            Inst::Undef(Ty::Record("vec0".to_string(), 16)),
            Inst::InsertValue(Value::Local(3), Value::Local(2), 0),
            Inst::InsertValue(Value::Local(4), Value::Param(0), 1),
            Inst::Ret(Value::Local(5)),
        ])
    );
}

#[test]
fn at_and_size_are_defined_in_both_forms() {
    let mut f = fixture(ScalarKind::F64, "double");
    let before = f.ccontext.prelude_code.result().len();
    f.vector.define_at(&mut f.module, &mut f.ccontext);
    let at = f.vector.at.unwrap();
    assert_eq!(f.vector.c_at, "vec0_at");
    assert_eq!(f.module.funcs[at.0].name, "vec0_at");
    assert_eq!(f.module.funcs[at.0].attrs, vec![(Place::Function, Attr::AlwaysInline)]);
    assert_eq!(f.module.funcs[at.0].ret, Ty::Pointer(Box::new(Ty::Scalar(ScalarKind::F64))));
    assert_eq!(
        f.module.funcs[at.0].body,
        Some(vec![
            Inst::ExtractValue(Value::Param(0), 0),
            Inst::Gep(Value::Local(0), Value::Param(1), Ty::Scalar(ScalarKind::F64)),
            Inst::Ret(Value::Local(1)),
        ])
    );
    assert_eq!(
        &f.ccontext.prelude_code.result()[before..],
        "static inline double* vec0_at(vec0* arg0, uint64_t arg1)\n{\n  return &arg0->data[arg1];\n}\n"
    );
    let before = f.ccontext.prelude_code.result().len();
    f.vector.define_at(&mut f.module, &mut f.ccontext);
    assert_eq!(f.ccontext.prelude_code.result().len(), before);

    f.vector.define_size(&mut f.module, &mut f.ccontext);
    let size = f.vector.size.unwrap();
    assert_eq!(f.vector.c_size, "vec0_size");
    assert_eq!(f.module.funcs[size.0].ret, Ty::Scalar(ScalarKind::U64));
    assert_eq!(
        f.module.funcs[size.0].body,
        Some(vec![Inst::ExtractValue(Value::Param(0), 1), Inst::Ret(Value::Local(0))])
    );
    assert_eq!(
        &f.ccontext.prelude_code.result()[before..],
        "static inline uint64_t vec0_size(vec0* arg0)\n{\n  return arg0->size;\n}\n"
    );
    assert_eq!(f.module.funcs.len(), 14);
}

#[test]
fn calls_in_source_text_name_the_routines() {
    let mut f = fixture(ScalarKind::I32, "int32_t");
    assert_eq!(f.vector.c_gen_at(&mut f.module, &mut f.ccontext, "v", "i + 1"), Ok("vec0_at(&v, i + 1)".to_string()));
    assert_eq!(f.vector.c_gen_size(&mut f.module, &mut f.ccontext, "v"), Ok("vec0_size(&v)".to_string()));
    assert!(f.vector.at.is_some());
    assert!(f.vector.size.is_some());
    assert_eq!(f.module.funcs.len(), 14);
    assert_eq!(f.vector.c_gen_at(&mut f.module, &mut f.ccontext, "w", "0"), Ok("vec0_at(&w, 0)".to_string()));
    assert_eq!(f.module.funcs.len(), 14);
}

#[test]
fn slice_and_extend_have_the_shape_described() {
    let mut f = fixture(ScalarKind::I16, "int16_t");
    let slice = f.slice_fn();
    assert_eq!(f.module.funcs[slice.0].name, "vec0.slice");
    let body = f.module.funcs[slice.0].body.as_ref().unwrap();
    assert_eq!(body.len(), 10);
    assert_eq!(body[1], Inst::Sub(Value::Local(0), Value::Param(1)));
    assert_eq!(body[2], Inst::Compare(IntPredicate::Ugt, Value::Param(2), Value::Local(1)));
    assert_eq!(body[3], Inst::Select(Value::Local(2), Value::Local(1), Value::Param(2)));
    let extend = f.extend_fn();
    assert_eq!(f.module.funcs[extend.0].name, "vec0.extend");
    let body = f.module.funcs[extend.0].body.as_ref().unwrap();
    assert_eq!(body.len(), 14);
    assert_eq!(body[1], Inst::Compare(IntPredicate::Sgt, Value::Param(1), Value::Local(0)));
    assert_eq!(body[2], Inst::CondBr(Value::Local(1), 3, 12));
    assert_eq!(body[4], Inst::NswMul(Value::Param(1), Value::Const(ScalarKind::I64, 2)));
    assert_eq!(
        body[6],
        Inst::Call(FuncRef(4), vec![Value::Param(2), Value::Local(5), Value::Local(4)])
    );
    assert_eq!(body[11], Inst::Br(12));
    assert_eq!(
        body[12],
        Inst::Phi(
            Ty::Record("vec0".to_string(), 16),
            Value::Param(0),
            2,
            Value::Local(10),
            11
        )
    );
    let vat = f.vat_fn();
    assert_eq!(f.module.funcs[vat.0].name, "vec0.vat");
    assert_eq!(
        f.module.funcs[vat.0].ret,
        Ty::Pointer(Box::new(Ty::Simd(ScalarKind::I16)))
    );
    let clone = f.clone_fn();
    assert_eq!(f.module.funcs[clone.0].name, "vec0.clone");
    assert_eq!(f.module.funcs[clone.0].body.as_ref().unwrap().len(), 11);
}

#[test]
fn size_of_new_is_the_size_asked_for() {
    let mut f = fixture(ScalarKind::I32, "int32_t");
    let new = f.new_fn();
    let size = f.size_fn();
    for n in [0u64, 1, 5, 1000] {
        let mut ctx = RunContext::init(1, 1_000_000);
        let v = f.call(new, vec![word(n), run_val()], &mut ctx);
        assert_eq!(f.call(size, vec![v], &mut ctx), word(n));
        assert_eq!(ctx.allocated(), 4 * n);
        assert_eq!(ctx.get_errno(), 0);
    }
}

#[test]
fn size_of_new_holds_even_when_memory_runs_out() {
    let mut f = fixture(ScalarKind::I64, "int64_t");
    let new = f.new_fn();
    let size = f.size_fn();
    let mut ctx = RunContext::init(1, 10);
    let v = f.call(new, vec![word(5), run_val()], &mut ctx);
    assert_eq!(v, vec_val(Ptr::Null, 5));
    assert_eq!(ctx.get_errno(), 7);
    assert_eq!(f.call(size, vec![v], &mut ctx), word(5));
    // The number of bytes wraps at 64 bits, the size does not change.
    let huge = 1u64 << 61;
    let mut ctx = RunContext::init(1, 10);
    let v = f.call(new, vec![word(huge), run_val()], &mut ctx);
    assert_eq!(v, vec_val(Ptr::Null, huge));
    assert_eq!(ctx.get_errno(), 0);
    assert_eq!(f.call(size, vec![v], &mut ctx), word(huge));
}

#[test]
fn new_allocates_exactly_the_elements() {
    let mut f = fixture(ScalarKind::I16, "int16_t");
    let new = f.new_fn();
    let mut ctx = RunContext::init(1, 100);
    let v = f.call(new, vec![word(7), run_val()], &mut ctx);
    assert_eq!(v, vec_val(Ptr::At(0, 0), 7));
    assert_eq!(ctx.allocated(), 14);
    assert!(ctx.in_bounds(Ptr::At(0, 0), 14));
    assert!(!ctx.in_bounds(Ptr::At(0, 0), 15));
}

#[test]
fn clone_copies_the_bytes_into_its_own_storage() {
    let mut f = fixture(ScalarKind::I32, "int32_t");
    let new = f.new_fn();
    let clone = f.clone_fn();
    let mut ctx = RunContext::init(1, 1000);
    let v = f.call(new, vec![word(3), run_val()], &mut ctx);
    let content: Vec<u8> = (1..=12).collect();
    assert!(ctx.write_bytes(Ptr::At(0, 0), &content));
    let c = f.call(clone, vec![v, run_val()], &mut ctx);
    assert_eq!(c, vec_val(Ptr::At(1, 0), 3));
    assert_eq!(ctx.read_bytes(Ptr::At(1, 0), 12), Some(content.clone()));
    assert_eq!(ctx.read_bytes(Ptr::At(0, 0), 12), Some(content.clone()));
    assert_eq!(ctx.allocated(), 24);
    // The clone does not follow later writes to the vector it was made from.
    assert!(ctx.write_bytes(Ptr::At(0, 0), &vec![0xff]));
    assert_eq!(ctx.read_bytes(Ptr::At(1, 0), 12), Some(content));
}

#[test]
fn clone_of_a_slice_copies_from_the_middle() {
    let mut f = fixture(ScalarKind::U8, "uint8_t");
    let clone = f.clone_fn();
    let mut ctx = RunContext::init(1, 1000);
    let p = ctx.malloc(6);
    assert!(ctx.write_bytes(p, &vec![10, 11, 12, 13, 14, 15]));
    let c = f.call(clone, vec![vec_val(Ptr::At(0, 2), 3), run_val()], &mut ctx);
    assert_eq!(c, vec_val(Ptr::At(1, 0), 3));
    assert_eq!(ctx.read_bytes(Ptr::At(1, 0), 3), Some(vec![12, 13, 14]));
}

#[test]
fn clone_of_an_empty_vector_is_empty() {
    let mut f = fixture(ScalarKind::I32, "int32_t");
    let clone = f.clone_fn();
    let mut ctx = RunContext::init(1, 1000);
    let c = f.call(clone, vec![vec_val(Ptr::Null, 0), run_val()], &mut ctx);
    assert_eq!(c, vec_val(Ptr::Null, 0));
    assert_eq!(ctx.allocated(), 0);
}

#[test]
fn clone_has_no_meaning_without_memory_or_elements() {
    let mut f = fixture(ScalarKind::I32, "int32_t");
    let clone = f.clone_fn();
    let mut ctx = RunContext::init(1, 4);
    let p = ctx.malloc(4);
    // The run does not grant a second allocation, so there is nowhere to copy to.
    let out = run(&f.module, clone, &vec![vec_val(p, 1), run_val()], &mut ctx);
    assert_eq!(out, Outcome::Stuck);
    assert_eq!(ctx.get_errno(), 7);
    // The vector claims more elements than its allocation holds.
    let mut ctx = RunContext::init(1, 100);
    let p = ctx.malloc(4);
    let out = run(&f.module, clone, &vec![vec_val(p, 2), run_val()], &mut ctx);
    assert_eq!(out, Outcome::Stuck);
}

#[test]
fn at_advances_the_pointer_by_whole_elements() {
    let mut f = fixture(ScalarKind::I32, "int32_t");
    let at = f.at_fn();
    let vat = f.vat_fn();
    let mut ctx = RunContext::init(1, 100);
    let v = vec_val(Ptr::At(5, 8), 10);
    assert_eq!(f.call(at, vec![v, word(0)], &mut ctx), Val::Atom(Atom::Ptr(Ptr::At(5, 8))));
    assert_eq!(f.call(at, vec![v, word(3)], &mut ctx), Val::Atom(Atom::Ptr(Ptr::At(5, 20))));
    // No bounds are checked.
    assert_eq!(f.call(at, vec![v, word(100)], &mut ctx), Val::Atom(Atom::Ptr(Ptr::At(5, 408))));
    assert_eq!(f.call(vat, vec![v, word(3)], &mut ctx), Val::Atom(Atom::Ptr(Ptr::At(5, 20))));
    assert_eq!(
        f.call(at, vec![vec_val(Ptr::Null, 0), word(3)], &mut ctx),
        Val::Atom(Atom::Ptr(Ptr::Null))
    );
    // A negative index moves the pointer back.
    assert_eq!(
        f.call(at, vec![v, word(u64::MAX)], &mut ctx),
        Val::Atom(Atom::Ptr(Ptr::At(5, 4)))
    );
}

#[test]
fn slice_is_clamped_to_the_end_of_the_vector() {
    let mut f = fixture(ScalarKind::I64, "int64_t");
    let slice = f.slice_fn();
    let mut ctx = RunContext::init(1, 100);
    let v = vec_val(Ptr::At(0, 0), 10);
    let cases = [
        (0u64, 10u64, 10u64),
        (0, 4, 4),
        (2, 3, 3),
        (2, 8, 8),
        (2, 9, 8),
        (2, 100, 8),
        (10, 5, 0),
        (10, 0, 0),
        (9, 1, 1),
        (9, 2, 1),
        (3, 0, 0),
    ];
    for (index, size, expected) in cases {
        let s = f.call(slice, vec![v, word(index), word(size)], &mut ctx);
        assert_eq!(s, vec_val(Ptr::At(0, 8 * index), expected), "slice({}, {})", index, size);
    }
    assert_eq!(ctx.allocated(), 0);
}

#[test]
fn extend_within_the_size_returns_the_vector() {
    let mut f = fixture(ScalarKind::I32, "int32_t");
    let new = f.new_fn();
    let extend = f.extend_fn();
    let mut ctx = RunContext::init(1, 1000);
    let v = f.call(new, vec![word(5), run_val()], &mut ctx);
    for s in [0u64, 3, 5] {
        assert_eq!(f.call(extend, vec![v, word(s), run_val()], &mut ctx), v);
        assert_eq!(ctx.allocated(), 20);
        assert!(ctx.owns(Ptr::At(0, 0)));
    }
}

#[test]
fn extend_beyond_the_size_reallocates_and_keeps_the_elements() {
    let mut f = fixture(ScalarKind::I32, "int32_t");
    let new = f.new_fn();
    let extend = f.extend_fn();
    let mut ctx = RunContext::init(1, 1000);
    let v = f.call(new, vec![word(2), run_val()], &mut ctx);
    let content = vec![1u8, 2, 3, 4, 5, 6, 7, 8];
    assert!(ctx.write_bytes(Ptr::At(0, 0), &content));
    let w = f.call(extend, vec![v, word(4), run_val()], &mut ctx);
    assert_eq!(w, vec_val(Ptr::At(1, 0), 4));
    assert_eq!(ctx.allocated(), 16);
    assert_eq!(ctx.read_bytes(Ptr::At(1, 0), 8), Some(content));
    assert!(ctx.in_bounds(Ptr::At(1, 0), 16));
    assert!(!ctx.in_bounds(Ptr::At(1, 0), 17));
    assert!(!ctx.owns(Ptr::At(0, 0)));
}

#[test]
fn extend_of_an_empty_vector_allocates() {
    let mut f = fixture(ScalarKind::U8, "uint8_t");
    let extend = f.extend_fn();
    let mut ctx = RunContext::init(1, 1000);
    let w = f.call(extend, vec![vec_val(Ptr::Null, 0), word(9), run_val()], &mut ctx);
    assert_eq!(w, vec_val(Ptr::At(0, 0), 9));
    assert_eq!(ctx.allocated(), 9);
}

#[test]
fn extend_compares_sizes_as_signed_numbers() {
    let mut f = fixture(ScalarKind::U8, "uint8_t");
    let extend = f.extend_fn();
    let mut ctx = RunContext::init(1, 1000);
    let p = ctx.malloc(4);
    let v = vec_val(p, 4);
    // A requested size with the top bit set is negative, and so not larger.
    let w = f.call(extend, vec![v, word(u64::MAX), run_val()], &mut ctx);
    assert_eq!(w, v);
    assert_eq!(ctx.allocated(), 4);
}

#[test]
fn extend_has_no_meaning_for_an_overflowing_size_or_a_foreign_pointer() {
    let mut f = fixture(ScalarKind::I64, "int64_t");
    let extend = f.extend_fn();
    let mut ctx = RunContext::init(1, 1000);
    let p = ctx.malloc(8);
    let out = run(&f.module, extend, &vec![vec_val(p, 1), word(1 << 60), run_val()], &mut ctx);
    assert_eq!(out, Outcome::Stuck);
    assert_eq!(ctx.allocated(), 8);
    // A slice does not own its storage.
    let out = run(&f.module, extend, &vec![vec_val(Ptr::At(0, 4), 0), word(3), run_val()], &mut ctx);
    assert_eq!(out, Outcome::Stuck);
    assert!(ctx.owns(p));
}

#[test]
fn extend_beyond_the_limit_reports_out_of_memory() {
    let mut f = fixture(ScalarKind::I32, "int32_t");
    let new = f.new_fn();
    let extend = f.extend_fn();
    let mut ctx = RunContext::init(1, 20);
    let v = f.call(new, vec![word(5), run_val()], &mut ctx);
    let w = f.call(extend, vec![v, word(6), run_val()], &mut ctx);
    assert_eq!(w, vec_val(Ptr::Null, 6));
    assert_eq!(ctx.get_errno(), 7);
    assert!(ctx.owns(Ptr::At(0, 0)));
}

#[test]
fn new_then_extend_end_to_end() {
    let mut f = fixture(ScalarKind::I32, "int32_t");
    let new = f.new_fn();
    let extend = f.extend_fn();
    let size = f.size_fn();
    let mut ctx = RunContext::init(1, 1000);
    let v = f.call(new, vec![word(5), run_val()], &mut ctx);
    let elements: Vec<u8> = (100..120).collect();
    assert!(ctx.write_bytes(Ptr::At(0, 0), &elements));

    let v = f.call(extend, vec![v, word(3), run_val()], &mut ctx);
    assert_eq!(f.call(size, vec![v], &mut ctx), word(5));
    assert_eq!(v, vec_val(Ptr::At(0, 0), 5));

    let v = f.call(extend, vec![v, word(8), run_val()], &mut ctx);
    assert_eq!(f.call(size, vec![v], &mut ctx), word(8));
    let p = match v {
        Val::Record(Atom::Ptr(p), _) => p,
        other => panic!("not a vector: {:?}", other),
    };
    assert_eq!(ctx.read_bytes(p, 20), Some(elements));
    assert!(ctx.in_bounds(p, 32));
    assert!(!ctx.in_bounds(p, 33));
    assert_eq!(ctx.allocated(), 32);
}

#[test]
fn generated_calls_run_inside_an_enclosing_routine() {
    let mut f = fixture(ScalarKind::I32, "int32_t");
    let mut b = Builder::new();
    let run_handle = Value::Param(0);
    let five = Value::Const(ScalarKind::I64, 5);
    let three = Value::Const(ScalarKind::I64, 3);
    let eight = Value::Const(ScalarKind::I64, 8);
    let v = f
        .vector
        .gen_new(&mut b, &mut f.intrinsics, &mut f.module, &mut f.ccontext, run_handle, five)
        .unwrap();
    let v = f
        .vector
        .gen_extend(&mut b, &mut f.intrinsics, &mut f.module, &mut f.ccontext, run_handle, v, three)
        .unwrap();
    let s1 = f.vector.gen_size(&mut b, &mut f.module, &mut f.ccontext, v).unwrap();
    let v = f
        .vector
        .gen_extend(&mut b, &mut f.intrinsics, &mut f.module, &mut f.ccontext, run_handle, v, eight)
        .unwrap();
    let s2 = f.vector.gen_size(&mut b, &mut f.module, &mut f.ccontext, v).unwrap();
    let sum = b.push(Inst::Mul(s1, s2));
    b.push(Inst::Ret(sum));
    let main = f.module.add_function(Function {
        name: "main".to_string(),
        params: vec![byte_pointer()],
        ret: i64t(),
        attrs: vec![],
        body: Some(b.insts),
    });
    let mut ctx = RunContext::init(1, 1000);
    assert_eq!(f.call(main, vec![run_val()], &mut ctx), word(40));
    assert_eq!(ctx.allocated(), 32);
}

#[test]
fn vat_needs_scalar_elements() {
    let mut module = Module::new();
    let mut ccontext = CContext::new();
    let mut vector = Vector::define(
        "vec0",
        Ty::Simd(ScalarKind::I32),
        "int32_tx4".to_string(),
        &mut module,
        &mut ccontext,
    );
    let mut b = Builder::new();
    let prelude = ccontext.prelude_code.result().to_string();
    // Only a vector of scalars comes with the type of a pack of its elements.
    assert_eq!(prelude, "typedef struct {\n  int32_tx4* data;\n  uint64_t size;\n} vec0;\n");
    assert_eq!(
        vector.gen_vat(&mut b, &mut module, &mut ccontext, Value::Param(0), Value::Param(1)),
        Err(WeldError::NotNumeric)
    );
    assert_eq!(vector.vat, None);
    assert_eq!(vector.c_vat, "");
    assert!(module.funcs.is_empty());
    assert!(b.insts.is_empty());
    assert_eq!(ccontext.prelude_code.result(), prelude);
    // The other routines do not depend on the kind of the elements.
    assert_eq!(
        vector.gen_at(&mut b, &mut module, &mut ccontext, Value::Param(0), Value::Param(1)),
        Ok(Value::Local(0))
    );
    assert_eq!(
        module.funcs[0].body.as_ref().unwrap()[1],
        Inst::Gep(Value::Local(0), Value::Param(1), Ty::Simd(ScalarKind::I32))
    );
}

#[test]
fn sizes_of_types() {
    assert_eq!(Ty::Void.size(), 0);
    assert_eq!(Ty::Scalar(ScalarKind::Bool).size(), 1);
    assert_eq!(Ty::Scalar(ScalarKind::I8).size(), 1);
    assert_eq!(Ty::Scalar(ScalarKind::U16).size(), 2);
    assert_eq!(Ty::Scalar(ScalarKind::F32).size(), 4);
    assert_eq!(Ty::Scalar(ScalarKind::I64).size(), 8);
    assert_eq!(Ty::Simd(ScalarKind::U8).size(), 4);
    assert_eq!(Ty::Simd(ScalarKind::F64).size(), 32);
    assert_eq!(Ty::Pointer(Box::new(Ty::Void)).size(), 8);
    assert_eq!(Ty::Record("r".to_string(), 24).size(), 24);
    let nested = Ty::Pointer(Box::new(Ty::Record("r".to_string(), 24)));
    assert_eq!(nested.duplicate(), nested);
    assert_eq!(Ty::Scalar(ScalarKind::I8).pointer(), Ty::Pointer(Box::new(Ty::Scalar(ScalarKind::I8))));
}

#[test]
fn vectors_of_records_advance_by_the_record() {
    let mut module = Module::new();
    let mut ccontext = CContext::new();
    let intrinsics = Intrinsics::defaults(&mut module, &mut ccontext);
    let vector = Vector::define(
        "vec1",
        Ty::Record("vec0".to_string(), 16),
        "vec0".to_string(),
        &mut module,
        &mut ccontext,
    );
    let mut f = Fixture { module, ccontext, intrinsics, vector };
    let new = f.new_fn();
    let at = f.at_fn();
    let mut ctx = RunContext::init(1, 1000);
    let v = f.call(new, vec![word(3), run_val()], &mut ctx);
    assert_eq!(ctx.allocated(), 48);
    assert_eq!(f.call(at, vec![v, word(2)], &mut ctx), Val::Atom(Atom::Ptr(Ptr::At(0, 32))));
}

#[test]
fn every_routine_is_defined_in_source_text_once() {
    let mut f = fixture(ScalarKind::I32, "int32_t");
    let start = f.ccontext.prelude_code.result().len();
    f.new_fn();
    assert_eq!(f.vector.c_new, "vec0_new");
    assert_eq!(
        &f.ccontext.prelude_code.result()[start..],
        "vec0 vec0_new(int64_t arg0, WeldRuntimeContextRef arg1)\n{\n  vec0 result;\n  result.data = (int32_t*)weld_runst_malloc(arg1, (int64_t)sizeof(int32_t) * arg0);\n  result.size = arg0;\n  return result;\n}\n"
    );
    let start = f.ccontext.prelude_code.result().len();
    f.new_fn();
    assert_eq!(f.ccontext.prelude_code.result().len(), start);

    f.clone_fn();
    assert_eq!(f.vector.c_clone, "vec0_clone");
    assert_eq!(
        &f.ccontext.prelude_code.result()[start..],
        "vec0 vec0_clone(vec0 arg0, WeldRuntimeContextRef arg1)\n{\n  vec0 result;\n  result.data = (int32_t*)weld_runst_malloc(arg1, (int64_t)sizeof(int32_t) * (int64_t)arg0.size);\n  memcpy(result.data, arg0.data, (int64_t)sizeof(int32_t) * (int64_t)arg0.size);\n  result.size = arg0.size;\n  return result;\n}\n"
    );
    let start = f.ccontext.prelude_code.result().len();
    f.vat_fn();
    assert_eq!(f.vector.c_vat, "vec0_vat");
    assert_eq!(
        &f.ccontext.prelude_code.result()[start..],
        "static inline int32_tx4* vec0_vat(vec0 arg0, int64_t arg1)\n{\n  return (int32_tx4*)&arg0.data[arg1];\n}\n"
    );
    let start = f.ccontext.prelude_code.result().len();
    f.slice_fn();
    assert_eq!(f.vector.c_slice, "vec0_slice");
    assert_eq!(
        &f.ccontext.prelude_code.result()[start..],
        "vec0 vec0_slice(vec0 arg0, int64_t arg1, int64_t arg2)\n{\n  vec0 result;\n  uint64_t remaining = arg0.size - (uint64_t)arg1;\n  result.data = &arg0.data[arg1];\n  result.size = (uint64_t)arg2 > remaining ? remaining : (uint64_t)arg2;\n  return result;\n}\n"
    );
    let start = f.ccontext.prelude_code.result().len();
    f.extend_fn();
    assert_eq!(f.vector.c_extend, "vec0_extend");
    assert_eq!(
        &f.ccontext.prelude_code.result()[start..],
        "vec0 vec0_extend(vec0 arg0, int64_t arg1, WeldRuntimeContextRef arg2)\n{\n  if (arg1 <= (int64_t)arg0.size) return arg0;\n  vec0 result;\n  result.data = (int32_t*)weld_runst_realloc(arg2, arg0.data, (int64_t)sizeof(int32_t) * arg1);\n  result.size = arg1;\n  return result;\n}\n"
    );
    let end = f.ccontext.prelude_code.result().len();
    f.extend_fn();
    f.slice_fn();
    f.clone_fn();
    f.vat_fn();
    assert_eq!(f.ccontext.prelude_code.result().len(), end);
    assert_eq!(f.ccontext.body_code.result(), "");
    assert_eq!(f.module.funcs.len(), 17);
}
