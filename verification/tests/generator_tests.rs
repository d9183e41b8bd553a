use weld::error::WeldError;
use weld::context::c_scalar_type;
use weld::generator::CGenerator;
use weld::generator::VectorExt;
use weld::ir::Builder;
use weld::ir::FuncRef;
use weld::ir::Inst;
use weld::ir::Ty;
use weld::ir::Value;
use weld::kinds::ScalarKind;
use weld::kinds::Type;

fn vector_of(elem: Type) -> Type {
    Type::Vector(Box::new(elem))
}

#[test]
fn generator_starts_with_the_default_intrinsics() {
    let g = CGenerator::new();
    assert_eq!(g.module.funcs.len(), 12);
    assert!(g.vectors.is_empty());
    assert_eq!(g.intrinsics.get("weld_runst_malloc"), Some(FuncRef(3)));
    assert_eq!(g.find(&Type::Scalar(ScalarKind::I32)), None);
}

#[test]
fn vector_types_are_instantiated_once_per_element_type() {
    let mut g = CGenerator::new();
    let i32t = Type::Scalar(ScalarKind::I32);
    assert_eq!(g.instantiate(&i32t), 0);
    assert_eq!(g.instantiate(&Type::Scalar(ScalarKind::F64)), 1);
    assert_eq!(g.instantiate(&i32t), 0);
    assert_eq!(g.instantiate(&Type::Simd(ScalarKind::I32)), 2);
    assert_eq!(g.vectors.len(), 3);
    assert_eq!(g.find(&i32t), Some(0));
    assert_eq!(g.vectors[0].1.name, "vec0");
    assert_eq!(g.vectors[0].1.elem_ty, Ty::Scalar(ScalarKind::I32));
    assert_eq!(g.vectors[0].1.c_elem_ty, "int32_t");
    assert_eq!(g.vectors[1].1.name, "vec1");
    assert_eq!(g.vectors[1].1.c_elem_ty, "double");
    assert!(g.ccontext.prelude_code.result().contains(
        "typedef double doublex4 __attribute__((vector_size(32)));\ntypedef struct {\n  double* data;\n  uint64_t size;\n} vec1;\n"
    ));
    assert_eq!(g.vectors[2].1.elem_ty, Ty::Simd(ScalarKind::I32));
    assert_eq!(g.vectors[2].1.c_elem_ty, "int32_tx4");
    assert_eq!(g.module.records.len(), 3);
    assert_eq!(g.module.funcs.len(), 12);
}

#[test]
fn vectors_of_vectors_come_after_their_elements() {
    let mut g = CGenerator::new();
    let inner = vector_of(Type::Scalar(ScalarKind::U8));
    let outer = vector_of(vector_of(Type::Scalar(ScalarKind::U8)));
    assert_eq!(g.instantiate(&outer), 2);
    assert_eq!(g.find(&Type::Scalar(ScalarKind::U8)), Some(0));
    assert_eq!(g.find(&inner), Some(1));
    assert_eq!(g.find(&outer), Some(2));
    assert_eq!(g.vectors[1].1.elem_ty, Ty::Record("vec0".to_string(), 16));
    assert_eq!(g.vectors[1].1.c_elem_ty, "vec0");
    assert_eq!(g.vectors[2].1.elem_ty, Ty::Record("vec1".to_string(), 16));
    assert_eq!(g.vectors[2].1.vector_ty, Ty::Record("vec2".to_string(), 16));
    assert!(g
        .ccontext
        .prelude_code
        .result()
        .ends_with("typedef struct {\n  vec1* data;\n  uint64_t size;\n} vec2;\n"));
}

#[test]
fn scalar_names_in_source_text() {
    assert_eq!(c_scalar_type(ScalarKind::Bool), "bool");
    assert_eq!(c_scalar_type(ScalarKind::I8), "int8_t");
    assert_eq!(c_scalar_type(ScalarKind::U64), "uint64_t");
    assert_eq!(c_scalar_type(ScalarKind::F32), "float");
    assert_eq!(c_scalar_type(ScalarKind::F64), "double");
}

#[test]
fn methods_are_found_by_the_vector_type() {
    let mut g = CGenerator::new();
    g.instantiate(&Type::Scalar(ScalarKind::I32));
    g.instantiate(&Type::Scalar(ScalarKind::I64));
    let v32 = vector_of(Type::Scalar(ScalarKind::I32));
    let v64 = vector_of(Type::Scalar(ScalarKind::I64));
    let mut b = Builder::new();
    let (run, n) = (Value::Param(0), Value::Param(1));
    let a = g.gen_new(&mut b, &v64, n, run).unwrap();
    let c = g.gen_clone(&mut b, &v64, a, run).unwrap();
    let e = g.gen_extend(&mut b, &v64, c, n, run).unwrap();
    let s = g.gen_size(&mut b, &v64, e).unwrap();
    let p = g.gen_at(&mut b, &v64, e, s).unwrap();
    let q = g.gen_vat(&mut b, &v64, e, s).unwrap();
    let z = g.gen_new(&mut b, &v32, n, run).unwrap();
    let t = g.gen_size(&mut b, &v32, z).unwrap();
    assert_eq!((p, q, t), (Value::Local(4), Value::Local(5), Value::Local(7)));
    assert_eq!(
        b.insts,
        vec![
            Inst::Call(FuncRef(12), vec![n, run]),
            Inst::Call(FuncRef(13), vec![a, run]),
            Inst::Call(FuncRef(14), vec![c, n, run]),
            Inst::Call(FuncRef(15), vec![e]),
            Inst::Call(FuncRef(16), vec![e, s]),
            Inst::Call(FuncRef(17), vec![e, s]),
            Inst::Call(FuncRef(18), vec![n, run]),
            Inst::Call(FuncRef(19), vec![z]),
        ]
    );
    assert_eq!(g.module.funcs[12].name, "vec1.new");
    assert_eq!(g.module.funcs[15].name, "vec1_size");
    assert_eq!(g.module.funcs[18].name, "vec0.new");
    assert_eq!(g.module.funcs[19].name, "vec0_size");
    assert_eq!(g.c_gen_size(&v32, "x"), Ok("vec0_size(&x)".to_string()));
    assert_eq!(g.c_gen_at(&v64, "x", "3"), Ok("vec1_at(&x, 3)".to_string()));
    assert_eq!(g.c_gen_at(&v32, "y", "i"), Ok("vec0_at(&y, i)".to_string()));
    assert_eq!(g.module.funcs.len(), 21);
}

#[test]
fn vat_through_the_generator_needs_scalar_elements() {
    let mut g = CGenerator::new();
    g.instantiate(&Type::Simd(ScalarKind::F32));
    g.instantiate(&Type::Scalar(ScalarKind::F32));
    let mut b = Builder::new();
    let packed = vector_of(Type::Simd(ScalarKind::F32));
    let plain = vector_of(Type::Scalar(ScalarKind::F32));
    assert_eq!(
        g.gen_vat(&mut b, &packed, Value::Param(0), Value::Param(1)),
        Err(WeldError::NotNumeric)
    );
    assert!(b.insts.is_empty());
    assert_eq!(g.module.funcs.len(), 12);
    assert_eq!(g.gen_vat(&mut b, &plain, Value::Param(0), Value::Param(1)), Ok(Value::Local(0)));
    assert_eq!(g.module.funcs[12].name, "vec1.vat");
    assert_eq!(
        g.module.funcs[12].ret,
        Ty::Pointer(Box::new(Ty::Simd(ScalarKind::F32)))
    );
}
