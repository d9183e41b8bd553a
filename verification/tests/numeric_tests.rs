use weld::error::WeldError;
use weld::ir::Builder;
use weld::ir::Inst;
use weld::ir::Value;
use weld::kinds::BinOpKind;
use weld::kinds::ScalarKind;
use weld::kinds::Type;
use weld::numeric::apply_binop;
use weld::numeric::binop_identity;
use weld::numeric::gen_binop;
use weld::text::concat2;
use weld::text::concat3;
use weld::text::decimal;

#[test]
fn scalar_kinds_have_fixed_widths() {
    assert_eq!(ScalarKind::Bool.bits(), 1);
    assert_eq!(ScalarKind::I8.bits(), 8);
    assert_eq!(ScalarKind::U16.bits(), 16);
    assert_eq!(ScalarKind::F32.bits(), 32);
    assert_eq!(ScalarKind::U64.bits(), 64);
    assert!(ScalarKind::I32.is_signed());
    assert!(!ScalarKind::U32.is_signed());
    assert!(ScalarKind::F64.is_float());
    assert!(ScalarKind::U8.is_integer());
    assert!(!ScalarKind::Bool.is_integer());
    assert!(!ScalarKind::F32.is_integer());
}

#[test]
fn addition_wraps_at_the_width() {
    assert_eq!(apply_binop(BinOpKind::Add, ScalarKind::U8, 250, 10), Some(4));
    assert_eq!(apply_binop(BinOpKind::Add, ScalarKind::I32, 1, 2), Some(3));
    assert_eq!(apply_binop(BinOpKind::Add, ScalarKind::U64, u64::MAX, 2), Some(1));
    assert_eq!(apply_binop(BinOpKind::Add, ScalarKind::I8, 0x1ff, 1), Some(0));
}

#[test]
fn subtraction_wraps_at_the_width() {
    assert_eq!(apply_binop(BinOpKind::Subtract, ScalarKind::U8, 3, 5), Some(254));
    assert_eq!(apply_binop(BinOpKind::Subtract, ScalarKind::I64, 0, 1), Some(u64::MAX));
    assert_eq!(apply_binop(BinOpKind::Subtract, ScalarKind::U16, 9, 4), Some(5));
}

#[test]
fn multiplication_wraps_at_the_width() {
    assert_eq!(apply_binop(BinOpKind::Multiply, ScalarKind::U8, 16, 17), Some(16));
    assert_eq!(apply_binop(BinOpKind::Multiply, ScalarKind::I32, 6, 7), Some(42));
    assert_eq!(
        apply_binop(BinOpKind::Multiply, ScalarKind::U64, u64::MAX, u64::MAX),
        Some(1)
    );
}

#[test]
fn maximum_and_minimum_respect_the_sign() {
    // 0xff is -1 as a signed byte and 255 as an unsigned one.
    assert_eq!(apply_binop(BinOpKind::Max, ScalarKind::I8, 0xff, 1), Some(1));
    assert_eq!(apply_binop(BinOpKind::Max, ScalarKind::U8, 0xff, 1), Some(0xff));
    assert_eq!(apply_binop(BinOpKind::Min, ScalarKind::I8, 0xff, 1), Some(0xff));
    assert_eq!(apply_binop(BinOpKind::Min, ScalarKind::U8, 0xff, 1), Some(1));
    assert_eq!(
        apply_binop(BinOpKind::Max, ScalarKind::I64, 0x8000_0000_0000_0000, 0),
        Some(0)
    );
}

#[test]
fn machine_gives_other_operators_and_kinds_no_meaning() {
    assert_eq!(apply_binop(BinOpKind::Divide, ScalarKind::I32, 6, 3), None);
    assert_eq!(apply_binop(BinOpKind::Equal, ScalarKind::I32, 6, 3), None);
    assert_eq!(apply_binop(BinOpKind::Add, ScalarKind::F32, 0, 0), None);
    assert_eq!(apply_binop(BinOpKind::Add, ScalarKind::Bool, 0, 1), None);
}

#[test]
fn identity_is_neutral() {
    let ops = [BinOpKind::Add, BinOpKind::Multiply, BinOpKind::Max, BinOpKind::Min];
    let kinds = [
        ScalarKind::I8,
        ScalarKind::I16,
        ScalarKind::I32,
        ScalarKind::I64,
        ScalarKind::U8,
        ScalarKind::U16,
        ScalarKind::U32,
        ScalarKind::U64,
    ];
    for op in ops.iter() {
        for kind in kinds.iter() {
            let e = match binop_identity(*op, *kind) {
                Ok(Value::Const(k, bits)) => {
                    assert_eq!(k, *kind);
                    bits
                }
                other => panic!("no identity: {:?}", other),
            };
            for x in [0u64, 1, 5, 0x7f, 0x80, 0xff, 0xffff_ffff, u64::MAX] {
                let low = if kind.bits() == 64 { x } else { x % (1u64 << kind.bits()) };
                assert_eq!(apply_binop(*op, *kind, e, x), Some(low));
                assert_eq!(apply_binop(*op, *kind, x, e), Some(low));
            }
        }
    }
}

#[test]
fn identity_constants() {
    assert_eq!(
        binop_identity(BinOpKind::Add, ScalarKind::I32),
        Ok(Value::Const(ScalarKind::I32, 0))
    );
    assert_eq!(
        binop_identity(BinOpKind::Multiply, ScalarKind::U8),
        Ok(Value::Const(ScalarKind::U8, 1))
    );
    assert_eq!(
        binop_identity(BinOpKind::Max, ScalarKind::I16),
        Ok(Value::Const(ScalarKind::I16, 0x8000))
    );
    assert_eq!(
        binop_identity(BinOpKind::Min, ScalarKind::I16),
        Ok(Value::Const(ScalarKind::I16, 0x7fff))
    );
    assert_eq!(
        binop_identity(BinOpKind::Max, ScalarKind::U32),
        Ok(Value::Const(ScalarKind::U32, 0))
    );
    assert_eq!(
        binop_identity(BinOpKind::Min, ScalarKind::U64),
        Ok(Value::Const(ScalarKind::U64, u64::MAX))
    );
    assert_eq!(
        binop_identity(BinOpKind::Multiply, ScalarKind::F32),
        Ok(Value::Const(ScalarKind::F32, 1.0f32.to_bits() as u64))
    );
    assert_eq!(
        binop_identity(BinOpKind::Multiply, ScalarKind::F64),
        Ok(Value::Const(ScalarKind::F64, 1.0f64.to_bits()))
    );
    assert_eq!(
        binop_identity(BinOpKind::Max, ScalarKind::F32),
        Ok(Value::Const(ScalarKind::F32, f32::MIN.to_bits() as u64))
    );
    assert_eq!(
        binop_identity(BinOpKind::Min, ScalarKind::F64),
        Ok(Value::Const(ScalarKind::F64, f64::MAX.to_bits()))
    );
    assert_eq!(
        binop_identity(BinOpKind::Add, ScalarKind::F64),
        Ok(Value::Const(ScalarKind::F64, 0.0f64.to_bits()))
    );
}

#[test]
fn operators_without_identity_are_errors() {
    assert_eq!(
        binop_identity(BinOpKind::Subtract, ScalarKind::I32),
        Err(WeldError::NoIdentity(BinOpKind::Subtract, ScalarKind::I32))
    );
    assert_eq!(
        binop_identity(BinOpKind::Add, ScalarKind::Bool),
        Err(WeldError::NoIdentity(BinOpKind::Add, ScalarKind::Bool))
    );
    assert_eq!(
        binop_identity(BinOpKind::Pow, ScalarKind::F32),
        Err(WeldError::NoIdentity(BinOpKind::Pow, ScalarKind::F32))
    );
}

#[test]
fn gen_binop_appends_one_operation() {
    let mut b = Builder::new();
    let r = gen_binop(
        &mut b,
        BinOpKind::Add,
        Value::Param(0),
        Value::Param(1),
        &Type::Simd(ScalarKind::F32),
    );
    assert_eq!(r, Ok(Value::Local(0)));
    assert_eq!(
        b.insts,
        vec![Inst::BinOp(BinOpKind::Add, ScalarKind::F32, Value::Param(0), Value::Param(1))]
    );
    let r = gen_binop(
        &mut b,
        BinOpKind::Min,
        Value::Local(0),
        Value::Param(1),
        &Type::Scalar(ScalarKind::U8),
    );
    assert_eq!(r, Ok(Value::Local(1)));
    assert_eq!(b.insts.len(), 2);
}

#[test]
fn gen_binop_rejects_what_cannot_be_applied() {
    let mut b = Builder::new();
    assert_eq!(
        gen_binop(
            &mut b,
            BinOpKind::Equal,
            Value::Param(0),
            Value::Param(1),
            &Type::Scalar(ScalarKind::I32)
        ),
        Err(WeldError::UnsupportedOperator(BinOpKind::Equal, ScalarKind::I32))
    );
    assert_eq!(
        gen_binop(
            &mut b,
            BinOpKind::Add,
            Value::Param(0),
            Value::Param(1),
            &Type::Scalar(ScalarKind::Bool)
        ),
        Err(WeldError::UnsupportedOperator(BinOpKind::Add, ScalarKind::Bool))
    );
    assert_eq!(
        gen_binop(
            &mut b,
            BinOpKind::Add,
            Value::Param(0),
            Value::Param(1),
            &Type::Vector(Box::new(Type::Scalar(ScalarKind::I32)))
        ),
        Err(WeldError::NotNumeric)
    );
    assert!(b.insts.is_empty());
}

#[test]
fn errors_have_messages() {
    assert_eq!(
        WeldError::NoIdentity(BinOpKind::Subtract, ScalarKind::I32).message(),
        "operator has no identity at this kind"
    );
    assert_eq!(
        WeldError::UnsupportedOperator(BinOpKind::Equal, ScalarKind::I32).message(),
        "operator is not supported at this kind"
    );
    assert_eq!(WeldError::NotNumeric.message(), "type is not numeric");
}

#[test]
fn decimal_numerals() {
    assert_eq!(decimal(0), "0");
    assert_eq!(decimal(7), "7");
    assert_eq!(decimal(10), "10");
    assert_eq!(decimal(12345), "12345");
    assert_eq!(decimal(u64::MAX), "18446744073709551615");
}

#[test]
fn texts_are_joined_in_order() {
    assert_eq!(concat2("ab", "cd"), "abcd");
    assert_eq!(concat3("a", "", "c"), "ac");
}

#[test]
fn types_are_compared_by_structure() {
    let a = Type::Vector(Box::new(Type::Scalar(ScalarKind::I32)));
    let b = Type::Vector(Box::new(Type::Scalar(ScalarKind::I32)));
    let c = Type::Vector(Box::new(Type::Scalar(ScalarKind::U32)));
    assert!(a.same(&b));
    assert!(!a.same(&c));
    assert!(!a.same(&Type::Scalar(ScalarKind::I32)));
    assert!(Type::Simd(ScalarKind::F32).same(&Type::Simd(ScalarKind::F32)));
    assert_eq!(c.duplicate(), c);
}
