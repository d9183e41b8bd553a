//! The one implementation of the binary operators that scalar and SIMD code
//! share: what an operator computes on bit patterns, which value is neutral
//! for it, and the operation that applies it in generated code.

use vstd::prelude::*;
use crate::kinds::BinOpKind;
use crate::kinds::ScalarKind;
use crate::kinds::Type;
use crate::error::WeldError;
use crate::ir::Builder;
use crate::ir::Inst;
use crate::ir::Value;

verus! {

/// Two to the power of the kind's bit width.
pub open spec fn modulus(kind: ScalarKind) -> int {
    match kind {
        ScalarKind::Bool => 2,
        ScalarKind::I8 | ScalarKind::U8 => 0x100,
        ScalarKind::I16 | ScalarKind::U16 => 0x1_0000,
        ScalarKind::I32 | ScalarKind::U32 | ScalarKind::F32 => 0x1_0000_0000,
        ScalarKind::I64 | ScalarKind::U64 | ScalarKind::F64 => 0x1_0000_0000_0000_0000,
    }
}

/// The bits of `x` that a value of the kind occupies.
pub open spec fn pattern(kind: ScalarKind, x: u64) -> int {
    x as int % modulus(kind)
}

/// The number that the bit pattern `x` stands for at an integer kind.
pub open spec fn number(kind: ScalarKind, x: u64) -> int {
    let p = pattern(kind, x);
    if kind.spec_is_signed() && 2 * p >= modulus(kind) {
        p - modulus(kind)
    } else {
        p
    }
}

/// Whether generated code can combine two values of the kind with the
/// operator.
pub open spec fn supported(op: BinOpKind, kind: ScalarKind) -> bool {
    kind != ScalarKind::Bool && (op == BinOpKind::Add || op == BinOpKind::Subtract || op
        == BinOpKind::Multiply || op == BinOpKind::Max || op == BinOpKind::Min)
}

/// What the operator computes on two bit patterns of an integer kind:
/// wrapping arithmetic, and the larger or smaller of the two numbers. At other
/// kinds and for other operators the machine gives no meaning.
#[verifier::opaque]
pub open spec fn apply(op: BinOpKind, kind: ScalarKind, x: u64, y: u64) -> Option<u64> {
    let m = modulus(kind);
    let px = pattern(kind, x);
    let py = pattern(kind, y);
    if !kind.spec_is_integer() {
        None
    } else {
        match op {
            BinOpKind::Add => Some(
                (if px + py < m {
                    px + py
                } else {
                    px + py - m
                }) as u64,
            ),
            BinOpKind::Subtract => Some(
                (if px >= py {
                    px - py
                } else {
                    px + m - py
                }) as u64,
            ),
            BinOpKind::Multiply => Some(((px * py) % m) as u64),
            BinOpKind::Max => Some(
                (if number(kind, x) >= number(kind, y) {
                    px
                } else {
                    py
                }) as u64,
            ),
            BinOpKind::Min => Some(
                (if number(kind, x) <= number(kind, y) {
                    px
                } else {
                    py
                }) as u64,
            ),
            _ => None,
        }
    }
}

/// The bit pattern of the operator's identity at the kind: 0 for addition, 1
/// for multiplication, the least value of the kind for maximum and the
/// greatest for minimum. For the floating-point kinds the least and greatest
/// values are the finite ones.
pub open spec fn identity(op: BinOpKind, kind: ScalarKind) -> Option<u64> {
    match op {
        BinOpKind::Add => if kind == ScalarKind::Bool {
            None
        } else {
            Some(0)
        },
        BinOpKind::Multiply => match kind {
            ScalarKind::Bool => None,
            ScalarKind::F32 => Some(0x3f80_0000),
            ScalarKind::F64 => Some(0x3ff0_0000_0000_0000),
            _ => Some(1),
        },
        BinOpKind::Max => match kind {
            ScalarKind::Bool => None,
            ScalarKind::F32 => Some(0xff7f_ffff),
            ScalarKind::F64 => Some(0xffef_ffff_ffff_ffff),
            ScalarKind::I8 => Some(0x80),
            ScalarKind::I16 => Some(0x8000),
            ScalarKind::I32 => Some(0x8000_0000),
            ScalarKind::I64 => Some(0x8000_0000_0000_0000),
            _ => Some(0),
        },
        BinOpKind::Min => match kind {
            ScalarKind::Bool => None,
            ScalarKind::F32 => Some(0x7f7f_ffff),
            ScalarKind::F64 => Some(0x7fef_ffff_ffff_ffff),
            ScalarKind::I8 => Some(0x7f),
            ScalarKind::I16 => Some(0x7fff),
            ScalarKind::I32 => Some(0x7fff_ffff),
            ScalarKind::I64 => Some(0x7fff_ffff_ffff_ffff),
            ScalarKind::U8 => Some(0xff),
            ScalarKind::U16 => Some(0xffff),
            ScalarKind::U32 => Some(0xffff_ffff),
            _ => Some(0xffff_ffff_ffff_ffff),
        },
        _ => None,
    }
}

/// The identity is neutral on both sides: combining it with a value gives the
/// value back.
pub proof fn lemma_identity_neutral(op: BinOpKind, kind: ScalarKind, x: u64)
    requires
        kind.spec_is_integer(),
        identity(op, kind) is Some,
    ensures
        apply(op, kind, identity(op, kind)->0, x) == Some(pattern(kind, x) as u64),
        apply(op, kind, x, identity(op, kind)->0) == Some(pattern(kind, x) as u64),
{
    reveal(apply);
    let e = identity(op, kind)->0;
    let m = modulus(kind);
    let px = pattern(kind, x);
    assert(0 <= px < m);
    assert(pattern(kind, e) == e);
    if op == BinOpKind::Multiply {
        assert(pattern(kind, e) == 1);
        assert((1 * px) % m == px);
        assert((px * 1) % m == px);
    }
}

/// The machine gives the operators that generated code can apply a meaning
/// at the integer kinds, and the result is a bit pattern of the kind.
pub proof fn lemma_apply_defined(op: BinOpKind, kind: ScalarKind, x: u64, y: u64)
    requires
        kind.spec_is_integer(),
        supported(op, kind),
    ensures
        apply(op, kind, x, y) is Some,
        apply(op, kind, x, y)->0 < modulus(kind),
{
    reveal(apply);
    let m = modulus(kind);
    let px = pattern(kind, x);
    let py = pattern(kind, y);
    assert(0 <= px < m && 0 <= py < m);
    assert(0 <= (px * py) % m < m);
}

fn modulus_of(kind: ScalarKind) -> (m: u128)
    ensures
        m == modulus(kind),
{
    match kind {
        ScalarKind::Bool => 2,
        ScalarKind::I8 | ScalarKind::U8 => 0x100,
        ScalarKind::I16 | ScalarKind::U16 => 0x1_0000,
        ScalarKind::I32 | ScalarKind::U32 | ScalarKind::F32 => 0x1_0000_0000,
        ScalarKind::I64 | ScalarKind::U64 | ScalarKind::F64 => 0x1_0000_0000_0000_0000,
    }
}

fn number_of(kind: ScalarKind, x: u64) -> (n: i128)
    ensures
        n == number(kind, x),
{
    let m = modulus_of(kind);
    let p = (x as u128) % m;
    if kind.is_signed() && 2 * p >= m {
        p as i128 - m as i128
    } else {
        p as i128
    }
}

/// Applies the operator to two bit patterns.
pub fn apply_binop(op: BinOpKind, kind: ScalarKind, x: u64, y: u64) -> (r: Option<u64>)
    ensures
        r == apply(op, kind, x, y),
{
    proof {
        reveal(apply);
    }
    if !kind.is_integer() {
        return None;
    }
    let m = modulus_of(kind);
    let px = (x as u128) % m;
    let py = (y as u128) % m;
    match op {
        BinOpKind::Add => Some(
            (if px + py < m {
                px + py
            } else {
                px + py - m
            }) as u64,
        ),
        BinOpKind::Subtract => Some(
            (if px >= py {
                px - py
            } else {
                px + m - py
            }) as u64,
        ),
        BinOpKind::Multiply => {
            assert(px * py <= 0xffff_ffff_ffff_ffff * 0xffff_ffff_ffff_ffff) by (nonlinear_arith)
                requires
                    0 <= px <= 0xffff_ffff_ffff_ffff,
                    0 <= py <= 0xffff_ffff_ffff_ffff,
            ;
            Some(((px * py) % m) as u64)
        },
        BinOpKind::Max => Some(
            (if number_of(kind, x) >= number_of(kind, y) {
                px
            } else {
                py
            }) as u64,
        ),
        BinOpKind::Min => Some(
            (if number_of(kind, x) <= number_of(kind, y) {
                px
            } else {
                py
            }) as u64,
        ),
        _ => None,
    }
}

/// The constant that seeds an accumulator for the operator at the kind.
pub fn binop_identity(op: BinOpKind, kind: ScalarKind) -> (r: Result<Value, WeldError>)
    ensures
        r == match identity(op, kind) {
            Some(bits) => Ok::<Value, WeldError>(Value::Const(kind, bits)),
            None => Err(WeldError::NoIdentity(op, kind)),
        },
{
    let none = Err(WeldError::NoIdentity(op, kind));
    match op {
        BinOpKind::Add => if kind == ScalarKind::Bool {
            none
        } else {
            Ok(Value::Const(kind, 0))
        },
        BinOpKind::Multiply => match kind {
            ScalarKind::Bool => none,
            ScalarKind::F32 => Ok(Value::Const(kind, 0x3f80_0000)),
            ScalarKind::F64 => Ok(Value::Const(kind, 0x3ff0_0000_0000_0000)),
            _ => Ok(Value::Const(kind, 1)),
        },
        BinOpKind::Max => match kind {
            ScalarKind::Bool => none,
            ScalarKind::F32 => Ok(Value::Const(kind, 0xff7f_ffff)),
            ScalarKind::F64 => Ok(Value::Const(kind, 0xffef_ffff_ffff_ffff)),
            ScalarKind::I8 => Ok(Value::Const(kind, 0x80)),
            ScalarKind::I16 => Ok(Value::Const(kind, 0x8000)),
            ScalarKind::I32 => Ok(Value::Const(kind, 0x8000_0000)),
            ScalarKind::I64 => Ok(Value::Const(kind, 0x8000_0000_0000_0000)),
            _ => Ok(Value::Const(kind, 0)),
        },
        BinOpKind::Min => match kind {
            ScalarKind::Bool => none,
            ScalarKind::F32 => Ok(Value::Const(kind, 0x7f7f_ffff)),
            ScalarKind::F64 => Ok(Value::Const(kind, 0x7fef_ffff_ffff_ffff)),
            ScalarKind::I8 => Ok(Value::Const(kind, 0x7f)),
            ScalarKind::I16 => Ok(Value::Const(kind, 0x7fff)),
            ScalarKind::I32 => Ok(Value::Const(kind, 0x7fff_ffff)),
            ScalarKind::I64 => Ok(Value::Const(kind, 0x7fff_ffff_ffff_ffff)),
            ScalarKind::U8 => Ok(Value::Const(kind, 0xff)),
            ScalarKind::U16 => Ok(Value::Const(kind, 0xffff)),
            ScalarKind::U32 => Ok(Value::Const(kind, 0xffff_ffff)),
            _ => Ok(Value::Const(kind, 0xffff_ffff_ffff_ffff)),
        },
        _ => none,
    }
}

/// The scalar kind of a scalar or SIMD type.
pub open spec fn kind_of(ty: Type) -> Option<ScalarKind> {
    match ty {
        Type::Scalar(kind) => Some(kind),
        Type::Simd(kind) => Some(kind),
        Type::Vector(_) => None,
    }
}

/// What `gen_binop` answers.
pub open spec fn binop_result(op: BinOpKind, ty: Type, at: usize) -> Result<Value, WeldError> {
    match kind_of(ty) {
        None => Err(WeldError::NotNumeric),
        Some(kind) => if supported(op, kind) {
            Ok(Value::Local(at))
        } else {
            Err(WeldError::UnsupportedOperator(op, kind))
        },
    }
}

/// Appends the operation that combines `lhs` and `rhs` with the operator and
/// returns its value. The same operation serves scalars and SIMD values of
/// the kind. Where the operator cannot be applied, nothing is appended.
pub fn gen_binop(builder: &mut Builder, op: BinOpKind, lhs: Value, rhs: Value, ty: &Type) -> (r:
    Result<Value, WeldError>)
    ensures
        r == binop_result(op, *ty, old(builder).insts@.len() as usize),
        final(builder).insts@ == match kind_of(*ty) {
            Some(kind) if supported(op, kind) => old(builder).insts@.push(
                Inst::BinOp(op, kind, lhs, rhs),
            ),
            _ => old(builder).insts@,
        },
{
    let kind = match ty {
        Type::Scalar(kind) => *kind,
        Type::Simd(kind) => *kind,
        Type::Vector(_) => {
            return Err(WeldError::NotNumeric);
        },
    };
    let applicable = match op {
        BinOpKind::Add | BinOpKind::Subtract | BinOpKind::Multiply | BinOpKind::Max
        | BinOpKind::Min => kind != ScalarKind::Bool,
        _ => false,
    };
    if applicable {
        Ok(builder.push(Inst::BinOp(op, kind, lhs, rhs)))
    } else {
        Err(WeldError::UnsupportedOperator(op, kind))
    }
}

} // verus!
