//! Scalar kinds, operator tags and the type tree handed over by the front end.

use vstd::prelude::*;

verus! {

/// Number of scalar lanes packed into one SIMD value.
pub const WIDTH: u32 = 4;

/// Primitive numeric and boolean kinds.
#[derive(Clone, Copy, Debug, PartialEq, Eq, Structural)]
pub enum ScalarKind {
    Bool,
    I8,
    I16,
    I32,
    I64,
    U8,
    U16,
    U32,
    U64,
    F32,
    F64,
}

impl ScalarKind {
    /// Bit width of a value of this kind.
    pub open spec fn spec_bits(self) -> nat {
        match self {
            ScalarKind::Bool => 1,
            ScalarKind::I8 | ScalarKind::U8 => 8,
            ScalarKind::I16 | ScalarKind::U16 => 16,
            ScalarKind::I32 | ScalarKind::U32 | ScalarKind::F32 => 32,
            ScalarKind::I64 | ScalarKind::U64 | ScalarKind::F64 => 64,
        }
    }

    /// Whether the kind is one of the two floating-point kinds.
    pub open spec fn spec_is_float(self) -> bool {
        self == ScalarKind::F32 || self == ScalarKind::F64
    }

    /// Whether the kind is a signed integer.
    pub open spec fn spec_is_signed(self) -> bool {
        self == ScalarKind::I8 || self == ScalarKind::I16 || self == ScalarKind::I32 || self
            == ScalarKind::I64
    }

    /// Whether the kind is an integer, signed or unsigned (`Bool` is not).
    pub open spec fn spec_is_integer(self) -> bool {
        !self.spec_is_float() && self != ScalarKind::Bool
    }

    #[verifier::when_used_as_spec(spec_bits_u32)]
    pub fn bits(self) -> (b: u32)
        ensures
            b == self.spec_bits(),
    {
        match self {
            ScalarKind::Bool => 1,
            ScalarKind::I8 | ScalarKind::U8 => 8,
            ScalarKind::I16 | ScalarKind::U16 => 16,
            ScalarKind::I32 | ScalarKind::U32 | ScalarKind::F32 => 32,
            ScalarKind::I64 | ScalarKind::U64 | ScalarKind::F64 => 64,
        }
    }

    pub open spec fn spec_bits_u32(self) -> u32 {
        self.spec_bits() as u32
    }

    #[verifier::when_used_as_spec(spec_is_float)]
    pub fn is_float(self) -> (b: bool)
        ensures
            b == self.spec_is_float(),
    {
        self == ScalarKind::F32 || self == ScalarKind::F64
    }

    #[verifier::when_used_as_spec(spec_is_signed)]
    pub fn is_signed(self) -> (b: bool)
        ensures
            b == self.spec_is_signed(),
    {
        self == ScalarKind::I8 || self == ScalarKind::I16 || self == ScalarKind::I32 || self
            == ScalarKind::I64
    }

    #[verifier::when_used_as_spec(spec_is_integer)]
    pub fn is_integer(self) -> (b: bool)
        ensures
            b == self.spec_is_integer(),
    {
        !self.is_float() && self != ScalarKind::Bool
    }
}

/// Binary operators of the source language.
#[derive(Clone, Copy, Debug, PartialEq, Eq, Structural)]
pub enum BinOpKind {
    Add,
    Subtract,
    Multiply,
    Divide,
    Modulo,
    Equal,
    NotEqual,
    LessThan,
    LessThanOrEqual,
    GreaterThan,
    GreaterThanOrEqual,
    LogicalAnd,
    LogicalOr,
    BitwiseAnd,
    BitwiseOr,
    Xor,
    Max,
    Min,
    Pow,
}

/// Types of the source language, fully resolved.
#[derive(Debug, PartialEq, Eq)]
pub enum Type {
    Scalar(ScalarKind),
    Simd(ScalarKind),
    Vector(Box<Type>),
}

impl Type {
    /// Whether the two types are the same.
    pub fn same(&self, other: &Type) -> (b: bool)
        ensures
            b == (*self == *other),
        decreases *self,
    {
        match (self, other) {
            (Type::Scalar(a), Type::Scalar(b)) => *a == *b,
            (Type::Simd(a), Type::Simd(b)) => *a == *b,
            (Type::Vector(a), Type::Vector(b)) => a.same(b),
            _ => false,
        }
    }

    /// A copy of the type.
    pub fn duplicate(&self) -> (t: Type)
        ensures
            t == *self,
        decreases *self,
    {
        match self {
            Type::Scalar(kind) => Type::Scalar(*kind),
            Type::Simd(kind) => Type::Simd(*kind),
            Type::Vector(elem) => Type::Vector(Box::new(elem.duplicate())),
        }
    }
}

} // verus!
