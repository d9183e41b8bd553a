//! The operation-sequence representation that every generated routine is
//! written in.
//!
//! A routine is a flat sequence of operations. The operation at index `i`
//! defines the local value `i`; control flow only moves forward, so every
//! routine terminates. A module is an ordered table of routines and
//! declarations, and a call may only target an entry that comes earlier in the
//! table than the caller.

use vstd::prelude::*;
use crate::kinds::ScalarKind;
use crate::kinds::BinOpKind;
use crate::kinds::WIDTH;

verus! {

/// Types of values in the representation.
#[derive(Debug, PartialEq, Eq)]
pub enum Ty {
    Void,
    /// A scalar of the given kind.
    Scalar(ScalarKind),
    /// `WIDTH` scalars of the given kind.
    Simd(ScalarKind),
    /// A pointer to a value of the given type.
    Pointer(Box<Ty>),
    /// A named record type and the number of bytes one value of it occupies.
    Record(String, u64),
}

/// Number of bytes a scalar of the given kind occupies in a buffer.
pub open spec fn scalar_bytes(kind: ScalarKind) -> nat {
    match kind {
        ScalarKind::Bool | ScalarKind::I8 | ScalarKind::U8 => 1,
        ScalarKind::I16 | ScalarKind::U16 => 2,
        ScalarKind::I32 | ScalarKind::U32 | ScalarKind::F32 => 4,
        ScalarKind::I64 | ScalarKind::U64 | ScalarKind::F64 => 8,
    }
}

impl Ty {
    /// Number of bytes one value of the type occupies in a buffer.
    pub open spec fn spec_size(self) -> nat {
        match self {
            Ty::Void => 0,
            Ty::Scalar(kind) => scalar_bytes(kind),
            Ty::Simd(kind) => WIDTH as nat * scalar_bytes(kind),
            Ty::Pointer(_) => 8,
            Ty::Record(_, bytes) => bytes as nat,
        }
    }

    pub fn size(&self) -> (n: u64)
        ensures
            n == self.spec_size(),
    {
        match self {
            Ty::Void => 0,
            Ty::Scalar(kind) => Self::scalar_size(*kind),
            Ty::Simd(kind) => 4 * Self::scalar_size(*kind),
            Ty::Pointer(_) => 8,
            Ty::Record(_, bytes) => *bytes,
        }
    }

    fn scalar_size(kind: ScalarKind) -> (n: u64)
        ensures
            n == scalar_bytes(kind),
    {
        match kind {
            ScalarKind::Bool | ScalarKind::I8 | ScalarKind::U8 => 1,
            ScalarKind::I16 | ScalarKind::U16 => 2,
            ScalarKind::I32 | ScalarKind::U32 | ScalarKind::F32 => 4,
            ScalarKind::I64 | ScalarKind::U64 | ScalarKind::F64 => 8,
        }
    }

    /// A copy of the type.
    pub fn duplicate(&self) -> (t: Ty)
        ensures
            t == *self,
        decreases *self,
    {
        match self {
            Ty::Void => Ty::Void,
            Ty::Scalar(kind) => Ty::Scalar(*kind),
            Ty::Simd(kind) => Ty::Simd(*kind),
            Ty::Pointer(to) => Ty::Pointer(Box::new(to.duplicate())),
            Ty::Record(name, bytes) => Ty::Record(name.clone(), *bytes),
        }
    }

    /// The type of pointers to values of this type.
    pub fn pointer(&self) -> (t: Ty)
        ensures
            t == Ty::Pointer(Box::new(*self)),
    {
        Ty::Pointer(Box::new(self.duplicate()))
    }
}

/// An entry of a module's routine table.
#[derive(Clone, Copy, Debug, PartialEq, Eq, Structural)]
pub struct FuncRef(pub usize);

/// An operand of an operation.
#[derive(Clone, Copy, Debug, PartialEq, Eq, Structural)]
pub enum Value {
    /// The routine's parameter with the given index.
    Param(usize),
    /// The value defined by the operation with the given index.
    Local(usize),
    /// A scalar constant of the given kind, as its zero-extended bit pattern.
    Const(ScalarKind, u64),
    /// A SIMD constant whose lanes all hold the given scalar constant.
    Splat(ScalarKind, u64),
}

/// Integer comparisons.
#[derive(Clone, Copy, Debug, PartialEq, Eq, Structural)]
pub enum IntPredicate {
    /// Unsigned greater-than.
    Ugt,
    /// Signed greater-than.
    Sgt,
}

/// One operation of a routine.
#[derive(Debug, PartialEq, Eq)]
pub enum Inst {
    /// An undefined value of the given type.
    Undef(Ty),
    /// 64-bit multiplication that wraps.
    Mul(Value, Value),
    /// 64-bit multiplication whose signed overflow is an error.
    NswMul(Value, Value),
    /// 64-bit subtraction that wraps.
    Sub(Value, Value),
    /// 64-bit integer comparison.
    Compare(IntPredicate, Value, Value),
    /// `Select(c, a, b)` is `a` where `c` holds and `b` where it does not.
    Select(Value, Value, Value),
    /// The operator applied to two scalars, or lane by lane to two SIMD values.
    BinOp(BinOpKind, ScalarKind, Value, Value),
    /// Field of a record value.
    ExtractValue(Value, u32),
    /// `InsertValue(r, v, i)` is the record `r` with field `i` replaced by `v`.
    InsertValue(Value, Value, u32),
    /// `ExtractElement(s, i)` is lane `i` of the SIMD value `s`.
    ExtractElement(Value, Value),
    /// The same pointer at another type.
    BitCast(Value, Ty),
    /// `Gep(p, i, t)` is the pointer `i` elements of type `t` beyond `p`.
    Gep(Value, Value, Ty),
    /// Pointer to a field of the record that the pointer designates.
    StructGep(Value, u32),
    /// A pointer to a fresh record that can hold a value of the type.
    Alloca(Ty),
    /// The value in the slot that the pointer designates.
    Load(Value),
    /// `Store(v, p)` writes `v` where `p` points.
    Store(Value, Value),
    /// Call of a module entry.
    Call(FuncRef, Vec<Value>),
    /// `CondBr(c, t, e)` continues at `t` where `c` holds and at `e` otherwise.
    CondBr(Value, usize, usize),
    /// Continues at the given operation.
    Br(usize),
    /// `Phi(t, a, i, b, j)` is `a` when control arrived through the branch at
    /// index `i`, and `b` when it arrived through the branch at index `j`.
    Phi(Ty, Value, usize, Value, usize),
    /// Returns the value to the caller.
    Ret(Value),
    /// Returns to the caller.
    RetVoid,
}

/// Annotations that document how a routine treats its arguments and result.
#[derive(Clone, Copy, Debug, PartialEq, Eq, Structural)]
pub enum Attr {
    AlwaysInline,
    NoUnwind,
    NoReturn,
    NoCapture,
    NoAlias,
    NonNull,
    ReadOnly,
}

/// What an annotation is attached to.
#[derive(Clone, Copy, Debug, PartialEq, Eq, Structural)]
pub enum Place {
    Function,
    Return,
    Param(u32),
}

/// A routine of a module: a definition where `body` is present, and a
/// declaration of something implemented outside the module where it is not.
#[derive(Debug, PartialEq, Eq)]
pub struct Function {
    pub name: String,
    pub params: Vec<Ty>,
    pub ret: Ty,
    pub attrs: Vec<(Place, Attr)>,
    pub body: Option<Vec<Inst>>,
}

impl Function {
    /// Whether this is the declaration with the given name, signature and
    /// annotations.
    pub open spec fn declares(
        self,
        name: Seq<char>,
        params: Seq<Ty>,
        ret: Ty,
        attrs: Seq<(Place, Attr)>,
    ) -> bool {
        &&& self.name@ == name
        &&& self.params@ == params
        &&& self.ret == ret
        &&& self.attrs@ == attrs
        &&& self.body is None
    }

    /// Whether this is the routine with the given name and signature, and no
    /// annotations but those given.
    pub open spec fn defines(
        self,
        name: Seq<char>,
        params: Seq<Ty>,
        ret: Ty,
        attrs: Seq<(Place, Attr)>,
    ) -> bool {
        &&& self.name@ == name
        &&& self.params@ == params
        &&& self.ret == ret
        &&& self.attrs@ == attrs
        &&& self.body is Some
    }
}

/// A named record type of a module.
#[derive(Debug, PartialEq, Eq)]
pub struct Record {
    pub name: String,
    pub fields: Vec<Ty>,
}

/// The unit of generated code: record types and routines, in definition order.
#[derive(Debug, PartialEq, Eq)]
pub struct Module {
    pub records: Vec<Record>,
    pub funcs: Vec<Function>,
}

impl Module {
    /// Whether this module is `old` with `n` more entries in its routine
    /// table, and perhaps more record types.
    pub open spec fn extends(self, old: Module, n: nat) -> bool {
        &&& old.records@.is_prefix_of(self.records@)
        &&& self.funcs@.len() == old.funcs@.len() + n
        &&& forall|i: int| 0 <= i < old.funcs@.len() ==> self.funcs@[i] == old.funcs@[i]
    }

    pub fn new() -> (m: Module)
        ensures
            m.records@.len() == 0,
            m.funcs@.len() == 0,
    {
        Module { records: Vec::new(), funcs: Vec::new() }
    }

    /// Appends a routine or declaration and returns its entry.
    pub fn add_function(&mut self, function: Function) -> (f: FuncRef)
        ensures
            final(self).funcs@ == old(self).funcs@.push(function),
            final(self).records == old(self).records,
            f.0 == old(self).funcs@.len(),
    {
        self.funcs.push(function);
        FuncRef(self.funcs.len() - 1)
    }

    /// Appends a record type.
    pub fn add_record(&mut self, record: Record)
        ensures
            final(self).records@ == old(self).records@.push(record),
            final(self).funcs == old(self).funcs,
    {
        self.records.push(record);
    }
}

/// The operations of a routine under construction.
pub struct Builder {
    pub insts: Vec<Inst>,
}

impl Builder {
    pub fn new() -> (b: Builder)
        ensures
            b.insts@.len() == 0,
    {
        Builder { insts: Vec::new() }
    }

    /// Whether this sequence is `old` followed by a call of `f` with the
    /// given operands.
    pub open spec fn calls(self, old: Builder, f: FuncRef, args: Seq<Value>) -> bool {
        &&& self.insts@.len() == old.insts@.len() + 1
        &&& self.insts@.drop_last() == old.insts@
        &&& self.insts@.last() matches Inst::Call(g, operands)
        &&& g == f
        &&& operands@ == args
    }

    /// A sequence that `calls` is the old one with the call appended.
    pub proof fn lemma_calls(self, old: Builder, f: FuncRef, args: Seq<Value>)
        requires
            self.calls(old, f, args),
        ensures
            self.insts@ == old.insts@.push(self.insts@.last()),
    {
        assert(self.insts@ =~= self.insts@.drop_last().push(self.insts@.last()));
    }

    /// Appends an operation and returns the value it defines.
    pub fn push(&mut self, inst: Inst) -> (v: Value)
        ensures
            final(self).insts@ == old(self).insts@.push(inst),
            v == Value::Local(old(self).insts@.len() as usize),
    {
        self.insts.push(inst);
        Value::Local(self.insts.len() - 1)
    }
}

} // verus!
