//! What the generators share: the buffers of the portable source form, the
//! names of its types, and the start of a new routine in both forms.

use vstd::prelude::*;
use vstd::string::StringExecFns;
use crate::code::Code;
use crate::code::CodeView;
use crate::ir::Builder;
use crate::ir::Function;
use crate::ir::Ty;
use crate::ir::Value;
use crate::kinds::ScalarKind;
use crate::kinds::WIDTH;
use crate::text::decimal;
use crate::text::digits;
use crate::text::joined;
use crate::text::views;

verus! {

/// A source of fresh variable names: a prefix followed by a running number.
pub struct IdGenerator {
    pub prefix: String,
    pub next_id: u64,
}

impl IdGenerator {
    pub fn new(prefix: &str) -> (g: IdGenerator)
        ensures
            g.prefix@ == prefix@,
            g.next_id == 0,
    {
        IdGenerator { prefix: String::from_str(prefix), next_id: 0 }
    }

    /// The next name. The number starts over after the largest one.
    pub fn next(&mut self) -> (name: String)
        ensures
            name@ == old(self).prefix@ + digits(old(self).next_id as nat),
            final(self).prefix == old(self).prefix,
            final(self).next_id == if old(self).next_id == u64::MAX {
                0
            } else {
                old(self).next_id + 1
            },
    {
        let mut name = self.prefix.clone();
        let number = decimal(self.next_id);
        name.append(number.as_str());
        self.next_id = if self.next_id == u64::MAX {
            0
        } else {
            self.next_id + 1
        };
        name
    }
}

/// The portable source form of a compilation: definitions that come before
/// all code, the code itself, and the names of its variables.
pub struct CContext {
    pub prelude_code: Code,
    pub body_code: Code,
    pub var_ids: IdGenerator,
}

impl CContext {
    pub fn new() -> (c: CContext)
        ensures
            c.prelude_code@ == CodeView::empty(),
            c.body_code@ == CodeView::empty(),
            c.var_ids.prefix@ == "t"@,
            c.var_ids.next_id == 0,
    {
        CContext { prelude_code: Code::new(), body_code: Code::new(), var_ids: IdGenerator::new("t") }
    }
}

/// The type of 64-bit signed integers.
pub fn i64_type() -> (t: Ty)
    ensures
        t == Ty::Scalar(ScalarKind::I64),
{
    Ty::Scalar(ScalarKind::I64)
}

/// The type of 64-bit unsigned integers.
pub fn u64_type() -> (t: Ty)
    ensures
        t == Ty::Scalar(ScalarKind::U64),
{
    Ty::Scalar(ScalarKind::U64)
}

/// The type of 32-bit signed integers.
pub fn i32_type() -> (t: Ty)
    ensures
        t == Ty::Scalar(ScalarKind::I32),
{
    Ty::Scalar(ScalarKind::I32)
}

/// The type of bytes.
pub fn i8_type() -> (t: Ty)
    ensures
        t == Ty::Scalar(ScalarKind::I8),
{
    Ty::Scalar(ScalarKind::I8)
}

/// The type of truth values.
pub fn bool_type() -> (t: Ty)
    ensures
        t == Ty::Scalar(ScalarKind::Bool),
{
    Ty::Scalar(ScalarKind::Bool)
}

/// The type of pointers to bytes.
pub open spec fn spec_byte_pointer() -> Ty {
    Ty::Pointer(Box::new(Ty::Scalar(ScalarKind::I8)))
}

/// The type of pointers to bytes, which is also the type of untyped pointers.
pub fn void_pointer_type() -> (t: Ty)
    ensures
        t == spec_byte_pointer(),
{
    Ty::Pointer(Box::new(Ty::Scalar(ScalarKind::I8)))
}

/// The type of the handle of a run.
pub fn run_handle_type() -> (t: Ty)
    ensures
        t == spec_byte_pointer(),
{
    Ty::Pointer(Box::new(Ty::Scalar(ScalarKind::I8)))
}

/// The constant of the type's size in bytes.
pub fn size_of(ty: &Ty) -> (v: Value)
    ensures
        v == Value::Const(ScalarKind::I64, ty.spec_size() as u64),
{
    Value::Const(ScalarKind::I64, ty.size())
}

/// The name of the 64-bit signed integer type in source text.
pub fn c_i64_type() -> (s: String)
    ensures
        s@ == "int64_t"@,
{
    String::from_str("int64_t")
}

/// The name of the 64-bit unsigned integer type in source text.
pub fn c_u64_type() -> (s: String)
    ensures
        s@ == "uint64_t"@,
{
    String::from_str("uint64_t")
}

/// The name of the 32-bit signed integer type in source text.
pub fn c_i32_type() -> (s: String)
    ensures
        s@ == "int32_t"@,
{
    String::from_str("int32_t")
}

/// The name of the empty type in source text.
pub fn c_void_type() -> (s: String)
    ensures
        s@ == "void"@,
{
    String::from_str("void")
}

/// The name of the type of run handles in source text.
pub fn c_run_handle_type() -> (s: String)
    ensures
        s@ == "WeldRuntimeContextRef"@,
{
    String::from_str("WeldRuntimeContextRef")
}

/// The name of a scalar kind in source text.
pub fn c_scalar_type(kind: ScalarKind) -> (s: &'static str)
    ensures
        s@ == spec_c_scalar_type(kind),
{
    match kind {
        ScalarKind::Bool => "bool",
        ScalarKind::I8 => "int8_t",
        ScalarKind::I16 => "int16_t",
        ScalarKind::I32 => "int32_t",
        ScalarKind::I64 => "int64_t",
        ScalarKind::U8 => "uint8_t",
        ScalarKind::U16 => "uint16_t",
        ScalarKind::U32 => "uint32_t",
        ScalarKind::U64 => "uint64_t",
        ScalarKind::F32 => "float",
        ScalarKind::F64 => "double",
    }
}

/// The name of a scalar kind in source text.
pub open spec fn spec_c_scalar_type(kind: ScalarKind) -> Seq<char> {
    match kind {
        ScalarKind::Bool => "bool"@,
        ScalarKind::I8 => "int8_t"@,
        ScalarKind::I16 => "int16_t"@,
        ScalarKind::I32 => "int32_t"@,
        ScalarKind::I64 => "int64_t"@,
        ScalarKind::U8 => "uint8_t"@,
        ScalarKind::U16 => "uint16_t"@,
        ScalarKind::U32 => "uint32_t"@,
        ScalarKind::U64 => "uint64_t"@,
        ScalarKind::F32 => "float"@,
        ScalarKind::F64 => "double"@,
    }
}

/// The name in source text of the type of pointers to `ty`.
pub fn c_pointer_type(ty: &str) -> (s: String)
    ensures
        s@ == ty@ + "*"@,
{
    let mut s = String::from_str(ty);
    s.append("*");
    s
}

/// The name in source text of the type of `width` lanes of `ty`.
pub fn c_simd_type(ty: &str, width: u32) -> (s: String)
    ensures
        s@ == ty@ + "x"@ + digits(width as nat),
{
    let mut s = String::from_str(ty);
    s.append("x");
    let lanes = decimal(width as u64);
    s.append(lanes.as_str());
    s
}

/// The definition in source text of the type of `WIDTH` lanes of the scalar
/// type `ty`, which takes `bytes` bytes.
pub open spec fn spec_c_simd_definition(ty: Seq<char>, bytes: nat) -> Seq<char> {
    "typedef "@ + ty + " "@ + ty + "x"@ + digits(WIDTH as nat) + " __attribute__((vector_size("@
        + digits(WIDTH as nat * bytes) + ")));"@
}

/// The definition in source text of the type of `WIDTH` lanes of the scalar
/// type `ty`, which takes `bytes` bytes.
pub fn c_simd_definition(ty: &str, bytes: u64) -> (s: String)
    requires
        bytes <= 8,
    ensures
        s@ == spec_c_simd_definition(ty@, bytes as nat),
{
    let mut s = String::from_str("typedef ");
    s.append(ty);
    s.append(" ");
    s.append(ty);
    s.append("x");
    s.append(decimal(WIDTH as u64).as_str());
    s.append(" __attribute__((vector_size(");
    s.append(decimal(WIDTH as u64 * bytes).as_str());
    s.append(")));");
    s
}

/// The name of a routine's parameter in source text.
pub open spec fn spec_c_param(index: nat) -> Seq<char> {
    "arg"@ + digits(index)
}

/// The name of a routine's parameter in source text.
pub fn c_get_param(index: usize) -> (s: String)
    ensures
        s@ == spec_c_param(index as nat),
{
    let mut s = String::from_str("arg");
    let number = decimal(index as u64);
    s.append(number.as_str());
    s
}

/// The parameter declarations of a routine in source text.
pub open spec fn c_declarations(types: Seq<Seq<char>>) -> Seq<Seq<char>> {
    Seq::new(types.len(), |i: int| types[i] + " "@ + spec_c_param(i as nat))
}

/// The first line of a routine's definition in source text.
pub open spec fn c_signature(inline: bool, ret: Seq<char>, name: Seq<char>, types: Seq<Seq<char>>)
    -> Seq<char> {
    (if inline {
        "static inline "@
    } else {
        Seq::empty()
    }) + ret + " "@ + name + "("@ + joined(c_declarations(types), ", "@) + ")"@
}

/// The buffer after the statements were added, one after another.
pub open spec fn c_lines(code: CodeView, statements: Seq<Seq<char>>) -> CodeView
    decreases statements.len(),
{
    if statements.len() == 0 {
        code
    } else {
        c_lines(code, statements.drop_last()).add(statements.last())
    }
}

/// The definition in source text of a routine with the given first line
/// and the given statements as its body.
pub open spec fn c_definition(signature: Seq<char>, statements: Seq<Seq<char>>) -> Seq<char> {
    c_lines(CodeView::empty().add(signature).add("{"@), statements).add("}"@).text
}

/// Adds the statements to the buffer, one after another.
pub fn add_statements(code: &mut Code, statements: &Vec<String>)
    ensures
        final(code)@ == c_lines(old(code)@, views(statements@)),
{
    let ghost all = views(statements@);
    let mut i: usize = 0;
    while i < statements.len()
        invariant
            i <= statements@.len(),
            all == views(statements@),
            code@ == c_lines(old(code)@, all.take(i as int)),
        decreases statements.len() - i,
    {
        code.add(statements[i].as_str());
        proof {
            assert(all.take(i + 1).drop_last() =~= all.take(i as int));
            assert(all.take(i + 1).last() == statements@[i as int]@);
        }
        i = i + 1;
    }
    assert(all.take(statements@.len() as int) =~= all);
}

/// Completes the definition of a routine in source text, whose first line
/// `code` holds, with the statements of its body, and adds it to the prelude.
pub fn define_in_prelude(ccontext: &mut CContext, code: Code, statements: &Vec<String>)
    ensures
        final(ccontext).prelude_code@ == old(ccontext).prelude_code@.add(
            c_lines(code@.add("{"@), views(statements@)).add("}"@).text,
        ),
        final(ccontext).body_code == old(ccontext).body_code,
        final(ccontext).var_ids == old(ccontext).var_ids,
{
    let mut code = code;
    code.add("{");
    add_statements(&mut code, statements);
    code.add("}");
    ccontext.prelude_code.add(code.result());
}

fn c_parameter_list(types: &Vec<String>) -> (s: String)
    ensures
        s@ == joined(c_declarations(views(types@)), ", "@),
{
    let ghost all = c_declarations(views(types@));
    let mut s = String::new();
    let mut i: usize = 0;
    while i < types.len()
        invariant
            i <= types.len(),
            all == c_declarations(views(types@)),
            s@ == joined(all.take(i as int), ", "@),
        decreases types.len() - i,
    {
        if i > 0 {
            s.append(", ");
        }
        s.append(types[i].as_str());
        s.append(" ");
        let name = c_get_param(i);
        s.append(name.as_str());
        proof {
            let next = all.take(i + 1);
            assert(next.drop_last() =~= all.take(i as int));
            assert(next.last() == types@[i as int]@ + " "@ + spec_c_param(i as nat));
            assert(s@ =~= joined(next, ", "@));
        }
        i = i + 1;
    }
    assert(all.take(types.len() as int) =~= all);
    s
}

/// Starts a routine: its header, an empty sequence of operations, and a
/// buffer that holds the first line of its definition in source text, where
/// the routine goes by `c_name`.
pub fn define_function(
    ret: Ty,
    c_ret: &str,
    params: Vec<Ty>,
    c_params: &Vec<String>,
    name: String,
    c_name: &str,
    inline: bool,
) -> (r: (Function, Builder, Code))
    ensures
        r.0.name == name,
        r.0.params == params,
        r.0.ret == ret,
        r.0.attrs@.len() == 0,
        r.0.body is None,
        r.1.insts@.len() == 0,
        r.2@ == CodeView::empty().add(c_signature(inline, c_ret@, c_name@, views(c_params@))),
{
    let mut line = String::new();
    if inline {
        line.append("static inline ");
    }
    line.append(c_ret);
    line.append(" ");
    line.append(c_name);
    line.append("(");
    let list = c_parameter_list(c_params);
    line.append(list.as_str());
    line.append(")");
    assert(line@ =~= c_signature(inline, c_ret@, c_name@, views(c_params@)));
    let mut c_code = Code::new();
    c_code.add(line.as_str());
    (Function { name, params, ret, attrs: Vec::new(), body: None }, Builder::new(), c_code)
}

} // verus!
