//! Generation of the routines on vectors.
//!
//! A vector is a record of a pointer to its elements and its length; the
//! length is also the capacity of the buffer. Each routine is generated once
//! per element type, on first use, and then only called. What the routines
//! compute when they run is proved in `vector_semantics`.

use vstd::prelude::*;
use vstd::string::StringExecFns;
use crate::code::Code;
use crate::code::CodeView;
use crate::context::CContext;
use crate::context::c_simd_definition;
use crate::context::define_function;
use crate::context::spec_c_simd_definition;
use crate::context::define_in_prelude;
use crate::context::i64_type;
use crate::context::run_handle_type;
use crate::context::size_of;
use crate::context::spec_byte_pointer;
use crate::context::u64_type;
use crate::context::void_pointer_type;
use crate::error::WeldError;
use crate::host::Callee;
use crate::host::HostFn;
use crate::intrinsic::Intrinsics;
use crate::ir::Attr;
use crate::ir::Builder;
use crate::ir::FuncRef;
use crate::ir::Function;
use crate::ir::Inst;
use crate::ir::IntPredicate;
use crate::ir::Module;
use crate::ir::Place;
use crate::ir::Record;
use crate::ir::Ty;
use crate::ir::Value;
use crate::kinds::ScalarKind;
use crate::text::concat2;

verus! {

/// Index of the pointer into the vector data structure.
pub const POINTER_INDEX: u32 = 0;

/// Index of the size into the vector data structure.
pub const SIZE_INDEX: u32 = 1;

/// Number of bytes that a vector record occupies.
pub const VECTOR_BYTES: u64 = 16;

/// A vector type and its associated methods.
pub struct Vector {
    pub vector_ty: Ty,
    pub name: String,
    pub elem_ty: Ty,
    pub c_elem_ty: String,
    pub new: Option<FuncRef>,
    pub c_new: String,
    pub clone: Option<FuncRef>,
    pub c_clone: String,
    pub at: Option<FuncRef>,
    pub c_at: String,
    pub vat: Option<FuncRef>,
    pub c_vat: String,
    pub size: Option<FuncRef>,
    pub c_size: String,
    pub slice: Option<FuncRef>,
    pub c_slice: String,
    pub extend: Option<FuncRef>,
    pub c_extend: String,
}

/// The routines of a vector type.
#[derive(Clone, Copy, Debug, PartialEq, Eq, Structural)]
pub enum Routine {
    New,
    Clone,
    At,
    Vat,
    Size,
    Slice,
    Extend,
}

/// Whether the operation is a call, with the given operands, of a
/// declaration of the function `c` that comes before entry `f`.
pub open spec fn is_host_call(inst: Inst, m: &Module, f: int, c: Callee, args: Seq<Value>) -> bool {
    &&& inst matches Inst::Call(g, operands)
    &&& operands@ == args
    &&& g.0 < f
    &&& m.funcs@[g.0 as int].body is None
    &&& m.funcs@[g.0 as int].name@ == c.spec_name()
}

/// The definition of the vector type in source text.
pub open spec fn c_vector_type(c_elem_ty: Seq<char>, name: Seq<char>) -> Seq<char> {
    CodeView::empty().add("typedef struct {"@).add(c_elem_ty + "* data;"@).add(
        "uint64_t size;"@,
    ).add("} "@ + name + ";"@).text
}

impl Vector {
    /// The constant of the element type's size.
    pub open spec fn elem_size(&self) -> Value {
        Value::Const(ScalarKind::I64, self.elem_ty.spec_size() as u64)
    }

    /// The type of pointers to elements.
    pub open spec fn elem_pointer(&self) -> Ty {
        Ty::Pointer(Box::new(self.elem_ty))
    }

    /// The type of pointers to `WIDTH` elements, for a scalar element type.
    pub open spec fn simd_pointer(&self) -> Ty {
        Ty::Pointer(Box::new(Ty::Simd(self.elem_ty->Scalar_0)))
    }

    /// The operations of `at`: the pointer of the vector, advanced by the
    /// index.
    pub open spec fn at_body(&self) -> Seq<Inst> {
        seq![
            Inst::ExtractValue(Value::Param(0), POINTER_INDEX),
            Inst::Gep(Value::Local(0), Value::Param(1), self.elem_ty),
            Inst::Ret(Value::Local(1)),
        ]
    }

    /// The operations of `vat`: as `at`, with the result typed as a pointer
    /// to `WIDTH` elements.
    pub open spec fn vat_body(&self) -> Seq<Inst> {
        seq![
            Inst::ExtractValue(Value::Param(0), POINTER_INDEX),
            Inst::Gep(Value::Local(0), Value::Param(1), self.elem_ty),
            Inst::BitCast(Value::Local(1), self.simd_pointer()),
            Inst::Ret(Value::Local(2)),
        ]
    }

    /// The operations of `size`: the length of the vector.
    pub open spec fn size_body(&self) -> Seq<Inst> {
        seq![Inst::ExtractValue(Value::Param(0), SIZE_INDEX), Inst::Ret(Value::Local(0))]
    }

    /// The operations of `slice`: the pointer advanced by the index, and the
    /// requested size or, where that is smaller, what remains of the vector.
    pub open spec fn slice_body(&self) -> Seq<Inst> {
        seq![
            Inst::ExtractValue(Value::Param(0), SIZE_INDEX),
            Inst::Sub(Value::Local(0), Value::Param(1)),
            Inst::Compare(IntPredicate::Ugt, Value::Param(2), Value::Local(1)),
            Inst::Select(Value::Local(2), Value::Local(1), Value::Param(2)),
            Inst::ExtractValue(Value::Param(0), POINTER_INDEX),
            Inst::Gep(Value::Local(4), Value::Param(1), self.elem_ty),
            Inst::Undef(self.vector_ty),
            Inst::InsertValue(Value::Local(6), Value::Local(5), POINTER_INDEX),
            Inst::InsertValue(Value::Local(7), Value::Local(3), SIZE_INDEX),
            Inst::Ret(Value::Local(8)),
        ]
    }

    /// Whether entry `f` of the module is the `at` routine of this vector
    /// type.
    pub open spec fn is_at(&self, m: &Module, f: int) -> bool {
        &&& 0 <= f < m.funcs@.len()
        &&& m.funcs@[f].defines(
            self.name@ + "_at"@,
            seq![self.vector_ty, Ty::Scalar(ScalarKind::I64)],
            self.elem_pointer(),
            seq![(Place::Function, Attr::AlwaysInline)],
        )
        &&& m.funcs@[f].body->0@ == self.at_body()
    }

    /// Whether entry `f` of the module is the `size` routine of this vector
    /// type.
    pub open spec fn is_size(&self, m: &Module, f: int) -> bool {
        &&& 0 <= f < m.funcs@.len()
        &&& m.funcs@[f].defines(
            self.name@ + "_size"@,
            seq![self.vector_ty],
            Ty::Scalar(ScalarKind::U64),
            seq![(Place::Function, Attr::AlwaysInline)],
        )
        &&& m.funcs@[f].body->0@ == self.size_body()
    }

    /// Whether entry `f` of the module is the `vat` routine of this vector
    /// type.
    pub open spec fn is_vat(&self, m: &Module, f: int) -> bool {
        &&& 0 <= f < m.funcs@.len()
        &&& self.elem_ty is Scalar
        &&& m.funcs@[f].defines(
            self.name@ + ".vat"@,
            seq![self.vector_ty, Ty::Scalar(ScalarKind::I64)],
            self.simd_pointer(),
            seq![(Place::Function, Attr::AlwaysInline)],
        )
        &&& m.funcs@[f].body->0@ == self.vat_body()
    }

    /// Whether entry `f` of the module is the `slice` routine of this vector
    /// type.
    pub open spec fn is_slice(&self, m: &Module, f: int) -> bool {
        &&& 0 <= f < m.funcs@.len()
        &&& m.funcs@[f].defines(
            self.name@ + ".slice"@,
            seq![self.vector_ty, Ty::Scalar(ScalarKind::I64), Ty::Scalar(ScalarKind::I64)],
            self.vector_ty,
            Seq::empty(),
        )
        &&& m.funcs@[f].body->0@ == self.slice_body()
    }

    /// Whether entry `f` of the module is the `new` routine of this vector
    /// type: it allocates as many bytes as the elements take and returns the
    /// record of the allocation and the size.
    pub open spec fn is_new(&self, m: &Module, f: int) -> bool {
        let body = m.funcs@[f].body->0@;
        &&& 0 <= f < m.funcs@.len()
        &&& m.funcs@[f].defines(
            self.name@ + ".new"@,
            seq![Ty::Scalar(ScalarKind::I64), spec_byte_pointer()],
            self.vector_ty,
            Seq::empty(),
        )
        &&& body.len() == 7
        &&& body[0] == Inst::Mul(self.elem_size(), Value::Param(0))
        &&& is_host_call(
            body[1],
            m,
            f,
            Callee::Host(HostFn::Malloc),
            seq![Value::Param(1), Value::Local(0)],
        )
        &&& body[2] == Inst::BitCast(Value::Local(1), self.elem_pointer())
        &&& body[3] == Inst::Undef(self.vector_ty)
        &&& body[4] == Inst::InsertValue(Value::Local(3), Value::Local(2), POINTER_INDEX)
        &&& body[5] == Inst::InsertValue(Value::Local(4), Value::Param(0), SIZE_INDEX)
        &&& body[6] == Inst::Ret(Value::Local(5))
    }

    /// Whether entry `f` of the module is the `clone` routine of this vector
    /// type: it allocates as many bytes as the elements take, copies the
    /// elements there and returns the record of the copy and the size.
    pub open spec fn is_clone(&self, m: &Module, f: int) -> bool {
        let body = m.funcs@[f].body->0@;
        &&& 0 <= f < m.funcs@.len()
        &&& m.funcs@[f].defines(
            self.name@ + ".clone"@,
            seq![self.vector_ty, spec_byte_pointer()],
            self.vector_ty,
            Seq::empty(),
        )
        &&& body.len() == 11
        &&& body[0] == Inst::ExtractValue(Value::Param(0), SIZE_INDEX)
        &&& body[1] == Inst::Mul(self.elem_size(), Value::Local(0))
        &&& is_host_call(
            body[2],
            m,
            f,
            Callee::Host(HostFn::Malloc),
            seq![Value::Param(1), Value::Local(1)],
        )
        &&& body[3] == Inst::ExtractValue(Value::Param(0), POINTER_INDEX)
        &&& body[4] == Inst::BitCast(Value::Local(3), spec_byte_pointer())
        &&& is_host_call(
            body[5],
            m,
            f,
            Callee::Memcpy,
            seq![
                Value::Local(2),
                Value::Local(4),
                Value::Local(1),
                Value::Const(ScalarKind::I32, 8),
                Value::Const(ScalarKind::Bool, 0),
            ],
        )
        &&& body[6] == Inst::BitCast(Value::Local(2), self.elem_pointer())
        &&& body[7] == Inst::Undef(self.vector_ty)
        &&& body[8] == Inst::InsertValue(Value::Local(7), Value::Local(6), POINTER_INDEX)
        &&& body[9] == Inst::InsertValue(Value::Local(8), Value::Local(0), SIZE_INDEX)
        &&& body[10] == Inst::Ret(Value::Local(9))
    }

    /// Whether entry `f` of the module is the `extend` routine of this vector
    /// type: where the requested size is larger than the size of the vector,
    /// it reallocates the elements to the requested size and returns the
    /// record of the new allocation and the requested size; otherwise it
    /// returns the vector.
    pub open spec fn is_extend(&self, m: &Module, f: int) -> bool {
        let body = m.funcs@[f].body->0@;
        &&& 0 <= f < m.funcs@.len()
        &&& m.funcs@[f].defines(
            self.name@ + ".extend"@,
            seq![self.vector_ty, Ty::Scalar(ScalarKind::I64), spec_byte_pointer()],
            self.vector_ty,
            Seq::empty(),
        )
        &&& body.len() == 14
        &&& body[0] == Inst::ExtractValue(Value::Param(0), SIZE_INDEX)
        &&& body[1] == Inst::Compare(IntPredicate::Sgt, Value::Param(1), Value::Local(0))
        &&& body[2] == Inst::CondBr(Value::Local(1), 3, 12)
        &&& body[3] == Inst::ExtractValue(Value::Param(0), POINTER_INDEX)
        &&& body[4] == Inst::NswMul(Value::Param(1), self.elem_size())
        &&& body[5] == Inst::BitCast(Value::Local(3), spec_byte_pointer())
        &&& is_host_call(
            body[6],
            m,
            f,
            Callee::Host(HostFn::Realloc),
            seq![Value::Param(2), Value::Local(5), Value::Local(4)],
        )
        &&& body[7] == Inst::BitCast(Value::Local(6), self.elem_pointer())
        &&& body[8] == Inst::Undef(self.vector_ty)
        &&& body[9] == Inst::InsertValue(Value::Local(8), Value::Local(7), POINTER_INDEX)
        &&& body[10] == Inst::InsertValue(Value::Local(9), Value::Param(1), SIZE_INDEX)
        &&& body[11] == Inst::Br(12)
        &&& body[12] == Inst::Phi(self.vector_ty, Value::Param(0), 2, Value::Local(10), 11)
        &&& body[13] == Inst::Ret(Value::Local(12))
    }

    /// Whether the vector type is consistent with the module: its type is a
    /// record, and each routine that was generated is in the module.
    pub open spec fn wf(&self, m: &Module) -> bool {
        &&& self.vector_ty is Record
        &&& self.new matches Some(f) ==> self.is_new(m, f.0 as int)
        &&& self.clone matches Some(f) ==> self.is_clone(m, f.0 as int)
        &&& self.at matches Some(f) ==> self.is_at(m, f.0 as int)
        &&& self.vat matches Some(f) ==> self.is_vat(m, f.0 as int)
        &&& self.size matches Some(f) ==> self.is_size(m, f.0 as int)
        &&& self.slice matches Some(f) ==> self.is_slice(m, f.0 as int)
        &&& self.extend matches Some(f) ==> self.is_extend(m, f.0 as int)
        &&& forall|which: Routine| #[trigger]
            self.routine(which) is Some ==> self.c_name(which) == self.name@ + Self::c_suffix(
                which,
            )
    }

    /// A vector type stays consistent when routines are added to the module.
    pub proof fn lemma_wf_extends(&self, old: &Module, new: &Module, n: nat)
        requires
            self.wf(old),
            new.extends(*old, n),
        ensures
            self.wf(new),
    {
    }

    /// Whether the two vector types agree in all but the routines generated.
    pub open spec fn same_type(&self, other: &Vector) -> bool {
        &&& self.vector_ty == other.vector_ty
        &&& self.name == other.name
        &&& self.elem_ty == other.elem_ty
        &&& self.c_elem_ty == other.c_elem_ty
    }

    /// Define a new vector type with the given element type.
    ///
    /// This function only inserts a definition for the vector, in the module
    /// and in the prelude of the source text, but does not generate any new
    /// code. For a scalar element type the source text also gets the
    /// definition of the type of `WIDTH` elements, which `vat` refers to.
    pub fn define(
        name: &str,
        elem_ty: Ty,
        c_elem_ty: String,
        module: &mut Module,
        ccontext: &mut CContext,
    ) -> (v: Vector)
        ensures
            v.wf(final(module)),
            v.name@ == name@,
            v.elem_ty == elem_ty,
            v.c_elem_ty == c_elem_ty,
            v.vector_ty matches Ty::Record(record, bytes) && record@ == name@ && bytes
                == VECTOR_BYTES,
            v.new is None && v.clone is None && v.at is None && v.vat is None && v.size is None
                && v.slice is None && v.extend is None,
            v.c_new@.len() == 0 && v.c_clone@.len() == 0 && v.c_at@.len() == 0 && v.c_vat@.len()
                == 0 && v.c_size@.len() == 0 && v.c_slice@.len() == 0 && v.c_extend@.len() == 0,
            final(module).funcs == old(module).funcs,
            final(module).records@.len() == old(module).records@.len() + 1,
            final(module).records@.drop_last() == old(module).records@,
            final(module).records@.last().name@ == name@,
            final(module).records@.last().fields@ == seq![
                Ty::Pointer(Box::new(elem_ty)),
                Ty::Scalar(ScalarKind::I64),
            ],
            final(ccontext).prelude_code@ == (if elem_ty is Scalar {
                old(ccontext).prelude_code@.add(
                    spec_c_simd_definition(c_elem_ty@, elem_ty.spec_size()),
                )
            } else {
                old(ccontext).prelude_code@
            }).add(c_vector_type(c_elem_ty@, name@)),
            final(ccontext).body_code == old(ccontext).body_code,
            final(ccontext).var_ids == old(ccontext).var_ids,
    {
        match &elem_ty {
            Ty::Scalar(_) => {
                let packed = c_simd_definition(c_elem_ty.as_str(), elem_ty.size());
                ccontext.prelude_code.add(packed.as_str());
            },
            _ => {},
        }
        let mut def = Code::new();
        def.add("typedef struct {");
        let data = concat2(c_elem_ty.as_str(), "* data;");
        def.add(data.as_str());
        def.add("uint64_t size;");
        let mut end = String::from_str("} ");
        end.append(name);
        end.append(";");
        def.add(end.as_str());
        ccontext.prelude_code.add(def.result());
        let mut layout: Vec<Ty> = Vec::new();
        layout.push(elem_ty.pointer());
        layout.push(i64_type());
        assert(layout@ =~= seq![Ty::Pointer(Box::new(elem_ty)), Ty::Scalar(ScalarKind::I64)]);
        module.add_record(Record { name: String::from_str(name), fields: layout });
        assert(module.records@.drop_last() =~= old(module).records@);
        Vector {
            vector_ty: Ty::Record(String::from_str(name), VECTOR_BYTES),
            name: String::from_str(name),
            elem_ty,
            c_elem_ty,
            new: None,
            c_new: String::new(),
            clone: None,
            c_clone: String::new(),
            at: None,
            c_at: String::new(),
            vat: None,
            c_vat: String::new(),
            size: None,
            c_size: String::new(),
            slice: None,
            c_slice: String::new(),
            extend: None,
            c_extend: String::new(),
        }
    }

    /// Whether the two vector types agree in all but the given routine.
    pub open spec fn agrees(&self, other: &Vector, except: Routine) -> bool {
        &&& self.same_type(other)
        &&& except != Routine::New ==> self.new == other.new && self.c_new == other.c_new
        &&& except != Routine::Clone ==> self.clone == other.clone && self.c_clone
            == other.c_clone
        &&& except != Routine::At ==> self.at == other.at && self.c_at == other.c_at
        &&& except != Routine::Vat ==> self.vat == other.vat && self.c_vat == other.c_vat
        &&& except != Routine::Size ==> self.size == other.size && self.c_size == other.c_size
        &&& except != Routine::Slice ==> self.slice == other.slice && self.c_slice
            == other.c_slice
        &&& except != Routine::Extend ==> self.extend == other.extend && self.c_extend
            == other.c_extend
    }

    /// The entry of the given routine, if it was generated.
    pub open spec fn routine(&self, which: Routine) -> Option<FuncRef> {
        match which {
            Routine::New => self.new,
            Routine::Clone => self.clone,
            Routine::At => self.at,
            Routine::Vat => self.vat,
            Routine::Size => self.size,
            Routine::Slice => self.slice,
            Routine::Extend => self.extend,
        }
    }

    /// What the generation of a routine does: nothing where the routine was
    /// generated before; otherwise it adds the routine to the module and its
    /// definition to the prelude of the source text, and records its name in
    /// source text. Either way the routine does what it is meant to do.
    pub open spec fn generated(
        &self,
        old: &Vector,
        m: &Module,
        old_m: &Module,
        c: &CContext,
        old_c: &CContext,
        which: Routine,
    ) -> bool {
        &&& self.wf(m)
        &&& self.means(m, which)
        &&& self.agrees(old, which)
        &&& self.routine(which) is Some
        &&& c.body_code == old_c.body_code
        &&& c.var_ids == old_c.var_ids
        &&& if old.routine(which) is Some {
            &&& *self == *old
            &&& *m == *old_m
            &&& c.prelude_code == old_c.prelude_code
        } else {
            &&& m.extends(*old_m, 1)
            &&& m.records == old_m.records
            &&& (self.routine(which)->0).0 == old_m.funcs@.len()
            &&& self.c_name(which) == self.name@ + Self::c_suffix(which)
            &&& c.prelude_code@ == old_c.prelude_code@.add(self.c_definition(which))
        }
    }

    proof fn lemma_named(&self, old: &Vector, which: Routine)
        requires
            forall|other: Routine| #[trigger]
                old.routine(other) is Some ==> old.c_name(other) == old.name@ + Self::c_suffix(
                    other,
                ),
            self.agrees(old, which),
            self.c_name(which) == self.name@ + Self::c_suffix(which),
        ensures
            forall|other: Routine| #[trigger]
                self.routine(other) is Some ==> self.c_name(other) == self.name@
                    + Self::c_suffix(other),
    {
        assert forall|other: Routine| #[trigger] self.routine(other) is Some implies self.c_name(
            other,
        ) == self.name@ + Self::c_suffix(other) by {
            if other != which {
                assert(old.routine(other) is Some);
            }
        }
    }

    /// Generates the `at` method on vectors.
    ///
    /// This method performs an index computation into the vector. The routine
    /// returns a pointer to the requested index: it does not dereference the
    /// pointer, and it does not check the index against the size.
    pub fn define_at(&mut self, module: &mut Module, ccontext: &mut CContext)
        requires
            old(self).wf(old(module)),
        ensures
            final(self).generated(
                old(self),
                final(module),
                old(module),
                final(ccontext),
                old(ccontext),
                Routine::At,
            ),
    {
        if self.at.is_none() {
            let mut arg_tys: Vec<Ty> = Vec::new();
            arg_tys.push(self.vector_ty.duplicate());
            arg_tys.push(i64_type());
            assert(arg_tys@ =~= seq![self.vector_ty, Ty::Scalar(ScalarKind::I64)]);
            let ret_ty = self.elem_ty.pointer();
            let c_arg_tys = self.c_parameter_types(Routine::At);
            let c_ret_ty = self.c_return_type(Routine::At);
            let name = self.c_routine_name(Routine::At);
            let (mut function, mut body, c_code) = define_function(
                ret_ty,
                c_ret_ty.as_str(),
                arg_tys,
                &c_arg_tys,
                name.clone(),
                name.as_str(),
                true,
            );
            let statements = self.c_body(Routine::At);
            define_in_prelude(ccontext, c_code, &statements);
            self.c_at = name;

            function.attrs.push((Place::Function, Attr::AlwaysInline));
            assert(function.attrs@ =~= seq![(Place::Function, Attr::AlwaysInline)]);
            let vector = Value::Param(0);
            let index = Value::Param(1);
            let pointer = body.push(Inst::ExtractValue(vector, POINTER_INDEX));
            let value_pointer = body.push(Inst::Gep(pointer, index, self.elem_ty.duplicate()));
            body.push(Inst::Ret(value_pointer));
            assert(body.insts@ =~= self.at_body());
            function.body = Some(body.insts);
            let f = module.add_function(function);
            self.at = Some(f);
            proof {
                old(self).lemma_wf_extends(old(module), module, 1);
                self.lemma_named(old(self), Routine::At);
            }
        }
        proof {
            self.lemma_means(module, Routine::At);
        }
    }

    /// Generates the `at` method on vectors and calls it.
    pub fn gen_at(
        &mut self,
        builder: &mut Builder,
        module: &mut Module,
        ccontext: &mut CContext,
        vector: Value,
        index: Value,
    ) -> (r: Result<Value, WeldError>)
        requires
            old(self).wf(old(module)),
        ensures
            final(self).generated(
                old(self),
                final(module),
                old(module),
                final(ccontext),
                old(ccontext),
                Routine::At,
            ),
            r == Ok::<Value, WeldError>(Value::Local(old(builder).insts@.len() as usize)),
            final(builder).calls(*old(builder), final(self).at->0, seq![vector, index]),
    {
        if self.at.is_none() {
            self.define_at(module, ccontext);
        }
        let mut args: Vec<Value> = Vec::new();
        args.push(vector);
        args.push(index);
        assert(args@ =~= seq![vector, index]);
        let v = builder.push(Inst::Call(self.at.unwrap(), args));
        assert(builder.insts@.drop_last() =~= old(builder).insts@);
        proof {
            self.lemma_means(module, Routine::At);
        }
        Ok(v)
    }

    /// Generates the `at` method on vectors and returns a call of it in
    /// source text.
    pub fn c_gen_at(
        &mut self,
        module: &mut Module,
        ccontext: &mut CContext,
        vector: &str,
        index: &str,
    ) -> (r: Result<String, WeldError>)
        requires
            old(self).wf(old(module)),
        ensures
            final(self).generated(
                old(self),
                final(module),
                old(module),
                final(ccontext),
                old(ccontext),
                Routine::At,
            ),
            r matches Ok(text) && text@ == final(self).name@ + "_at"@ + "(&"@ + vector@ + ", "@
                + index@ + ")"@,
    {
        if self.at.is_none() {
            self.define_at(module, ccontext);
        }
        assert(self.routine(Routine::At) is Some);
        let mut text = self.c_at.clone();
        text.append("(&");
        text.append(vector);
        text.append(", ");
        text.append(index);
        text.append(")");
        proof {
            self.lemma_means(module, Routine::At);
        }
        Ok(text)
    }

    /// Helper function to generate the `size` method on vectors.
    pub fn define_size(&mut self, module: &mut Module, ccontext: &mut CContext)
        requires
            old(self).wf(old(module)),
        ensures
            final(self).generated(
                old(self),
                final(module),
                old(module),
                final(ccontext),
                old(ccontext),
                Routine::Size,
            ),
    {
        if self.size.is_none() {
            let mut arg_tys: Vec<Ty> = Vec::new();
            arg_tys.push(self.vector_ty.duplicate());
            assert(arg_tys@ =~= seq![self.vector_ty]);
            let ret_ty = u64_type();
            let c_arg_tys = self.c_parameter_types(Routine::Size);
            let c_ret_ty = self.c_return_type(Routine::Size);
            let name = self.c_routine_name(Routine::Size);
            let (mut function, mut body, c_code) = define_function(
                ret_ty,
                c_ret_ty.as_str(),
                arg_tys,
                &c_arg_tys,
                name.clone(),
                name.as_str(),
                true,
            );
            let statements = self.c_body(Routine::Size);
            define_in_prelude(ccontext, c_code, &statements);
            self.c_size = name;

            function.attrs.push((Place::Function, Attr::AlwaysInline));
            assert(function.attrs@ =~= seq![(Place::Function, Attr::AlwaysInline)]);
            let vector = Value::Param(0);
            let size = body.push(Inst::ExtractValue(vector, SIZE_INDEX));
            body.push(Inst::Ret(size));
            assert(body.insts@ =~= self.size_body());
            function.body = Some(body.insts);
            let f = module.add_function(function);
            self.size = Some(f);
            proof {
                old(self).lemma_wf_extends(old(module), module, 1);
                self.lemma_named(old(self), Routine::Size);
            }
        }
        proof {
            self.lemma_means(module, Routine::Size);
        }
    }

    /// Generates the `size` method on vectors and calls it.
    ///
    /// This returns the size (equivalently, the capacity) of the vector.
    pub fn gen_size(
        &mut self,
        builder: &mut Builder,
        module: &mut Module,
        ccontext: &mut CContext,
        vector: Value,
    ) -> (r: Result<Value, WeldError>)
        requires
            old(self).wf(old(module)),
        ensures
            final(self).generated(
                old(self),
                final(module),
                old(module),
                final(ccontext),
                old(ccontext),
                Routine::Size,
            ),
            r == Ok::<Value, WeldError>(Value::Local(old(builder).insts@.len() as usize)),
            final(builder).calls(*old(builder), final(self).size->0, seq![vector]),
    {
        if self.size.is_none() {
            self.define_size(module, ccontext);
        }
        let mut args: Vec<Value> = Vec::new();
        args.push(vector);
        assert(args@ =~= seq![vector]);
        let v = builder.push(Inst::Call(self.size.unwrap(), args));
        assert(builder.insts@.drop_last() =~= old(builder).insts@);
        proof {
            self.lemma_means(module, Routine::Size);
        }
        Ok(v)
    }

    /// Generates the `size` method on vectors and returns a call of it in
    /// source text.
    pub fn c_gen_size(&mut self, module: &mut Module, ccontext: &mut CContext, vector: &str) -> (r:
        Result<String, WeldError>)
        requires
            old(self).wf(old(module)),
        ensures
            final(self).generated(
                old(self),
                final(module),
                old(module),
                final(ccontext),
                old(ccontext),
                Routine::Size,
            ),
            r matches Ok(text) && text@ == final(self).name@ + "_size"@ + "(&"@ + vector@
                + ")"@,
    {
        if self.size.is_none() {
            self.define_size(module, ccontext);
        }
        assert(self.routine(Routine::Size) is Some);
        let mut text = self.c_size.clone();
        text.append("(&");
        text.append(vector);
        text.append(")");
        proof {
            self.lemma_means(module, Routine::Size);
        }
        Ok(text)
    }

    /// Generates the `vat` method on vectors and calls it.
    ///
    /// This method performs an index computation into the vector. The routine
    /// returns a pointer to `WIDTH` elements at the requested index: it does
    /// not dereference the pointer, and it does not check the index against
    /// the size. Only scalars can be packed into a SIMD value: for another
    /// element type the method is an error, and then nothing is generated.
    pub fn gen_vat(
        &mut self,
        builder: &mut Builder,
        module: &mut Module,
        ccontext: &mut CContext,
        vector: Value,
        index: Value,
    ) -> (r: Result<Value, WeldError>)
        requires
            old(self).wf(old(module)),
        ensures
            old(self).elem_ty is Scalar ==> {
                &&& final(self).generated(
                    old(self),
                    final(module),
                    old(module),
                    final(ccontext),
                    old(ccontext),
                    Routine::Vat,
                )
                &&& r == Ok::<Value, WeldError>(
                    Value::Local(old(builder).insts@.len() as usize),
                )
                &&& final(builder).calls(*old(builder), final(self).vat->0, seq![vector, index])
            },
            !(old(self).elem_ty is Scalar) ==> {
                &&& r == Err::<Value, WeldError>(WeldError::NotNumeric)
                &&& *final(self) == *old(self)
                &&& *final(module) == *old(module)
                &&& *final(ccontext) == *old(ccontext)
                &&& *final(builder) == *old(builder)
            },
    {
        let kind = match &self.elem_ty {
            Ty::Scalar(kind) => *kind,
            _ => {
                return Err(WeldError::NotNumeric);
            },
        };
        if self.vat.is_none() {
            let mut arg_tys: Vec<Ty> = Vec::new();
            arg_tys.push(self.vector_ty.duplicate());
            arg_tys.push(i64_type());
            assert(arg_tys@ =~= seq![self.vector_ty, Ty::Scalar(ScalarKind::I64)]);
            let ret_ty = Ty::Simd(kind).pointer();
            let c_arg_tys = self.c_parameter_types(Routine::Vat);
            let c_ret_ty = self.c_return_type(Routine::Vat);
            let name = concat2(self.name.as_str(), ".vat");
            let c_name = self.c_routine_name(Routine::Vat);
            let (mut function, mut body, c_code) = define_function(
                ret_ty,
                c_ret_ty.as_str(),
                arg_tys,
                &c_arg_tys,
                name,
                c_name.as_str(),
                true,
            );
            let statements = self.c_body(Routine::Vat);
            define_in_prelude(ccontext, c_code, &statements);
            self.c_vat = c_name;

            function.attrs.push((Place::Function, Attr::AlwaysInline));
            assert(function.attrs@ =~= seq![(Place::Function, Attr::AlwaysInline)]);
            let vector = Value::Param(0);
            let index = Value::Param(1);
            let pointer = body.push(Inst::ExtractValue(vector, POINTER_INDEX));
            let value_pointer = body.push(Inst::Gep(pointer, index, self.elem_ty.duplicate()));
            let value_pointer = body.push(Inst::BitCast(value_pointer, Ty::Simd(kind).pointer()));
            body.push(Inst::Ret(value_pointer));
            assert(body.insts@ =~= self.vat_body());
            function.body = Some(body.insts);
            let f = module.add_function(function);
            self.vat = Some(f);
            proof {
                old(self).lemma_wf_extends(old(module), module, 1);
                self.lemma_named(old(self), Routine::Vat);
            }
        }
        let mut args: Vec<Value> = Vec::new();
        args.push(vector);
        args.push(index);
        assert(args@ =~= seq![vector, index]);
        let v = builder.push(Inst::Call(self.vat.unwrap(), args));
        assert(builder.insts@.drop_last() =~= old(builder).insts@);
        proof {
            self.lemma_means(module, Routine::Vat);
        }
        Ok(v)
    }

    /// Generate the `slice` method on vectors and calls it.
    ///
    /// This method takes an index and size and returns a view into the given
    /// vector. If `index + size` is greater than the length of the vector, a
    /// slice up to the end of the vector starting at index is returned. The
    /// routine does not check the index against the size.
    pub fn gen_slice(
        &mut self,
        builder: &mut Builder,
        module: &mut Module,
        ccontext: &mut CContext,
        vector: Value,
        index: Value,
        size: Value,
    ) -> (r: Result<Value, WeldError>)
        requires
            old(self).wf(old(module)),
        ensures
            final(self).generated(
                old(self),
                final(module),
                old(module),
                final(ccontext),
                old(ccontext),
                Routine::Slice,
            ),
            r == Ok::<Value, WeldError>(Value::Local(old(builder).insts@.len() as usize)),
            final(builder).calls(*old(builder), final(self).slice->0, seq![vector, index, size]),
    {
        if self.slice.is_none() {
            let mut arg_tys: Vec<Ty> = Vec::new();
            arg_tys.push(self.vector_ty.duplicate());
            arg_tys.push(i64_type());
            arg_tys.push(i64_type());
            assert(arg_tys@ =~= seq![
                self.vector_ty,
                Ty::Scalar(ScalarKind::I64),
                Ty::Scalar(ScalarKind::I64),
            ]);
            let ret_ty = self.vector_ty.duplicate();
            let c_arg_tys = self.c_parameter_types(Routine::Slice);
            let c_ret_ty = self.c_return_type(Routine::Slice);
            let name = concat2(self.name.as_str(), ".slice");
            let c_name = self.c_routine_name(Routine::Slice);
            let (mut function, mut body, c_code) = define_function(
                ret_ty,
                c_ret_ty.as_str(),
                arg_tys,
                &c_arg_tys,
                name,
                c_name.as_str(),
                false,
            );
            let statements = self.c_body(Routine::Slice);
            define_in_prelude(ccontext, c_code, &statements);
            self.c_slice = c_name;

            assert(function.attrs@ =~= Seq::empty());
            let vector = Value::Param(0);
            let index = Value::Param(1);
            let size = Value::Param(2);
            // The remaining size is used where the requested size does not
            // fit into the vector from the index on.
            let cur_size = body.push(Inst::ExtractValue(vector, SIZE_INDEX));
            let remaining = body.push(Inst::Sub(cur_size, index));
            let too_large = body.push(Inst::Compare(IntPredicate::Ugt, size, remaining));
            let new_size = body.push(Inst::Select(too_large, remaining, size));
            let elements = body.push(Inst::ExtractValue(vector, POINTER_INDEX));
            let new_elements = body.push(Inst::Gep(elements, index, self.elem_ty.duplicate()));
            let mut result = body.push(Inst::Undef(self.vector_ty.duplicate()));
            result = body.push(Inst::InsertValue(result, new_elements, POINTER_INDEX));
            result = body.push(Inst::InsertValue(result, new_size, SIZE_INDEX));
            body.push(Inst::Ret(result));
            assert(body.insts@ =~= self.slice_body());
            function.body = Some(body.insts);
            let f = module.add_function(function);
            self.slice = Some(f);
            proof {
                old(self).lemma_wf_extends(old(module), module, 1);
                self.lemma_named(old(self), Routine::Slice);
            }
        }
        let mut args: Vec<Value> = Vec::new();
        args.push(vector);
        args.push(index);
        args.push(size);
        assert(args@ =~= seq![vector, index, size]);
        let v = builder.push(Inst::Call(self.slice.unwrap(), args));
        assert(builder.insts@.drop_last() =~= old(builder).insts@);
        proof {
            self.lemma_means(module, Routine::Slice);
        }
        Ok(v)
    }

    /// Generates the `new` method on vectors and calls it.
    ///
    /// The new method allocates a buffer of exactly `size` elements from the
    /// run. The memory allocated for the vector is not initialized by the
    /// routine.
    pub fn gen_new(
        &mut self,
        builder: &mut Builder,
        intrinsics: &mut Intrinsics,
        module: &mut Module,
        ccontext: &mut CContext,
        run: Value,
        size: Value,
    ) -> (r: Result<Value, WeldError>)
        requires
            old(self).wf(old(module)),
            old(intrinsics).wf(old(module)),
            old(intrinsics)@.contains_key(HostFn::Malloc.spec_name()),
        ensures
            *final(intrinsics) == *old(intrinsics),
            final(intrinsics).wf(final(module)),
            final(self).generated(
                old(self),
                final(module),
                old(module),
                final(ccontext),
                old(ccontext),
                Routine::New,
            ),
            r == Ok::<Value, WeldError>(Value::Local(old(builder).insts@.len() as usize)),
            final(builder).calls(*old(builder), final(self).new->0, seq![size, run]),
    {
        if self.new.is_none() {
            let mut arg_tys: Vec<Ty> = Vec::new();
            arg_tys.push(i64_type());
            arg_tys.push(run_handle_type());
            assert(arg_tys@ =~= seq![Ty::Scalar(ScalarKind::I64), spec_byte_pointer()]);
            let ret_ty = self.vector_ty.duplicate();
            let c_arg_tys = self.c_parameter_types(Routine::New);
            let c_ret_ty = self.c_return_type(Routine::New);
            let name = concat2(self.name.as_str(), ".new");
            let c_name = self.c_routine_name(Routine::New);
            let (mut function, mut body, c_code) = define_function(
                ret_ty,
                c_ret_ty.as_str(),
                arg_tys,
                &c_arg_tys,
                name,
                c_name.as_str(),
                false,
            );
            let statements = self.c_body(Routine::New);
            define_in_prelude(ccontext, c_code, &statements);
            self.c_new = c_name;

            assert(function.attrs@ =~= Seq::empty());
            let size = Value::Param(0);
            let elem_size = size_of(&self.elem_ty);
            let alloc_size = body.push(Inst::Mul(elem_size, size));
            let run = Value::Param(1);
            let ghost start = body;
            let bytes = intrinsics.call_weld_run_malloc(&mut body, run, alloc_size);
            proof {
                body.lemma_calls(
                    start,
                    intrinsics@[HostFn::Malloc.spec_name()].spec_value(),
                    seq![run, alloc_size],
                );
            }
            let elements = body.push(Inst::BitCast(bytes, self.elem_ty.pointer()));
            let mut result = body.push(Inst::Undef(self.vector_ty.duplicate()));
            result = body.push(Inst::InsertValue(result, elements, POINTER_INDEX));
            result = body.push(Inst::InsertValue(result, size, SIZE_INDEX));
            body.push(Inst::Ret(result));
            function.body = Some(body.insts);
            let f = module.add_function(function);
            self.new = Some(f);
            proof {
                old(self).lemma_wf_extends(old(module), module, 1);
                intrinsics.lemma_wf_extends(old(module), module, 1);
                self.lemma_named(old(self), Routine::New);
            }
        }
        let mut args: Vec<Value> = Vec::new();
        args.push(size);
        args.push(run);
        assert(args@ =~= seq![size, run]);
        let v = builder.push(Inst::Call(self.new.unwrap(), args));
        assert(builder.insts@.drop_last() =~= old(builder).insts@);
        proof {
            self.lemma_means(module, Routine::New);
        }
        Ok(v)
    }

    /// Generates the `clone` method on vectors and calls it.
    ///
    /// The clone method performs a shallow copy of the vector: the bytes of
    /// the elements are copied into a new allocation of the run.
    pub fn gen_clone(
        &mut self,
        builder: &mut Builder,
        intrinsics: &mut Intrinsics,
        module: &mut Module,
        ccontext: &mut CContext,
        vector: Value,
        run: Value,
    ) -> (r: Result<Value, WeldError>)
        requires
            old(self).wf(old(module)),
            old(intrinsics).wf(old(module)),
            old(intrinsics)@.contains_key(HostFn::Malloc.spec_name()),
            old(intrinsics)@.contains_key(Callee::Memcpy.spec_name()),
        ensures
            *final(intrinsics) == *old(intrinsics),
            final(intrinsics).wf(final(module)),
            final(self).generated(
                old(self),
                final(module),
                old(module),
                final(ccontext),
                old(ccontext),
                Routine::Clone,
            ),
            r == Ok::<Value, WeldError>(Value::Local(old(builder).insts@.len() as usize)),
            final(builder).calls(*old(builder), final(self).clone->0, seq![vector, run]),
    {
        if self.clone.is_none() {
            let mut arg_tys: Vec<Ty> = Vec::new();
            arg_tys.push(self.vector_ty.duplicate());
            arg_tys.push(run_handle_type());
            assert(arg_tys@ =~= seq![self.vector_ty, spec_byte_pointer()]);
            let ret_ty = self.vector_ty.duplicate();
            let c_arg_tys = self.c_parameter_types(Routine::Clone);
            let c_ret_ty = self.c_return_type(Routine::Clone);
            let name = concat2(self.name.as_str(), ".clone");
            let c_name = self.c_routine_name(Routine::Clone);
            let (mut function, mut body, c_code) = define_function(
                ret_ty,
                c_ret_ty.as_str(),
                arg_tys,
                &c_arg_tys,
                name,
                c_name.as_str(),
                false,
            );
            let statements = self.c_body(Routine::Clone);
            define_in_prelude(ccontext, c_code, &statements);
            self.c_clone = c_name;

            assert(function.attrs@ =~= Seq::empty());
            let vector = Value::Param(0);
            let run = Value::Param(1);

            let elem_size = size_of(&self.elem_ty);
            let size = body.push(Inst::ExtractValue(vector, SIZE_INDEX));
            let alloc_size = body.push(Inst::Mul(elem_size, size));

            let ghost start = body;
            let dst_bytes = intrinsics.call_weld_run_malloc(&mut body, run, alloc_size);
            proof {
                body.lemma_calls(
                    start,
                    intrinsics@[HostFn::Malloc.spec_name()].spec_value(),
                    seq![run, alloc_size],
                );
            }
            let source_bytes = body.push(Inst::ExtractValue(vector, POINTER_INDEX));
            let source_bytes = body.push(Inst::BitCast(source_bytes, void_pointer_type()));
            let ghost allocated = body;
            let _ = intrinsics.call_memcpy(&mut body, dst_bytes, source_bytes, alloc_size);
            proof {
                body.lemma_calls(
                    allocated,
                    intrinsics@[Callee::Memcpy.spec_name()].spec_value(),
                    seq![
                        dst_bytes,
                        source_bytes,
                        alloc_size,
                        Value::Const(ScalarKind::I32, 8),
                        Value::Const(ScalarKind::Bool, 0),
                    ],
                );
            }

            let elements = body.push(Inst::BitCast(dst_bytes, self.elem_ty.pointer()));
            let result = body.push(Inst::Undef(self.vector_ty.duplicate()));
            let result = body.push(Inst::InsertValue(result, elements, POINTER_INDEX));
            let result = body.push(Inst::InsertValue(result, size, SIZE_INDEX));
            body.push(Inst::Ret(result));
            function.body = Some(body.insts);
            let f = module.add_function(function);
            self.clone = Some(f);
            proof {
                old(self).lemma_wf_extends(old(module), module, 1);
                intrinsics.lemma_wf_extends(old(module), module, 1);
                self.lemma_named(old(self), Routine::Clone);
            }
        }
        let mut args: Vec<Value> = Vec::new();
        args.push(vector);
        args.push(run);
        assert(args@ =~= seq![vector, run]);
        let v = builder.push(Inst::Call(self.clone.unwrap(), args));
        assert(builder.insts@.drop_last() =~= old(builder).insts@);
        proof {
            self.lemma_means(module, Routine::Clone);
        }
        Ok(v)
    }

    /// Generates the `extend` method on vectors and calls it.
    ///
    /// This method grows the capacity of the vector to exactly `size` and
    /// returns a new vector. If the input vector can already accommodate
    /// `size` elements, the same vector is returned unmodified.
    ///
    /// This method modifies the size to be the new capacity if the vector is
    /// resized.
    pub fn gen_extend(
        &mut self,
        builder: &mut Builder,
        intrinsics: &mut Intrinsics,
        module: &mut Module,
        ccontext: &mut CContext,
        run: Value,
        vector: Value,
        size: Value,
    ) -> (r: Result<Value, WeldError>)
        requires
            old(self).wf(old(module)),
            old(intrinsics).wf(old(module)),
            old(intrinsics)@.contains_key(HostFn::Realloc.spec_name()),
        ensures
            *final(intrinsics) == *old(intrinsics),
            final(intrinsics).wf(final(module)),
            final(self).generated(
                old(self),
                final(module),
                old(module),
                final(ccontext),
                old(ccontext),
                Routine::Extend,
            ),
            r == Ok::<Value, WeldError>(Value::Local(old(builder).insts@.len() as usize)),
            final(builder).calls(*old(builder), final(self).extend->0, seq![vector, size, run]),
    {
        if self.extend.is_none() {
            let mut arg_tys: Vec<Ty> = Vec::new();
            arg_tys.push(self.vector_ty.duplicate());
            arg_tys.push(i64_type());
            arg_tys.push(run_handle_type());
            assert(arg_tys@ =~= seq![
                self.vector_ty,
                Ty::Scalar(ScalarKind::I64),
                spec_byte_pointer(),
            ]);
            let ret_ty = self.vector_ty.duplicate();
            let c_arg_tys = self.c_parameter_types(Routine::Extend);
            let c_ret_ty = self.c_return_type(Routine::Extend);
            let name = concat2(self.name.as_str(), ".extend");
            let c_name = self.c_routine_name(Routine::Extend);
            let (mut function, mut body, c_code) = define_function(
                ret_ty,
                c_ret_ty.as_str(),
                arg_tys,
                &c_arg_tys,
                name,
                c_name.as_str(),
                false,
            );
            let statements = self.c_body(Routine::Extend);
            define_in_prelude(ccontext, c_code, &statements);
            self.c_extend = c_name;

            assert(function.attrs@ =~= Seq::empty());
            // The routine has three parts: the entry, which ends in the
            // branch at index 2; the reallocation, from index 3 on, which
            // ends in the branch at index 11; and the end, from index 12 on.
            let vector = Value::Param(0);
            let requested_size = Value::Param(1);
            let run_handle = Value::Param(2);

            let current_size = body.push(Inst::ExtractValue(vector, SIZE_INDEX));
            let resize_flag = body.push(
                Inst::Compare(IntPredicate::Sgt, requested_size, current_size),
            );
            body.push(Inst::CondBr(resize_flag, 3, 12));

            // The part where memory is grown to accommodate the requested size.
            let pointer = body.push(Inst::ExtractValue(vector, POINTER_INDEX));
            let alloc_size = body.push(Inst::NswMul(requested_size, size_of(&self.elem_ty)));
            let raw_pointer = body.push(Inst::BitCast(pointer, void_pointer_type()));
            let ghost entered = body;
            let bytes = intrinsics.call_weld_run_realloc(
                &mut body,
                run_handle,
                raw_pointer,
                alloc_size,
            );
            proof {
                body.lemma_calls(
                    entered,
                    intrinsics@[HostFn::Realloc.spec_name()].spec_value(),
                    seq![run_handle, raw_pointer, alloc_size],
                );
            }
            let resized_elements = body.push(Inst::BitCast(bytes, self.elem_ty.pointer()));
            let resized = body.push(Inst::Undef(self.vector_ty.duplicate()));
            let resized = body.push(Inst::InsertValue(resized, resized_elements, POINTER_INDEX));
            let resized = body.push(Inst::InsertValue(resized, requested_size, SIZE_INDEX));
            body.push(Inst::Br(12));

            let return_value = body.push(
                Inst::Phi(self.vector_ty.duplicate(), vector, 2, resized, 11),
            );
            body.push(Inst::Ret(return_value));
            function.body = Some(body.insts);
            let f = module.add_function(function);
            self.extend = Some(f);
            proof {
                old(self).lemma_wf_extends(old(module), module, 1);
                intrinsics.lemma_wf_extends(old(module), module, 1);
                self.lemma_named(old(self), Routine::Extend);
            }
        }
        let mut args: Vec<Value> = Vec::new();
        args.push(vector);
        args.push(size);
        args.push(run);
        assert(args@ =~= seq![vector, size, run]);
        let v = builder.push(Inst::Call(self.extend.unwrap(), args));
        assert(builder.insts@.drop_last() =~= old(builder).insts@);
        proof {
            self.lemma_means(module, Routine::Extend);
        }
        Ok(v)
    }
}

} // verus!
