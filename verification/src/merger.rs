//! Code generation for the merger builder type.
//!
//! A merger accumulates values with an operator. It is a record of a scalar
//! lane and a vector lane of `WIDTH` scalars, so that scalar values and whole
//! SIMD values can be merged independently; `result` folds the lanes
//! together. The scalar lane of a new merger holds the initial element that
//! the caller hands to `new`, and each vector lane holds the identity of the
//! operator: a caller who wants a merger that is neutral in both lanes hands
//! the identity to `new`.

use vstd::prelude::*;
use vstd::string::StringExecFns;
use crate::code::Code;
use crate::context::CContext;
use crate::context::c_simd_type;
use crate::context::c_simd_definition;
use crate::context::define_function;
use crate::context::spec_c_simd_definition;
use crate::context::define_in_prelude;
use crate::error::WeldError;
use crate::ir::Attr;
use crate::ir::Builder;
use crate::ir::FuncRef;
use crate::ir::Inst;
use crate::ir::Module;
use crate::ir::Place;
use crate::ir::Record;
use crate::ir::Ty;
use crate::ir::scalar_bytes;
use crate::ir::Value;
use crate::kinds::BinOpKind;
use crate::kinds::ScalarKind;
use crate::kinds::Type;
use crate::kinds::WIDTH;
use crate::numeric::binop_identity;
use crate::numeric::gen_binop;
use crate::numeric::identity;
use crate::numeric::supported;
use crate::text::concat2;
use crate::text::concat3;
use vstd::pervasive::unreached;

verus! {

/// Index of the scalar lane in the merger data structure.
pub const SCALAR_INDEX: u32 = 0;

/// Index of the vector lane in the merger data structure.
pub const VECTOR_INDEX: u32 = 1;

/// The routines of a merger type.
#[derive(Clone, Copy, Debug, PartialEq, Eq, Structural)]
pub enum Part {
    New,
    Merge,
    Vmerge,
    Result,
}

/// The merger type.
pub struct Merger {
    pub merger_ty: Ty,
    pub name: String,
    pub elem_ty: Ty,
    pub c_elem_ty: String,
    pub scalar_kind: ScalarKind,
    pub op: BinOpKind,
    pub new: Option<FuncRef>,
    pub merge: Option<FuncRef>,
    pub vmerge: Option<FuncRef>,
    pub result: Option<FuncRef>,
}

impl Merger {
    /// The type of pointers to mergers.
    pub open spec fn merger_pointer(&self) -> Ty {
        Ty::Pointer(Box::new(self.merger_ty))
    }

    /// The operations of `new`: the record of the initial element and of the
    /// operator's identity in each vector lane.
    pub open spec fn new_body(&self) -> Seq<Inst> {
        seq![
            Inst::Undef(self.merger_ty),
            Inst::InsertValue(Value::Local(0), Value::Param(0), SCALAR_INDEX),
            Inst::InsertValue(
                Value::Local(1),
                Value::Splat(self.scalar_kind, identity(self.op, self.scalar_kind)->0),
                VECTOR_INDEX,
            ),
            Inst::Ret(Value::Local(2)),
        ]
    }

    /// The operations of `merge` and `vmerge`: the lane at `lane` is loaded,
    /// combined with the value, and stored back.
    pub open spec fn merge_body(&self, lane: u32) -> Seq<Inst> {
        seq![
            Inst::StructGep(Value::Param(0), lane),
            Inst::Load(Value::Local(0)),
            Inst::BinOp(self.op, self.scalar_kind, Value::Local(1), Value::Param(1)),
            Inst::Store(Value::Local(2), Value::Local(0)),
            Inst::RetVoid,
        ]
    }

    /// The operations of `result`: the scalar lane is combined with each
    /// vector lane in turn, from the first to the last.
    pub open spec fn result_body(&self) -> Seq<Inst> {
        seq![
            Inst::StructGep(Value::Param(0), SCALAR_INDEX),
            Inst::Load(Value::Local(0)),
            Inst::StructGep(Value::Param(0), VECTOR_INDEX),
            Inst::Load(Value::Local(2)),
            Inst::ExtractElement(Value::Local(3), Value::Const(ScalarKind::I32, 0)),
            Inst::BinOp(self.op, self.scalar_kind, Value::Local(1), Value::Local(4)),
            Inst::ExtractElement(Value::Local(3), Value::Const(ScalarKind::I32, 1)),
            Inst::BinOp(self.op, self.scalar_kind, Value::Local(5), Value::Local(6)),
            Inst::ExtractElement(Value::Local(3), Value::Const(ScalarKind::I32, 2)),
            Inst::BinOp(self.op, self.scalar_kind, Value::Local(7), Value::Local(8)),
            Inst::ExtractElement(Value::Local(3), Value::Const(ScalarKind::I32, 3)),
            Inst::BinOp(self.op, self.scalar_kind, Value::Local(9), Value::Local(10)),
            Inst::Ret(Value::Local(11)),
        ]
    }

    /// Whether entry `f` of the module is the `new` routine of this merger
    /// type.
    pub open spec fn is_new(&self, m: &Module, f: int) -> bool {
        &&& 0 <= f < m.funcs@.len()
        &&& identity(self.op, self.scalar_kind) is Some
        &&& m.funcs@[f].defines(
            self.name@ + ".new"@,
            seq![self.elem_ty],
            self.merger_ty,
            Seq::empty(),
        )
        &&& m.funcs@[f].body->0@ == self.new_body()
    }

    /// Whether entry `f` of the module is the routine of this merger type
    /// that merges into the given lane.
    pub open spec fn is_merge(&self, m: &Module, f: int, lane: u32) -> bool {
        &&& 0 <= f < m.funcs@.len()
        &&& supported(self.op, self.scalar_kind)
        &&& m.funcs@[f].defines(
            self.name@ + (if lane == VECTOR_INDEX {
                ".vmerge"@
            } else {
                ".merge"@
            }),
            seq![
                self.merger_pointer(),
                if lane == VECTOR_INDEX {
                    Ty::Simd(self.scalar_kind)
                } else {
                    self.elem_ty
                },
            ],
            Ty::Void,
            seq![(Place::Function, Attr::AlwaysInline)],
        )
        &&& m.funcs@[f].body->0@ == self.merge_body(lane)
    }

    /// Whether entry `f` of the module is the `result` routine of this
    /// merger type.
    pub open spec fn is_result(&self, m: &Module, f: int) -> bool {
        &&& 0 <= f < m.funcs@.len()
        &&& supported(self.op, self.scalar_kind)
        &&& m.funcs@[f].defines(
            self.name@ + ".result"@,
            seq![self.merger_pointer()],
            self.elem_ty,
            Seq::empty(),
        )
        &&& m.funcs@[f].body->0@ == self.result_body()
    }

    /// Whether the merger type is consistent with the module: its type is a
    /// record, and each routine that was generated is in the module.
    pub open spec fn wf(&self, m: &Module) -> bool {
        &&& self.merger_ty is Record
        &&& self.new matches Some(f) ==> self.is_new(m, f.0 as int)
        &&& self.merge matches Some(f) ==> self.is_merge(m, f.0 as int, SCALAR_INDEX)
        &&& self.vmerge matches Some(f) ==> self.is_merge(m, f.0 as int, VECTOR_INDEX)
        &&& self.result matches Some(f) ==> self.is_result(m, f.0 as int)
    }

    /// A merger type stays consistent when routines are added to the module.
    pub proof fn lemma_wf_extends(&self, old: &Module, new: &Module, n: nat)
        requires
            self.wf(old),
            new.extends(*old, n),
        ensures
            self.wf(new),
    {
    }

    /// Whether the two merger types agree in all but the routines generated.
    pub open spec fn same_type(&self, other: &Merger) -> bool {
        &&& self.merger_ty == other.merger_ty
        &&& self.name == other.name
        &&& self.elem_ty == other.elem_ty
        &&& self.c_elem_ty == other.c_elem_ty
        &&& self.scalar_kind == other.scalar_kind
        &&& self.op == other.op
    }

    /// Number of bytes that a merger of the kind occupies: the vector lane
    /// and, aligned to it, the scalar lane.
    pub open spec fn spec_merger_bytes(kind: ScalarKind) -> u64 {
        (2 * Ty::Simd(kind).spec_size()) as u64
    }

    /// Define a new merger type for the operator and the element type.
    ///
    /// This function only inserts a definition for the merger, in the module
    /// and in the prelude of the source text, but does not generate any new
    /// code. The source text gets the definition of the type of the vector
    /// lane and then the definition of the merger.
    pub fn define(
        name: &str,
        op: BinOpKind,
        elem_ty: Ty,
        c_elem_ty: &str,
        scalar_kind: ScalarKind,
        module: &mut Module,
        ccontext: &mut CContext,
    ) -> (v: Merger)
        ensures
            v.wf(final(module)),
            final(ccontext).prelude_code@ == old(ccontext).prelude_code@.add(
                spec_c_simd_definition(c_elem_ty@, scalar_bytes(scalar_kind)),
            ).add(v.c_merger_type()),
            final(ccontext).body_code == old(ccontext).body_code,
            final(ccontext).var_ids == old(ccontext).var_ids,
            v.name@ == name@,
            v.op == op,
            v.elem_ty == elem_ty,
            v.c_elem_ty@ == c_elem_ty@,
            v.scalar_kind == scalar_kind,
            v.merger_ty matches Ty::Record(record, bytes) && record@ == name@ && bytes
                == Self::spec_merger_bytes(scalar_kind),
            v.new is None && v.merge is None && v.vmerge is None && v.result is None,
            final(module).funcs == old(module).funcs,
            final(module).records@.len() == old(module).records@.len() + 1,
            final(module).records@.drop_last() == old(module).records@,
            final(module).records@.last().name@ == name@,
            final(module).records@.last().fields@ == seq![elem_ty, Ty::Simd(scalar_kind)],
    {
        let mut layout: Vec<Ty> = Vec::new();
        layout.push(elem_ty.duplicate());
        layout.push(Ty::Simd(scalar_kind));
        assert(layout@ =~= seq![elem_ty, Ty::Simd(scalar_kind)]);
        module.add_record(Record { name: String::from_str(name), fields: layout });
        assert(module.records@.drop_last() =~= old(module).records@);
        let packed = c_simd_definition(c_elem_ty, Ty::Scalar(scalar_kind).size());
        ccontext.prelude_code.add(packed.as_str());
        let mut def = Code::new();
        def.add("typedef struct {");
        def.add(concat2(c_elem_ty, " scalar;").as_str());
        let mut lane = c_simd_type(c_elem_ty, WIDTH);
        lane.append(" vector;");
        def.add(lane.as_str());
        def.add(concat3("} ", name, ";").as_str());
        ccontext.prelude_code.add(def.result());
        Merger {
            name: String::from_str(name),
            op,
            merger_ty: Ty::Record(String::from_str(name), 2 * Ty::Simd(scalar_kind).size()),
            elem_ty,
            c_elem_ty: String::from_str(c_elem_ty),
            scalar_kind,
            new: None,
            merge: None,
            vmerge: None,
            result: None,
        }
    }

    /// The entry of the given routine, if it was generated.
    pub open spec fn routine(&self, which: Part) -> Option<FuncRef> {
        match which {
            Part::New => self.new,
            Part::Merge => self.merge,
            Part::Vmerge => self.vmerge,
            Part::Result => self.result,
        }
    }

    /// What the generation of a routine does: nothing where the routine was
    /// generated before; otherwise it adds the routine to the module and its
    /// definition to the prelude of the source text. Either way the routine
    /// does what it is meant to do.
    pub open spec fn generated(
        &self,
        old: &Merger,
        m: &Module,
        old_m: &Module,
        c: &CContext,
        old_c: &CContext,
        which: Part,
    ) -> bool {
        &&& self.wf(m)
        &&& self.means(m, which)
        &&& self.same_type(old)
        &&& self.routine(which) is Some
        &&& forall|other: Part| other != which ==> self.routine(other) == old.routine(other)
        &&& c.body_code == old_c.body_code
        &&& c.var_ids == old_c.var_ids
        &&& if old.routine(which) is Some {
            &&& *self == *old
            &&& *m == *old_m
            &&& c.prelude_code == old_c.prelude_code
        } else {
            &&& m.extends(*old_m, 1)
            &&& m.records == old_m.records
            &&& (self.routine(which)->0).0 == old_m.funcs@.len()
            &&& c.prelude_code@ == old_c.prelude_code@.add(self.c_definition(which))
        }
    }

    /// Generates the `new` method on mergers and calls it.
    ///
    /// The routine returns the merger whose scalar lane holds the initial
    /// element and whose vector lanes hold the identity of the operator. An
    /// operator without an identity at the scalar kind is an error, and then
    /// nothing is generated.
    pub fn gen_new(
        &mut self,
        builder: &mut Builder,
        module: &mut Module,
        ccontext: &mut CContext,
        init: Value,
    ) -> (r: Result<Value, WeldError>)
        requires
            old(self).wf(old(module)),
        ensures
            identity(old(self).op, old(self).scalar_kind) is Some ==> {
                &&& final(self).generated(
                    old(self),
                    final(module),
                    old(module),
                    final(ccontext),
                    old(ccontext),
                    Part::New,
                )
                &&& r == Ok::<Value, WeldError>(
                    Value::Local(old(builder).insts@.len() as usize),
                )
                &&& final(builder).calls(*old(builder), final(self).new->0, seq![init])
            },
            identity(old(self).op, old(self).scalar_kind) is None ==> {
                &&& r == Err::<Value, WeldError>(
                    WeldError::NoIdentity(old(self).op, old(self).scalar_kind),
                )
                &&& *final(self) == *old(self)
                &&& *final(module) == *old(module)
                &&& *final(ccontext) == *old(ccontext)
                &&& *final(builder) == *old(builder)
            },
    {
        if self.new.is_none() {
            let identity = match binop_identity(self.op, self.scalar_kind) {
                Ok(Value::Const(_, bits)) => bits,
                Ok(_) => unreached(),
                Err(e) => {
                    return Err(e);
                },
            };
            let ret_ty = self.merger_ty.duplicate();
            let mut arg_tys: Vec<Ty> = Vec::new();
            arg_tys.push(self.elem_ty.duplicate());
            assert(arg_tys@ =~= seq![self.elem_ty]);
            let c_arg_tys = self.c_parameter_types(Part::New);
            let name = concat2(self.name.as_str(), ".new");
            let (mut function, mut body, c_code) = define_function(
                ret_ty,
                self.c_return_type(Part::New).as_str(),
                arg_tys,
                &c_arg_tys,
                name,
                self.c_routine_name(Part::New).as_str(),
                false,
            );
            let statements = self.c_body(Part::New);
            define_in_prelude(ccontext, c_code, &statements);
            let vector_identity = Value::Splat(self.scalar_kind, identity);
            let blank = body.push(Inst::Undef(self.merger_ty.duplicate()));
            let one = body.push(Inst::InsertValue(blank, Value::Param(0), SCALAR_INDEX));
            let result = body.push(Inst::InsertValue(one, vector_identity, VECTOR_INDEX));
            body.push(Inst::Ret(result));
            assert(body.insts@ =~= self.new_body());
            assert(function.attrs@ =~= Seq::empty());
            function.body = Some(body.insts);
            let f = module.add_function(function);
            self.new = Some(f);
        }
        let mut args: Vec<Value> = Vec::new();
        args.push(init);
        assert(args@ =~= seq![init]);
        let v = builder.push(Inst::Call(self.new.unwrap(), args));
        assert(builder.insts@.drop_last() =~= old(builder).insts@);
        proof {
            self.lemma_means(module, Part::New);
        }
        Ok(v)
    }

    /// Builds the routine that merges a value into a lane and returns its
    /// entry.
    ///
    /// The routine is the same for the scalar and the vector lane; `gep_index`
    /// determines which one is generated. Where the operator cannot be
    /// applied, nothing is generated.
    fn gen_merge_internal(
        &self,
        module: &mut Module,
        ccontext: &mut CContext,
        name: String,
        arguments: Vec<Ty>,
        which: Part,
        gep_index: u32,
    ) -> (r: Result<FuncRef, WeldError>)
        requires
            which == Part::Merge || which == Part::Vmerge,
        ensures
            final(ccontext).body_code == old(ccontext).body_code,
            final(ccontext).var_ids == old(ccontext).var_ids,
            supported(self.op, self.scalar_kind) ==> {
                &&& final(ccontext).prelude_code@ == old(ccontext).prelude_code@.add(
                    self.c_definition(which),
                )
                &&& r is Ok
                &&& (r->Ok_0).0 == old(module).funcs@.len()
                &&& final(module).extends(*old(module), 1)
                &&& final(module).records == old(module).records
                &&& final(module).funcs@.last().defines(
                    name@,
                    arguments@,
                    Ty::Void,
                    seq![(Place::Function, Attr::AlwaysInline)],
                )
                &&& final(module).funcs@.last().body->0@ == self.merge_body(gep_index)
            },
            !supported(self.op, self.scalar_kind) ==> {
                &&& r == Err::<FuncRef, WeldError>(
                    WeldError::UnsupportedOperator(self.op, self.scalar_kind),
                )
                &&& *final(module) == *old(module)
                &&& *final(ccontext) == *old(ccontext)
            },
    {
        let ret_ty = Ty::Void;
        let c_arguments = self.c_parameter_types(which);
        let (mut function, mut body, c_code) = define_function(
            ret_ty,
            self.c_return_type(which).as_str(),
            arguments,
            &c_arguments,
            name,
            self.c_routine_name(which).as_str(),
            false,
        );
        function.attrs.push((Place::Function, Attr::AlwaysInline));
        assert(function.attrs@ =~= seq![(Place::Function, Attr::AlwaysInline)]);

        // Load the lane, apply the binary operator, and then store it back.
        let elem_pointer = body.push(Inst::StructGep(Value::Param(0), gep_index));
        let elem = body.push(Inst::Load(elem_pointer));
        let result = match gen_binop(
            &mut body,
            self.op,
            elem,
            Value::Param(1),
            &Type::Simd(self.scalar_kind),
        ) {
            Ok(result) => result,
            Err(e) => {
                return Err(e);
            },
        };
        body.push(Inst::Store(result, elem_pointer));
        body.push(Inst::RetVoid);
        assert(body.insts@ =~= self.merge_body(gep_index));
        let statements = self.c_body(which);
        define_in_prelude(ccontext, c_code, &statements);
        function.body = Some(body.insts);
        Ok(module.add_function(function))
    }

    /// Generates the routine that merges a value into the merger, and calls
    /// it on the pointer `builder` to a merger. `vectorized` says that the
    /// value is a SIMD value, which is merged into the vector lane; a scalar
    /// is merged into the scalar lane. An operator that cannot be applied at
    /// the scalar kind is an error, and then nothing is generated.
    pub fn gen_merge(
        &mut self,
        llvm_builder: &mut Builder,
        module: &mut Module,
        ccontext: &mut CContext,
        builder: Value,
        value: Value,
        vectorized: bool,
    ) -> (r: Result<Value, WeldError>)
        requires
            old(self).wf(old(module)),
        ensures
            supported(old(self).op, old(self).scalar_kind) ==> {
                let which = if vectorized {
                    Part::Vmerge
                } else {
                    Part::Merge
                };
                &&& final(self).generated(
                    old(self),
                    final(module),
                    old(module),
                    final(ccontext),
                    old(ccontext),
                    which,
                )
                &&& r == Ok::<Value, WeldError>(
                    Value::Local(old(llvm_builder).insts@.len() as usize),
                )
                &&& final(llvm_builder).calls(
                    *old(llvm_builder),
                    final(self).routine(which)->0,
                    seq![builder, value],
                )
            },
            !supported(old(self).op, old(self).scalar_kind) ==> {
                &&& r == Err::<Value, WeldError>(
                    WeldError::UnsupportedOperator(old(self).op, old(self).scalar_kind),
                )
                &&& *final(self) == *old(self)
                &&& *final(module) == *old(module)
                &&& *final(ccontext) == *old(ccontext)
                &&& *final(llvm_builder) == *old(llvm_builder)
            },
    {
        let mut args: Vec<Value> = Vec::new();
        args.push(builder);
        args.push(value);
        assert(args@ =~= seq![builder, value]);
        if vectorized {
            if self.vmerge.is_none() {
                let mut arg_tys: Vec<Ty> = Vec::new();
                arg_tys.push(self.merger_ty.pointer());
                arg_tys.push(Ty::Simd(self.scalar_kind));
                assert(arg_tys@ =~= seq![self.merger_pointer(), Ty::Simd(self.scalar_kind)]);
                let name = concat2(self.name.as_str(), ".vmerge");
                match self.gen_merge_internal(
                    module,
                    ccontext,
                    name,
                    arg_tys,
                    Part::Vmerge,
                    VECTOR_INDEX,
                ) {
                    Ok(f) => {
                        self.vmerge = Some(f);

                    },
                    Err(e) => {
                        return Err(e);
                    },
                }
                proof {
                    old(self).lemma_wf_extends(old(module), module, 1);
                }
            }
            let v = llvm_builder.push(Inst::Call(self.vmerge.unwrap(), args));
            assert(llvm_builder.insts@.drop_last() =~= old(llvm_builder).insts@);
            proof {
                self.lemma_means(module, Part::Vmerge);
            }
            Ok(v)
        } else {
            if self.merge.is_none() {
                let mut arg_tys: Vec<Ty> = Vec::new();
                arg_tys.push(self.merger_ty.pointer());
                arg_tys.push(self.elem_ty.duplicate());
                assert(arg_tys@ =~= seq![self.merger_pointer(), self.elem_ty]);
                let name = concat2(self.name.as_str(), ".merge");
                match self.gen_merge_internal(
                    module,
                    ccontext,
                    name,
                    arg_tys,
                    Part::Merge,
                    SCALAR_INDEX,
                ) {
                    Ok(f) => {
                        self.merge = Some(f);

                    },
                    Err(e) => {
                        return Err(e);
                    },
                }
                proof {
                    old(self).lemma_wf_extends(old(module), module, 1);
                }
            }
            let v = llvm_builder.push(Inst::Call(self.merge.unwrap(), args));
            assert(llvm_builder.insts@.drop_last() =~= old(llvm_builder).insts@);
            proof {
                self.lemma_means(module, Part::Merge);
            }
            Ok(v)
        }
    }

    /// Generates the `result` method on mergers and calls it on the pointer
    /// `builder` to a merger.
    ///
    /// The routine combines the scalar lane with each vector lane, in the
    /// order of the lanes, and returns the final value. An operator that
    /// cannot be applied at the scalar kind is an error, and then nothing is
    /// generated.
    pub fn gen_result(
        &mut self,
        llvm_builder: &mut Builder,
        module: &mut Module,
        ccontext: &mut CContext,
        builder: Value,
    ) -> (r: Result<Value, WeldError>)
        requires
            old(self).wf(old(module)),
        ensures
            supported(old(self).op, old(self).scalar_kind) ==> {
                &&& final(self).generated(
                    old(self),
                    final(module),
                    old(module),
                    final(ccontext),
                    old(ccontext),
                    Part::Result,
                )
                &&& r == Ok::<Value, WeldError>(
                    Value::Local(old(llvm_builder).insts@.len() as usize),
                )
                &&& final(llvm_builder).calls(
                    *old(llvm_builder),
                    final(self).result->0,
                    seq![builder],
                )
            },
            !supported(old(self).op, old(self).scalar_kind) ==> {
                &&& r == Err::<Value, WeldError>(
                    WeldError::UnsupportedOperator(old(self).op, old(self).scalar_kind),
                )
                &&& *final(self) == *old(self)
                &&& *final(module) == *old(module)
                &&& *final(ccontext) == *old(ccontext)
                &&& *final(llvm_builder) == *old(llvm_builder)
            },
    {
        if self.result.is_none() {
            let ret_ty = self.elem_ty.duplicate();
            let mut arg_tys: Vec<Ty> = Vec::new();
            arg_tys.push(self.merger_ty.pointer());
            assert(arg_tys@ =~= seq![self.merger_pointer()]);
            let c_arg_tys = self.c_parameter_types(Part::Result);
            let name = concat2(self.name.as_str(), ".result");
            let (mut function, mut body, c_code) = define_function(
                ret_ty,
                self.c_return_type(Part::Result).as_str(),
                arg_tys,
                &c_arg_tys,
                name,
                self.c_routine_name(Part::Result).as_str(),
                false,
            );

            // Load the scalar lane and the vector lane.
            let builder_pointer = Value::Param(0);
            let scalar_pointer = body.push(Inst::StructGep(builder_pointer, SCALAR_INDEX));
            let mut result = body.push(Inst::Load(scalar_pointer));
            let vector_pointer = body.push(Inst::StructGep(builder_pointer, VECTOR_INDEX));
            let vector = body.push(Inst::Load(vector_pointer));

            let ghost full = self.result_body();
            let mut i: u32 = 0;
            while i < WIDTH
                invariant
                    i <= WIDTH,
                    full == self.result_body(),
                    supported(self.op, self.scalar_kind) || i == 0,
                    vector == Value::Local(3),
                    body.insts@ == full.take(4 + 2 * i),
                    result == Value::Local((3 + 2 * i) as usize) || (i == 0 && result
                        == Value::Local(1)),
                    i > 0 ==> result == Value::Local((3 + 2 * i) as usize),
                    i == 0 ==> result == Value::Local(1),
                    *self == *old(self),
                    *module == *old(module),
                    *ccontext == *old(ccontext),
                    *llvm_builder == *old(llvm_builder),
                decreases WIDTH - i,
            {
                let vector_element = body.push(
                    Inst::ExtractElement(vector, Value::Const(ScalarKind::I32, i as u64)),
                );
                result = match gen_binop(
                    &mut body,
                    self.op,
                    result,
                    vector_element,
                    &Type::Scalar(self.scalar_kind),
                ) {
                    Ok(result) => result,
                    Err(e) => {
                        return Err(e);
                    },
                };
                assert(body.insts@ =~= full.take(4 + 2 * (i + 1)));
                i = i + 1;
            }
            body.push(Inst::Ret(result));
            assert(body.insts@ =~= self.result_body());
            assert(function.attrs@ =~= Seq::empty());
            let statements = self.c_body(Part::Result);
            define_in_prelude(ccontext, c_code, &statements);
            function.body = Some(body.insts);
            let f = module.add_function(function);
            self.result = Some(f);
            proof {
                old(self).lemma_wf_extends(old(module), module, 1);
            }
        }
        let mut args: Vec<Value> = Vec::new();
        args.push(builder);
        assert(args@ =~= seq![builder]);
        let v = llvm_builder.push(Inst::Call(self.result.unwrap(), args));
        assert(llvm_builder.insts@.drop_last() =~= old(llvm_builder).insts@);
        proof {
            self.lemma_means(module, Part::Result);
        }
        Ok(v)
    }
}

} // verus!
