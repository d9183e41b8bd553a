//! The code generator: one module, the source text that goes with it, the
//! registry of intrinsics, and the vector types that were instantiated so
//! far, at most one for each element type.

use vstd::prelude::*;
use vstd::string::StringExecFns;
use crate::context::CContext;
use crate::context::c_scalar_type;
use crate::context::c_simd_type;
use crate::context::spec_c_scalar_type;
use crate::context::spec_c_simd_definition;
use crate::ir::scalar_bytes;
use crate::code::CodeView;
use crate::host::resolve;
use crate::intrinsic::default_prelude;
use crate::vector::c_vector_type;
use crate::error::WeldError;
use crate::host::Callee;
use crate::host::HostFn;
use crate::intrinsic::Intrinsics;
use crate::ir::Builder;
use crate::ir::FuncRef;
use crate::ir::Module;
use crate::ir::Ty;
use crate::ir::Value;
use crate::kinds::Type;
use crate::kinds::WIDTH;
use crate::text::decimal;
use crate::text::digits;
use crate::vector::Routine;
use crate::vector::Vector;
use vstd::pervasive::unreached;

verus! {

/// The name in source text of an element type that is a scalar or a SIMD
/// type.
pub open spec fn spec_c_elem_type(elem: Type) -> Seq<char> {
    match elem {
        Type::Scalar(kind) => spec_c_scalar_type(kind),
        Type::Simd(kind) => spec_c_scalar_type(kind) + "x"@ + digits(WIDTH as nat),
        Type::Vector(_) => Seq::empty(),
    }
}

/// The code generator.
pub struct CGenerator {
    pub module: Module,
    pub ccontext: CContext,
    pub intrinsics: Intrinsics,
    /// The vector types by element type.
    pub vectors: Vec<(Type, Vector)>,
}

/// Vector types stay consistent when routines are added to the module.
pub proof fn lemma_vectors_stay(vectors: Seq<(Type, Vector)>, old: &Module, new: &Module, n: nat)
    requires
        forall|i: int| 0 <= i < vectors.len() ==> (#[trigger] vectors[i]).1.wf(old),
        new.extends(*old, n),
    ensures
        forall|i: int| 0 <= i < vectors.len() ==> (#[trigger] vectors[i]).1.wf(new),
{
    assert forall|i: int| 0 <= i < vectors.len() implies (#[trigger] vectors[i]).1.wf(new) by {
        vectors[i].1.lemma_wf_extends(old, new, n);
    }
}

impl CGenerator {
    /// The position of the vector type with the given element type.
    pub open spec fn position(&self, elem: Type, i: int) -> bool {
        0 <= i < self.vectors@.len() && self.vectors@[i].0 == elem
    }

    /// Whether a vector type with the given element type was instantiated.
    pub open spec fn has(&self, elem: Type) -> bool {
        exists|i: int| self.position(elem, i)
    }

    /// The vector type with the given element type.
    pub open spec fn vector(&self, elem: Type) -> Vector {
        self.vectors@[choose|i: int| self.position(elem, i)].1
    }

    /// Whether the generator is consistent: the intrinsics that the vector
    /// routines call are registered, each vector type is consistent with the
    /// module, and no two vector types have the same element type.
    pub open spec fn wf(&self) -> bool {
        &&& self.intrinsics.wf(&self.module)
        &&& self.intrinsics@.contains_key(HostFn::Malloc.spec_name())
        &&& self.intrinsics@.contains_key(HostFn::Realloc.spec_name())
        &&& self.intrinsics@.contains_key(Callee::Memcpy.spec_name())
        &&& forall|i: int|
            0 <= i < self.vectors@.len() ==> (#[trigger] self.vectors@[i]).1.wf(&self.module)
        &&& forall|i: int|
            0 <= i < self.vectors@.len() ==> holds_elements(
                (#[trigger] self.vectors@[i]).1,
                self.vectors@[i].0,
            )
        &&& forall|i: int, j: int|
            0 <= i < j < self.vectors@.len() ==> (#[trigger] self.vectors@[i]).0
                != (#[trigger] self.vectors@[j]).0
    }

    /// A generator whose module declares the default intrinsics and nothing
    /// else, and whose source text defines them.
    pub fn new() -> (g: CGenerator)
        ensures
            g.wf(),
            g.vectors@.len() == 0,
            g.module.funcs@.len() == 12,
            g.module.records@.len() == 0,
            g.intrinsics.has_defaults(&g.module, 0),
            forall|name: Seq<char>| g.intrinsics@.contains_key(name) ==> resolve(name) is Some,
            g.ccontext.prelude_code@ == default_prelude(CodeView::empty(), 12),
            g.ccontext.body_code@ == CodeView::empty(),
            g.ccontext.var_ids.prefix@ == "t"@,
            g.ccontext.var_ids.next_id == 0,
    {
        let mut module = Module::new();
        let mut ccontext = CContext::new();
        let intrinsics = Intrinsics::defaults(&mut module, &mut ccontext);
        proof {
            assert(intrinsics.has_default(&module, 0, 3));
            assert(intrinsics.has_default(&module, 0, 4));
            assert(intrinsics.has_default(&module, 0, 10));
        }
        CGenerator { module, ccontext, intrinsics, vectors: Vec::new() }
    }

    /// The position of the vector type with the given element type, if it
    /// was instantiated.
    pub fn find(&self, elem: &Type) -> (r: Option<usize>)
        ensures
            match r {
                Some(i) => self.position(*elem, i as int),
                None => !self.has(*elem),
            },
    {
        let mut i: usize = 0;
        while i < self.vectors.len()
            invariant
                i <= self.vectors@.len(),
                forall|j: int| 0 <= j < i ==> self.vectors@[j].0 != *elem,
            decreases self.vectors.len() - i,
        {
            if self.vectors[i].0.same(elem) {
                return Some(i);
            }
            i = i + 1;
        }
        None
    }

    /// Instantiates the vector type with the given element type, unless it
    /// was instantiated before, and returns its position. A vector type whose
    /// elements are vectors comes after the vector type of its elements.
    pub fn instantiate(&mut self, elem: &Type) -> (r: usize)
        requires
            old(self).wf(),
        ensures
            final(self).wf(),
            final(self).position(*elem, r as int),
            final(self).vectors@.len() >= old(self).vectors@.len(),
            final(self).vectors@.take(old(self).vectors@.len() as int) == old(self).vectors@,
            forall|i: int|
                old(self).vectors@.len() <= i < final(self).vectors@.len() ==> depth(
                    (#[trigger] final(self).vectors@[i]).0,
                ) <= depth(*elem),
            old(self).has(*elem) ==> final(self).vectors@ == old(self).vectors@,
            old(self).has(*elem) ==> final(self).module == old(self).module,
            old(self).has(*elem) ==> final(self).ccontext == old(self).ccontext,
            final(self).module.funcs == old(self).module.funcs,
            final(self).intrinsics == old(self).intrinsics,
            final(self).ccontext.body_code == old(self).ccontext.body_code,
            final(self).ccontext.var_ids == old(self).ccontext.var_ids,
            final(self).module.records@.len() - old(self).module.records@.len() == final(self)
                .vectors@.len() - old(self).vectors@.len(),
            forall|i: int|
                old(self).vectors@.len() <= i < final(self).vectors@.len() ==> (
                #[trigger] final(self).vectors@[i]).1.name@ == "vec"@ + digits(i as nat),
            !old(self).has(*elem) && !(*elem is Vector) ==> {
                &&& final(self).vectors@.len() == old(self).vectors@.len() + 1
                &&& final(self).ccontext.prelude_code@ == (match *elem {
                    Type::Scalar(kind) => old(self).ccontext.prelude_code@.add(
                        spec_c_simd_definition(spec_c_scalar_type(kind), scalar_bytes(kind)),
                    ),
                    _ => old(self).ccontext.prelude_code@,
                }).add(
                    c_vector_type(
                        spec_c_elem_type(*elem),
                        "vec"@ + digits(old(self).vectors@.len()),
                    ),
                )
            },
        decreases *elem,
    {
        match self.find(elem) {
            Some(i) => {
                assert(self.vectors@.take(self.vectors@.len() as int) =~= self.vectors@);
                return i;
            },
            None => {},
        }
        let (elem_ty, c_elem_ty) = match elem {
            Type::Scalar(kind) => (Ty::Scalar(*kind), String::from_str(c_scalar_type(*kind))),
            Type::Simd(kind) => (Ty::Simd(*kind), c_simd_type(c_scalar_type(*kind), WIDTH)),
            Type::Vector(inner) => {
                let i = self.instantiate(inner);
                (self.vectors[i].1.vector_ty.duplicate(), self.vectors[i].1.name.clone())
            },
        };
        proof {
            assert forall|i: int| 0 <= i < self.vectors@.len() implies self.vectors@[i].0
                != *elem by {
                if i < old(self).vectors@.len() {
                    assert(self.vectors@[i] == self.vectors@.take(
                        old(self).vectors@.len() as int,
                    )[i]);
                    assert(!old(self).position(*elem, i));
                }
            }
        }
        let mut name = String::from_str("vec");
        let number = decimal(self.vectors.len() as u64);
        name.append(number.as_str());
        let ghost before = self.vectors@;
        let ghost module_before = self.module;
        let vector = Vector::define(
            name.as_str(),
            elem_ty,
            c_elem_ty,
            &mut self.module,
            &mut self.ccontext,
        );
        proof {
            assert(self.module.records@.drop_last() == module_before.records@);
            assert(self.module.extends(module_before, 0));
            lemma_vectors_stay(before, &module_before, &self.module, 0);
            self.intrinsics.lemma_wf_extends(&module_before, &self.module, 0);
        }
        self.vectors.push((elem.duplicate(), vector));
        assert(self.vectors@.take(old(self).vectors@.len() as int) =~= old(self).vectors@);
        self.vectors.len() - 1
    }
}

/// Whether the elements of the vector type are of the given type.
pub open spec fn holds_elements(vector: Vector, elem: Type) -> bool {
    match elem {
        Type::Scalar(kind) => vector.elem_ty == Ty::Scalar(kind),
        Type::Simd(kind) => vector.elem_ty == Ty::Simd(kind),
        Type::Vector(_) => vector.elem_ty is Record,
    }
}

/// Number of vector types that a type is nested in.
pub open spec fn depth(ty: Type) -> nat
    decreases ty,
{
    match ty {
        Type::Vector(elem) => 1 + depth(*elem),
        _ => 0,
    }
}

/// Extensions for generating methods on vectors.
///
/// This provides convenience wrappers for calling methods on vectors. The
/// `vector_type` is the vector type (not the element type), and it must have
/// been instantiated. Each method generates the routine unless it was
/// generated before, and appends a call of it.
pub trait VectorExt {
    /// Whether the vector type was instantiated, so that its methods can be
    /// generated.
    spec fn ready(&self, vector_type: &Type) -> bool;

    /// The entry of a routine of the vector type, if it was generated.
    spec fn entry(&self, vector_type: &Type, which: Routine) -> Option<FuncRef>;

    /// The name of `at` of the vector type in source text.
    spec fn c_at(&self, vector_type: &Type) -> Seq<char>;

    /// The name of `size` of the vector type in source text.
    spec fn c_size(&self, vector_type: &Type) -> Seq<char>;

    fn gen_new(&mut self, builder: &mut Builder, vector_type: &Type, size: Value, run: Value) -> (r: Result<
        Value,
        WeldError,
    >)
        requires
            old(self).ready(vector_type),
        ensures
            final(self).ready(vector_type),
            final(self).entry(vector_type, Routine::New) is Some,
            r == Ok::<Value, WeldError>(Value::Local(old(builder).insts@.len() as usize)),
            final(builder).calls(
                *old(builder),
                final(self).entry(vector_type, Routine::New)->0,
                seq![size, run],
            ),
    ;

    fn gen_clone(&mut self, builder: &mut Builder, vector_type: &Type, vec: Value, run: Value) -> (r: Result<
        Value,
        WeldError,
    >)
        requires
            old(self).ready(vector_type),
        ensures
            final(self).ready(vector_type),
            final(self).entry(vector_type, Routine::Clone) is Some,
            r == Ok::<Value, WeldError>(Value::Local(old(builder).insts@.len() as usize)),
            final(builder).calls(
                *old(builder),
                final(self).entry(vector_type, Routine::Clone)->0,
                seq![vec, run],
            ),
    ;

    fn gen_at(&mut self, builder: &mut Builder, vector_type: &Type, vec: Value, index: Value) -> (r: Result<
        Value,
        WeldError,
    >)
        requires
            old(self).ready(vector_type),
        ensures
            final(self).ready(vector_type),
            final(self).entry(vector_type, Routine::At) is Some,
            r == Ok::<Value, WeldError>(Value::Local(old(builder).insts@.len() as usize)),
            final(builder).calls(
                *old(builder),
                final(self).entry(vector_type, Routine::At)->0,
                seq![vec, index],
            ),
    ;

    fn c_gen_at(&mut self, vector_type: &Type, vec: &str, index: &str) -> (r: Result<String, WeldError>)
        requires
            old(self).ready(vector_type),
        ensures
            final(self).ready(vector_type),
            final(self).entry(vector_type, Routine::At) is Some,
            r matches Ok(text) && text@ == final(self).c_at(vector_type) + "(&"@
                + vec@ + ", "@ + index@ + ")"@,
    ;

    fn gen_vat(&mut self, builder: &mut Builder, vector_type: &Type, vec: Value, index: Value) -> (r: Result<
        Value,
        WeldError,
    >)
        requires
            old(self).ready(vector_type),
        ensures
            final(self).ready(vector_type),
            (*vector_type->Vector_0) is Scalar ==> {
                &&& final(self).entry(vector_type, Routine::Vat) is Some
                &&& r == Ok::<Value, WeldError>(
                    Value::Local(old(builder).insts@.len() as usize),
                )
                &&& final(builder).calls(
                    *old(builder),
                    final(self).entry(vector_type, Routine::Vat)->0,
                    seq![vec, index],
                )
            },
            !((*vector_type->Vector_0) is Scalar) ==> {
                &&& r == Err::<Value, WeldError>(WeldError::NotNumeric)
                &&& *final(builder) == *old(builder)
            },
    ;

    fn gen_size(&mut self, builder: &mut Builder, vector_type: &Type, vec: Value) -> (r: Result<
        Value,
        WeldError,
    >)
        requires
            old(self).ready(vector_type),
        ensures
            final(self).ready(vector_type),
            final(self).entry(vector_type, Routine::Size) is Some,
            r == Ok::<Value, WeldError>(Value::Local(old(builder).insts@.len() as usize)),
            final(builder).calls(
                *old(builder),
                final(self).entry(vector_type, Routine::Size)->0,
                seq![vec],
            ),
    ;

    fn c_gen_size(&mut self, vector_type: &Type, vec: &str) -> (r: Result<String, WeldError>)
        requires
            old(self).ready(vector_type),
        ensures
            final(self).ready(vector_type),
            final(self).entry(vector_type, Routine::Size) is Some,
            r matches Ok(text) && text@ == final(self).c_size(vector_type) + "(&"@
                + vec@ + ")"@,
    ;

    fn gen_extend(&mut self, builder: &mut Builder, vector_type: &Type, vec: Value, size: Value, run: Value) -> (r: Result<
        Value,
        WeldError,
    >)
        requires
            old(self).ready(vector_type),
        ensures
            final(self).ready(vector_type),
            final(self).entry(vector_type, Routine::Extend) is Some,
            r == Ok::<Value, WeldError>(Value::Local(old(builder).insts@.len() as usize)),
            final(builder).calls(
                *old(builder),
                final(self).entry(vector_type, Routine::Extend)->0,
                seq![vec, size, run],
            ),
    ;
}

impl CGenerator {
    /// The position of the vector type, which was instantiated.
    fn locate(&self, vector_type: &Type) -> (i: usize)
        requires
            vector_type is Vector,
            self.has(*vector_type->Vector_0),
        ensures
            self.position(*vector_type->Vector_0, i as int),
    {
        match vector_type {
            Type::Vector(elem) => match self.find(elem) {
                Some(i) => i,
                None => unreached(),
            },
            _ => unreached(),
        }
    }

    /// Whether this generator is `old` after the vector type at `i` generated
    /// a routine: the vector types have the element types they had, and the
    /// others are as they were.
    pub open spec fn advanced(&self, old: &CGenerator, i: int) -> bool {
        &&& self.vectors@.len() == old.vectors@.len()
        &&& self.vectors@[i].0 == old.vectors@[i].0
        &&& forall|j: int| 0 <= j < old.vectors@.len() && j != i ==> self.vectors@[j]
            == old.vectors@[j]
        &&& self.intrinsics == old.intrinsics
    }

    /// No two positions hold the same element type.
    pub proof fn lemma_position_is_unique(&self, elem: Type, i: int)
        requires
            self.wf(),
            self.position(elem, i),
        ensures
            self.vector(elem) == self.vectors@[i].1,
    {
        let j = choose|j: int| self.position(elem, j);
        if i < j {
            assert(self.vectors@[i].0 != self.vectors@[j].0);
        }
        if j < i {
            assert(self.vectors@[j].0 != self.vectors@[i].0);
        }
    }

    proof fn lemma_advanced(&self, old: &CGenerator, i: int, n: nat)
        requires
            old.wf(),
            0 <= i < old.vectors@.len(),
            self.advanced(old, i),
            self.module.extends(old.module, n),
            self.vectors@[i].1.wf(&self.module),
            self.vectors@[i].1.elem_ty == old.vectors@[i].1.elem_ty,
        ensures
            self.wf(),
            forall|elem: Type| old.has(elem) ==> self.has(elem),
            self.vector(self.vectors@[i].0) == self.vectors@[i].1,
    {
        self.intrinsics.lemma_wf_extends(&old.module, &self.module, n);
        assert forall|j: int| 0 <= j < self.vectors@.len() implies (
        #[trigger] self.vectors@[j]).1.wf(&self.module) by {
            if j != i {
                old.vectors@[j].1.lemma_wf_extends(&old.module, &self.module, n);
            }
        }
        assert forall|elem: Type| old.has(elem) implies self.has(elem) by {
            let j = choose|j: int| old.position(elem, j);
            assert(self.position(elem, j));
        }
        self.lemma_position_is_unique(self.vectors@[i].0, i);
    }
}

impl VectorExt for CGenerator {
    open spec fn ready(&self, vector_type: &Type) -> bool {
        self.wf() && vector_type is Vector && self.has(*vector_type->Vector_0)
    }

    open spec fn entry(&self, vector_type: &Type, which: Routine) -> Option<FuncRef> {
        self.vector(*vector_type->Vector_0).routine(which)
    }

    open spec fn c_at(&self, vector_type: &Type) -> Seq<char> {
        self.vector(*vector_type->Vector_0).c_at@
    }

    open spec fn c_size(&self, vector_type: &Type) -> Seq<char> {
        self.vector(*vector_type->Vector_0).c_size@
    }

    fn gen_new(&mut self, builder: &mut Builder, vector_type: &Type, size: Value, run: Value) -> (r: Result<
        Value,
        WeldError,
    >)
    {
        let i = self.locate(vector_type);
        let ghost before = *self;
        proof {
            assert(holds_elements(before.vectors@[i as int].1, before.vectors@[i as int].0));
        }
        let methods = &mut self.vectors[i].1;
        let r = methods.gen_new(
            builder,
            &mut self.intrinsics,
            &mut self.module,
            &mut self.ccontext,
            run,
            size,
        );
        proof {
            if self.module == before.module {
                assert(self.module.extends(before.module, 0));
                self.lemma_advanced(&before, i as int, 0);
            } else {
                self.lemma_advanced(&before, i as int, 1);
            }
        }
        r
    }

    fn gen_clone(&mut self, builder: &mut Builder, vector_type: &Type, vec: Value, run: Value) -> (r: Result<
        Value,
        WeldError,
    >)
    {
        let i = self.locate(vector_type);
        let ghost before = *self;
        proof {
            assert(holds_elements(before.vectors@[i as int].1, before.vectors@[i as int].0));
        }
        let methods = &mut self.vectors[i].1;
        let r = methods.gen_clone(
            builder,
            &mut self.intrinsics,
            &mut self.module,
            &mut self.ccontext,
            vec,
            run,
        );
        proof {
            if self.module == before.module {
                assert(self.module.extends(before.module, 0));
                self.lemma_advanced(&before, i as int, 0);
            } else {
                self.lemma_advanced(&before, i as int, 1);
            }
        }
        r
    }

    fn gen_at(&mut self, builder: &mut Builder, vector_type: &Type, vec: Value, index: Value) -> (r: Result<
        Value,
        WeldError,
    >)
    {
        let i = self.locate(vector_type);
        let ghost before = *self;
        proof {
            assert(holds_elements(before.vectors@[i as int].1, before.vectors@[i as int].0));
        }
        let methods = &mut self.vectors[i].1;
        let r = methods.gen_at(builder, &mut self.module, &mut self.ccontext, vec, index);
        proof {
            if self.module == before.module {
                assert(self.module.extends(before.module, 0));
                self.lemma_advanced(&before, i as int, 0);
            } else {
                self.lemma_advanced(&before, i as int, 1);
            }
        }
        r
    }

    fn c_gen_at(&mut self, vector_type: &Type, vec: &str, index: &str) -> (r: Result<String, WeldError>)
    {
        let i = self.locate(vector_type);
        let ghost before = *self;
        proof {
            assert(holds_elements(before.vectors@[i as int].1, before.vectors@[i as int].0));
        }
        let methods = &mut self.vectors[i].1;
        let r = methods.c_gen_at(&mut self.module, &mut self.ccontext, vec, index);
        proof {
            if self.module == before.module {
                assert(self.module.extends(before.module, 0));
                self.lemma_advanced(&before, i as int, 0);
            } else {
                self.lemma_advanced(&before, i as int, 1);
            }
        }
        r
    }

    fn gen_vat(&mut self, builder: &mut Builder, vector_type: &Type, vec: Value, index: Value) -> (r: Result<
        Value,
        WeldError,
    >)
    {
        let i = self.locate(vector_type);
        let ghost before = *self;
        proof {
            assert(holds_elements(before.vectors@[i as int].1, before.vectors@[i as int].0));
        }
        let methods = &mut self.vectors[i].1;
        let r = methods.gen_vat(builder, &mut self.module, &mut self.ccontext, vec, index);
        proof {
            if self.module == before.module {
                assert(self.module.extends(before.module, 0));
                self.lemma_advanced(&before, i as int, 0);
            } else {
                self.lemma_advanced(&before, i as int, 1);
            }
        }
        r
    }

    fn gen_size(&mut self, builder: &mut Builder, vector_type: &Type, vec: Value) -> (r: Result<
        Value,
        WeldError,
    >)
    {
        let i = self.locate(vector_type);
        let ghost before = *self;
        proof {
            assert(holds_elements(before.vectors@[i as int].1, before.vectors@[i as int].0));
        }
        let methods = &mut self.vectors[i].1;
        let r = methods.gen_size(builder, &mut self.module, &mut self.ccontext, vec);
        proof {
            if self.module == before.module {
                assert(self.module.extends(before.module, 0));
                self.lemma_advanced(&before, i as int, 0);
            } else {
                self.lemma_advanced(&before, i as int, 1);
            }
        }
        r
    }

    fn c_gen_size(&mut self, vector_type: &Type, vec: &str) -> (r: Result<String, WeldError>)
    {
        let i = self.locate(vector_type);
        let ghost before = *self;
        proof {
            assert(holds_elements(before.vectors@[i as int].1, before.vectors@[i as int].0));
        }
        let methods = &mut self.vectors[i].1;
        let r = methods.c_gen_size(&mut self.module, &mut self.ccontext, vec);
        proof {
            if self.module == before.module {
                assert(self.module.extends(before.module, 0));
                self.lemma_advanced(&before, i as int, 0);
            } else {
                self.lemma_advanced(&before, i as int, 1);
            }
        }
        r
    }

    fn gen_extend(&mut self, builder: &mut Builder, vector_type: &Type, vec: Value, size: Value, run: Value) -> (r: Result<
        Value,
        WeldError,
    >)
    {
        let i = self.locate(vector_type);
        let ghost before = *self;
        proof {
            assert(holds_elements(before.vectors@[i as int].1, before.vectors@[i as int].0));
        }
        let methods = &mut self.vectors[i].1;
        let r = methods.gen_extend(
            builder,
            &mut self.intrinsics,
            &mut self.module,
            &mut self.ccontext,
            run,
            vec,
            size,
        );
        proof {
            if self.module == before.module {
                assert(self.module.extends(before.module, 0));
                self.lemma_advanced(&before, i as int, 0);
            } else {
                self.lemma_advanced(&before, i as int, 1);
            }
        }
        r
    }
}

} // verus!
