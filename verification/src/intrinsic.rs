//! The registry of intrinsics: functions that generated code calls and that
//! are implemented outside the generated module.
//!
//! An intrinsic is registered under its name. It is either a builtin, which
//! the target supplies, or bound to an entry point of the runtime, which the
//! host supplies when the module is linked.

use vstd::prelude::*;
use vstd::string::StringExecFns;
use fnv::FnvHashMap;
use fnv::FnvHasher;
use std::hash::BuildHasherDefault;
use crate::code::CodeView;
use crate::context::CContext;
use crate::context::c_run_handle_type;
use crate::error::WeldError;
use crate::host::Callee;
use crate::host::HostFn;
use crate::ir::Builder;
use crate::ir::FuncRef;
use crate::ir::Function;
use crate::ir::Inst;
use crate::ir::Module;
use crate::ir::Ty;
use crate::ir::Value;
use crate::kinds::ScalarKind;
use crate::kinds::WIDTH;
use crate::text::decimal;
use crate::text::digits;
use crate::text::views;
use crate::defaults::RUNTIME_TYPES;
use crate::host::resolve;
use crate::host::lemma_names_distinct;
use crate::host::lemma_resolve_name;
use vstd::string::StrSliceExecFns;
use vstd::pervasive::unreached;

verus! {

/// A single intrinsic.
#[derive(Clone, Copy, Debug, PartialEq, Eq, Structural)]
pub enum Intrinsic {
    /// An intrinsic that the target supplies, with its declaration.
    Builtin(FuncRef),
    /// An intrinsic that the host supplies, with its declaration and the
    /// entry point it is bound to.
    FunctionPointer(FuncRef, HostFn),
}

impl Intrinsic {
    /// The declaration of the intrinsic.
    pub open spec fn spec_value(self) -> FuncRef {
        match self {
            Intrinsic::Builtin(f) => f,
            Intrinsic::FunctionPointer(f, _) => f,
        }
    }

    /// The entry point that the intrinsic is bound to, if the host supplies
    /// it.
    pub open spec fn spec_host(self) -> Option<HostFn> {
        match self {
            Intrinsic::Builtin(_) => None,
            Intrinsic::FunctionPointer(_, h) => Some(h),
        }
    }

    pub fn value(&self) -> (f: FuncRef)
        ensures
            f == self.spec_value(),
    {
        match *self {
            Intrinsic::Builtin(f) => f,
            Intrinsic::FunctionPointer(f, _) => f,
        }
    }
}

/// `fnv::FnvHasher`, the hasher of the registry's map. Nothing is claimed of
/// it.
#[verifier::external_type_specification]
#[verifier::external_body]
pub struct ExFnvHasher(FnvHasher);

/// `std::hash::BuildHasherDefault`, which makes the hashers of the
/// registry's map. Nothing is claimed of it.
#[verifier::external_type_specification]
#[verifier::external_body]
#[verifier::reject_recursive_types(H)]
pub struct ExBuildHasherDefault<H>(BuildHasherDefault<H>);

/// The entries of an `fnv::FnvHashMap` from names to intrinsics: which names
/// it holds, and the intrinsic under each.
pub uninterp spec fn table(m: FnvHashMap<String, Intrinsic>) -> Map<Seq<char>, Intrinsic>;

/// The map without entries.
pub open spec fn no_entries() -> Map<Seq<char>, Intrinsic> {
    Map::empty()
}

/// `FnvHashMap::default`: a map without entries.
#[verifier::external_body]
fn table_new() -> (m: FnvHashMap<String, Intrinsic>)
    ensures
        table(m) == no_entries(),
{
    FnvHashMap::default()
}

/// `HashMap::get`: the entry under the key, if there is one.
#[verifier::external_body]
fn table_get(m: &FnvHashMap<String, Intrinsic>, key: &str) -> (r: Option<Intrinsic>)
    ensures
        r == if table(*m).contains_key(key@) {
            Some(table(*m)[key@])
        } else {
            None
        },
{
    m.get(key).copied()
}

/// `HashMap::insert`: afterwards the key maps to the value, and every other
/// key to what it mapped to before.
#[verifier::external_body]
fn table_insert(m: &mut FnvHashMap<String, Intrinsic>, key: String, value: Intrinsic)
    ensures
        table(*final(m)) == table(*old(m)).insert(key@, value),
{
    m.insert(key, value);
}

/// Whether the list holds each entry of the map once.
pub open spec fn lists(v: Seq<(String, Intrinsic)>, t: Map<Seq<char>, Intrinsic>) -> bool {
    &&& forall|i: int|
        0 <= i < v.len() ==> t.contains_key(#[trigger] v[i].0@) && t[v[i].0@] == v[i].1
    &&& forall|k: Seq<char>|
        t.contains_key(k) ==> exists|i: int| 0 <= i < v.len() && #[trigger] v[i].0@ == k
    &&& forall|i: int, j: int| 0 <= i < j < v.len() ==> #[trigger] v[i].0@ != #[trigger] v[j].0@
}

/// `HashMap::iter`: the entries of the map, each once, in the order in which
/// the map happens to hold them.
#[verifier::external_body]
fn table_entries(m: &FnvHashMap<String, Intrinsic>) -> (v: Vec<(String, Intrinsic)>)
    ensures
        lists(v@, table(*m)),
{
    m.iter().map(|(name, entry)| (name.clone(), *entry)).collect()
}

/// The name of a numeric operation among the target's own intrinsics.
pub open spec fn spec_llvm_numeric(name: Seq<char>, kind: ScalarKind, simd: bool) -> Seq<char> {
    "llvm."@ + name + "."@ + (if simd {
        "v"@ + digits(WIDTH as nat)
    } else {
        Seq::empty()
    }) + (match kind {
        ScalarKind::Bool => "i1"@,
        ScalarKind::I8 => "i32"@,
        ScalarKind::I16 => "i16"@,
        ScalarKind::I32 => "i32"@,
        ScalarKind::I64 => "i64"@,
        ScalarKind::U8 => "i32"@,
        ScalarKind::U16 => "i16"@,
        ScalarKind::U32 => "i32"@,
        ScalarKind::U64 => "i64"@,
        ScalarKind::F32 => "f32"@,
        ScalarKind::F64 => "f64"@,
    })
}

/// The arguments before the last one in source text: each that is not empty,
/// followed by a comma and a space.
pub open spec fn arg_prefix(args: Seq<Seq<char>>) -> Seq<char>
    decreases args.len(),
{
    if args.len() == 0 {
        Seq::empty()
    } else {
        arg_prefix(args.drop_last()) + (if args.last().len() > 0 {
            args.last() + ", "@
        } else {
            Seq::empty()
        })
    }
}

/// The arguments of a call in source text.
pub open spec fn arg_line(args: Seq<Seq<char>>) -> Seq<char> {
    if args.len() == 0 {
        Seq::empty()
    } else {
        arg_prefix(args.drop_last()) + args.last()
    }
}

/// The default intrinsics in the order in which they are declared.
pub open spec fn default_callee(k: int) -> Callee {
    if k == 0 {
        Callee::Host(HostFn::Init)
    } else if k == 1 {
        Callee::Host(HostFn::GetResult)
    } else if k == 2 {
        Callee::Host(HostFn::SetResult)
    } else if k == 3 {
        Callee::Host(HostFn::Malloc)
    } else if k == 4 {
        Callee::Host(HostFn::Realloc)
    } else if k == 5 {
        Callee::Host(HostFn::Free)
    } else if k == 6 {
        Callee::Host(HostFn::GetErrno)
    } else if k == 7 {
        Callee::Host(HostFn::SetErrno)
    } else if k == 8 {
        Callee::Host(HostFn::Assert)
    } else if k == 9 {
        Callee::Host(HostFn::Print)
    } else if k == 10 {
        Callee::Memcpy
    } else {
        Callee::Memset
    }
}

fn callee_at(k: usize) -> (c: Callee)
    ensures
        c == default_callee(k as int),
{
    if k == 0 {
        Callee::Host(HostFn::Init)
    } else if k == 1 {
        Callee::Host(HostFn::GetResult)
    } else if k == 2 {
        Callee::Host(HostFn::SetResult)
    } else if k == 3 {
        Callee::Host(HostFn::Malloc)
    } else if k == 4 {
        Callee::Host(HostFn::Realloc)
    } else if k == 5 {
        Callee::Host(HostFn::Free)
    } else if k == 6 {
        Callee::Host(HostFn::GetErrno)
    } else if k == 7 {
        Callee::Host(HostFn::SetErrno)
    } else if k == 8 {
        Callee::Host(HostFn::Assert)
    } else if k == 9 {
        Callee::Host(HostFn::Print)
    } else if k == 10 {
        Callee::Memcpy
    } else {
        Callee::Memset
    }
}

/// The registry entry of a default intrinsic that is declared at `f`: bound
/// to the runtime where it is an entry point of the runtime, and a builtin
/// where it is a memory primitive.
pub open spec fn default_entry(c: Callee, f: FuncRef) -> Intrinsic {
    match c {
        Callee::Host(h) => Intrinsic::FunctionPointer(f, h),
        _ => Intrinsic::Builtin(f),
    }
}

/// The prelude after the first `k` default intrinsics were installed: the
/// types of the runtime, then the definition of each entry point.
pub open spec fn default_prelude(prelude: CodeView, k: nat) -> CodeView
    decreases k,
{
    if k == 0 {
        prelude.add(RUNTIME_TYPES@)
    } else {
        match default_callee(k - 1) {
            Callee::Host(h) => default_prelude(prelude, (k - 1) as nat).add(h.spec_c_definition()),
            _ => default_prelude(prelude, (k - 1) as nat),
        }
    }
}

/// Whether `after` is `before` with a call of `fun` added to the code, and
/// `res` is the variable that holds the call's result: `result` where it is
/// given, and the next fresh variable, which the call declares with type
/// `ret_ty`, where not.
pub open spec fn calls_in_text(
    before: &CContext,
    after: &CContext,
    res: String,
    fun: Seq<char>,
    args: Seq<Seq<char>>,
    ret_ty: Seq<char>,
    result: Option<String>,
) -> bool {
    &&& after.prelude_code == before.prelude_code
    &&& after.var_ids.prefix == before.var_ids.prefix
    &&& match result {
        Some(given) => {
            &&& res == given
            &&& after.var_ids == before.var_ids
            &&& after.body_code@ == before.body_code@.add(
                given@ + " = "@ + fun + "("@ + arg_line(args) + ");"@,
            )
        },
        None => {
            &&& res@ == before.var_ids.prefix@ + digits(before.var_ids.next_id as nat)
            &&& after.var_ids.next_id == if before.var_ids.next_id == u64::MAX {
                0
            } else {
                before.var_ids.next_id + 1
            }
            &&& after.body_code@ == before.body_code@.add(
                ret_ty + " "@ + res@ + " = "@ + fun + "("@ + arg_line(args) + ");"@,
            )
        },
    }
}

/// A function name and the entry point of the runtime that it is bound to.
pub type Mapping = (String, HostFn);

/// Intrinsics defined in the code generator.
pub struct Intrinsics {
    intrinsics: FnvHashMap<String, Intrinsic>,
}

impl View for Intrinsics {
    type V = Map<Seq<char>, Intrinsic>;

    closed spec fn view(&self) -> Map<Seq<char>, Intrinsic> {
        table(self.intrinsics)
    }
}

impl Intrinsics {
    /// Whether each intrinsic is registered under the name of its
    /// declaration, and its declaration is one of the module.
    pub open spec fn wf(&self, module: &Module) -> bool {
        forall|name: Seq<char>| #[trigger]
            self@.contains_key(name) ==> {
                let f = self@[name].spec_value().0;
                &&& f < module.funcs@.len()
                &&& module.funcs@[f as int].name@ == name
                &&& module.funcs@[f as int].body is None
            }
    }

    /// A registry stays well-formed when routines are added to the module.
    pub proof fn lemma_wf_extends(&self, old: &Module, new: &Module, n: nat)
        requires
            self.wf(old),
            new.extends(*old, n),
        ensures
            self.wf(new),
    {
    }

    /// A registry without entries.
    pub fn new() -> (r: Intrinsics)
        ensures
            r@ == no_entries(),
    {
        Intrinsics { intrinsics: table_new() }
    }

    /// Get the declaration of the intrinsic with the given name.
    pub fn get(&self, key: &str) -> (f: Option<FuncRef>)
        ensures
            f == if self@.contains_key(key@) {
                Some(self@[key@].spec_value())
            } else {
                None
            },
    {
        match table_get(&self.intrinsics, key) {
            Some(entry) => Some(entry.value()),
            None => None,
        }
    }

    /// Add a new intrinsic with the given name, return type, and argument
    /// types, as a builtin.
    ///
    /// Returns true if the intrinsic was added and false if the name was
    /// already registered; then nothing changes.
    pub fn add(&mut self, module: &mut Module, name: &str, ret_ty: Ty, arg_tys: Vec<Ty>) -> (added:
        bool)
        requires
            old(self).wf(old(module)),
        ensures
            final(self).wf(final(module)),
            added == !old(self)@.contains_key(name@),
            added ==> {
                &&& final(module).extends(*old(module), 1)
                &&& final(module).records == old(module).records
                &&& final(module).funcs@.last().declares(name@, arg_tys@, ret_ty, Seq::empty())
                &&& final(self)@ == old(self)@.insert(
                    name@,
                    Intrinsic::Builtin(FuncRef(old(module).funcs@.len() as usize)),
                )
            },
            !added ==> *final(module) == *old(module) && final(self)@ == old(self)@,
    {
        match table_get(&self.intrinsics, name) {
            Some(_) => false,
            None => {
                let function = Function {
                    name: String::from_str(name),
                    params: arg_tys,
                    ret: ret_ty,
                    attrs: Vec::new(),
                    body: None,
                };
                let f = module.add_function(function);
                table_insert(&mut self.intrinsics, String::from_str(name), Intrinsic::Builtin(f));
                true
            },
        }
    }

    /// Whether `call` takes the name with this many arguments: the name is
    /// registered, and its declaration has as many parameters.
    pub open spec fn spec_accepts(&self, module: &Module, name: Seq<char>, count: nat) -> bool {
        &&& self@.contains_key(name)
        &&& self@[name].spec_value().0 < module.funcs@.len()
        &&& module.funcs@[self@[name].spec_value().0 as int].params@.len() == count
    }

    /// Whether `call` takes the name with this many arguments.
    pub fn accepts(&self, module: &Module, name: &str, count: usize) -> (b: bool)
        ensures
            b == self.spec_accepts(module, name@, count as nat),
    {
        match table_get(&self.intrinsics, name) {
            Some(entry) => {
                let f = entry.value();
                f.0 < module.funcs.len() && module.funcs[f.0].params.len() == count
            },
            None => false,
        }
    }

    /// Generate code to call an intrinsic with the given name and arguments.
    ///
    /// The name must be registered and the arguments must be as many as the
    /// parameters of its declaration. The call takes exactly the arguments
    /// given.
    pub fn call(&mut self, module: &Module, builder: &mut Builder, name: &str, args: Vec<Value>)
        -> (r: Result<Value, WeldError>)
        requires
            old(self).spec_accepts(module, name@, args@.len()),
        ensures
            *final(self) == *old(self),
            r == Ok::<Value, WeldError>(Value::Local(old(builder).insts@.len() as usize)),
            final(builder).insts@ == old(builder).insts@.push(
                Inst::Call(old(self)@[name@].spec_value(), args),
            ),
    {
        match table_get(&self.intrinsics, name) {
            Some(entry) => Ok(builder.push(Inst::Call(entry.value(), args))),
            None => unreached(),
        }
    }

    /// Returns name to entry point mappings for the intrinsics that the host
    /// supplies, each once. Builtins are left out of the list.
    pub fn mappings(&self) -> (r: Vec<Mapping>)
        ensures
            forall|i: int|
                0 <= i < r@.len() ==> self@.contains_key(#[trigger] r@[i].0@)
                    && self@[r@[i].0@].spec_host() == Some(r@[i].1),
            forall|k: Seq<char>|
                self@.contains_key(k) && self@[k].spec_host() is Some ==> exists|i: int|
                    0 <= i < r@.len() && #[trigger] r@[i].0@ == k,
            forall|i: int, j: int|
                0 <= i < j < r@.len() ==> #[trigger] r@[i].0@ != #[trigger] r@[j].0@,
    {
        let entries = table_entries(&self.intrinsics);
        let mut mappings: Vec<Mapping> = Vec::new();
        let ghost mut source: Seq<int> = Seq::empty();
        let mut n: usize = 0;
        while n < entries.len()
            invariant
                n <= entries.len(),
                lists(entries@, self@),
                source.len() == mappings@.len(),
                forall|j: int|
                    0 <= j < mappings@.len() ==> 0 <= #[trigger] source[j] < n
                        && mappings@[j].0@ == entries@[source[j]].0@
                        && entries@[source[j]].1.spec_host() == Some(mappings@[j].1),
                forall|i: int, j: int|
                    0 <= i < j < mappings@.len() ==> #[trigger] source[i] < #[trigger] source[j],
                forall|i: int|
                    0 <= i < n && entries@[i].1.spec_host() is Some ==> exists|j: int|
                        0 <= j < mappings@.len() && #[trigger] source[j] == i,
            decreases entries.len() - n,
        {
            match entries[n].1 {
                Intrinsic::FunctionPointer(_, host) => {
                    let ghost before = source;
                    mappings.push((entries[n].0.clone(), host));
                    proof {
                        source = source.push(n as int);
                        assert forall|i: int|
                            0 <= i < n + 1 && entries@[i].1.spec_host() is Some implies exists|
                            j: int,
                        |
                            0 <= j < mappings@.len() && #[trigger] source[j] == i by {
                            if i < n {
                                let j = choose|j: int|
                                    0 <= j < before.len() && #[trigger] before[j] == i;
                                assert(source[j] == i);
                            } else {
                                assert(source[mappings@.len() - 1] == i);
                            }
                        }
                    }
                },
                Intrinsic::Builtin(_) => {},
            }
            n = n + 1;
        }
        proof {
            assert forall|i: int| 0 <= i < mappings@.len() implies self@.contains_key(
                #[trigger] mappings@[i].0@,
            ) && self@[mappings@[i].0@].spec_host() == Some(mappings@[i].1) by {
                let s = source[i];
                assert(self@.contains_key(entries@[s].0@));
            }
            assert forall|k: Seq<char>|
                self@.contains_key(k) && self@[k].spec_host() is Some implies exists|i: int|
                0 <= i < mappings@.len() && #[trigger] mappings@[i].0@ == k by {
                let e = choose|e: int| 0 <= e < entries@.len() && #[trigger] entries@[e].0@ == k;
                assert(self@.contains_key(entries@[e].0@));
                let j = choose|j: int| 0 <= j < mappings@.len() && #[trigger] source[j] == e;
                assert(mappings@[j].0@ == k);
            }
            assert forall|i: int, j: int| 0 <= i < j < mappings@.len() implies #[trigger] mappings@[i].0@
                != #[trigger] mappings@[j].0@ by {
                assert(source[i] < source[j]);
                assert(entries@[source[i]].0@ != entries@[source[j]].0@);
            }
        }
        mappings
    }

    /// Returns the name of a numeric operation among the target's own
    /// intrinsics: `llvm.`, the operation, a dot, `v` and the lane count
    /// where `simd` holds, and the target's name for the kind.
    pub fn llvm_numeric(name: &str, kind: ScalarKind, simd: bool) -> (r: String)
        ensures
            r@ == spec_llvm_numeric(name@, kind, simd),
    {
        let mut result = String::from_str("llvm.");
        result.append(name);
        result.append(".");
        if simd {
            result.append("v");
            let lanes = decimal(WIDTH as u64);
            result.append(lanes.as_str());
        }
        result.append(
            match kind {
                ScalarKind::Bool => "i1",
                ScalarKind::I8 => "i32",
                ScalarKind::I16 => "i16",
                ScalarKind::I32 => "i32",
                ScalarKind::I64 => "i64",
                ScalarKind::U8 => "i32",
                ScalarKind::U16 => "i16",
                ScalarKind::U32 => "i32",
                ScalarKind::U64 => "i64",
                ScalarKind::F32 => "f32",
                ScalarKind::F64 => "f64",
            },
        );
        assert(result@ =~= spec_llvm_numeric(name@, kind, simd));
        result
    }

    /// The arguments of a call in source text: each argument but the last is
    /// followed by a comma and a space unless it is empty, and the last one
    /// ends the line.
    pub fn c_args(&mut self, args: &[String]) -> (line: String)
        ensures
            *final(self) == *old(self),
            line@ == arg_line(views(args@)),
    {
        let ghost all = views(args@);
        if args.len() == 0 {
            return String::new();
        }
        let mut line = String::new();
        let last = args.len() - 1;
        let mut i: usize = 0;
        while i < last
            invariant
                i <= last,
                last == args@.len() - 1,
                all == views(args@),
                line@ == arg_prefix(all.take(i as int)),
            decreases last - i,
        {
            if args[i].as_str().unicode_len() > 0 {
                line.append(args[i].as_str());
                line.append(", ");
            }
            proof {
                assert(all.take(i + 1).drop_last() =~= all.take(i as int));
                assert(all.take(i + 1).last() == args@[i as int]@);
                assert(line@ =~= arg_prefix(all.take(i + 1)));
            }
            i = i + 1;
        }
        line.append(args[last].as_str());
        assert(all.take(last as int) =~= all.drop_last());
        line
    }

    /// Adds a call with a result to the code in source text and returns the
    /// variable that holds the result: `result` where it is given, and a
    /// fresh variable of type `ret_ty`, declared by the call, where not.
    pub fn c_call(
        &mut self,
        ccontext: &mut CContext,
        fun: &str,
        args: &[String],
        ret_ty: &str,
        result: Option<String>,
    ) -> (res: String)
        ensures
            *final(self) == *old(self),
            calls_in_text(
                old(ccontext),
                final(ccontext),
                res,
                fun@,
                views(args@),
                ret_ty@,
                result,
            ),
    {
        let arg_line = self.c_args(args);
        match result {
            Some(res) => {
                let mut line = res.clone();
                line.append(" = ");
                line.append(fun);
                line.append("(");
                line.append(arg_line.as_str());
                line.append(");");
                ccontext.body_code.add(line.as_str());
                res
            },
            None => {
                let res = ccontext.var_ids.next();
                let mut line = String::from_str(ret_ty);
                line.append(" ");
                line.append(res.as_str());
                line.append(" = ");
                line.append(fun);
                line.append("(");
                line.append(arg_line.as_str());
                line.append(");");
                ccontext.body_code.add(line.as_str());
                res
            },
        }
    }

    /// Adds a call whose result is dropped to the code in source text.
    pub fn c_call_void(&mut self, ccontext: &mut CContext, fun: &str, args: &[String])
        ensures
            *final(self) == *old(self),
            final(ccontext).prelude_code == old(ccontext).prelude_code,
            final(ccontext).var_ids == old(ccontext).var_ids,
            final(ccontext).body_code@ == old(ccontext).body_code@.add(
                "(void)"@ + fun@ + "("@ + arg_line(views(args@)) + ");"@,
            ),
    {
        let arg_line = self.c_args(args);
        let mut line = String::from_str("(void)");
        line.append(fun);
        line.append("(");
        line.append(arg_line.as_str());
        line.append(");");
        ccontext.body_code.add(line.as_str());
    }

    fn install(&mut self, module: &mut Module, ccontext: &mut CContext, c: Callee)
        requires
            old(self).wf(old(module)),
        ensures
            final(self).wf(final(module)),
            final(module).extends(*old(module), 1),
            final(module).records == old(module).records,
            final(module).funcs@.last().declares(
                c.spec_name(),
                c.spec_params(),
                c.spec_ret(),
                c.spec_attrs(),
            ),
            final(self)@ == old(self)@.insert(
                c.spec_name(),
                default_entry(c, FuncRef(old(module).funcs@.len() as usize)),
            ),
            final(ccontext).prelude_code@ == match c {
                Callee::Host(h) => old(ccontext).prelude_code@.add(h.spec_c_definition()),
                _ => old(ccontext).prelude_code@,
            },
            final(ccontext).body_code == old(ccontext).body_code,
            final(ccontext).var_ids == old(ccontext).var_ids,
    {
        let function = Function {
            name: String::from_str(c.name()),
            params: c.params(),
            ret: c.ret(),
            attrs: c.attrs(),
            body: None,
        };
        let f = module.add_function(function);
        let entry = match c {
            Callee::Host(h) => Intrinsic::FunctionPointer(f, h),
            _ => Intrinsic::Builtin(f),
        };
        table_insert(&mut self.intrinsics, String::from_str(c.name()), entry);
        match c {
            Callee::Host(h) => {
                ccontext.prelude_code.add(h.c_definition());
            },
            _ => {},
        }
    }

    /// Populate the default intrinsics: the entry points of the runtime and
    /// the two memory primitives, in the order of `default_callee`.
    fn populate_defaults(&mut self, module: &mut Module, ccontext: &mut CContext)
        requires
            old(self)@ == no_entries(),
        ensures
            final(self).wf(final(module)),
            final(module).extends(*old(module), 12),
            final(module).records == old(module).records,
            final(self).has_defaults(final(module), old(module).funcs@.len() as int),
            forall|name: Seq<char>|
                final(self)@.contains_key(name) ==> resolve(name) is Some,
            final(ccontext).prelude_code@ == default_prelude(old(ccontext).prelude_code@, 12),
            final(ccontext).body_code == old(ccontext).body_code,
            final(ccontext).var_ids == old(ccontext).var_ids,
    {
        let ghost base = module.funcs@.len() as int;
        ccontext.prelude_code.add(RUNTIME_TYPES);
        let mut k: usize = 0;
        while k < 12
            invariant
                k <= 12,
                base == old(module).funcs@.len(),
                self.wf(module),
                module.extends(*old(module), k as nat),
                module.records == old(module).records,
                forall|j: int| 0 <= j < k ==> self.has_default(module, base, j),
                forall|name: Seq<char>|
                    self@.contains_key(name) ==> exists|j: int|
                        0 <= j < k && name == #[trigger] default_callee(j).spec_name(),
                ccontext.prelude_code@ == default_prelude(old(ccontext).prelude_code@, k as nat),
                ccontext.body_code == old(ccontext).body_code,
                ccontext.var_ids == old(ccontext).var_ids,
            decreases 12 - k,
        {
            let c = callee_at(k);
            let ghost before = *self;
            let ghost module_before = *module;
            self.install(module, ccontext, c);
            proof {
                assert forall|j: int| 0 <= j < k + 1 implies self.has_default(module, base, j) by {
                    if j < k {
                        assert(before.has_default(&module_before, base, j));
                        lemma_names_distinct(default_callee(j), c);
                    }
                }
                assert forall|name: Seq<char>| self@.contains_key(name) implies exists|j: int|
                    0 <= j < k + 1 && name == #[trigger] default_callee(j).spec_name() by {
                    if name == c.spec_name() {
                        assert(name == default_callee(k as int).spec_name());
                    } else {
                        assert(before@.contains_key(name));
                        let j = choose|j: int|
                            0 <= j < k && name == #[trigger] default_callee(j).spec_name();
                        assert(name == default_callee(j).spec_name());
                    }
                }
            }
            k = k + 1;
        }
        proof {
            assert forall|name: Seq<char>| self@.contains_key(name) implies resolve(
                name,
            ) is Some by {
                let j = choose|j: int|
                    0 <= j < 12 && name == #[trigger] default_callee(j).spec_name();
                lemma_resolve_name(default_callee(j));
            }
        }
    }

    /// The registry of the default intrinsics. Each is declared in the
    /// module; each entry point of the runtime is also defined in the prelude
    /// of the source text, after the types that the definitions use.
    pub fn defaults(module: &mut Module, ccontext: &mut CContext) -> (r: Intrinsics)
        ensures
            r.wf(final(module)),
            final(module).extends(*old(module), 12),
            final(module).records == old(module).records,
            r.has_defaults(final(module), old(module).funcs@.len() as int),
            forall|name: Seq<char>| r@.contains_key(name) ==> resolve(name) is Some,
            final(ccontext).prelude_code@ == default_prelude(old(ccontext).prelude_code@, 12),
            final(ccontext).body_code == old(ccontext).body_code,
            final(ccontext).var_ids == old(ccontext).var_ids,
    {
        let mut intrinsics = Intrinsics::new();
        intrinsics.populate_defaults(module, ccontext);
        intrinsics
    }

    /// Whether the default intrinsic with the given index is registered and
    /// declared at entry `base + k` of the module.
    pub open spec fn has_default(&self, module: &Module, base: int, k: int) -> bool {
        let c = default_callee(k);
        &&& self@.contains_key(c.spec_name())
        &&& self@[c.spec_name()] == default_entry(c, FuncRef((base + k) as usize))
        &&& base + k < module.funcs@.len()
        &&& module.funcs@[base + k].declares(
            c.spec_name(),
            c.spec_params(),
            c.spec_ret(),
            c.spec_attrs(),
        )
    }

    /// Whether all default intrinsics are registered and declared at the
    /// entries of the module from `base` on.
    pub open spec fn has_defaults(&self, module: &Module, base: int) -> bool {
        forall|k: int| 0 <= k < 12 ==> self.has_default(module, base, k)
    }

    fn call_default(&self, builder: &mut Builder, c: Callee, args: Vec<Value>) -> (v: Value)
        requires
            self@.contains_key(c.spec_name()),
        ensures
            v == Value::Local(old(builder).insts@.len() as usize),
            final(builder).calls(*old(builder), self@[c.spec_name()].spec_value(), args@),
    {
        let f = match table_get(&self.intrinsics, c.name()) {
            Some(entry) => entry.value(),
            None => unreached(),
        };
        let v = builder.push(Inst::Call(f, args));
        assert(builder.insts@.drop_last() =~= old(builder).insts@);
        v
    }

    /// Convenience wrapper for calling the `weld_runst_init` intrinsic.
    pub fn call_weld_run_init(
        &mut self,
        builder: &mut Builder,
        nworkers: Value,
        memlimit: Value,
    ) -> (v: Value)
        requires
            old(self)@.contains_key(Callee::Host(HostFn::Init).spec_name()),
        ensures
            *final(self) == *old(self),
            v == Value::Local(old(builder).insts@.len() as usize),
            final(builder).calls(
                *old(builder),
                old(self)@[Callee::Host(HostFn::Init).spec_name()].spec_value(),
                seq![nworkers, memlimit],
            ),
    {
        let mut args: Vec<Value> = Vec::new();
        args.push(nworkers);
        args.push(memlimit);
        assert(args@ =~= seq![nworkers, memlimit]);
        self.call_default(builder, Callee::Host(HostFn::Init), args)
    }

    /// Convenience wrapper for calling the `weld_runst_init` intrinsic in
    /// source text.
    pub fn c_call_weld_run_init(
        &mut self,
        ccontext: &mut CContext,
        nworkers: String,
        memlimit: String,
        name: Option<String>,
    ) -> (res: String)
        ensures
            *final(self) == *old(self),
            calls_in_text(
                old(ccontext),
                final(ccontext),
                res,
                HostFn::Init.spec_name(),
                seq![nworkers@, memlimit@],
                "WeldRuntimeContextRef"@,
                name,
            ),
    {
        let mut args: Vec<String> = Vec::new();
        args.push(nworkers);
        args.push(memlimit);
        assert(views(args@) =~= seq![nworkers@, memlimit@]);
        let run_handle_type = c_run_handle_type();
        self.c_call(
            ccontext,
            HostFn::Init.name(),
            args.as_slice(),
            run_handle_type.as_str(),
            name,
        )
    }

    /// Convenience wrapper for calling the `weld_runst_get_result` intrinsic.
    pub fn call_weld_run_get_result(&mut self, builder: &mut Builder, run: Value) -> (v: Value)
        requires
            old(self)@.contains_key(Callee::Host(HostFn::GetResult).spec_name()),
        ensures
            *final(self) == *old(self),
            v == Value::Local(old(builder).insts@.len() as usize),
            final(builder).calls(
                *old(builder),
                old(self)@[Callee::Host(HostFn::GetResult).spec_name()].spec_value(),
                seq![run],
            ),
    {
        let mut args: Vec<Value> = Vec::new();
        args.push(run);
        assert(args@ =~= seq![run]);
        self.call_default(builder, Callee::Host(HostFn::GetResult), args)
    }

    /// Convenience wrapper for calling the `weld_runst_get_result` intrinsic
    /// in source text.
    pub fn c_call_weld_run_get_result(
        &mut self,
        ccontext: &mut CContext,
        run: String,
        name: Option<String>,
    ) -> (res: String)
        ensures
            *final(self) == *old(self),
            calls_in_text(
                old(ccontext),
                final(ccontext),
                res,
                HostFn::GetResult.spec_name(),
                seq![run@],
                "void*"@,
                name,
            ),
    {
        let mut args: Vec<String> = Vec::new();
        args.push(run);
        assert(views(args@) =~= seq![run@]);
        self.c_call(ccontext, HostFn::GetResult.name(), args.as_slice(), "void*", name)
    }

    /// Convenience wrapper for calling the `weld_runst_set_result` intrinsic.
    pub fn call_weld_run_set_result(
        &mut self,
        builder: &mut Builder,
        run: Value,
        pointer: Value,
    ) -> (v: Value)
        requires
            old(self)@.contains_key(Callee::Host(HostFn::SetResult).spec_name()),
        ensures
            *final(self) == *old(self),
            v == Value::Local(old(builder).insts@.len() as usize),
            final(builder).calls(
                *old(builder),
                old(self)@[Callee::Host(HostFn::SetResult).spec_name()].spec_value(),
                seq![run, pointer],
            ),
    {
        let mut args: Vec<Value> = Vec::new();
        args.push(run);
        args.push(pointer);
        assert(args@ =~= seq![run, pointer]);
        self.call_default(builder, Callee::Host(HostFn::SetResult), args)
    }

    /// Convenience wrapper for calling the `weld_runst_malloc` intrinsic.
    pub fn call_weld_run_malloc(
        &mut self,
        builder: &mut Builder,
        run: Value,
        size: Value,
    ) -> (v: Value)
        requires
            old(self)@.contains_key(Callee::Host(HostFn::Malloc).spec_name()),
        ensures
            *final(self) == *old(self),
            v == Value::Local(old(builder).insts@.len() as usize),
            final(builder).calls(
                *old(builder),
                old(self)@[Callee::Host(HostFn::Malloc).spec_name()].spec_value(),
                seq![run, size],
            ),
    {
        let mut args: Vec<Value> = Vec::new();
        args.push(run);
        args.push(size);
        assert(args@ =~= seq![run, size]);
        self.call_default(builder, Callee::Host(HostFn::Malloc), args)
    }

    /// Convenience wrapper for calling the `weld_runst_realloc` intrinsic.
    pub fn call_weld_run_realloc(
        &mut self,
        builder: &mut Builder,
        run: Value,
        pointer: Value,
        size: Value,
    ) -> (v: Value)
        requires
            old(self)@.contains_key(Callee::Host(HostFn::Realloc).spec_name()),
        ensures
            *final(self) == *old(self),
            v == Value::Local(old(builder).insts@.len() as usize),
            final(builder).calls(
                *old(builder),
                old(self)@[Callee::Host(HostFn::Realloc).spec_name()].spec_value(),
                seq![run, pointer, size],
            ),
    {
        let mut args: Vec<Value> = Vec::new();
        args.push(run);
        args.push(pointer);
        args.push(size);
        assert(args@ =~= seq![run, pointer, size]);
        self.call_default(builder, Callee::Host(HostFn::Realloc), args)
    }

    /// Convenience wrapper for calling the `weld_runst_free` intrinsic.
    pub fn call_weld_run_free(
        &mut self,
        builder: &mut Builder,
        run: Value,
        pointer: Value,
    ) -> (v: Value)
        requires
            old(self)@.contains_key(Callee::Host(HostFn::Free).spec_name()),
        ensures
            *final(self) == *old(self),
            v == Value::Local(old(builder).insts@.len() as usize),
            final(builder).calls(
                *old(builder),
                old(self)@[Callee::Host(HostFn::Free).spec_name()].spec_value(),
                seq![run, pointer],
            ),
    {
        let mut args: Vec<Value> = Vec::new();
        args.push(run);
        args.push(pointer);
        assert(args@ =~= seq![run, pointer]);
        self.call_default(builder, Callee::Host(HostFn::Free), args)
    }

    /// Convenience wrapper for calling the `weld_runst_get_errno` intrinsic.
    pub fn call_weld_run_get_errno(&mut self, builder: &mut Builder, run: Value) -> (v: Value)
        requires
            old(self)@.contains_key(Callee::Host(HostFn::GetErrno).spec_name()),
        ensures
            *final(self) == *old(self),
            v == Value::Local(old(builder).insts@.len() as usize),
            final(builder).calls(
                *old(builder),
                old(self)@[Callee::Host(HostFn::GetErrno).spec_name()].spec_value(),
                seq![run],
            ),
    {
        let mut args: Vec<Value> = Vec::new();
        args.push(run);
        assert(args@ =~= seq![run]);
        self.call_default(builder, Callee::Host(HostFn::GetErrno), args)
    }

    /// Convenience wrapper for calling the `weld_runst_set_errno` intrinsic.
    pub fn call_weld_run_set_errno(
        &mut self,
        builder: &mut Builder,
        run: Value,
        errno: Value,
    ) -> (v: Value)
        requires
            old(self)@.contains_key(Callee::Host(HostFn::SetErrno).spec_name()),
        ensures
            *final(self) == *old(self),
            v == Value::Local(old(builder).insts@.len() as usize),
            final(builder).calls(
                *old(builder),
                old(self)@[Callee::Host(HostFn::SetErrno).spec_name()].spec_value(),
                seq![run, errno],
            ),
    {
        let mut args: Vec<Value> = Vec::new();
        args.push(run);
        args.push(errno);
        assert(args@ =~= seq![run, errno]);
        self.call_default(builder, Callee::Host(HostFn::SetErrno), args)
    }

    /// Convenience wrapper for calling the `weld_runst_assert` intrinsic.
    pub fn call_weld_run_assert(
        &mut self,
        builder: &mut Builder,
        run: Value,
        cond: Value,
    ) -> (v: Value)
        requires
            old(self)@.contains_key(Callee::Host(HostFn::Assert).spec_name()),
        ensures
            *final(self) == *old(self),
            v == Value::Local(old(builder).insts@.len() as usize),
            final(builder).calls(
                *old(builder),
                old(self)@[Callee::Host(HostFn::Assert).spec_name()].spec_value(),
                seq![run, cond],
            ),
    {
        let mut args: Vec<Value> = Vec::new();
        args.push(run);
        args.push(cond);
        assert(args@ =~= seq![run, cond]);
        self.call_default(builder, Callee::Host(HostFn::Assert), args)
    }

    /// Convenience wrapper for calling the `weld_runst_print` intrinsic.
    pub fn call_weld_run_print(
        &mut self,
        builder: &mut Builder,
        run: Value,
        string: Value,
    ) -> (v: Value)
        requires
            old(self)@.contains_key(Callee::Host(HostFn::Print).spec_name()),
        ensures
            *final(self) == *old(self),
            v == Value::Local(old(builder).insts@.len() as usize),
            final(builder).calls(
                *old(builder),
                old(self)@[Callee::Host(HostFn::Print).spec_name()].spec_value(),
                seq![run, string],
            ),
    {
        let mut args: Vec<Value> = Vec::new();
        args.push(run);
        args.push(string);
        assert(args@ =~= seq![run, string]);
        self.call_default(builder, Callee::Host(HostFn::Print), args)
    }

    /// Convenience wrapper for calling the block copy, with an alignment of 8
    /// and not volatile.
    pub fn call_memcpy(
        &mut self,
        builder: &mut Builder,
        dst: Value,
        src: Value,
        size: Value,
    ) -> (v: Value)
        requires
            old(self)@.contains_key(Callee::Memcpy.spec_name()),
        ensures
            *final(self) == *old(self),
            v == Value::Local(old(builder).insts@.len() as usize),
            final(builder).calls(
                *old(builder),
                old(self)@[Callee::Memcpy.spec_name()].spec_value(),
                seq![
                    dst,
                    src,
                    size,
                    Value::Const(ScalarKind::I32, 8),
                    Value::Const(ScalarKind::Bool, 0),
                ],
            ),
    {
        let mut args: Vec<Value> = Vec::new();
        args.push(dst);
        args.push(src);
        args.push(size);
        args.push(Value::Const(ScalarKind::I32, 8));
        args.push(Value::Const(ScalarKind::Bool, 0));
        assert(args@ =~= seq![
                dst,
                src,
                size,
                Value::Const(ScalarKind::I32, 8),
                Value::Const(ScalarKind::Bool, 0),
            ]);
        self.call_default(builder, Callee::Memcpy, args)
    }

    /// Convenience wrapper for calling the block fill with zero bytes, with an
    /// alignment of 8 and not volatile.
    pub fn call_memset_zero(&mut self, builder: &mut Builder, dst: Value, size: Value) -> (v: Value)
        requires
            old(self)@.contains_key(Callee::Memset.spec_name()),
        ensures
            *final(self) == *old(self),
            v == Value::Local(old(builder).insts@.len() as usize),
            final(builder).calls(
                *old(builder),
                old(self)@[Callee::Memset.spec_name()].spec_value(),
                seq![
                    dst,
                    Value::Const(ScalarKind::I8, 0),
                    size,
                    Value::Const(ScalarKind::I32, 8),
                    Value::Const(ScalarKind::Bool, 0),
                ],
            ),
    {
        let mut args: Vec<Value> = Vec::new();
        args.push(dst);
        args.push(Value::Const(ScalarKind::I8, 0));
        args.push(size);
        args.push(Value::Const(ScalarKind::I32, 8));
        args.push(Value::Const(ScalarKind::Bool, 0));
        assert(args@ =~= seq![
                dst,
                Value::Const(ScalarKind::I8, 0),
                size,
                Value::Const(ScalarKind::I32, 8),
                Value::Const(ScalarKind::Bool, 0),
            ]);
        self.call_default(builder, Callee::Memset, args)
    }
}

} // verus!
