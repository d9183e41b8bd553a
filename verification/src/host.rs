//! The functions that generated code links against: the entry points of the
//! runtime, which the host supplies, and the two memory primitives, which the
//! target supplies. Each is known by its name.

use vstd::prelude::*;
use vstd::string::StringExecFns;

verus! {

/// The entry points of the runtime.
#[derive(Clone, Copy, Debug, PartialEq, Eq, Structural)]
pub enum HostFn {
    Init,
    GetResult,
    SetResult,
    Malloc,
    Realloc,
    Free,
    GetErrno,
    SetErrno,
    Assert,
    Print,
}

impl HostFn {
    /// The name under which generated code calls the entry point.
    pub open spec fn spec_name(self) -> Seq<char> {
        match self {
            HostFn::Init => "weld_runst_init"@,
            HostFn::GetResult => "weld_runst_get_result"@,
            HostFn::SetResult => "weld_runst_set_result"@,
            HostFn::Malloc => "weld_runst_malloc"@,
            HostFn::Realloc => "weld_runst_realloc"@,
            HostFn::Free => "weld_runst_free"@,
            HostFn::GetErrno => "weld_runst_get_errno"@,
            HostFn::SetErrno => "weld_runst_set_errno"@,
            HostFn::Assert => "weld_runst_assert"@,
            HostFn::Print => "weld_runst_print"@,
        }
    }

    pub fn name(self) -> (s: &'static str)
        ensures
            s@ == self.spec_name(),
    {
        match self {
            HostFn::Init => "weld_runst_init",
            HostFn::GetResult => "weld_runst_get_result",
            HostFn::SetResult => "weld_runst_set_result",
            HostFn::Malloc => "weld_runst_malloc",
            HostFn::Realloc => "weld_runst_realloc",
            HostFn::Free => "weld_runst_free",
            HostFn::GetErrno => "weld_runst_get_errno",
            HostFn::SetErrno => "weld_runst_set_errno",
            HostFn::Assert => "weld_runst_assert",
            HostFn::Print => "weld_runst_print",
        }
    }
}

/// The name of the block copy.
pub open spec fn spec_memcpy_name() -> Seq<char> {
    "llvm.memcpy.p0i8.p0i8.i64"@
}

/// The name of the block fill.
pub open spec fn spec_memset_name() -> Seq<char> {
    "llvm.memset.p0i8.i64"@
}

pub fn memcpy_name() -> (s: &'static str)
    ensures
        s@ == spec_memcpy_name(),
{
    "llvm.memcpy.p0i8.p0i8.i64"
}

pub fn memset_name() -> (s: &'static str)
    ensures
        s@ == spec_memset_name(),
{
    "llvm.memset.p0i8.i64"
}

/// What a declaration of a module stands for when generated code runs.
#[derive(Clone, Copy, Debug, PartialEq, Eq, Structural)]
pub enum Callee {
    Host(HostFn),
    Memcpy,
    Memset,
}

impl Callee {
    pub open spec fn spec_name(self) -> Seq<char> {
        match self {
            Callee::Host(h) => h.spec_name(),
            Callee::Memcpy => spec_memcpy_name(),
            Callee::Memset => spec_memset_name(),
        }
    }
}

/// The function that a name stands for, if it stands for one.
pub open spec fn resolve(name: Seq<char>) -> Option<Callee> {
    if name == HostFn::Init.spec_name() {
        Some(Callee::Host(HostFn::Init))
    } else if name == HostFn::GetResult.spec_name() {
        Some(Callee::Host(HostFn::GetResult))
    } else if name == HostFn::SetResult.spec_name() {
        Some(Callee::Host(HostFn::SetResult))
    } else if name == HostFn::Malloc.spec_name() {
        Some(Callee::Host(HostFn::Malloc))
    } else if name == HostFn::Realloc.spec_name() {
        Some(Callee::Host(HostFn::Realloc))
    } else if name == HostFn::Free.spec_name() {
        Some(Callee::Host(HostFn::Free))
    } else if name == HostFn::GetErrno.spec_name() {
        Some(Callee::Host(HostFn::GetErrno))
    } else if name == HostFn::SetErrno.spec_name() {
        Some(Callee::Host(HostFn::SetErrno))
    } else if name == HostFn::Assert.spec_name() {
        Some(Callee::Host(HostFn::Assert))
    } else if name == HostFn::Print.spec_name() {
        Some(Callee::Host(HostFn::Print))
    } else if name == spec_memcpy_name() {
        Some(Callee::Memcpy)
    } else if name == spec_memset_name() {
        Some(Callee::Memset)
    } else {
        None
    }
}

/// No two of the functions share a name.
pub proof fn lemma_names_distinct(a: Callee, b: Callee)
    ensures
        a.spec_name() == b.spec_name() <==> a == b,
{
    reveal_strlit("weld_runst_init");
    reveal_strlit("weld_runst_get_result");
    reveal_strlit("weld_runst_set_result");
    reveal_strlit("weld_runst_malloc");
    reveal_strlit("weld_runst_realloc");
    reveal_strlit("weld_runst_free");
    reveal_strlit("weld_runst_get_errno");
    reveal_strlit("weld_runst_set_errno");
    reveal_strlit("weld_runst_assert");
    reveal_strlit("weld_runst_print");
    reveal_strlit("llvm.memcpy.p0i8.p0i8.i64");
    reveal_strlit("llvm.memset.p0i8.i64");
    let i = "weld_runst_init"@;
    let f = "weld_runst_free"@;
    assert(i.len() == 15 && f.len() == 15);
    assert("weld_runst_get_result"@.len() == 21 && "weld_runst_set_result"@.len() == 21);
    assert("weld_runst_malloc"@.len() == 17 && "weld_runst_assert"@.len() == 17);
    assert("weld_runst_realloc"@.len() == 18 && "weld_runst_print"@.len() == 16);
    assert("weld_runst_get_errno"@.len() == 20 && "weld_runst_set_errno"@.len() == 20);
    assert("llvm.memcpy.p0i8.p0i8.i64"@.len() == 25 && "llvm.memset.p0i8.i64"@.len() == 20);
    assert(i[11] != f[11]);
    let gr = "weld_runst_get_result"@;
    let sr = "weld_runst_set_result"@;
    assert(gr[11] != sr[11]);
    let ge = "weld_runst_get_errno"@;
    let se = "weld_runst_set_errno"@;
    let ms = "llvm.memset.p0i8.i64"@;
    assert(ge[11] != se[11]);
    assert(ge[0] != ms[0]);
    assert(se[0] != ms[0]);
    let ma = "weld_runst_malloc"@;
    let asr = "weld_runst_assert"@;
    assert(ma[11] != asr[11]);
}

/// Each function is found under its own name.
pub proof fn lemma_resolve_name(c: Callee)
    ensures
        resolve(c.spec_name()) == Some(c),
{
    lemma_names_distinct(c, Callee::Host(HostFn::Init));
    lemma_names_distinct(c, Callee::Host(HostFn::GetResult));
    lemma_names_distinct(c, Callee::Host(HostFn::SetResult));
    lemma_names_distinct(c, Callee::Host(HostFn::Malloc));
    lemma_names_distinct(c, Callee::Host(HostFn::Realloc));
    lemma_names_distinct(c, Callee::Host(HostFn::Free));
    lemma_names_distinct(c, Callee::Host(HostFn::GetErrno));
    lemma_names_distinct(c, Callee::Host(HostFn::SetErrno));
    lemma_names_distinct(c, Callee::Host(HostFn::Assert));
    lemma_names_distinct(c, Callee::Host(HostFn::Print));
    lemma_names_distinct(c, Callee::Memcpy);
    lemma_names_distinct(c, Callee::Memset);
}

fn is_named(name: &String, other: &str) -> (b: bool)
    ensures
        b == (name@ == other@),
{
    let other = String::from_str(other);
    *name == other
}

/// Looks a name up among the functions.
pub fn lookup(name: &String) -> (c: Option<Callee>)
    ensures
        c == resolve(name@),
{
    if is_named(name, HostFn::Init.name()) {
        Some(Callee::Host(HostFn::Init))
    } else if is_named(name, HostFn::GetResult.name()) {
        Some(Callee::Host(HostFn::GetResult))
    } else if is_named(name, HostFn::SetResult.name()) {
        Some(Callee::Host(HostFn::SetResult))
    } else if is_named(name, HostFn::Malloc.name()) {
        Some(Callee::Host(HostFn::Malloc))
    } else if is_named(name, HostFn::Realloc.name()) {
        Some(Callee::Host(HostFn::Realloc))
    } else if is_named(name, HostFn::Free.name()) {
        Some(Callee::Host(HostFn::Free))
    } else if is_named(name, HostFn::GetErrno.name()) {
        Some(Callee::Host(HostFn::GetErrno))
    } else if is_named(name, HostFn::SetErrno.name()) {
        Some(Callee::Host(HostFn::SetErrno))
    } else if is_named(name, HostFn::Assert.name()) {
        Some(Callee::Host(HostFn::Assert))
    } else if is_named(name, HostFn::Print.name()) {
        Some(Callee::Host(HostFn::Print))
    } else if is_named(name, memcpy_name()) {
        Some(Callee::Memcpy)
    } else if is_named(name, memset_name()) {
        Some(Callee::Memset)
    } else {
        None
    }
}

} // verus!
