//! The default intrinsics as they are declared: signatures, annotations, and
//! the definitions of the runtime entry points in source text.
//!
//! The annotations document what each function does with its arguments; the
//! reference machine behaves accordingly. A `NoReturn` function ends the run,
//! and a `ReadOnly` parameter is not written through.

use vstd::prelude::*;
use crate::host::Callee;
use crate::host::HostFn;
use crate::ir::Attr;
use crate::ir::Place;
use crate::ir::Ty;
use crate::kinds::ScalarKind;
use crate::context::spec_byte_pointer;
use crate::context::void_pointer_type;
use crate::context::run_handle_type;

verus! {

/// Types and error codes of the runtime in source text.
pub const RUNTIME_TYPES: &'static str = "typedef int64_t WeldRuntimeErrno;

#define Success                 0
#define ConfigurationError      1
#define LoadLibraryError        2
#define CompileError            3
#define ArrayOutOfBounds        4
#define BadIteratorLength       5
#define MismatchedZipSize       6
#define OutOfMemory             7
#define RunNotFound             8
#define Unknown                 9
#define DeserializationError    10
#define KeyNotFoundError        11
#define AssertionError          12
#define ErrnoMax                13

typedef struct {
    WeldRuntimeErrno errno;
    void* result;
    int32_t nworkers;
    uint64_t memlimit;
    uint64_t allocated;
    jmp_buf exit;
} WeldRuntimeContext;
typedef WeldRuntimeContext* WeldRuntimeContextRef;";

pub const INIT_DEFINITION: &'static str =
    "WeldRuntimeContextRef weld_runst_init(int32_t nworkers, int64_t memlimit)
{
    WeldRuntimeContextRef run =
        (WeldRuntimeContextRef)malloc(sizeof(WeldRuntimeContext));
    assert(run != 0);
    run->errno = Success;
    run->result = 0;
    run->nworkers = nworkers;
    run->memlimit = memlimit;
    run->allocated = 0;
    return run;
}";

pub const GET_RESULT_DEFINITION: &'static str =
    "void* weld_runst_get_result(WeldRuntimeContextRef run)
{
    return run->result;
}";

pub const SET_RESULT_DEFINITION: &'static str =
    "void weld_runst_set_result(WeldRuntimeContextRef run, void* result)
{
    run->result = result;
}";

pub const MALLOC_DEFINITION: &'static str =
    "void* weld_runst_malloc(WeldRuntimeContextRef run, int64_t size)
{
    if (size == 0) return 0;
    if (run->allocated + (uint64_t)size > run->memlimit) {
        run->errno = OutOfMemory;
        return 0;
    }
    uint64_t* block = (uint64_t*)calloc(1, (uint64_t)size + 16);
    assert(block != 0);
    block[0] = (uint64_t)size;
    run->allocated += (uint64_t)size;
    return (void*)(block + 2);
}";

pub const REALLOC_DEFINITION: &'static str =
    "void* weld_runst_realloc(WeldRuntimeContextRef run, void* pointer, int64_t size)
{
    if (pointer == 0) return weld_runst_malloc(run, size);
    uint64_t* old_block = (uint64_t*)pointer - 2;
    uint64_t old_size = old_block[0];
    if (size == 0) {
        run->allocated -= old_size;
        free(old_block);
        return 0;
    }
    if (run->allocated - old_size + (uint64_t)size > run->memlimit) {
        run->errno = OutOfMemory;
        return 0;
    }
    uint64_t* block = (uint64_t*)calloc(1, (uint64_t)size + 16);
    assert(block != 0);
    block[0] = (uint64_t)size;
    memcpy(block + 2, pointer, old_size < (uint64_t)size ? old_size : (uint64_t)size);
    free(old_block);
    run->allocated = run->allocated - old_size + (uint64_t)size;
    return (void*)(block + 2);
}";

pub const FREE_DEFINITION: &'static str =
    "void weld_runst_free(WeldRuntimeContextRef run, void* pointer)
{
    if (pointer == 0) return;
    uint64_t* block = (uint64_t*)pointer - 2;
    run->allocated -= block[0];
    free(block);
}";

pub const GET_ERRNO_DEFINITION: &'static str =
    "WeldRuntimeErrno weld_runst_get_errno(WeldRuntimeContextRef run)
{
    return run->errno;
}";

pub const SET_ERRNO_DEFINITION: &'static str =
    "void weld_runst_set_errno(WeldRuntimeContextRef run, WeldRuntimeErrno errno)
{
    run->errno = errno;
    longjmp(run->exit, 1);
}";

pub const ASSERT_DEFINITION: &'static str =
    "bool weld_runst_assert(WeldRuntimeContextRef run, bool cond)
{
    if (!cond) weld_runst_set_errno(run, AssertionError);
    return cond;
}";

pub const PRINT_DEFINITION: &'static str =
    "void weld_runst_print(WeldRuntimeContextRef run, const char* string)
{
    puts(string);
}";

impl HostFn {
    /// The definition of the entry point in source text.
    pub open spec fn spec_c_definition(self) -> Seq<char> {
        match self {
            HostFn::Init => INIT_DEFINITION@,
            HostFn::GetResult => GET_RESULT_DEFINITION@,
            HostFn::SetResult => SET_RESULT_DEFINITION@,
            HostFn::Malloc => MALLOC_DEFINITION@,
            HostFn::Realloc => REALLOC_DEFINITION@,
            HostFn::Free => FREE_DEFINITION@,
            HostFn::GetErrno => GET_ERRNO_DEFINITION@,
            HostFn::SetErrno => SET_ERRNO_DEFINITION@,
            HostFn::Assert => ASSERT_DEFINITION@,
            HostFn::Print => PRINT_DEFINITION@,
        }
    }

    pub fn c_definition(self) -> (s: &'static str)
        ensures
            s@ == self.spec_c_definition(),
    {
        match self {
            HostFn::Init => INIT_DEFINITION,
            HostFn::GetResult => GET_RESULT_DEFINITION,
            HostFn::SetResult => SET_RESULT_DEFINITION,
            HostFn::Malloc => MALLOC_DEFINITION,
            HostFn::Realloc => REALLOC_DEFINITION,
            HostFn::Free => FREE_DEFINITION,
            HostFn::GetErrno => GET_ERRNO_DEFINITION,
            HostFn::SetErrno => SET_ERRNO_DEFINITION,
            HostFn::Assert => ASSERT_DEFINITION,
            HostFn::Print => PRINT_DEFINITION,
        }
    }
}

/// The annotations of a pointer parameter that the function neither keeps
/// nor shares, and, where `read_only` holds, does not write through.
pub open spec fn pointer_attrs(index: u32, read_only: bool) -> Seq<(Place, Attr)> {
    let common = seq![
        (Place::Param(index), Attr::NoCapture),
        (Place::Param(index), Attr::NoAlias),
        (Place::Param(index), Attr::NonNull),
    ];
    if read_only {
        common.push((Place::Param(index), Attr::ReadOnly))
    } else {
        common
    }
}

fn push_pointer_attrs(attrs: &mut Vec<(Place, Attr)>, index: u32, read_only: bool)
    ensures
        final(attrs)@ == old(attrs)@ + pointer_attrs(index, read_only),
{
    attrs.push((Place::Param(index), Attr::NoCapture));
    attrs.push((Place::Param(index), Attr::NoAlias));
    attrs.push((Place::Param(index), Attr::NonNull));
    if read_only {
        attrs.push((Place::Param(index), Attr::ReadOnly));
    }
    assert(attrs@ =~= old(attrs)@ + pointer_attrs(index, read_only));
}

impl Callee {
    /// The parameter types of the function's declaration.
    pub open spec fn spec_params(self) -> Seq<Ty> {
        let run = spec_byte_pointer();
        let bytes = spec_byte_pointer();
        let i64t = Ty::Scalar(ScalarKind::I64);
        let i32t = Ty::Scalar(ScalarKind::I32);
        let flag = Ty::Scalar(ScalarKind::Bool);
        match self {
            Callee::Host(HostFn::Init) => seq![i32t, i64t],
            Callee::Host(HostFn::GetResult) => seq![run],
            Callee::Host(HostFn::SetResult) => seq![run, bytes],
            Callee::Host(HostFn::Malloc) => seq![run, i64t],
            Callee::Host(HostFn::Realloc) => seq![run, bytes, i64t],
            Callee::Host(HostFn::Free) => seq![run, bytes],
            Callee::Host(HostFn::GetErrno) => seq![run],
            Callee::Host(HostFn::SetErrno) => seq![run, i64t],
            Callee::Host(HostFn::Assert) => seq![run, flag],
            Callee::Host(HostFn::Print) => seq![run, bytes],
            Callee::Memcpy => seq![bytes, bytes, i64t, i32t, flag],
            Callee::Memset => seq![bytes, Ty::Scalar(ScalarKind::I8), i64t, i32t, flag],
        }
    }

    /// The return type of the function's declaration.
    pub open spec fn spec_ret(self) -> Ty {
        match self {
            Callee::Host(HostFn::Init) => spec_byte_pointer(),
            Callee::Host(HostFn::GetResult) => spec_byte_pointer(),
            Callee::Host(HostFn::Malloc) => spec_byte_pointer(),
            Callee::Host(HostFn::Realloc) => spec_byte_pointer(),
            Callee::Host(HostFn::GetErrno) => Ty::Scalar(ScalarKind::I64),
            Callee::Host(HostFn::Assert) => Ty::Scalar(ScalarKind::Bool),
            _ => Ty::Void,
        }
    }

    /// The annotations of the function's declaration.
    pub open spec fn spec_attrs(self) -> Seq<(Place, Attr)> {
        match self {
            Callee::Host(HostFn::Init) => Seq::empty(),
            Callee::Host(HostFn::GetResult) => seq![(Place::Function, Attr::NoUnwind)]
                + pointer_attrs(0, true),
            Callee::Host(HostFn::SetResult) => seq![(Place::Function, Attr::NoUnwind)]
                + pointer_attrs(0, false),
            Callee::Host(HostFn::Malloc) => pointer_attrs(0, false).push(
                (Place::Return, Attr::NoAlias),
            ),
            Callee::Host(HostFn::Realloc) => pointer_attrs(0, false).push(
                (Place::Return, Attr::NoAlias),
            ),
            Callee::Host(HostFn::Free) => pointer_attrs(0, false),
            Callee::Host(HostFn::GetErrno) => seq![(Place::Function, Attr::NoUnwind)]
                + pointer_attrs(0, true),
            Callee::Host(HostFn::SetErrno) => seq![(Place::Function, Attr::NoReturn)]
                + pointer_attrs(0, false),
            Callee::Host(HostFn::Assert) => pointer_attrs(0, false),
            Callee::Host(HostFn::Print) => pointer_attrs(0, true) + pointer_attrs(1, true),
            Callee::Memcpy => Seq::empty(),
            Callee::Memset => Seq::empty(),
        }
    }

    pub fn params(self) -> (v: Vec<Ty>)
        ensures
            v@ == self.spec_params(),
    {
        let mut v: Vec<Ty> = Vec::new();
        match self {
            Callee::Host(HostFn::Init) => {
                v.push(Ty::Scalar(ScalarKind::I32));
                v.push(Ty::Scalar(ScalarKind::I64));
            },
            Callee::Host(HostFn::GetResult) => {
                v.push(run_handle_type());
            },
            Callee::Host(HostFn::SetResult) => {
                v.push(run_handle_type());
                v.push(void_pointer_type());
            },
            Callee::Host(HostFn::Malloc) => {
                v.push(run_handle_type());
                v.push(Ty::Scalar(ScalarKind::I64));
            },
            Callee::Host(HostFn::Realloc) => {
                v.push(run_handle_type());
                v.push(void_pointer_type());
                v.push(Ty::Scalar(ScalarKind::I64));
            },
            Callee::Host(HostFn::Free) => {
                v.push(run_handle_type());
                v.push(void_pointer_type());
            },
            Callee::Host(HostFn::GetErrno) => {
                v.push(run_handle_type());
            },
            Callee::Host(HostFn::SetErrno) => {
                v.push(run_handle_type());
                v.push(Ty::Scalar(ScalarKind::I64));
            },
            Callee::Host(HostFn::Assert) => {
                v.push(run_handle_type());
                v.push(Ty::Scalar(ScalarKind::Bool));
            },
            Callee::Host(HostFn::Print) => {
                v.push(run_handle_type());
                v.push(void_pointer_type());
            },
            Callee::Memcpy => {
                v.push(void_pointer_type());
                v.push(void_pointer_type());
                v.push(Ty::Scalar(ScalarKind::I64));
                v.push(Ty::Scalar(ScalarKind::I32));
                v.push(Ty::Scalar(ScalarKind::Bool));
            },
            Callee::Memset => {
                v.push(void_pointer_type());
                v.push(Ty::Scalar(ScalarKind::I8));
                v.push(Ty::Scalar(ScalarKind::I64));
                v.push(Ty::Scalar(ScalarKind::I32));
                v.push(Ty::Scalar(ScalarKind::Bool));
            },
        }
        assert(v@ =~= self.spec_params());
        v
    }

    pub fn ret(self) -> (t: Ty)
        ensures
            t == self.spec_ret(),
    {
        match self {
            Callee::Host(HostFn::Init) => run_handle_type(),
            Callee::Host(HostFn::GetResult) => void_pointer_type(),
            Callee::Host(HostFn::Malloc) => void_pointer_type(),
            Callee::Host(HostFn::Realloc) => void_pointer_type(),
            Callee::Host(HostFn::GetErrno) => Ty::Scalar(ScalarKind::I64),
            Callee::Host(HostFn::Assert) => Ty::Scalar(ScalarKind::Bool),
            _ => Ty::Void,
        }
    }

    pub fn attrs(self) -> (v: Vec<(Place, Attr)>)
        ensures
            v@ == self.spec_attrs(),
    {
        let mut v: Vec<(Place, Attr)> = Vec::new();
        match self {
            Callee::Host(HostFn::GetResult) | Callee::Host(HostFn::GetErrno) => {
                v.push((Place::Function, Attr::NoUnwind));
                push_pointer_attrs(&mut v, 0, true);
            },
            Callee::Host(HostFn::SetResult) => {
                v.push((Place::Function, Attr::NoUnwind));
                push_pointer_attrs(&mut v, 0, false);
            },
            Callee::Host(HostFn::Malloc) | Callee::Host(HostFn::Realloc) => {
                push_pointer_attrs(&mut v, 0, false);
                v.push((Place::Return, Attr::NoAlias));
            },
            Callee::Host(HostFn::Free) | Callee::Host(HostFn::Assert) => {
                push_pointer_attrs(&mut v, 0, false);
            },
            Callee::Host(HostFn::SetErrno) => {
                v.push((Place::Function, Attr::NoReturn));
                push_pointer_attrs(&mut v, 0, false);
            },
            Callee::Host(HostFn::Print) => {
                push_pointer_attrs(&mut v, 0, true);
                push_pointer_attrs(&mut v, 1, true);
            },
            _ => {},
        }
        assert(v@ =~= self.spec_attrs());
        v
    }

    pub fn name(self) -> (s: &'static str)
        ensures
            s@ == self.spec_name(),
    {
        match self {
            Callee::Host(h) => h.name(),
            Callee::Memcpy => crate::host::memcpy_name(),
            Callee::Memset => crate::host::memset_name(),
        }
    }
}

} // verus!
