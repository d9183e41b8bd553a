use weld::runtime::RunContext;
use weld::value::Atom;
use weld::value::Errno;
use weld::value::Ptr;
use weld::value::Val;

#[test]
fn init_starts_with_clean_accounting() {
    let run = RunContext::init(4, 1000);
    assert_eq!(run.get_errno(), 0);
    assert_eq!(run.get_result(), Ptr::Null);
    assert_eq!(run.nworkers(), 4);
    assert_eq!(run.memlimit(), 1000);
    assert_eq!(run.allocated(), 0);
    assert!(!run.is_halted());
}

#[test]
fn errno_codes_are_zero_to_twelve() {
    let all = [
        Errno::Success,
        Errno::ConfigurationError,
        Errno::LoadLibraryError,
        Errno::CompileError,
        Errno::ArrayOutOfBounds,
        Errno::BadIteratorLength,
        Errno::MismatchedZipSize,
        Errno::OutOfMemory,
        Errno::RunNotFound,
        Errno::Unknown,
        Errno::DeserializationError,
        Errno::KeyNotFoundError,
        Errno::AssertionError,
    ];
    for (i, e) in all.iter().enumerate() {
        assert_eq!(e.code(), i as i64);
        assert_eq!(Errno::from_code(i as i64), Some(*e));
    }
    assert_eq!(Errno::from_code(13), None);
    assert_eq!(Errno::from_code(-1), None);
}

#[test]
fn malloc_counts_the_bytes() {
    let mut run = RunContext::init(1, 100);
    let p = run.malloc(40);
    assert_eq!(p, Ptr::At(0, 0));
    assert_eq!(run.allocated(), 40);
    let q = run.malloc(60);
    assert_eq!(q, Ptr::At(1, 0));
    assert_eq!(run.allocated(), 100);
    assert_eq!(run.get_errno(), 0);
    assert_eq!(run.read_bytes(p, 40), Some(vec![0u8; 40]));
}

#[test]
fn malloc_beyond_the_limit_sets_out_of_memory() {
    let mut run = RunContext::init(1, 100);
    let p = run.malloc(101);
    assert_eq!(p, Ptr::Null);
    assert_eq!(run.get_errno(), Errno::OutOfMemory.code());
    assert_eq!(run.allocated(), 0);
    assert!(!run.is_halted());
}

#[test]
fn malloc_of_nothing_is_null() {
    let mut run = RunContext::init(1, 100);
    assert_eq!(run.malloc(0), Ptr::Null);
    assert_eq!(run.allocated(), 0);
    assert_eq!(run.get_errno(), 0);
}

#[test]
fn free_gives_the_bytes_back() {
    let mut run = RunContext::init(1, 100);
    let p = run.malloc(40);
    let q = run.malloc(10);
    assert!(run.owns(p));
    run.free(p);
    assert_eq!(run.allocated(), 10);
    assert!(!run.owns(p));
    assert!(run.owns(q));
    assert_eq!(run.read_bytes(p, 1), None);
    run.free(Ptr::Null);
    assert_eq!(run.allocated(), 10);
}

#[test]
fn realloc_keeps_the_leading_bytes() {
    let mut run = RunContext::init(1, 100);
    let p = run.malloc(4);
    assert!(run.write_bytes(p, &vec![1, 2, 3, 4]));
    let q = run.realloc(p, 6);
    assert_eq!(q, Ptr::At(1, 0));
    assert_eq!(run.read_bytes(q, 6), Some(vec![1, 2, 3, 4, 0, 0]));
    assert_eq!(run.allocated(), 6);
    assert!(!run.owns(p));
    let r = run.realloc(q, 2);
    assert_eq!(run.read_bytes(r, 2), Some(vec![1, 2]));
    assert_eq!(run.allocated(), 2);
}

#[test]
fn realloc_of_null_allocates_and_to_nothing_frees() {
    let mut run = RunContext::init(1, 100);
    let p = run.realloc(Ptr::Null, 8);
    assert_eq!(p, Ptr::At(0, 0));
    assert_eq!(run.allocated(), 8);
    let q = run.realloc(p, 0);
    assert_eq!(q, Ptr::Null);
    assert_eq!(run.allocated(), 0);
}

#[test]
fn realloc_beyond_the_limit_keeps_the_allocation() {
    let mut run = RunContext::init(1, 10);
    let p = run.malloc(8);
    assert!(run.write_bytes(p, &vec![9; 8]));
    let q = run.realloc(p, 11);
    assert_eq!(q, Ptr::Null);
    assert_eq!(run.get_errno(), 7);
    assert!(run.owns(p));
    assert_eq!(run.allocated(), 8);
    assert_eq!(run.read_bytes(p, 8), Some(vec![9; 8]));
    // The bytes that are given back count towards the limit.
    let r = run.realloc(p, 10);
    assert_eq!(r, Ptr::At(1, 0));
    assert_eq!(run.allocated(), 10);
}

#[test]
fn bytes_are_read_and_written_in_bounds_only() {
    let mut run = RunContext::init(1, 100);
    let p = run.malloc(4);
    assert!(run.in_bounds(p, 4));
    assert!(!run.in_bounds(p, 5));
    assert!(run.in_bounds(Ptr::At(0, 4), 0));
    assert!(!run.in_bounds(Ptr::At(0, 5), 0));
    assert!(!run.in_bounds(Ptr::Null, 0));
    assert!(!run.write_bytes(Ptr::At(0, 2), &vec![1, 2, 3]));
    assert_eq!(run.read_bytes(p, 4), Some(vec![0, 0, 0, 0]));
    assert!(run.write_bytes(Ptr::At(0, 2), &vec![1, 2]));
    assert_eq!(run.read_bytes(p, 4), Some(vec![0, 0, 1, 2]));
    assert_eq!(run.read_bytes(Ptr::At(0, 1), 2), Some(vec![0, 1]));
    assert_eq!(run.read_bytes(Ptr::At(7, 0), 1), None);
}

#[test]
fn memcpy_copies_between_allocations() {
    let mut run = RunContext::init(1, 100);
    let p = run.malloc(4);
    let q = run.malloc(4);
    assert!(run.write_bytes(p, &vec![5, 6, 7, 8]));
    assert!(run.memcpy(Ptr::At(1, 1), Ptr::At(0, 2), 2));
    assert_eq!(run.read_bytes(q, 4), Some(vec![0, 7, 8, 0]));
    assert_eq!(run.read_bytes(p, 4), Some(vec![5, 6, 7, 8]));
    assert!(!run.memcpy(q, p, 5));
    assert!(!run.memcpy(Ptr::Null, p, 1));
    assert!(run.memcpy(Ptr::Null, Ptr::Null, 0));
    assert_eq!(run.read_bytes(q, 4), Some(vec![0, 7, 8, 0]));
}

#[test]
fn memset_fills_bytes() {
    let mut run = RunContext::init(1, 100);
    let p = run.malloc(4);
    assert!(run.memset(Ptr::At(0, 1), 0xab, 2));
    assert_eq!(run.read_bytes(p, 4), Some(vec![0, 0xab, 0xab, 0]));
    assert!(!run.memset(p, 1, 5));
    assert!(run.memset(Ptr::Null, 1, 0));
}

#[test]
fn set_errno_terminates_the_run() {
    let mut run = RunContext::init(1, 100);
    run.set_errno(Errno::ArrayOutOfBounds.code());
    assert_eq!(run.get_errno(), 4);
    assert!(run.is_halted());
}

#[test]
fn failed_assertion_terminates_the_run() {
    let mut run = RunContext::init(1, 100);
    assert!(run.check(true));
    assert!(!run.is_halted());
    assert_eq!(run.get_errno(), 0);
    assert!(!run.check(false));
    assert!(run.is_halted());
    assert_eq!(run.get_errno(), Errno::AssertionError.code());
}

#[test]
fn result_slot_holds_one_pointer() {
    let mut run = RunContext::init(1, 100);
    let p = run.malloc(4);
    run.set_result(p);
    assert_eq!(run.get_result(), p);
    run.set_result(Ptr::Null);
    assert_eq!(run.get_result(), Ptr::Null);
}

#[test]
fn records_hold_one_value_per_slot() {
    let mut run = RunContext::init(1, 0);
    let p = run.alloca(2);
    assert_eq!(p, Ptr::At(0, 0));
    assert_eq!(run.allocated(), 0);
    assert_eq!(run.load(p), Some(Atom::Undef));
    assert!(run.store(p, Val::Record(Atom::Int(7), Atom::Ptr(Ptr::Null))));
    assert_eq!(run.load(p), Some(Atom::Int(7)));
    assert_eq!(run.load(Ptr::At(0, 1)), Some(Atom::Ptr(Ptr::Null)));
    assert_eq!(run.load(Ptr::At(0, 2)), None);
    assert!(run.store(Ptr::At(0, 1), Val::Atom(Atom::Int(9))));
    assert_eq!(run.load(Ptr::At(0, 1)), Some(Atom::Int(9)));
    assert!(!run.store(Ptr::At(0, 1), Val::Record(Atom::Int(1), Atom::Int(2))));
    assert!(!run.store(p, Val::Unit));
    assert!(!run.store(Ptr::Null, Val::Atom(Atom::Int(1))));
    assert_eq!(run.read_bytes(p, 0), None);
}
