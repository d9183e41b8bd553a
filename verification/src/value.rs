//! Values that generated code computes with when it runs.

use vstd::prelude::*;

verus! {

/// Where a pointer points: nowhere, or into a block of the run's storage at
/// an offset (bytes in a buffer, slots in a record).
#[derive(Clone, Copy, Debug, PartialEq, Eq, Structural)]
pub enum Ptr {
    Null,
    At(usize, u64),
}

/// The `WIDTH` lanes of a SIMD value, as zero-extended bit patterns.
#[derive(Clone, Copy, Debug, PartialEq, Eq, Structural)]
pub struct Lanes {
    pub l0: u64,
    pub l1: u64,
    pub l2: u64,
    pub l3: u64,
}

/// A value that fits in one field of a record.
#[derive(Clone, Copy, Debug, PartialEq, Eq, Structural)]
pub enum Atom {
    Undef,
    /// An integer, as its zero-extended bit pattern.
    Int(u64),
    Ptr(Ptr),
    Simd(Lanes),
    /// The handle of the run in progress.
    Run,
}

/// A value of generated code.
#[derive(Clone, Copy, Debug, PartialEq, Eq, Structural)]
pub enum Val {
    /// The result of a routine that returns nothing.
    Unit,
    Atom(Atom),
    /// A record of two fields. A vector is `(pointer, length)` and a merger is
    /// `(scalar lane, vector lane)`.
    Record(Atom, Atom),
}

/// How the execution of a routine ends.
#[derive(Clone, Copy, Debug, PartialEq, Eq, Structural)]
pub enum Outcome {
    /// The routine returned the value.
    Value(Val),
    /// The run was terminated through its error path.
    Halted,
    /// The routine did something that has no meaning: the behaviour of the
    /// program is undefined.
    Stuck,
}

/// Error codes of a run.
#[derive(Clone, Copy, Debug, PartialEq, Eq, Structural)]
pub enum Errno {
    Success,
    ConfigurationError,
    LoadLibraryError,
    CompileError,
    ArrayOutOfBounds,
    BadIteratorLength,
    MismatchedZipSize,
    OutOfMemory,
    RunNotFound,
    Unknown,
    DeserializationError,
    KeyNotFoundError,
    AssertionError,
}

impl Errno {
    /// The number under which the run context stores the error.
    pub open spec fn spec_code(self) -> i64 {
        match self {
            Errno::Success => 0,
            Errno::ConfigurationError => 1,
            Errno::LoadLibraryError => 2,
            Errno::CompileError => 3,
            Errno::ArrayOutOfBounds => 4,
            Errno::BadIteratorLength => 5,
            Errno::MismatchedZipSize => 6,
            Errno::OutOfMemory => 7,
            Errno::RunNotFound => 8,
            Errno::Unknown => 9,
            Errno::DeserializationError => 10,
            Errno::KeyNotFoundError => 11,
            Errno::AssertionError => 12,
        }
    }

    #[verifier::when_used_as_spec(spec_code)]
    pub fn code(self) -> (c: i64)
        ensures
            c == self.spec_code(),
    {
        match self {
            Errno::Success => 0,
            Errno::ConfigurationError => 1,
            Errno::LoadLibraryError => 2,
            Errno::CompileError => 3,
            Errno::ArrayOutOfBounds => 4,
            Errno::BadIteratorLength => 5,
            Errno::MismatchedZipSize => 6,
            Errno::OutOfMemory => 7,
            Errno::RunNotFound => 8,
            Errno::Unknown => 9,
            Errno::DeserializationError => 10,
            Errno::KeyNotFoundError => 11,
            Errno::AssertionError => 12,
        }
    }

    /// The error with the given number, if there is one.
    pub fn from_code(code: i64) -> (e: Option<Errno>)
        ensures
            match e {
                Some(errno) => errno.spec_code() == code,
                None => !(0 <= code <= 12),
            },
    {
        match code {
            0 => Some(Errno::Success),
            1 => Some(Errno::ConfigurationError),
            2 => Some(Errno::LoadLibraryError),
            3 => Some(Errno::CompileError),
            4 => Some(Errno::ArrayOutOfBounds),
            5 => Some(Errno::BadIteratorLength),
            6 => Some(Errno::MismatchedZipSize),
            7 => Some(Errno::OutOfMemory),
            8 => Some(Errno::RunNotFound),
            9 => Some(Errno::Unknown),
            10 => Some(Errno::DeserializationError),
            11 => Some(Errno::KeyNotFoundError),
            12 => Some(Errno::AssertionError),
            _ => None,
        }
    }
}

/// Every error has one number, and no two errors share one.
pub proof fn lemma_errno_codes_distinct(a: Errno, b: Errno)
    ensures
        0 <= a.spec_code() <= 12,
        a.spec_code() == b.spec_code() <==> a == b,
{
}

} // verus!
