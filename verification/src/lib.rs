//! Code generation for the built-in runtime types of a data-parallel language.
//!
//! The generators in this crate lower two parametric runtime types, a growable
//! buffer (`vector::Vector`) and a fold-merge accumulator (`merger::Merger`),
//! into routines of a small operation-sequence representation (`ir`) and into
//! portable source text (`code`, `context`, `vector_text`, `merger_text`).
//! They call the runtime through a registry of intrinsics (`intrinsic`), whose
//! default entries (`defaults`, `host`) operate on the per-execution run
//! context (`runtime`).
//!
//! Every routine has a meaning, given by the reference machine in `machine`:
//! an outcome and a final state of the run. The generators' contracts say
//! which operations a routine consists of; `vector_semantics` and
//! `merger_semantics` prove what the routines compute, and what holds of
//! their use together.

pub mod code;
pub mod context;
pub mod defaults;
pub mod error;
pub mod generator;
pub mod host;
pub mod intrinsic;
pub mod ir;
pub mod kinds;
pub mod machine;
pub mod merger;
pub mod merger_semantics;
pub mod merger_text;
pub mod numeric;
pub mod runtime;
pub mod text;
pub mod value;
pub mod vector;
pub mod vector_semantics;
pub mod vector_text;
