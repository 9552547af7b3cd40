//! Lowering of portable SIMD intrinsic calls.
//!
//! Given an intrinsic's bare name, its operand values, the destination's
//! machine type and the target's byte order, this library resolves the vector
//! lane layout of every operand, selects the lowering strategy for the
//! intrinsic family (cast, comparison, shuffle, lane extraction, elementwise
//! arithmetic/bitwise), re-validates the invariants that the source language's
//! type checker cannot guarantee for unsafely generic intrinsics (lane-count
//! equality, index bounds, constness of index operands), and produces the
//! per-lane scalar operation requests that an instruction-emission layer
//! turns into machine code.
//!
//! Failures are split into two taxonomies: internal invariant violations
//! (bugs in an upstream compiler phase) and user-reachable diagnostics
//! (unknown intrinsic, non-constant or out-of-range index), which are
//! reported as structured values rather than by aborting.

pub mod dispatch;
pub mod emit;
pub mod eval;
pub mod laws;
pub mod layout;
pub mod lower;
pub mod ops;
pub mod shuffle_idx;
pub mod value;
