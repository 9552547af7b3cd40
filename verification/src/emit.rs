//! What one intrinsic call lowers to: per-lane operation requests for the
//! emission layer, or a diagnostic when lowering cannot proceed.

use vstd::prelude::*;

use crate::layout::LaneTy;
use crate::ops::{BinOp, CmpOp};

verus! {

/// The operation request that fills one destination lane. Operand lanes are
/// carried as bit patterns; `bits` is the width of the input lanes the
/// operation reads.
#[derive(Clone, Copy, Debug, PartialEq, Eq, Structural)]
pub enum LaneOp {
    /// Apply a scalar binary operation to the two input lanes.
    Bin { op: BinOp, bits: u32, lhs: u64, rhs: u64 },
    /// Apply a scalar predicate to the two input lanes and widen the
    /// boolean outcome to an all-bits-set or all-bits-clear mask of the
    /// destination lane's width.
    Cmp { op: CmpOp, bits: u32, lhs: u64, rhs: u64 },
    /// Numerically convert one input lane between the two lane types.
    Cast { from: LaneTy, to: LaneTy, lane: u64 },
    /// Copy one input lane verbatim.
    Move { lane: u64 },
}

/// A fully-lowered vector destination: its lane type and, in order, the
/// operation request that fills each lane.
#[derive(Clone, Debug, PartialEq, Eq)]
pub struct VectorDest {
    pub lane: LaneTy,
    pub ops: Vec<LaneOp>,
}

/// A user-reachable diagnostic, reported at the call's source position by
/// the diagnostic service. Out-of-range variants carry the offending value
/// and the bound of the valid range.
#[derive(Clone, Copy, Debug, PartialEq, Eq, Structural)]
pub enum Diagnostic {
    /// The intrinsic's name matches no known handler or prefix.
    UnknownIntrinsic,
    /// The shuffle index array operand is not a compile-time constant.
    ShuffleIndexNotConst,
    /// A shuffle index is not below `bound`, the combined length of the two
    /// source vectors.
    ShuffleIndexOutOfRange { index: u32, bound: u64 },
    /// A constant extract index is not below the vector's lane count.
    ExtractIndexOutOfRange { index: u64, lane_count: u64 },
    /// The extract index is not a compile-time constant; lowering degrades
    /// to a warning plus an unconditional runtime trap.
    NonConstExtractIndex,
}

/// A compiler-internal invariant violation: the call descriptor breaks an
/// invariant that an upstream phase was supposed to guarantee. Distinct from
/// `Diagnostic`, which covers mistakes reachable from user-written code.
#[derive(Clone, Copy, Debug, PartialEq, Eq, Structural)]
pub enum InternalFault {
    /// A layout was requested of an operand that is not vector-typed.
    NonVectorOperand,
    /// The two input vectors of one intrinsic differ in vector type.
    LayoutMismatch,
    /// Source and result lane types of a shuffle differ.
    LaneTypeMismatch,
    /// Operand and result lane counts differ.
    LaneCountMismatch { operand_lanes: u32, result_lanes: u32 },
    /// The lane count declared in a shuffle intrinsic's name differs from
    /// the resolved result lane count.
    DeclaredLaneCountMismatch { declared: u32, resolved: u32 },
    /// No scalar operation of the requested family exists for the operand's
    /// lane kind (an integer-only operation on float lanes, or a float-only
    /// operation on integer lanes).
    UnsupportedLaneKind,
    /// The shuffle index constant is not a by-reference byte constant.
    ShuffleIndexNotByRef,
    /// The shuffle index constant holds fewer bytes than its declared lane
    /// count requires.
    ShuffleIndexBytesTooShort,
    /// The extract index constant is not a scalar.
    ExtractIndexNotScalar,
    /// The operand list does not have the shape the intrinsic requires.
    MalformedOperands,
}

/// The outcome of lowering one intrinsic call.
#[derive(Clone, Debug, PartialEq, Eq)]
pub enum LowerOutcome {
    /// The destination vector is filled, one operation request per lane.
    Vector(VectorDest),
    /// The destination scalar holds this lane's bit pattern verbatim.
    Scalar(u64),
    /// The named warning is recorded and the whole operation is replaced by
    /// an unconditional, descriptive runtime trap; compilation proceeds.
    Trap(Diagnostic),
    /// The named error aborts compilation of the current unit at the call's
    /// source position; the destination is left unwritten.
    Fatal(Diagnostic),
    /// Lowering stopped on a compiler-internal invariant violation.
    Internal(InternalFault),
}

} // verus!
