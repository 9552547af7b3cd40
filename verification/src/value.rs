//! Operand values handed to the lowering engine.

use vstd::prelude::*;

use crate::layout::{fits_lane, MachineTy};

verus! {

/// Byte order of the compilation target, honored when decoding constant
/// operands from their raw byte representation.
#[derive(Clone, Copy, Debug, PartialEq, Eq, Structural)]
pub enum Endian {
    Little,
    Big,
}

/// An already-materialized machine value: its type together with the bit
/// pattern of each lane (a scalar value is a single lane).
#[derive(Clone, Debug, PartialEq, Eq)]
pub struct OperandValue {
    pub ty: MachineTy,
    pub lanes: Vec<u64>,
}

impl OperandValue {
    /// The lanes agree with the type: one bit pattern per lane, each
    /// representable in the lane's width.
    pub open spec fn wf(self) -> bool {
        self.ty.wf() && match self.ty {
            MachineTy::Vector(l, n) => self.lanes@.len() == n && forall|i: int|
                0 <= i < self.lanes@.len() ==> fits_lane(l.bits, #[trigger] self.lanes@[i]),
            MachineTy::Scalar(l) => self.lanes@.len() == 1 && fits_lane(l.bits, self.lanes@[0]),
        }
    }
}

/// What the constant evaluator answered for a not-yet-evaluated operand:
/// it is no compile-time constant at all, a scalar constant's bits, or a
/// by-reference constant's raw bytes in target byte order.
#[derive(Clone, Debug, PartialEq, Eq)]
pub enum MaybeConst {
    NotConst,
    Bits(u64),
    RawBytes(Vec<u8>),
}

/// One operand of an intrinsic call: either an already-materialized value,
/// or an expression that may or may not reduce to a compile-time constant.
#[derive(Clone, Debug, PartialEq, Eq)]
pub enum Operand {
    Value(OperandValue),
    Expr(MaybeConst),
}

impl Operand {
    pub open spec fn wf(self) -> bool {
        match self {
            Operand::Value(v) => v.wf(),
            Operand::Expr(_) => true,
        }
    }
}

} // verus!
