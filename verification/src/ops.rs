//! Scalar operation kinds and their selection per intrinsic and lane kind.

use vstd::prelude::*;

use crate::layout::LaneKind;

verus! {

/// A scalar binary machine operation requested from the emission layer.
#[derive(Clone, Copy, Debug, PartialEq, Eq, Structural)]
pub enum BinOp {
    IAdd,
    ISub,
    IMul,
    UDiv,
    SDiv,
    IShl,
    UShr,
    SShr,
    BAnd,
    BOr,
    BXor,
    FAdd,
    FSub,
    FMul,
    FDiv,
    FMin,
    FMax,
}

/// A scalar comparison predicate requested from the emission layer.
#[derive(Clone, Copy, Debug, PartialEq, Eq, Structural)]
pub enum CmpOp {
    IntEq,
    IntNe,
    ULt,
    SLt,
    ULe,
    SLe,
    UGt,
    SGt,
    UGe,
    SGe,
    FEq,
    FNe,
    FLt,
    FLe,
    FGt,
    FGe,
}

/// The elementwise binary intrinsic family.
#[derive(Clone, Copy, Debug, PartialEq, Eq, Structural)]
pub enum ElemIntrinsic {
    Add,
    Sub,
    Mul,
    Div,
    Shl,
    Shr,
    And,
    Or,
    Xor,
    Fmin,
    Fmax,
}

/// The six ordering/equality comparison intrinsics.
#[derive(Clone, Copy, Debug, PartialEq, Eq, Structural)]
pub enum CmpIntrinsic {
    Eq,
    Ne,
    Lt,
    Le,
    Gt,
    Ge,
}

/// The scalar operation for an elementwise intrinsic on lanes of the given
/// kind. Integer add/sub/mul and the bitwise operations are
/// signedness-insensitive; division and right shift are not; `fmin`/`fmax`
/// and the float variants exist only for floating-point lanes. `None` means
/// the pairing is malformed: its appearance at run time is a
/// compiler-internal invariant violation.
pub open spec fn spec_select_bin_op(op: ElemIntrinsic, kind: LaneKind) -> Option<BinOp> {
    match op {
        ElemIntrinsic::Add => match kind {
            LaneKind::Float => Some(BinOp::FAdd),
            _ => Some(BinOp::IAdd),
        },
        ElemIntrinsic::Sub => match kind {
            LaneKind::Float => Some(BinOp::FSub),
            _ => Some(BinOp::ISub),
        },
        ElemIntrinsic::Mul => match kind {
            LaneKind::Float => Some(BinOp::FMul),
            _ => Some(BinOp::IMul),
        },
        ElemIntrinsic::Div => match kind {
            LaneKind::UnsignedInt => Some(BinOp::UDiv),
            LaneKind::SignedInt => Some(BinOp::SDiv),
            LaneKind::Float => Some(BinOp::FDiv),
        },
        ElemIntrinsic::Shl => match kind {
            LaneKind::Float => None,
            _ => Some(BinOp::IShl),
        },
        ElemIntrinsic::Shr => match kind {
            LaneKind::UnsignedInt => Some(BinOp::UShr),
            LaneKind::SignedInt => Some(BinOp::SShr),
            LaneKind::Float => None,
        },
        ElemIntrinsic::And => match kind {
            LaneKind::Float => None,
            _ => Some(BinOp::BAnd),
        },
        ElemIntrinsic::Or => match kind {
            LaneKind::Float => None,
            _ => Some(BinOp::BOr),
        },
        ElemIntrinsic::Xor => match kind {
            LaneKind::Float => None,
            _ => Some(BinOp::BXor),
        },
        ElemIntrinsic::Fmin => match kind {
            LaneKind::Float => Some(BinOp::FMin),
            _ => None,
        },
        ElemIntrinsic::Fmax => match kind {
            LaneKind::Float => Some(BinOp::FMax),
            _ => None,
        },
    }
}

pub fn select_bin_op(op: ElemIntrinsic, kind: LaneKind) -> (r: Option<BinOp>)
    ensures
        r == spec_select_bin_op(op, kind),
{
    match op {
        ElemIntrinsic::Add => match kind {
            LaneKind::Float => Some(BinOp::FAdd),
            _ => Some(BinOp::IAdd),
        },
        ElemIntrinsic::Sub => match kind {
            LaneKind::Float => Some(BinOp::FSub),
            _ => Some(BinOp::ISub),
        },
        ElemIntrinsic::Mul => match kind {
            LaneKind::Float => Some(BinOp::FMul),
            _ => Some(BinOp::IMul),
        },
        ElemIntrinsic::Div => match kind {
            LaneKind::UnsignedInt => Some(BinOp::UDiv),
            LaneKind::SignedInt => Some(BinOp::SDiv),
            LaneKind::Float => Some(BinOp::FDiv),
        },
        ElemIntrinsic::Shl => match kind {
            LaneKind::Float => None,
            _ => Some(BinOp::IShl),
        },
        ElemIntrinsic::Shr => match kind {
            LaneKind::UnsignedInt => Some(BinOp::UShr),
            LaneKind::SignedInt => Some(BinOp::SShr),
            LaneKind::Float => None,
        },
        ElemIntrinsic::And => match kind {
            LaneKind::Float => None,
            _ => Some(BinOp::BAnd),
        },
        ElemIntrinsic::Or => match kind {
            LaneKind::Float => None,
            _ => Some(BinOp::BOr),
        },
        ElemIntrinsic::Xor => match kind {
            LaneKind::Float => None,
            _ => Some(BinOp::BXor),
        },
        ElemIntrinsic::Fmin => match kind {
            LaneKind::Float => Some(BinOp::FMin),
            _ => None,
        },
        ElemIntrinsic::Fmax => match kind {
            LaneKind::Float => Some(BinOp::FMax),
            _ => None,
        },
    }
}

/// The scalar predicate for a comparison intrinsic on lanes of the given
/// kind: equality and inequality have one integer predicate for both
/// signednesses, the four orderings pick the signed or the unsigned
/// predicate, and floating-point lanes use the float predicates throughout.
pub open spec fn spec_select_cmp_op(c: CmpIntrinsic, kind: LaneKind) -> CmpOp {
    match c {
        CmpIntrinsic::Eq => match kind {
            LaneKind::Float => CmpOp::FEq,
            _ => CmpOp::IntEq,
        },
        CmpIntrinsic::Ne => match kind {
            LaneKind::Float => CmpOp::FNe,
            _ => CmpOp::IntNe,
        },
        CmpIntrinsic::Lt => match kind {
            LaneKind::UnsignedInt => CmpOp::ULt,
            LaneKind::SignedInt => CmpOp::SLt,
            LaneKind::Float => CmpOp::FLt,
        },
        CmpIntrinsic::Le => match kind {
            LaneKind::UnsignedInt => CmpOp::ULe,
            LaneKind::SignedInt => CmpOp::SLe,
            LaneKind::Float => CmpOp::FLe,
        },
        CmpIntrinsic::Gt => match kind {
            LaneKind::UnsignedInt => CmpOp::UGt,
            LaneKind::SignedInt => CmpOp::SGt,
            LaneKind::Float => CmpOp::FGt,
        },
        CmpIntrinsic::Ge => match kind {
            LaneKind::UnsignedInt => CmpOp::UGe,
            LaneKind::SignedInt => CmpOp::SGe,
            LaneKind::Float => CmpOp::FGe,
        },
    }
}

pub fn select_cmp_op(c: CmpIntrinsic, kind: LaneKind) -> (r: CmpOp)
    ensures
        r == spec_select_cmp_op(c, kind),
{
    match c {
        CmpIntrinsic::Eq => match kind {
            LaneKind::Float => CmpOp::FEq,
            _ => CmpOp::IntEq,
        },
        CmpIntrinsic::Ne => match kind {
            LaneKind::Float => CmpOp::FNe,
            _ => CmpOp::IntNe,
        },
        CmpIntrinsic::Lt => match kind {
            LaneKind::UnsignedInt => CmpOp::ULt,
            LaneKind::SignedInt => CmpOp::SLt,
            LaneKind::Float => CmpOp::FLt,
        },
        CmpIntrinsic::Le => match kind {
            LaneKind::UnsignedInt => CmpOp::ULe,
            LaneKind::SignedInt => CmpOp::SLe,
            LaneKind::Float => CmpOp::FLe,
        },
        CmpIntrinsic::Gt => match kind {
            LaneKind::UnsignedInt => CmpOp::UGt,
            LaneKind::SignedInt => CmpOp::SGt,
            LaneKind::Float => CmpOp::FGt,
        },
        CmpIntrinsic::Ge => match kind {
            LaneKind::UnsignedInt => CmpOp::UGe,
            LaneKind::SignedInt => CmpOp::SGe,
            LaneKind::Float => CmpOp::FGe,
        },
    }
}

} // verus!
