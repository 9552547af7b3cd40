//! The intrinsic-dispatch-and-lowering engine.
//!
//! One function per intrinsic family turns the family's operands into the
//! per-lane operation requests of the destination, after re-validating the
//! invariants that the front end's type checker cannot guarantee. The entry
//! point dispatches on the intrinsic's name and delegates to exactly one
//! handler. Each function's contract is the corresponding `*_outcome`
//! relation, which pins the outcome for every input.

use vstd::prelude::*;

use crate::dispatch::{parse_intrinsic, spec_parse_intrinsic, IntrinsicKind};
use crate::emit::{Diagnostic, InternalFault, LaneOp, LowerOutcome, VectorDest};
use crate::layout::{lane_type_and_count, MachineTy};
use crate::ops::{
    select_bin_op, select_cmp_op, spec_select_bin_op, spec_select_cmp_op, CmpIntrinsic,
    ElemIntrinsic,
};
use crate::shuffle_idx::{decode_indices, spec_indices};
use crate::value::{Endian, MaybeConst, Operand, OperandValue};

verus! {

/// The outcome of elementwise binary lowering: per lane, the scalar
/// operation selected by the intrinsic and the operands' lane kind, applied
/// to the operands' lanes at that position. The two operand vectors must
/// share one vector type, and operand and result lane counts must agree;
/// either mismatch is a compiler-internal fault.
pub open spec fn elementwise_outcome(
    op: ElemIntrinsic,
    x: OperandValue,
    y: OperandValue,
    ret_ty: MachineTy,
    r: LowerOutcome,
) -> bool {
    if x.ty != y.ty {
        r == LowerOutcome::Internal(InternalFault::LayoutMismatch)
    } else {
        match (x.ty, ret_ty) {
            (MachineTy::Vector(l, n), MachineTy::Vector(rl, rn)) => {
                if n != rn {
                    r == LowerOutcome::Internal(
                        InternalFault::LaneCountMismatch { operand_lanes: n, result_lanes: rn },
                    )
                } else {
                    match spec_select_bin_op(op, l.kind) {
                        Option::None => r == LowerOutcome::Internal(
                            InternalFault::UnsupportedLaneKind,
                        ),
                        Option::Some(b) => match r {
                            LowerOutcome::Vector(d) => d.lane == rl && d.ops@ == Seq::new(
                                n as nat,
                                |k: int|
                                    LaneOp::Bin {
                                        op: b,
                                        bits: l.bits,
                                        lhs: x.lanes@[k],
                                        rhs: y.lanes@[k],
                                    },
                            ),
                            _ => false,
                        },
                    }
                }
            },
            _ => r == LowerOutcome::Internal(InternalFault::NonVectorOperand),
        }
    }
}

/// The outcome of comparison lowering: per lane, the predicate selected by
/// the intrinsic and the operands' lane kind (signed, unsigned or float),
/// applied to the operands' lanes, widened to a mask of the result vector's
/// lane type. Only the lane counts of operands and result must agree; the
/// result lane type is the destination's own.
pub open spec fn comparison_outcome(
    c: CmpIntrinsic,
    x: OperandValue,
    y: OperandValue,
    ret_ty: MachineTy,
    r: LowerOutcome,
) -> bool {
    if x.ty != y.ty {
        r == LowerOutcome::Internal(InternalFault::LayoutMismatch)
    } else {
        match (x.ty, ret_ty) {
            (MachineTy::Vector(l, n), MachineTy::Vector(rl, rn)) => {
                if n != rn {
                    r == LowerOutcome::Internal(
                        InternalFault::LaneCountMismatch { operand_lanes: n, result_lanes: rn },
                    )
                } else {
                    match r {
                        LowerOutcome::Vector(d) => d.lane == rl && d.ops@ == Seq::new(
                            n as nat,
                            |k: int|
                                LaneOp::Cmp {
                                    op: spec_select_cmp_op(c, l.kind),
                                    bits: l.bits,
                                    lhs: x.lanes@[k],
                                    rhs: y.lanes@[k],
                                },
                        ),
                        _ => false,
                    }
                }
            },
            _ => r == LowerOutcome::Internal(InternalFault::NonVectorOperand),
        }
    }
}

/// The outcome of cast lowering: per lane, a numeric conversion request
/// carrying both the source and the destination lane type, so that the
/// emission layer applies the rule implied by both signednesses. Input and
/// output lane counts must agree.
pub open spec fn cast_outcome(
    a: OperandValue,
    ret_ty: MachineTy,
    r: LowerOutcome,
) -> bool {
    match (a.ty, ret_ty) {
        (MachineTy::Vector(l, n), MachineTy::Vector(rl, rn)) => {
            if n != rn {
                r == LowerOutcome::Internal(
                    InternalFault::LaneCountMismatch { operand_lanes: n, result_lanes: rn },
                )
            } else {
                match r {
                    LowerOutcome::Vector(d) => d.lane == rl && d.ops@ == Seq::new(
                        n as nat,
                        |k: int| LaneOp::Cast { from: l, to: rl, lane: a.lanes@[k] },
                    ),
                    _ => false,
                }
            }
        },
        _ => r == LowerOutcome::Internal(InternalFault::NonVectorOperand),
    }
}

/// Position `k` holds the first decoded shuffle index that is out of range,
/// and `r` is the fatal diagnostic carrying that index and the bound of the
/// valid range.
pub open spec fn first_index_oob_at(
    inds: Seq<u32>,
    bound: int,
    r: LowerOutcome,
    k: int,
) -> bool {
    &&& 0 <= k < inds.len()
    &&& (inds[k] as int) >= bound
    &&& (forall|j: int| 0 <= j < k ==> ((#[trigger] inds[j]) as int) < bound)
    &&& r == (LowerOutcome::Fatal(
        Diagnostic::ShuffleIndexOutOfRange { index: inds[k], bound: bound as u64 },
    ))
}

/// Some decoded shuffle index is out of range, and `r` reports the first.
pub open spec fn first_index_oob(inds: Seq<u32>, bound: int, r: LowerOutcome) -> bool {
    exists|k: int| first_index_oob_at(inds, bound, r, k)
}

/// The outcome of shuffle lowering. With both sources of one vector type,
/// the declared lane count equal to the resolved result lane count, and the
/// index operand a by-reference constant of enough bytes, the indices are
/// decoded in target byte order; the first index not below twice the source
/// lane count is a fatal diagnostic carrying that index and the bound.
/// Otherwise destination lane `k` copies source lane `idx[k]` verbatim from
/// the first vector, or lane `idx[k] - lane_count` from the second.
pub open spec fn shuffle_outcome(
    declared: u32,
    x: OperandValue,
    y: OperandValue,
    idx: MaybeConst,
    ret_ty: MachineTy,
    e: Endian,
    r: LowerOutcome,
) -> bool {
    if x.ty != y.ty {
        r == LowerOutcome::Internal(InternalFault::LayoutMismatch)
    } else {
        match (x.ty, ret_ty) {
            (MachineTy::Vector(l, lc), MachineTy::Vector(rl, rc)) => {
                if l != rl {
                    r == LowerOutcome::Internal(InternalFault::LaneTypeMismatch)
                } else if declared != rc {
                    r == LowerOutcome::Internal(
                        InternalFault::DeclaredLaneCountMismatch { declared, resolved: rc },
                    )
                } else {
                    match idx {
                        MaybeConst::NotConst => r == LowerOutcome::Fatal(
                            Diagnostic::ShuffleIndexNotConst,
                        ),
                        MaybeConst::Bits(_) => r == LowerOutcome::Internal(
                            InternalFault::ShuffleIndexNotByRef,
                        ),
                        MaybeConst::RawBytes(bytes) => {
                            if bytes@.len() < 4 * (rc as int) {
                                r == LowerOutcome::Internal(
                                    InternalFault::ShuffleIndexBytesTooShort,
                                )
                            } else {
                                let inds = spec_indices(e, bytes@, rc as int);
                                let bound = 2 * (lc as int);
                                if exists|k: int|
                                    0 <= k < inds.len() && (#[trigger] inds[k]) as int >= bound {
                                    first_index_oob(inds, bound, r)
                                } else {
                                    match r {
                                        LowerOutcome::Vector(d) => d.lane == rl && d.ops@
                                            == Seq::new(
                                            rc as nat,
                                            |k: int|
                                                LaneOp::Move {
                                                    lane: if (inds[k] as int) < lc as int {
                                                        x.lanes@[inds[k] as int]
                                                    } else {
                                                        y.lanes@[inds[k] as int - lc as int]
                                                    },
                                                },
                                        ),
                                        _ => false,
                                    }
                                }
                            }
                        },
                    }
                }
            },
            _ => r == LowerOutcome::Internal(InternalFault::NonVectorOperand),
        }
    }
}

/// The outcome of extract lowering. A non-constant index degrades to a
/// warning plus a runtime trap before anything else is examined; a constant
/// index at or above the lane count is a fatal diagnostic carrying both;
/// otherwise the addressed lane's bit pattern is copied out verbatim.
pub open spec fn extract_outcome(v: OperandValue, idx: MaybeConst, r: LowerOutcome) -> bool {
    match idx {
        MaybeConst::NotConst => r == LowerOutcome::Trap(Diagnostic::NonConstExtractIndex),
        MaybeConst::RawBytes(_) => r == LowerOutcome::Internal(InternalFault::ExtractIndexNotScalar),
        MaybeConst::Bits(i) => match v.ty {
            MachineTy::Vector(_, lc) => {
                if i >= lc as u64 {
                    r == LowerOutcome::Fatal(
                        Diagnostic::ExtractIndexOutOfRange { index: i, lane_count: lc as u64 },
                    )
                } else {
                    r == LowerOutcome::Scalar(v.lanes@[i as int])
                }
            },
            MachineTy::Scalar(_) => r == LowerOutcome::Internal(InternalFault::NonVectorOperand),
        },
    }
}

pub open spec fn malformed_operands(r: LowerOutcome) -> bool {
    r == LowerOutcome::Internal(InternalFault::MalformedOperands)
}

/// The outcome of one whole intrinsic call: the name selects exactly one
/// handler, an unrecognized name is a fatal diagnostic, and an operand list
/// without the shape the handler requires is a compiler-internal fault.
pub open spec fn call_outcome(
    name: Seq<char>,
    args: Seq<Operand>,
    ret_ty: MachineTy,
    e: Endian,
    r: LowerOutcome,
) -> bool {
    match spec_parse_intrinsic(name) {
        IntrinsicKind::Unknown => r == LowerOutcome::Fatal(Diagnostic::UnknownIntrinsic),
        IntrinsicKind::Cast => if args.len() == 1 {
            match args[0] {
                Operand::Value(a) => cast_outcome(a, ret_ty, r),
                _ => malformed_operands(r),
            }
        } else {
            malformed_operands(r)
        },
        IntrinsicKind::Comparison(c) => if args.len() == 2 {
            match (args[0], args[1]) {
                (Operand::Value(x), Operand::Value(y)) => comparison_outcome(c, x, y, ret_ty, r),
                _ => malformed_operands(r),
            }
        } else {
            malformed_operands(r)
        },
        IntrinsicKind::Elementwise(op) => if args.len() == 2 {
            match (args[0], args[1]) {
                (Operand::Value(x), Operand::Value(y)) => elementwise_outcome(op, x, y, ret_ty, r),
                _ => malformed_operands(r),
            }
        } else {
            malformed_operands(r)
        },
        IntrinsicKind::Shuffle(n) => if args.len() == 3 {
            match (args[0], args[1], args[2]) {
                (Operand::Value(x), Operand::Value(y), Operand::Expr(m)) => shuffle_outcome(
                    n,
                    x,
                    y,
                    m,
                    ret_ty,
                    e,
                    r,
                ),
                _ => malformed_operands(r),
            }
        } else {
            malformed_operands(r)
        },
        IntrinsicKind::Extract => if args.len() == 2 {
            match (args[0], args[1]) {
                (Operand::Value(v), Operand::Expr(m)) => extract_outcome(v, m, r),
                _ => malformed_operands(r),
            }
        } else {
            malformed_operands(r)
        },
    }
}

/// Elementwise binary lowering: one scalar operation request per lane.
#[verifier::loop_isolation(false)]
pub fn lower_elementwise(
    op: ElemIntrinsic,
    x: &OperandValue,
    y: &OperandValue,
    ret_ty: &MachineTy,
) -> (r: LowerOutcome)
    requires
        x.wf(),
        y.wf(),
    ensures
        elementwise_outcome(op, *x, *y, *ret_ty, r),
{
    if x.ty != y.ty {
        return LowerOutcome::Internal(InternalFault::LayoutMismatch);
    }
    let (l, n) = match lane_type_and_count(&x.ty) {
        Some(p) => p,
        None => {
            return LowerOutcome::Internal(InternalFault::NonVectorOperand);
        },
    };
    let (rl, rn) = match lane_type_and_count(ret_ty) {
        Some(p) => p,
        None => {
            return LowerOutcome::Internal(InternalFault::NonVectorOperand);
        },
    };
    if n != rn {
        return LowerOutcome::Internal(
            InternalFault::LaneCountMismatch { operand_lanes: n, result_lanes: rn },
        );
    }
    let b = match select_bin_op(op, l.kind) {
        Some(b) => b,
        None => {
            return LowerOutcome::Internal(InternalFault::UnsupportedLaneKind);
        },
    };
    let mut lane_ops: Vec<LaneOp> = Vec::new();
    let mut i: usize = 0;
    while i < n as usize
        invariant
            x.wf(),
            y.wf(),
            x.ty == MachineTy::Vector(l, n),
            y.ty == x.ty,
            i <= n as usize,
            lane_ops@.len() == i,
            forall|k: int|
                0 <= k < i ==> lane_ops@[k] == (LaneOp::Bin {
                    op: b,
                    bits: l.bits,
                    lhs: x.lanes@[k],
                    rhs: y.lanes@[k],
                }),
        decreases n as usize - i,
    {
        lane_ops.push(LaneOp::Bin { op: b, bits: l.bits, lhs: x.lanes[i], rhs: y.lanes[i] });
        i += 1;
    }
    proof {
        assert(lane_ops@ =~= Seq::new(
            n as nat,
            |k: int| LaneOp::Bin { op: b, bits: l.bits, lhs: x.lanes@[k], rhs: y.lanes@[k] },
        ));
    }
    LowerOutcome::Vector(VectorDest { lane: rl, ops: lane_ops })
}

/// Comparison lowering: one mask-producing predicate request per lane.
#[verifier::loop_isolation(false)]
pub fn lower_comparison(
    c: CmpIntrinsic,
    x: &OperandValue,
    y: &OperandValue,
    ret_ty: &MachineTy,
) -> (r: LowerOutcome)
    requires
        x.wf(),
        y.wf(),
    ensures
        comparison_outcome(c, *x, *y, *ret_ty, r),
{
    if x.ty != y.ty {
        return LowerOutcome::Internal(InternalFault::LayoutMismatch);
    }
    let (l, n) = match lane_type_and_count(&x.ty) {
        Some(p) => p,
        None => {
            return LowerOutcome::Internal(InternalFault::NonVectorOperand);
        },
    };
    let (rl, rn) = match lane_type_and_count(ret_ty) {
        Some(p) => p,
        None => {
            return LowerOutcome::Internal(InternalFault::NonVectorOperand);
        },
    };
    if n != rn {
        return LowerOutcome::Internal(
            InternalFault::LaneCountMismatch { operand_lanes: n, result_lanes: rn },
        );
    }
    let cop = select_cmp_op(c, l.kind);
    let mut lane_ops: Vec<LaneOp> = Vec::new();
    let mut i: usize = 0;
    while i < n as usize
        invariant
            x.wf(),
            y.wf(),
            x.ty == MachineTy::Vector(l, n),
            y.ty == x.ty,
            cop == spec_select_cmp_op(c, l.kind),
            i <= n as usize,
            lane_ops@.len() == i,
            forall|k: int|
                0 <= k < i ==> lane_ops@[k] == (LaneOp::Cmp {
                    op: cop,
                    bits: l.bits,
                    lhs: x.lanes@[k],
                    rhs: y.lanes@[k],
                }),
        decreases n as usize - i,
    {
        lane_ops.push(LaneOp::Cmp { op: cop, bits: l.bits, lhs: x.lanes[i], rhs: y.lanes[i] });
        i += 1;
    }
    proof {
        assert(lane_ops@ =~= Seq::new(
            n as nat,
            |k: int|
                LaneOp::Cmp {
                    op: spec_select_cmp_op(c, l.kind),
                    bits: l.bits,
                    lhs: x.lanes@[k],
                    rhs: y.lanes@[k],
                },
        ));
    }
    LowerOutcome::Vector(VectorDest { lane: rl, ops: lane_ops })
}

/// Cast lowering: one conversion request per lane, carrying both lane types.
#[verifier::loop_isolation(false)]
pub fn lower_cast(a: &OperandValue, ret_ty: &MachineTy) -> (r: LowerOutcome)
    requires
        a.wf(),
    ensures
        cast_outcome(*a, *ret_ty, r),
{
    let (l, n) = match lane_type_and_count(&a.ty) {
        Some(p) => p,
        None => {
            return LowerOutcome::Internal(InternalFault::NonVectorOperand);
        },
    };
    let (rl, rn) = match lane_type_and_count(ret_ty) {
        Some(p) => p,
        None => {
            return LowerOutcome::Internal(InternalFault::NonVectorOperand);
        },
    };
    if n != rn {
        return LowerOutcome::Internal(
            InternalFault::LaneCountMismatch { operand_lanes: n, result_lanes: rn },
        );
    }
    let mut lane_ops: Vec<LaneOp> = Vec::new();
    let mut i: usize = 0;
    while i < n as usize
        invariant
            a.wf(),
            a.ty == MachineTy::Vector(l, n),
            i <= n as usize,
            lane_ops@.len() == i,
            forall|k: int|
                0 <= k < i ==> lane_ops@[k] == (LaneOp::Cast {
                    from: l,
                    to: rl,
                    lane: a.lanes@[k],
                }),
        decreases n as usize - i,
    {
        lane_ops.push(LaneOp::Cast { from: l, to: rl, lane: a.lanes[i] });
        i += 1;
    }
    proof {
        assert(lane_ops@ =~= Seq::new(
            n as nat,
            |k: int| LaneOp::Cast { from: l, to: rl, lane: a.lanes@[k] },
        ));
    }
    LowerOutcome::Vector(VectorDest { lane: rl, ops: lane_ops })
}

/// Shuffle lowering: decode the constant index array, check every index
/// against the combined length of the two sources, then rewire lanes.
#[verifier::loop_isolation(false)]
pub fn lower_shuffle(
    declared: u32,
    x: &OperandValue,
    y: &OperandValue,
    idx: &MaybeConst,
    ret_ty: &MachineTy,
    e: Endian,
) -> (r: LowerOutcome)
    requires
        x.wf(),
        y.wf(),
    ensures
        shuffle_outcome(declared, *x, *y, *idx, *ret_ty, e, r),
{
    if x.ty != y.ty {
        return LowerOutcome::Internal(InternalFault::LayoutMismatch);
    }
    let (l, lc) = match lane_type_and_count(&x.ty) {
        Some(p) => p,
        None => {
            return LowerOutcome::Internal(InternalFault::NonVectorOperand);
        },
    };
    let (rl, rc) = match lane_type_and_count(ret_ty) {
        Some(p) => p,
        None => {
            return LowerOutcome::Internal(InternalFault::NonVectorOperand);
        },
    };
    if l != rl {
        return LowerOutcome::Internal(InternalFault::LaneTypeMismatch);
    }
    if declared != rc {
        return LowerOutcome::Internal(
            InternalFault::DeclaredLaneCountMismatch { declared, resolved: rc },
        );
    }
    let bytes = match idx {
        MaybeConst::NotConst => {
            return LowerOutcome::Fatal(Diagnostic::ShuffleIndexNotConst);
        },
        MaybeConst::Bits(_) => {
            return LowerOutcome::Internal(InternalFault::ShuffleIndexNotByRef);
        },
        MaybeConst::RawBytes(bytes) => bytes,
    };
    if (bytes.len() as u64) < 4 * (rc as u64) {
        return LowerOutcome::Internal(InternalFault::ShuffleIndexBytesTooShort);
    }
    let inds = decode_indices(e, bytes, rc);
    let total: u64 = 2 * (lc as u64);
    let mut k: usize = 0;
    while k < rc as usize
        invariant
            inds@ == spec_indices(e, bytes@, rc as int),
            inds@.len() == rc,
            total == 2 * (lc as int),
            k <= rc as usize,
            forall|j: int| 0 <= j < k ==> ((#[trigger] inds@[j]) as int) < 2 * (lc as int),
        decreases rc as usize - k,
    {
        let id = inds[k];
        if id as u64 >= total {
            proof {
                assert(first_index_oob_at(
                    spec_indices(e, bytes@, rc as int),
                    2 * (lc as int),
                    LowerOutcome::Fatal(
                        Diagnostic::ShuffleIndexOutOfRange { index: id, bound: total },
                    ),
                    k as int,
                ));
            }
            return LowerOutcome::Fatal(
                Diagnostic::ShuffleIndexOutOfRange { index: id, bound: total },
            );
        }
        k += 1;
    }
    let mut lane_ops: Vec<LaneOp> = Vec::new();
    let mut m: usize = 0;
    while m < rc as usize
        invariant
            x.wf(),
            y.wf(),
            x.ty == MachineTy::Vector(l, lc),
            y.ty == x.ty,
            inds@ == spec_indices(e, bytes@, rc as int),
            inds@.len() == rc,
            forall|j: int| 0 <= j < rc ==> ((#[trigger] inds@[j]) as int) < 2 * (lc as int),
            m <= rc as usize,
            lane_ops@.len() == m,
            forall|j: int|
                0 <= j < m ==> lane_ops@[j] == (LaneOp::Move {
                    lane: if (inds@[j] as int) < lc as int {
                        x.lanes@[inds@[j] as int]
                    } else {
                        y.lanes@[inds@[j] as int - lc as int]
                    },
                }),
        decreases rc as usize - m,
    {
        let id = inds[m];
        let lane_v = if id < lc {
            x.lanes[id as usize]
        } else {
            y.lanes[(id - lc) as usize]
        };
        lane_ops.push(LaneOp::Move { lane: lane_v });
        m += 1;
    }
    proof {
        let inds_g = spec_indices(e, bytes@, rc as int);
        assert(lane_ops@ =~= Seq::new(
            rc as nat,
            |j: int|
                LaneOp::Move {
                    lane: if (inds_g[j] as int) < lc as int {
                        x.lanes@[inds_g[j] as int]
                    } else {
                        y.lanes@[inds_g[j] as int - lc as int]
                    },
                },
        ));
    }
    LowerOutcome::Vector(VectorDest { lane: rl, ops: lane_ops })
}

/// Extract lowering: resolve the index operand, bounds-check it when it is
/// a constant, and project the addressed lane out as a scalar.
pub fn lower_extract(v: &OperandValue, idx: &MaybeConst) -> (r: LowerOutcome)
    requires
        v.wf(),
    ensures
        extract_outcome(*v, *idx, r),
{
    let i = match idx {
        MaybeConst::NotConst => {
            return LowerOutcome::Trap(Diagnostic::NonConstExtractIndex);
        },
        MaybeConst::RawBytes(_) => {
            return LowerOutcome::Internal(InternalFault::ExtractIndexNotScalar);
        },
        MaybeConst::Bits(i) => *i,
    };
    let lc = match lane_type_and_count(&v.ty) {
        Some(p) => p.1,
        None => {
            return LowerOutcome::Internal(InternalFault::NonVectorOperand);
        },
    };
    if i >= lc as u64 {
        return LowerOutcome::Fatal(
            Diagnostic::ExtractIndexOutOfRange { index: i, lane_count: lc as u64 },
        );
    }
    LowerOutcome::Scalar(v.lanes[i as usize])
}

/// The single entry point: lower one SIMD intrinsic call, given the
/// intrinsic's bare name, its operands, the destination's machine type and
/// the target's byte order.
pub fn codegen_simd_intrinsic_call(
    name: &str,
    args: &Vec<Operand>,
    ret_ty: &MachineTy,
    e: Endian,
) -> (r: LowerOutcome)
    requires
        forall|i: int| 0 <= i < args@.len() ==> (#[trigger] args@[i]).wf(),
    ensures
        call_outcome(name@, args@, *ret_ty, e, r),
{
    let kind = parse_intrinsic(name);
    match kind {
        IntrinsicKind::Unknown => LowerOutcome::Fatal(Diagnostic::UnknownIntrinsic),
        IntrinsicKind::Cast => {
            if args.len() != 1 {
                return LowerOutcome::Internal(InternalFault::MalformedOperands);
            }
            match &args[0] {
                Operand::Value(a) => lower_cast(a, ret_ty),
                _ => LowerOutcome::Internal(InternalFault::MalformedOperands),
            }
        },
        IntrinsicKind::Comparison(c) => {
            if args.len() != 2 {
                return LowerOutcome::Internal(InternalFault::MalformedOperands);
            }
            match (&args[0], &args[1]) {
                (Operand::Value(x), Operand::Value(y)) => lower_comparison(c, x, y, ret_ty),
                _ => LowerOutcome::Internal(InternalFault::MalformedOperands),
            }
        },
        IntrinsicKind::Elementwise(op) => {
            if args.len() != 2 {
                return LowerOutcome::Internal(InternalFault::MalformedOperands);
            }
            match (&args[0], &args[1]) {
                (Operand::Value(x), Operand::Value(y)) => lower_elementwise(op, x, y, ret_ty),
                _ => LowerOutcome::Internal(InternalFault::MalformedOperands),
            }
        },
        IntrinsicKind::Shuffle(n) => {
            if args.len() != 3 {
                return LowerOutcome::Internal(InternalFault::MalformedOperands);
            }
            match (&args[0], &args[1], &args[2]) {
                (Operand::Value(x), Operand::Value(y), Operand::Expr(m)) => lower_shuffle(
                    n,
                    x,
                    y,
                    m,
                    ret_ty,
                    e,
                ),
                _ => LowerOutcome::Internal(InternalFault::MalformedOperands),
            }
        },
        IntrinsicKind::Extract => {
            if args.len() != 2 {
                return LowerOutcome::Internal(InternalFault::MalformedOperands);
            }
            match (&args[0], &args[1]) {
                (Operand::Value(v), Operand::Expr(m)) => lower_extract(v, m),
                _ => LowerOutcome::Internal(InternalFault::MalformedOperands),
            }
        },
    }
}

} // verus!
