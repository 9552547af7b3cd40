//! The library's laws: properties of the lowering relations, proved once
//! and for all inputs. Each proof function's statement is the law; its
//! parameters are the law's inputs.

use vstd::arithmetic::div_mod::{lemma_mod_multiples_vanish, lemma_small_mod};
use vstd::prelude::*;

use crate::dispatch::{spec_parse_intrinsic, IntrinsicKind};
use crate::emit::{Diagnostic, LaneOp, LowerOutcome};
use crate::eval::{as_signed, lane_val, spec_cmp_meaning, spec_eval_cmp, spec_int_cast, spec_mask};
use crate::layout::{fits_lane, lane_modulus, LaneTy, MachineTy};
use crate::lower::{
    call_outcome, comparison_outcome, elementwise_outcome, extract_outcome, first_index_oob,
    first_index_oob_at, shuffle_outcome,
};
use crate::ops::{spec_select_bin_op, spec_select_cmp_op, BinOp, CmpIntrinsic, ElemIntrinsic};
use crate::shuffle_idx::spec_indices;
use crate::value::{Endian, MaybeConst, Operand, OperandValue};

verus! {

/// For every binary elementwise intrinsic, every lane count and every lane
/// type that admits the operation, lowering succeeds and result lane `i` is
/// the selected scalar operation applied to `x.lane(i)` and `y.lane(i)`.
pub proof fn lemma_elementwise_lanes(
    op: ElemIntrinsic,
    x: OperandValue,
    y: OperandValue,
    ret_ty: MachineTy,
    r: LowerOutcome,
    b: BinOp,
)
    requires
        x.wf(),
        y.wf(),
        elementwise_outcome(op, x, y, ret_ty, r),
        x.ty == y.ty,
        x.ty.is_vector(),
        ret_ty.is_vector(),
        x.ty.lane_count() == ret_ty.lane_count(),
        spec_select_bin_op(op, x.ty.lane_ty().kind) == Some(b),
    ensures
        r is Vector,
        r matches LowerOutcome::Vector(d) ==> {
            &&& d.lane == ret_ty.lane_ty()
            &&& d.ops@.len() == x.ty.lane_count()
            &&& forall|i: int|
                0 <= i < d.ops@.len() ==> d.ops@[i] == (LaneOp::Bin {
                    op: b,
                    bits: x.ty.lane_ty().bits,
                    lhs: x.lanes@[i],
                    rhs: y.lanes@[i],
                })
        },
{
}

/// For every comparison intrinsic, lowering succeeds on any two vectors of
/// one type whose lane count matches the result's, and result lane `i` is
/// the selected predicate applied to `x.lane(i)` and `y.lane(i)`, widened
/// to a mask of the result's lane type.
pub proof fn lemma_comparison_lanes(
    c: CmpIntrinsic,
    x: OperandValue,
    y: OperandValue,
    ret_ty: MachineTy,
    r: LowerOutcome,
)
    requires
        x.wf(),
        y.wf(),
        comparison_outcome(c, x, y, ret_ty, r),
        x.ty == y.ty,
        x.ty.is_vector(),
        ret_ty.is_vector(),
        x.ty.lane_count() == ret_ty.lane_count(),
    ensures
        r is Vector,
        r matches LowerOutcome::Vector(d) ==> {
            &&& d.lane == ret_ty.lane_ty()
            &&& d.ops@.len() == x.ty.lane_count()
            &&& forall|i: int|
                0 <= i < d.ops@.len() ==> d.ops@[i] == (LaneOp::Cmp {
                    op: spec_select_cmp_op(c, x.ty.lane_ty().kind),
                    bits: x.ty.lane_ty().bits,
                    lhs: x.lanes@[i],
                    rhs: y.lanes@[i],
                })
        },
{
}

/// On integer lanes the predicate that comparison lowering selects is the
/// right one for the lanes' signedness: evaluating it on two lane patterns
/// answers exactly the numeric comparison of the values those patterns
/// denote.
pub proof fn lemma_cmp_selection_meaning(c: CmpIntrinsic, ty: LaneTy, a: u64, b: u64)
    requires
        ty.wf(),
        !ty.is_float(),
        fits_lane(ty.bits, a),
        fits_lane(ty.bits, b),
    ensures
        spec_eval_cmp(spec_select_cmp_op(c, ty.kind), ty.bits, a, b) == Some(
            spec_cmp_meaning(c, ty, a, b),
        ),
{
}

/// The two masks a comparison can write are distinct in every lane width:
/// a result lane holds the all-true mask if and only if the predicate held.
pub proof fn lemma_mask_discriminates(bits: u32, b: bool)
    requires
        bits == 8 || bits == 16 || bits == 32 || bits == 64,
    ensures
        (spec_mask(bits, b) == spec_mask(bits, true)) <==> b,
        spec_mask(bits, false) == 0,
{
}

/// Interleaving shuffle: with result lane count equal to the source lane
/// count `L` and the index array `[0, L, 1, L + 1, ...]`, lowering succeeds
/// and result lane `2k` copies `x.lane(k)` while result lane `2k + 1`
/// copies `y.lane(k)`.
pub proof fn lemma_shuffle_interleave(
    declared: u32,
    x: OperandValue,
    y: OperandValue,
    bytes: Vec<u8>,
    ret_ty: MachineTy,
    e: Endian,
    r: LowerOutcome,
)
    requires
        x.wf(),
        y.wf(),
        shuffle_outcome(declared, x, y, MaybeConst::RawBytes(bytes), ret_ty, e, r),
        x.ty == y.ty,
        x.ty.is_vector(),
        ret_ty.is_vector(),
        x.ty.lane_ty() == ret_ty.lane_ty(),
        declared == ret_ty.lane_count(),
        declared == x.ty.lane_count(),
        4 * (declared as int) <= bytes@.len(),
        forall|j: int|
            0 <= j < declared ==> (#[trigger] spec_indices(e, bytes@, declared as int)[j]) as int
                == (if j % 2 == 0 {
                j / 2
            } else {
                x.ty.lane_count() + j / 2
            }),
    ensures
        r is Vector,
        r matches LowerOutcome::Vector(d) ==> {
            &&& d.ops@.len() == declared
            &&& forall|j: int|
                0 <= j < declared ==> d.ops@[j] == (LaneOp::Move {
                    lane: if j % 2 == 0 {
                        x.lanes@[j / 2]
                    } else {
                        y.lanes@[j / 2]
                    },
                })
        },
{
    let inds = spec_indices(e, bytes@, declared as int);
    let lc = x.ty.lane_count();
    let bound = 2 * (lc as int);
    assert(forall|k: int| 0 <= k < inds.len() ==> ((#[trigger] inds[k]) as int) < bound);
    assert(!first_index_oob(inds, bound, r)) by {
        if exists|k0: int| first_index_oob_at(inds, bound, r, k0) {
            let k0 = choose|k0: int| first_index_oob_at(inds, bound, r, k0);
            assert((inds[k0] as int) < bound);
        }
    }
}

/// Shuffle bounds: when some decoded index is not below `2 L`, the combined
/// length of the two source vectors, lowering is the fatal diagnostic that
/// carries the first such index value and the bound of the valid range.
pub proof fn lemma_shuffle_out_of_range(
    declared: u32,
    x: OperandValue,
    y: OperandValue,
    bytes: Vec<u8>,
    ret_ty: MachineTy,
    e: Endian,
    r: LowerOutcome,
    k: int,
)
    requires
        x.wf(),
        y.wf(),
        shuffle_outcome(declared, x, y, MaybeConst::RawBytes(bytes), ret_ty, e, r),
        x.ty == y.ty,
        x.ty.is_vector(),
        ret_ty.is_vector(),
        x.ty.lane_ty() == ret_ty.lane_ty(),
        declared == ret_ty.lane_count(),
        4 * (declared as int) <= bytes@.len(),
        0 <= k < declared,
        (spec_indices(e, bytes@, declared as int)[k] as int) >= 2 * (x.ty.lane_count() as int),
    ensures
        first_index_oob(
            spec_indices(e, bytes@, declared as int),
            2 * (x.ty.lane_count() as int),
            r,
        ),
        r matches LowerOutcome::Fatal(g) ==> g matches Diagnostic::ShuffleIndexOutOfRange {
            index,
            bound,
        } && bound == 2 * (x.ty.lane_count() as int) && (index as int) >= 2 * (
        x.ty.lane_count() as int),
{
    let inds = spec_indices(e, bytes@, declared as int);
    let bound = 2 * (x.ty.lane_count() as int);
    assert(0 <= k < inds.len() && (inds[k] as int) >= bound);
    assert(first_index_oob(inds, bound, r));
    let k0 = choose|k0: int| first_index_oob_at(inds, bound, r, k0);
    assert(r == LowerOutcome::Fatal(
        Diagnostic::ShuffleIndexOutOfRange { index: inds[k0], bound: bound as u64 },
    ));
}

/// Extract with a constant index below the lane count: the result is
/// exactly the addressed lane's bit pattern.
pub proof fn lemma_extract_in_range(v: OperandValue, i: u64, r: LowerOutcome)
    requires
        v.wf(),
        extract_outcome(v, MaybeConst::Bits(i), r),
        v.ty.is_vector(),
        (i as int) < v.ty.lane_count() as int,
    ensures
        r == LowerOutcome::Scalar(v.lanes@[i as int]),
{
}

/// Extract with a constant index at or above the lane count: compilation
/// fails with the fatal diagnostic citing both the index and the count.
pub proof fn lemma_extract_out_of_range(v: OperandValue, i: u64, r: LowerOutcome)
    requires
        v.wf(),
        extract_outcome(v, MaybeConst::Bits(i), r),
        v.ty.is_vector(),
        i >= v.ty.lane_count() as u64,
    ensures
        r == (LowerOutcome::Fatal(
            Diagnostic::ExtractIndexOutOfRange { index: i, lane_count: v.ty.lane_count() as u64 },
        )),
{
}

/// Extract with a non-constant index never fails compilation: it produces
/// the warning diagnostic and an unconditional runtime trap.
pub proof fn lemma_extract_non_constant(v: OperandValue, r: LowerOutcome)
    requires
        extract_outcome(v, MaybeConst::NotConst, r),
    ensures
        r == LowerOutcome::Trap(Diagnostic::NonConstExtractIndex),
        !(r is Fatal),
{
}

/// Widening an integer lane within one signedness preserves the numeric
/// value the pattern denotes: sign extension for signed lanes, zero
/// extension for unsigned ones.
pub proof fn lemma_cast_widen_preserves_value(f: LaneTy, t: LaneTy, v: u64)
    requires
        f.wf(),
        t.wf(),
        f.kind == t.kind,
        f.kind is SignedInt || f.kind is UnsignedInt,
        f.bits <= t.bits,
        fits_lane(f.bits, v),
    ensures
        lane_val(t, spec_int_cast(f, t, v)) == lane_val(f, v),
{
    let sv = lane_val(f, v);
    let mt = lane_modulus(t.bits);
    if sv >= 0 {
        lemma_small_mod(sv as nat, mt as nat);
    } else {
        lemma_mod_multiples_vanish(1, sv, mt);
        lemma_small_mod((sv + mt) as nat, mt as nat);
    }
}

/// Casting a signed lane to a strictly wider signed lane and back
/// reproduces the original bit pattern for every representable value:
/// sign extension loses nothing.
pub proof fn lemma_cast_round_trip_signed(f: LaneTy, t: LaneTy, v: u64)
    requires
        f.wf(),
        t.wf(),
        f.kind is SignedInt,
        t.kind is SignedInt,
        f.bits < t.bits,
        fits_lane(f.bits, v),
    ensures
        spec_int_cast(t, f, spec_int_cast(f, t, v)) == v,
{
    let sv = as_signed(f.bits, v);
    let mt = lane_modulus(t.bits);
    let mf = lane_modulus(f.bits);
    let w = spec_int_cast(f, t, v);
    if sv >= 0 {
        lemma_small_mod(sv as nat, mt as nat);
        assert(w == sv);
        assert(as_signed(t.bits, w) == sv);
        lemma_small_mod(v as nat, mf as nat);
    } else {
        lemma_mod_multiples_vanish(1, sv, mt);
        lemma_small_mod((sv + mt) as nat, mt as nat);
        assert(w as int == sv + mt);
        assert(as_signed(t.bits, w) == sv);
        lemma_mod_multiples_vanish(1, sv, mf);
        lemma_small_mod(v as nat, mf as nat);
        assert(sv + mf == v as int);
    }
}

/// Casting an unsigned lane to a strictly wider unsigned lane and back
/// reproduces the original bit pattern: zero extension loses nothing.
pub proof fn lemma_cast_round_trip_unsigned(f: LaneTy, t: LaneTy, v: u64)
    requires
        f.wf(),
        t.wf(),
        f.kind is UnsignedInt,
        t.kind is UnsignedInt,
        f.bits < t.bits,
        fits_lane(f.bits, v),
    ensures
        spec_int_cast(t, f, spec_int_cast(f, t, v)) == v,
{
    lemma_small_mod(v as nat, lane_modulus(t.bits) as nat);
    lemma_small_mod(v as nat, lane_modulus(f.bits) as nat);
}

/// An intrinsic name matching no known handler or prefix always reaches
/// the fatal unknown-intrinsic diagnostic: the dispatcher never silently
/// ignores a call.
pub proof fn lemma_unknown_intrinsic_fatal(
    name: Seq<char>,
    args: Seq<Operand>,
    ret_ty: MachineTy,
    e: Endian,
    r: LowerOutcome,
)
    requires
        call_outcome(name, args, ret_ty, e, r),
        spec_parse_intrinsic(name) == IntrinsicKind::Unknown,
    ensures
        r == LowerOutcome::Fatal(Diagnostic::UnknownIntrinsic),
{
}

} // verus!
