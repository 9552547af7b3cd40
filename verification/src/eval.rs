//! Reference semantics for the integer lane operations this core selects:
//! the numeric value a lane's bit pattern denotes, the conversion a cast
//! request must perform, the comparison masks, and the integer predicates.
//! These definitions give the selection contracts their meaning and make
//! the signedness-correctness of lowering a provable statement.

use vstd::arithmetic::div_mod::{lemma_mod_multiples_vanish, lemma_small_mod};
use vstd::prelude::*;

use crate::layout::{
    fits_lane, lane_modulus, sign_threshold, sign_threshold_u64, small_lane_modulus_u64, LaneKind,
    LaneTy,
};
use crate::ops::{CmpIntrinsic, CmpOp};

verus! {

/// The two's-complement signed value of bit pattern `v` in a lane `bits`
/// wide.
pub open spec fn as_signed(bits: u32, v: u64) -> int {
    if v as int >= sign_threshold(bits) {
        v as int - lane_modulus(bits)
    } else {
        v as int
    }
}

/// The numeric value a lane's bit pattern denotes: two's complement for
/// signed integer lanes, the pattern itself otherwise.
pub open spec fn lane_val(ty: LaneTy, v: u64) -> int {
    if ty.kind is SignedInt {
        as_signed(ty.bits, v)
    } else {
        v as int
    }
}

/// The bit pattern an integer cast request must produce: the source lane's
/// numeric value, reduced into the destination's width. This single rule
/// yields sign extension when widening a signed lane, zero extension when
/// widening an unsigned one, and truncation when narrowing.
pub open spec fn spec_int_cast(from: LaneTy, to: LaneTy, v: u64) -> u64
    recommends
        from.wf(),
        to.wf(),
        fits_lane(from.bits, v),
{
    (lane_val(from, v) % lane_modulus(to.bits)) as u64
}

/// Evaluate an integer cast request.
pub fn eval_int_cast(from: LaneTy, to: LaneTy, v: u64) -> (r: u64)
    requires
        from.wf(),
        to.wf(),
        !from.is_float(),
        !to.is_float(),
        fits_lane(from.bits, v),
    ensures
        r == spec_int_cast(from, to, v),
        fits_lane(to.bits, r),
{
    proof {
        assert(lane_modulus(to.bits) > 0);
    }
    if to.bits <= from.bits {
        let r = if to.bits == 64 {
            v
        } else {
            v % small_lane_modulus_u64(to.bits)
        };
        proof {
            let mt = lane_modulus(to.bits);
            if from.kind is SignedInt && v as int >= sign_threshold(from.bits) {
                let q = lane_modulus(from.bits) / mt;
                crate::layout::lemma_modulus_divides(to.bits, from.bits);
                assert(mt * q == lane_modulus(from.bits));
                lemma_mod_multiples_vanish(-q, v as int, mt);
                assert(mt * (-q) == -(mt * q)) by (nonlinear_arith);
                assert(mt * (-q) + v as int == v as int - lane_modulus(from.bits));
            }
            if to.bits == 64 {
                lemma_small_mod(v as nat, mt as nat);
            }
        }
        r
    } else {
        let neg = match from.kind {
            LaneKind::SignedInt => v >= sign_threshold_u64(from.bits),
            _ => false,
        };
        if neg {
            let mf = small_lane_modulus_u64(from.bits);
            let off = if to.bits == 64 {
                (u64::MAX - mf) + 1
            } else {
                small_lane_modulus_u64(to.bits) - mf
            };
            let r = v + off;
            proof {
                let mt = lane_modulus(to.bits);
                let sv = v as int - lane_modulus(from.bits);
                lemma_mod_multiples_vanish(1, sv, mt);
                assert(mt * 1 + sv == sv + mt);
                lemma_small_mod((sv + mt) as nat, mt as nat);
            }
            r
        } else {
            proof {
                lemma_small_mod(v as nat, lane_modulus(to.bits) as nat);
            }
            v
        }
    }
}

/// The per-lane comparison result mask: all bits of the result lane set
/// when the predicate held, none when it did not.
pub open spec fn spec_mask(bits: u32, b: bool) -> u64 {
    if b {
        (lane_modulus(bits) - 1) as u64
    } else {
        0
    }
}

/// Build the mask a comparison writes into one result lane.
pub fn mask_value(bits: u32, b: bool) -> (r: u64)
    requires
        bits == 8 || bits == 16 || bits == 32 || bits == 64,
    ensures
        r == spec_mask(bits, b),
        fits_lane(bits, r),
{
    if !b {
        0
    } else if bits == 64 {
        u64::MAX
    } else {
        small_lane_modulus_u64(bits) - 1
    }
}

/// Whether the selected predicate holds of two integer lanes `bits` wide.
/// `None` for the floating-point predicates, whose evaluation belongs to
/// the emission layer.
pub open spec fn spec_eval_cmp(op: CmpOp, bits: u32, a: u64, b: u64) -> Option<bool> {
    match op {
        CmpOp::IntEq => Some(a == b),
        CmpOp::IntNe => Some(a != b),
        CmpOp::ULt => Some(a < b),
        CmpOp::ULe => Some(a <= b),
        CmpOp::UGt => Some(a > b),
        CmpOp::UGe => Some(a >= b),
        CmpOp::SLt => Some(as_signed(bits, a) < as_signed(bits, b)),
        CmpOp::SLe => Some(as_signed(bits, a) <= as_signed(bits, b)),
        CmpOp::SGt => Some(as_signed(bits, a) > as_signed(bits, b)),
        CmpOp::SGe => Some(as_signed(bits, a) >= as_signed(bits, b)),
        _ => None,
    }
}

/// Two's-complement order of two lane patterns.
pub fn signed_lt(bits: u32, a: u64, b: u64) -> (r: bool)
    requires
        bits == 8 || bits == 16 || bits == 32 || bits == 64,
        fits_lane(bits, a),
        fits_lane(bits, b),
    ensures
        r == (as_signed(bits, a) < as_signed(bits, b)),
{
    let t = sign_threshold_u64(bits);
    let na = a >= t;
    let nb = b >= t;
    if na != nb {
        na
    } else {
        a < b
    }
}

/// Evaluate an integer comparison predicate on two lane patterns.
pub fn eval_cmp(op: CmpOp, bits: u32, a: u64, b: u64) -> (r: Option<bool>)
    requires
        bits == 8 || bits == 16 || bits == 32 || bits == 64,
        fits_lane(bits, a),
        fits_lane(bits, b),
    ensures
        r == spec_eval_cmp(op, bits, a, b),
{
    match op {
        CmpOp::IntEq => Some(a == b),
        CmpOp::IntNe => Some(a != b),
        CmpOp::ULt => Some(a < b),
        CmpOp::ULe => Some(a <= b),
        CmpOp::UGt => Some(b < a),
        CmpOp::UGe => Some(b <= a),
        CmpOp::SLt => Some(signed_lt(bits, a, b)),
        CmpOp::SLe => Some(!signed_lt(bits, b, a)),
        CmpOp::SGt => Some(signed_lt(bits, b, a)),
        CmpOp::SGe => Some(!signed_lt(bits, a, b)),
        _ => None,
    }
}

/// The numeric comparison a comparison intrinsic means on integer lanes:
/// the relation between the lanes' denoted values, signed or unsigned.
pub open spec fn spec_cmp_meaning(c: CmpIntrinsic, ty: LaneTy, a: u64, b: u64) -> bool {
    match c {
        CmpIntrinsic::Eq => lane_val(ty, a) == lane_val(ty, b),
        CmpIntrinsic::Ne => lane_val(ty, a) != lane_val(ty, b),
        CmpIntrinsic::Lt => lane_val(ty, a) < lane_val(ty, b),
        CmpIntrinsic::Le => lane_val(ty, a) <= lane_val(ty, b),
        CmpIntrinsic::Gt => lane_val(ty, a) > lane_val(ty, b),
        CmpIntrinsic::Ge => lane_val(ty, a) >= lane_val(ty, b),
    }
}

} // verus!
