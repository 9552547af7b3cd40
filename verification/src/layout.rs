//! Vector lane layouts: lane types, lane counts, and their resolution.

use vstd::prelude::*;

verus! {

/// Three-way signedness classification of a lane's scalar type.
#[derive(Clone, Copy, Debug, PartialEq, Eq, Structural)]
pub enum LaneKind {
    SignedInt,
    UnsignedInt,
    Float,
}

/// The scalar type of every lane of a vector: a signedness classification
/// together with the lane's width in bits.
#[derive(Clone, Copy, Debug, PartialEq, Eq, Structural)]
pub struct LaneTy {
    pub kind: LaneKind,
    pub bits: u32,
}

impl LaneTy {
    /// A machine-representable lane type: integer lanes are 8, 16, 32 or
    /// 64 bits wide, floating-point lanes 32 or 64.
    pub open spec fn wf(self) -> bool {
        match self.kind {
            LaneKind::Float => self.bits == 32 || self.bits == 64,
            _ => self.bits == 8 || self.bits == 16 || self.bits == 32 || self.bits == 64,
        }
    }

    pub open spec fn is_float(self) -> bool {
        self.kind is Float
    }
}

/// The number of distinct bit patterns of a lane that is `bits` wide,
/// as a mathematical integer.
pub open spec fn lane_modulus(bits: u32) -> int {
    if bits == 8 {
        0x100
    } else if bits == 16 {
        0x1_0000
    } else if bits == 32 {
        0x1_0000_0000
    } else {
        0x1_0000_0000_0000_0000
    }
}

/// The smallest bit pattern whose sign bit is set in a lane `bits` wide.
pub open spec fn sign_threshold(bits: u32) -> int {
    lane_modulus(bits) / 2
}

/// Whether `v` is a valid bit pattern for a lane that is `bits` wide.
pub open spec fn fits_lane(bits: u32, v: u64) -> bool {
    (v as int) < lane_modulus(bits)
}

/// The modulus of a narrower lane divides the modulus of a wider one
/// exactly; stated multiplicatively so that modular-arithmetic lemmas can
/// consume it.
pub proof fn lemma_modulus_divides(small_bits: u32, big_bits: u32)
    requires
        small_bits == 8 || small_bits == 16 || small_bits == 32 || small_bits == 64,
        big_bits == 8 || big_bits == 16 || big_bits == 32 || big_bits == 64,
        small_bits <= big_bits,
    ensures
        lane_modulus(small_bits) * (lane_modulus(big_bits) / lane_modulus(small_bits))
            == lane_modulus(big_bits),
{
    assert(0x100int / 0x100int == 1);
    assert(0x1_0000int / 0x1_0000int == 1);
    assert(0x1_0000_0000int / 0x1_0000_0000int == 1);
    assert(0x1_0000_0000_0000_0000int / 0x1_0000_0000_0000_0000int == 1);
    assert(0x1_0000int / 0x100int == 0x100);
    assert(0x1_0000_0000int / 0x100int == 0x100_0000);
    assert(0x1_0000_0000_0000_0000int / 0x100int == 0x100_0000_0000_0000);
    assert(0x1_0000_0000int / 0x1_0000int == 0x1_0000);
    assert(0x1_0000_0000_0000_0000int / 0x1_0000int == 0x1_0000_0000_0000);
    assert(0x1_0000_0000_0000_0000int / 0x1_0000_0000int == 0x1_0000_0000);
}

/// A machine value type as this core sees it: either a single scalar or a
/// vector of `count` lanes of one lane type.
#[derive(Clone, Copy, Debug, PartialEq, Eq, Structural)]
pub enum MachineTy {
    Scalar(LaneTy),
    Vector(LaneTy, u32),
}

impl MachineTy {
    pub open spec fn wf(self) -> bool {
        match self {
            MachineTy::Scalar(l) => l.wf(),
            MachineTy::Vector(l, n) => l.wf() && n >= 1,
        }
    }

    pub open spec fn is_vector(self) -> bool {
        self matches MachineTy::Vector(_, _)
    }

    /// The lane type of a vector type.
    pub open spec fn lane_ty(self) -> LaneTy
        recommends
            self.is_vector(),
    {
        match self {
            MachineTy::Scalar(l) => l,
            MachineTy::Vector(l, _) => l,
        }
    }

    /// The lane count of a vector type.
    pub open spec fn lane_count(self) -> u32
        recommends
            self.is_vector(),
    {
        match self {
            MachineTy::Scalar(_) => 1,
            MachineTy::Vector(_, n) => n,
        }
    }
}

/// Lane layout resolution: the (lane type, lane count) of a vector type.
/// Non-vector inputs are rejected; every handler treats that rejection as a
/// compiler-internal invariant violation, since intrinsic operands are
/// supposed to have been vector-typed by the front end.
pub fn lane_type_and_count(ty: &MachineTy) -> (r: Option<(LaneTy, u32)>)
    ensures
        match *ty {
            MachineTy::Vector(l, n) => r == Some((l, n)),
            MachineTy::Scalar(_) => r is None,
        },
{
    match *ty {
        MachineTy::Vector(l, n) => Some((l, n)),
        MachineTy::Scalar(_) => None,
    }
}

/// The first bit pattern with the sign bit set, as a run-time value.
pub fn sign_threshold_u64(bits: u32) -> (r: u64)
    requires
        bits == 8 || bits == 16 || bits == 32 || bits == 64,
    ensures
        r as int == sign_threshold(bits),
{
    if bits == 8 {
        0x80
    } else if bits == 16 {
        0x8000
    } else if bits == 32 {
        0x8000_0000
    } else {
        0x8000_0000_0000_0000
    }
}

/// The lane modulus of a lane narrower than 64 bits, as a run-time value.
pub fn small_lane_modulus_u64(bits: u32) -> (r: u64)
    requires
        bits == 8 || bits == 16 || bits == 32,
    ensures
        r as int == lane_modulus(bits),
{
    if bits == 8 {
        0x100
    } else if bits == 16 {
        0x1_0000
    } else {
        0x1_0000_0000
    }
}

} // verus!
