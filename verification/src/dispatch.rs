//! Mapping an intrinsic's bare name to its lowering handler.
//!
//! Dispatch is a pure string match: exact names for most intrinsics, plus
//! one prefix-parameterized family for the shuffle variants, whose trailing
//! numeral declares the result lane count. A name matching neither is
//! `Unknown`, which the entry point turns into a fatal diagnostic.

use vstd::prelude::*;
use vstd::string::StrSliceExecFns;

use crate::ops::{CmpIntrinsic, ElemIntrinsic};

verus! {

/// The lowering handler an intrinsic name selects, with the data parsed out
/// of the name itself: a shuffle name carries its declared result lane count.
#[derive(Clone, Copy, Debug, PartialEq, Eq, Structural)]
pub enum IntrinsicKind {
    Cast,
    Comparison(CmpIntrinsic),
    Elementwise(ElemIntrinsic),
    Shuffle(u32),
    Extract,
    Unknown,
}

pub open spec fn spec_is_digit(c: char) -> bool {
    48 <= c as u32 && c as u32 <= 57
}

pub open spec fn spec_digit_val(c: char) -> nat
    recommends
        spec_is_digit(c),
{
    (c as u32 - 48) as nat
}

/// The decimal value of a digit string, most significant digit first.
pub open spec fn spec_digits_val(s: Seq<char>) -> nat
    decreases s.len(),
{
    if s.len() == 0 {
        0
    } else {
        spec_digits_val(s.drop_last()) * 10 + spec_digit_val(s.last())
    }
}

pub open spec fn spec_all_digits(s: Seq<char>) -> bool {
    forall|i: int| 0 <= i < s.len() ==> spec_is_digit(#[trigger] s[i])
}

pub open spec fn spec_shuffle_prefix() -> Seq<char> {
    "simd_shuffle"@
}

/// The digit suffix of a shuffle name.
pub open spec fn spec_shuffle_suffix(name: Seq<char>) -> Seq<char> {
    name.skip(spec_shuffle_prefix().len() as int)
}

/// A shuffle-family name: the prefix followed by a nonempty numeral that
/// fits an unsigned 32-bit lane count.
pub open spec fn spec_is_shuffle_name(name: Seq<char>) -> bool {
    &&& name.len() > spec_shuffle_prefix().len()
    &&& name.subrange(0, spec_shuffle_prefix().len() as int) == spec_shuffle_prefix()
    &&& spec_all_digits(spec_shuffle_suffix(name))
    &&& spec_digits_val(spec_shuffle_suffix(name)) <= u32::MAX
}

pub open spec fn spec_shuffle_lane_count(name: Seq<char>) -> u32 {
    spec_digits_val(spec_shuffle_suffix(name)) as u32
}

/// The handler an intrinsic name selects.
pub open spec fn spec_parse_intrinsic(name: Seq<char>) -> IntrinsicKind {
    if name == "simd_cast"@ {
        IntrinsicKind::Cast
    } else if name == "simd_eq"@ {
        IntrinsicKind::Comparison(CmpIntrinsic::Eq)
    } else if name == "simd_ne"@ {
        IntrinsicKind::Comparison(CmpIntrinsic::Ne)
    } else if name == "simd_lt"@ {
        IntrinsicKind::Comparison(CmpIntrinsic::Lt)
    } else if name == "simd_le"@ {
        IntrinsicKind::Comparison(CmpIntrinsic::Le)
    } else if name == "simd_gt"@ {
        IntrinsicKind::Comparison(CmpIntrinsic::Gt)
    } else if name == "simd_ge"@ {
        IntrinsicKind::Comparison(CmpIntrinsic::Ge)
    } else if name == "simd_extract"@ {
        IntrinsicKind::Extract
    } else if name == "simd_add"@ {
        IntrinsicKind::Elementwise(ElemIntrinsic::Add)
    } else if name == "simd_sub"@ {
        IntrinsicKind::Elementwise(ElemIntrinsic::Sub)
    } else if name == "simd_mul"@ {
        IntrinsicKind::Elementwise(ElemIntrinsic::Mul)
    } else if name == "simd_div"@ {
        IntrinsicKind::Elementwise(ElemIntrinsic::Div)
    } else if name == "simd_shl"@ {
        IntrinsicKind::Elementwise(ElemIntrinsic::Shl)
    } else if name == "simd_shr"@ {
        IntrinsicKind::Elementwise(ElemIntrinsic::Shr)
    } else if name == "simd_and"@ {
        IntrinsicKind::Elementwise(ElemIntrinsic::And)
    } else if name == "simd_or"@ {
        IntrinsicKind::Elementwise(ElemIntrinsic::Or)
    } else if name == "simd_xor"@ {
        IntrinsicKind::Elementwise(ElemIntrinsic::Xor)
    } else if name == "simd_fmin"@ {
        IntrinsicKind::Elementwise(ElemIntrinsic::Fmin)
    } else if name == "simd_fmax"@ {
        IntrinsicKind::Elementwise(ElemIntrinsic::Fmax)
    } else if spec_is_shuffle_name(name) {
        IntrinsicKind::Shuffle(spec_shuffle_lane_count(name))
    } else {
        IntrinsicKind::Unknown
    }
}

proof fn lemma_shuffle_prefix_len()
    ensures
        spec_shuffle_prefix().len() == 12,
{
    reveal_strlit("simd_shuffle");
}

/// Character-for-character string equality.
fn str_eq(a: &str, b: &str) -> (r: bool)
    ensures
        r == (a@ == b@),
{
    let la = a.unicode_len();
    let lb = b.unicode_len();
    if la != lb {
        return false;
    }
    let mut i: usize = 0;
    while i < la
        invariant
            i <= la,
            la == a@.len(),
            lb == b@.len(),
            la == lb,
            forall|j: int| 0 <= j < i ==> a@[j] == b@[j],
        decreases la - i,
    {
        let ca = a.get_char(i);
        let cb = b.get_char(i);
        if ca != cb {
            return false;
        }
        i += 1;
    }
    proof {
        assert(a@ =~= b@);
    }
    true
}

/// Parse a name of the shuffle family: the prefix followed by a numeral.
/// Any other name, including one whose numeral does not fit an unsigned
/// 32-bit value, is `Unknown`.
fn parse_shuffle(name: &str) -> (r: IntrinsicKind)
    ensures
        r == if spec_is_shuffle_name(name@) {
            IntrinsicKind::Shuffle(spec_shuffle_lane_count(name@))
        } else {
            IntrinsicKind::Unknown
        },
{
    proof {
        lemma_shuffle_prefix_len();
    }
    let len = name.unicode_len();
    if len <= 12 {
        return IntrinsicKind::Unknown;
    }
    let prefix = name.substring_char(0, 12);
    if !str_eq(prefix, "simd_shuffle") {
        return IntrinsicKind::Unknown;
    }
    let mut i: usize = 12;
    let mut val: u64 = 0;
    let mut too_big: bool = false;
    while i < len
        invariant
            12 <= i <= len,
            len == name@.len(),
            spec_shuffle_prefix().len() == 12,
            name@.subrange(0, 12) == spec_shuffle_prefix(),
            forall|j: int| 12 <= j < i ==> spec_is_digit(#[trigger] name@[j]),
            !too_big ==> val == spec_digits_val(name@.subrange(12, i as int)) && val
                <= u32::MAX as u64,
            too_big ==> spec_digits_val(name@.subrange(12, i as int)) > u32::MAX,
        decreases len - i,
    {
        let c = name.get_char(i);
        let cv = c as u32;
        if cv < 48 || cv > 57 {
            proof {
                assert(spec_shuffle_suffix(name@)[i as int - 12] == name@[i as int]);
            }
            return IntrinsicKind::Unknown;
        }
        proof {
            let ext = name@.subrange(12, i as int + 1);
            assert(ext.drop_last() =~= name@.subrange(12, i as int));
            assert(ext.last() == name@[i as int]);
        }
        if !too_big {
            let d = (cv - 48) as u64;
            let nv = val * 10 + d;
            if nv > 0xffff_ffff {
                too_big = true;
            } else {
                val = nv;
            }
        }
        i += 1;
    }
    proof {
        assert(name@.subrange(12, len as int) =~= spec_shuffle_suffix(name@));
        assert(name@.subrange(0, 12) == spec_shuffle_prefix());
    }
    if too_big {
        return IntrinsicKind::Unknown;
    }
    IntrinsicKind::Shuffle(val as u32)
}

/// Select the handler for an intrinsic's bare name.
pub fn parse_intrinsic(name: &str) -> (r: IntrinsicKind)
    ensures
        r == spec_parse_intrinsic(name@),
{
    if str_eq(name, "simd_cast") {
        IntrinsicKind::Cast
    } else if str_eq(name, "simd_eq") {
        IntrinsicKind::Comparison(CmpIntrinsic::Eq)
    } else if str_eq(name, "simd_ne") {
        IntrinsicKind::Comparison(CmpIntrinsic::Ne)
    } else if str_eq(name, "simd_lt") {
        IntrinsicKind::Comparison(CmpIntrinsic::Lt)
    } else if str_eq(name, "simd_le") {
        IntrinsicKind::Comparison(CmpIntrinsic::Le)
    } else if str_eq(name, "simd_gt") {
        IntrinsicKind::Comparison(CmpIntrinsic::Gt)
    } else if str_eq(name, "simd_ge") {
        IntrinsicKind::Comparison(CmpIntrinsic::Ge)
    } else if str_eq(name, "simd_extract") {
        IntrinsicKind::Extract
    } else if str_eq(name, "simd_add") {
        IntrinsicKind::Elementwise(ElemIntrinsic::Add)
    } else if str_eq(name, "simd_sub") {
        IntrinsicKind::Elementwise(ElemIntrinsic::Sub)
    } else if str_eq(name, "simd_mul") {
        IntrinsicKind::Elementwise(ElemIntrinsic::Mul)
    } else if str_eq(name, "simd_div") {
        IntrinsicKind::Elementwise(ElemIntrinsic::Div)
    } else if str_eq(name, "simd_shl") {
        IntrinsicKind::Elementwise(ElemIntrinsic::Shl)
    } else if str_eq(name, "simd_shr") {
        IntrinsicKind::Elementwise(ElemIntrinsic::Shr)
    } else if str_eq(name, "simd_and") {
        IntrinsicKind::Elementwise(ElemIntrinsic::And)
    } else if str_eq(name, "simd_or") {
        IntrinsicKind::Elementwise(ElemIntrinsic::Or)
    } else if str_eq(name, "simd_xor") {
        IntrinsicKind::Elementwise(ElemIntrinsic::Xor)
    } else if str_eq(name, "simd_fmin") {
        IntrinsicKind::Elementwise(ElemIntrinsic::Fmin)
    } else if str_eq(name, "simd_fmax") {
        IntrinsicKind::Elementwise(ElemIntrinsic::Fmax)
    } else {
        parse_shuffle(name)
    }
}

} // verus!
