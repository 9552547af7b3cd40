use simd_lowering::eval::{eval_cmp, eval_int_cast, mask_value, signed_lt};
use simd_lowering::layout::{LaneKind, LaneTy};
use simd_lowering::ops::CmpOp;
use simd_lowering::shuffle_idx::read_u32_at;
use simd_lowering::value::Endian;

fn s(bits: u32) -> LaneTy {
    LaneTy { kind: LaneKind::SignedInt, bits }
}

fn u(bits: u32) -> LaneTy {
    LaneTy { kind: LaneKind::UnsignedInt, bits }
}

#[test]
fn cast_sign_extends_when_widening() {
    // -1 as an 8-bit pattern widens to -1 as a 16-bit pattern
    assert_eq!(eval_int_cast(s(8), s(16), 0xff), 0xffff);
    // -128 widens to 0xff80
    assert_eq!(eval_int_cast(s(8), s(16), 0x80), 0xff80);
    // 0x7f stays 0x007f
    assert_eq!(eval_int_cast(s(8), s(16), 0x7f), 0x007f);
    // unsigned widening zero-extends
    assert_eq!(eval_int_cast(u(8), u(64), 0xff), 0xff);
}

#[test]
fn cast_truncates_when_narrowing() {
    assert_eq!(eval_int_cast(u(32), u(8), 0x0001_2345), 0x45);
    assert_eq!(eval_int_cast(s(64), s(16), 0xffff_ffff_ffff_fffe), 0xfffe);
}

#[test]
fn cast_round_trips_signed_and_unsigned() {
    for v in 0u64..=0xff {
        let wide = eval_int_cast(s(8), s(32), v);
        assert_eq!(eval_int_cast(s(32), s(8), wide), v);
        let wide = eval_int_cast(u(8), u(64), v);
        assert_eq!(eval_int_cast(u(64), u(8), wide), v);
    }
}

#[test]
fn masks_are_all_bits_or_none() {
    assert_eq!(mask_value(8, true), 0xff);
    assert_eq!(mask_value(32, true), 0xffff_ffff);
    assert_eq!(mask_value(64, true), u64::MAX);
    assert_eq!(mask_value(8, false), 0);
    assert_eq!(mask_value(64, false), 0);
}

#[test]
fn signed_order_differs_from_unsigned_order() {
    // 0xff is -1 signed, 255 unsigned
    assert!(signed_lt(8, 0xff, 1));
    assert_eq!(eval_cmp(CmpOp::SLt, 8, 0xff, 1), Some(true));
    assert_eq!(eval_cmp(CmpOp::ULt, 8, 0xff, 1), Some(false));
    assert_eq!(eval_cmp(CmpOp::SGe, 8, 1, 0xff), Some(true));
    assert_eq!(eval_cmp(CmpOp::UGe, 8, 1, 0xff), Some(false));
    assert_eq!(eval_cmp(CmpOp::IntEq, 8, 0xff, 0xff), Some(true));
    assert_eq!(eval_cmp(CmpOp::IntNe, 8, 0xff, 0xfe), Some(true));
    // float predicates are not evaluated here
    assert_eq!(eval_cmp(CmpOp::FLt, 32, 1, 2), None);
}

#[test]
fn u32_decoding_honors_byte_order() {
    let bytes = vec![1, 2, 3, 4];
    assert_eq!(read_u32_at(Endian::Little, &bytes, 0), 0x0403_0201);
    assert_eq!(read_u32_at(Endian::Big, &bytes, 0), 0x0102_0304);
}
