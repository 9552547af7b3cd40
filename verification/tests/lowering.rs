use simd_lowering::dispatch::{parse_intrinsic, IntrinsicKind};
use simd_lowering::emit::{Diagnostic, InternalFault, LaneOp, LowerOutcome, VectorDest};
use simd_lowering::layout::{LaneKind, LaneTy, MachineTy};
use simd_lowering::lower::codegen_simd_intrinsic_call;
use simd_lowering::ops::{BinOp, CmpIntrinsic, CmpOp, ElemIntrinsic};
use simd_lowering::value::{Endian, MaybeConst, Operand, OperandValue};

fn lane(kind: LaneKind, bits: u32) -> LaneTy {
    LaneTy { kind, bits }
}

fn vec_of(kind: LaneKind, bits: u32, lanes: Vec<u64>) -> OperandValue {
    OperandValue { ty: MachineTy::Vector(lane(kind, bits), lanes.len() as u32), lanes }
}

fn le_bytes(indices: &[u32]) -> Vec<u8> {
    let mut out = Vec::new();
    for &i in indices {
        out.push((i & 0xff) as u8);
        out.push(((i >> 8) & 0xff) as u8);
        out.push(((i >> 16) & 0xff) as u8);
        out.push(((i >> 24) & 0xff) as u8);
    }
    out
}

fn lower(
    name: &str,
    args: Vec<Operand>,
    ret_ty: MachineTy,
) -> LowerOutcome {
    codegen_simd_intrinsic_call(name, &args, &ret_ty, Endian::Little)
}

#[test]
fn unknown_intrinsic_is_fatal() {
    let x = vec_of(LaneKind::UnsignedInt, 32, vec![1, 2, 3, 4]);
    let ret = x.ty;
    let r = lower("simd_frobnicate", vec![Operand::Value(x)], ret);
    assert_eq!(r, LowerOutcome::Fatal(Diagnostic::UnknownIntrinsic));
}

#[test]
fn dispatch_exact_names() {
    assert_eq!(parse_intrinsic("simd_cast"), IntrinsicKind::Cast);
    assert_eq!(parse_intrinsic("simd_eq"), IntrinsicKind::Comparison(CmpIntrinsic::Eq));
    assert_eq!(parse_intrinsic("simd_ne"), IntrinsicKind::Comparison(CmpIntrinsic::Ne));
    assert_eq!(parse_intrinsic("simd_lt"), IntrinsicKind::Comparison(CmpIntrinsic::Lt));
    assert_eq!(parse_intrinsic("simd_le"), IntrinsicKind::Comparison(CmpIntrinsic::Le));
    assert_eq!(parse_intrinsic("simd_gt"), IntrinsicKind::Comparison(CmpIntrinsic::Gt));
    assert_eq!(parse_intrinsic("simd_ge"), IntrinsicKind::Comparison(CmpIntrinsic::Ge));
    assert_eq!(parse_intrinsic("simd_extract"), IntrinsicKind::Extract);
    assert_eq!(parse_intrinsic("simd_add"), IntrinsicKind::Elementwise(ElemIntrinsic::Add));
    assert_eq!(parse_intrinsic("simd_sub"), IntrinsicKind::Elementwise(ElemIntrinsic::Sub));
    assert_eq!(parse_intrinsic("simd_mul"), IntrinsicKind::Elementwise(ElemIntrinsic::Mul));
    assert_eq!(parse_intrinsic("simd_div"), IntrinsicKind::Elementwise(ElemIntrinsic::Div));
    assert_eq!(parse_intrinsic("simd_shl"), IntrinsicKind::Elementwise(ElemIntrinsic::Shl));
    assert_eq!(parse_intrinsic("simd_shr"), IntrinsicKind::Elementwise(ElemIntrinsic::Shr));
    assert_eq!(parse_intrinsic("simd_and"), IntrinsicKind::Elementwise(ElemIntrinsic::And));
    assert_eq!(parse_intrinsic("simd_or"), IntrinsicKind::Elementwise(ElemIntrinsic::Or));
    assert_eq!(parse_intrinsic("simd_xor"), IntrinsicKind::Elementwise(ElemIntrinsic::Xor));
    assert_eq!(parse_intrinsic("simd_fmin"), IntrinsicKind::Elementwise(ElemIntrinsic::Fmin));
    assert_eq!(parse_intrinsic("simd_fmax"), IntrinsicKind::Elementwise(ElemIntrinsic::Fmax));
}

#[test]
fn dispatch_shuffle_names() {
    assert_eq!(parse_intrinsic("simd_shuffle4"), IntrinsicKind::Shuffle(4));
    assert_eq!(parse_intrinsic("simd_shuffle32"), IntrinsicKind::Shuffle(32));
    assert_eq!(parse_intrinsic("simd_shuffle"), IntrinsicKind::Unknown);
    assert_eq!(parse_intrinsic("simd_shuffle4x"), IntrinsicKind::Unknown);
    assert_eq!(parse_intrinsic("simd_shuffle99999999999"), IntrinsicKind::Unknown);
    assert_eq!(parse_intrinsic(""), IntrinsicKind::Unknown);
}

#[test]
fn elementwise_add_lanes() {
    let x = vec_of(LaneKind::UnsignedInt, 32, vec![1, 2, 3, 4]);
    let y = vec_of(LaneKind::UnsignedInt, 32, vec![10, 20, 30, 40]);
    let ret = x.ty;
    let r = lower("simd_add", vec![Operand::Value(x), Operand::Value(y)], ret);
    let expected = LowerOutcome::Vector(VectorDest {
        lane: lane(LaneKind::UnsignedInt, 32),
        ops: vec![
            LaneOp::Bin { op: BinOp::IAdd, bits: 32, lhs: 1, rhs: 10 },
            LaneOp::Bin { op: BinOp::IAdd, bits: 32, lhs: 2, rhs: 20 },
            LaneOp::Bin { op: BinOp::IAdd, bits: 32, lhs: 3, rhs: 30 },
            LaneOp::Bin { op: BinOp::IAdd, bits: 32, lhs: 4, rhs: 40 },
        ],
    });
    assert_eq!(r, expected);
}

#[test]
fn elementwise_div_signedness() {
    let xs = vec_of(LaneKind::SignedInt, 16, vec![8, 9]);
    let ys = vec_of(LaneKind::SignedInt, 16, vec![2, 3]);
    let ret = xs.ty;
    let r = lower("simd_div", vec![Operand::Value(xs), Operand::Value(ys)], ret);
    match r {
        LowerOutcome::Vector(d) => {
            assert_eq!(d.ops[0], LaneOp::Bin { op: BinOp::SDiv, bits: 16, lhs: 8, rhs: 2 });
        }
        other => panic!("expected a vector outcome, got {:?}", other),
    }
    let xu = vec_of(LaneKind::UnsignedInt, 16, vec![8, 9]);
    let yu = vec_of(LaneKind::UnsignedInt, 16, vec![2, 3]);
    let ret = xu.ty;
    let r = lower("simd_div", vec![Operand::Value(xu), Operand::Value(yu)], ret);
    match r {
        LowerOutcome::Vector(d) => {
            assert_eq!(d.ops[0], LaneOp::Bin { op: BinOp::UDiv, bits: 16, lhs: 8, rhs: 2 });
        }
        other => panic!("expected a vector outcome, got {:?}", other),
    }
}

#[test]
fn float_shift_is_internal_fault() {
    let x = vec_of(LaneKind::Float, 32, vec![1, 2]);
    let y = vec_of(LaneKind::Float, 32, vec![3, 4]);
    let ret = x.ty;
    let r = lower("simd_shl", vec![Operand::Value(x), Operand::Value(y)], ret);
    assert_eq!(r, LowerOutcome::Internal(InternalFault::UnsupportedLaneKind));
}

#[test]
fn fmin_is_float_only() {
    let xi = vec_of(LaneKind::SignedInt, 32, vec![1, 2]);
    let yi = vec_of(LaneKind::SignedInt, 32, vec![3, 4]);
    let ret = xi.ty;
    let r = lower("simd_fmin", vec![Operand::Value(xi), Operand::Value(yi)], ret);
    assert_eq!(r, LowerOutcome::Internal(InternalFault::UnsupportedLaneKind));
    let xf = vec_of(LaneKind::Float, 64, vec![1, 2]);
    let yf = vec_of(LaneKind::Float, 64, vec![3, 4]);
    let ret = xf.ty;
    let r = lower("simd_fmin", vec![Operand::Value(xf), Operand::Value(yf)], ret);
    match r {
        LowerOutcome::Vector(d) => {
            assert_eq!(d.ops[0], LaneOp::Bin { op: BinOp::FMin, bits: 64, lhs: 1, rhs: 3 });
        }
        other => panic!("expected a vector outcome, got {:?}", other),
    }
}

#[test]
fn lane_count_mismatch_is_internal_fault() {
    let x = vec_of(LaneKind::UnsignedInt, 32, vec![1, 2, 3, 4]);
    let y = vec_of(LaneKind::UnsignedInt, 32, vec![5, 6, 7, 8]);
    let ret = MachineTy::Vector(lane(LaneKind::UnsignedInt, 32), 2);
    let r = lower("simd_add", vec![Operand::Value(x), Operand::Value(y)], ret);
    assert_eq!(
        r,
        LowerOutcome::Internal(InternalFault::LaneCountMismatch {
            operand_lanes: 4,
            result_lanes: 2,
        })
    );
}

#[test]
fn layout_mismatch_is_internal_fault() {
    let x = vec_of(LaneKind::UnsignedInt, 32, vec![1, 2]);
    let y = vec_of(LaneKind::UnsignedInt, 64, vec![1, 2]);
    let ret = x.ty;
    let r = lower("simd_add", vec![Operand::Value(x), Operand::Value(y)], ret);
    assert_eq!(r, LowerOutcome::Internal(InternalFault::LayoutMismatch));
}

#[test]
fn non_vector_operand_is_internal_fault() {
    let s = OperandValue { ty: MachineTy::Scalar(lane(LaneKind::UnsignedInt, 32)), lanes: vec![7] };
    let t = OperandValue { ty: MachineTy::Scalar(lane(LaneKind::UnsignedInt, 32)), lanes: vec![8] };
    let ret = MachineTy::Vector(lane(LaneKind::UnsignedInt, 32), 1);
    let r = lower("simd_add", vec![Operand::Value(s), Operand::Value(t)], ret);
    assert_eq!(r, LowerOutcome::Internal(InternalFault::NonVectorOperand));
}

#[test]
fn malformed_operand_list_is_internal_fault() {
    let x = vec_of(LaneKind::UnsignedInt, 32, vec![1, 2]);
    let ret = x.ty;
    let r = lower("simd_add", vec![Operand::Value(x)], ret);
    assert_eq!(r, LowerOutcome::Internal(InternalFault::MalformedOperands));
}

#[test]
fn comparison_picks_predicate_by_signedness() {
    let cases = [
        (LaneKind::SignedInt, CmpOp::SLt),
        (LaneKind::UnsignedInt, CmpOp::ULt),
        (LaneKind::Float, CmpOp::FLt),
    ];
    for (kind, expected_op) in cases {
        let x = vec_of(kind, 32, vec![1, 2]);
        let y = vec_of(kind, 32, vec![3, 4]);
        let ret = MachineTy::Vector(lane(LaneKind::SignedInt, 32), 2);
        let r = lower("simd_lt", vec![Operand::Value(x), Operand::Value(y)], ret);
        match r {
            LowerOutcome::Vector(d) => {
                assert_eq!(d.lane, lane(LaneKind::SignedInt, 32));
                assert_eq!(d.ops[0], LaneOp::Cmp { op: expected_op, bits: 32, lhs: 1, rhs: 3 });
                assert_eq!(d.ops[1], LaneOp::Cmp { op: expected_op, bits: 32, lhs: 2, rhs: 4 });
            }
            other => panic!("expected a vector outcome, got {:?}", other),
        }
    }
}

#[test]
fn cast_carries_both_lane_types() {
    let a = vec_of(LaneKind::SignedInt, 8, vec![0x80, 0x7f]);
    let ret = MachineTy::Vector(lane(LaneKind::SignedInt, 32), 2);
    let r = lower("simd_cast", vec![Operand::Value(a)], ret);
    let expected = LowerOutcome::Vector(VectorDest {
        lane: lane(LaneKind::SignedInt, 32),
        ops: vec![
            LaneOp::Cast {
                from: lane(LaneKind::SignedInt, 8),
                to: lane(LaneKind::SignedInt, 32),
                lane: 0x80,
            },
            LaneOp::Cast {
                from: lane(LaneKind::SignedInt, 8),
                to: lane(LaneKind::SignedInt, 32),
                lane: 0x7f,
            },
        ],
    });
    assert_eq!(r, expected);
}

#[test]
fn cast_lane_count_mismatch_is_internal_fault() {
    let a = vec_of(LaneKind::SignedInt, 8, vec![1, 2, 3]);
    let ret = MachineTy::Vector(lane(LaneKind::SignedInt, 32), 4);
    let r = lower("simd_cast", vec![Operand::Value(a)], ret);
    assert_eq!(
        r,
        LowerOutcome::Internal(InternalFault::LaneCountMismatch {
            operand_lanes: 3,
            result_lanes: 4,
        })
    );
}

#[test]
fn operand_of_the_wrong_sort_is_internal_fault() {
    let ret = MachineTy::Vector(lane(LaneKind::SignedInt, 32), 1);
    let r = lower("simd_cast", vec![Operand::Expr(MaybeConst::Bits(1))], ret);
    assert_eq!(r, LowerOutcome::Internal(InternalFault::MalformedOperands));
    let x = vec_of(LaneKind::UnsignedInt, 32, vec![1]);
    let y = x.clone();
    let z = x.clone();
    let ret = x.ty;
    let r = lower(
        "simd_shuffle1",
        vec![Operand::Value(x), Operand::Value(y), Operand::Value(z)],
        ret,
    );
    assert_eq!(r, LowerOutcome::Internal(InternalFault::MalformedOperands));
}

#[test]
fn shuffle_interleaves_two_vectors() {
    let x = vec_of(LaneKind::UnsignedInt, 32, vec![11, 22, 33, 44]);
    let y = x.clone();
    let idx = MaybeConst::RawBytes(le_bytes(&[0, 4, 1, 5]));
    let ret = x.ty;
    let r = lower(
        "simd_shuffle4",
        vec![Operand::Value(x), Operand::Value(y), Operand::Expr(idx)],
        ret,
    );
    let expected = LowerOutcome::Vector(VectorDest {
        lane: lane(LaneKind::UnsignedInt, 32),
        ops: vec![
            LaneOp::Move { lane: 11 },
            LaneOp::Move { lane: 11 },
            LaneOp::Move { lane: 22 },
            LaneOp::Move { lane: 22 },
        ],
    });
    assert_eq!(r, expected);
}

#[test]
fn shuffle_reads_big_endian_indices() {
    let x = vec_of(LaneKind::UnsignedInt, 8, vec![5, 6]);
    let y = vec_of(LaneKind::UnsignedInt, 8, vec![7, 8]);
    // indices [3, 0] as big-endian bytes
    let bytes = vec![0, 0, 0, 3, 0, 0, 0, 0];
    let ret = x.ty;
    let r = codegen_simd_intrinsic_call(
        "simd_shuffle2",
        &vec![
            Operand::Value(x),
            Operand::Value(y),
            Operand::Expr(MaybeConst::RawBytes(bytes)),
        ],
        &ret,
        Endian::Big,
    );
    let expected = LowerOutcome::Vector(VectorDest {
        lane: lane(LaneKind::UnsignedInt, 8),
        ops: vec![LaneOp::Move { lane: 8 }, LaneOp::Move { lane: 5 }],
    });
    assert_eq!(r, expected);
}

#[test]
fn shuffle_index_out_of_range_is_fatal() {
    let x = vec_of(LaneKind::UnsignedInt, 32, vec![1, 2, 3, 4]);
    let y = x.clone();
    let idx = MaybeConst::RawBytes(le_bytes(&[0, 1, 8, 2]));
    let ret = x.ty;
    let r = lower(
        "simd_shuffle4",
        vec![Operand::Value(x), Operand::Value(y), Operand::Expr(idx)],
        ret,
    );
    assert_eq!(
        r,
        LowerOutcome::Fatal(Diagnostic::ShuffleIndexOutOfRange { index: 8, bound: 8 })
    );
}

#[test]
fn shuffle_non_const_index_is_fatal() {
    let x = vec_of(LaneKind::UnsignedInt, 32, vec![1, 2]);
    let y = x.clone();
    let ret = x.ty;
    let r = lower(
        "simd_shuffle2",
        vec![Operand::Value(x), Operand::Value(y), Operand::Expr(MaybeConst::NotConst)],
        ret,
    );
    assert_eq!(r, LowerOutcome::Fatal(Diagnostic::ShuffleIndexNotConst));
}

#[test]
fn shuffle_declared_count_mismatch_is_internal_fault() {
    let x = vec_of(LaneKind::UnsignedInt, 32, vec![1, 2, 3, 4]);
    let y = x.clone();
    let idx = MaybeConst::RawBytes(le_bytes(&[0, 1, 2]));
    let ret = x.ty;
    let r = lower(
        "simd_shuffle3",
        vec![Operand::Value(x), Operand::Value(y), Operand::Expr(idx)],
        ret,
    );
    assert_eq!(
        r,
        LowerOutcome::Internal(InternalFault::DeclaredLaneCountMismatch {
            declared: 3,
            resolved: 4,
        })
    );
}

#[test]
fn shuffle_scalar_index_constant_is_internal_fault() {
    let x = vec_of(LaneKind::UnsignedInt, 32, vec![1, 2]);
    let y = x.clone();
    let ret = x.ty;
    let r = lower(
        "simd_shuffle2",
        vec![Operand::Value(x), Operand::Value(y), Operand::Expr(MaybeConst::Bits(0))],
        ret,
    );
    assert_eq!(r, LowerOutcome::Internal(InternalFault::ShuffleIndexNotByRef));
}

#[test]
fn shuffle_short_constant_is_internal_fault() {
    let x = vec_of(LaneKind::UnsignedInt, 32, vec![1, 2]);
    let y = x.clone();
    let idx = MaybeConst::RawBytes(vec![0, 0, 0]);
    let ret = x.ty;
    let r = lower(
        "simd_shuffle2",
        vec![Operand::Value(x), Operand::Value(y), Operand::Expr(idx)],
        ret,
    );
    assert_eq!(r, LowerOutcome::Internal(InternalFault::ShuffleIndexBytesTooShort));
}

#[test]
fn extract_in_range_copies_the_lane() {
    let v = vec_of(LaneKind::UnsignedInt, 64, vec![100, 200, 300]);
    let ret = MachineTy::Scalar(lane(LaneKind::UnsignedInt, 64));
    let r = lower(
        "simd_extract",
        vec![Operand::Value(v), Operand::Expr(MaybeConst::Bits(2))],
        ret,
    );
    assert_eq!(r, LowerOutcome::Scalar(300));
}

#[test]
fn extract_out_of_range_is_fatal() {
    let v = vec_of(LaneKind::UnsignedInt, 64, vec![100, 200, 300]);
    let ret = MachineTy::Scalar(lane(LaneKind::UnsignedInt, 64));
    let r = lower(
        "simd_extract",
        vec![Operand::Value(v), Operand::Expr(MaybeConst::Bits(3))],
        ret,
    );
    assert_eq!(
        r,
        LowerOutcome::Fatal(Diagnostic::ExtractIndexOutOfRange { index: 3, lane_count: 3 })
    );
}

#[test]
fn extract_non_const_index_warns_and_traps() {
    let v = vec_of(LaneKind::UnsignedInt, 64, vec![100, 200]);
    let ret = MachineTy::Scalar(lane(LaneKind::UnsignedInt, 64));
    let r = lower(
        "simd_extract",
        vec![Operand::Value(v), Operand::Expr(MaybeConst::NotConst)],
        ret,
    );
    assert_eq!(r, LowerOutcome::Trap(Diagnostic::NonConstExtractIndex));
}

#[test]
fn extract_byref_index_constant_is_internal_fault() {
    let v = vec_of(LaneKind::UnsignedInt, 64, vec![100, 200]);
    let ret = MachineTy::Scalar(lane(LaneKind::UnsignedInt, 64));
    let r = lower(
        "simd_extract",
        vec![Operand::Value(v), Operand::Expr(MaybeConst::RawBytes(vec![0, 0, 0, 0]))],
        ret,
    );
    assert_eq!(r, LowerOutcome::Internal(InternalFault::ExtractIndexNotScalar));
}
