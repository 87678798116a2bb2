use yabe::{
    AppliedTo, Bb, CastError, CastSigned, CastUnsigned, Extend128, Extend16, Extend32, Extend64,
    Identity, Kind, MkSigned, MkUnsigned, SignFlip, Truncate16, Truncate32, Truncate64, Truncate8,
    Value, Width,
};

fn kind(signed: bool, width: Width) -> Kind {
    Kind::new(signed, width)
}

fn chain<O: AppliedTo>(c: Bb, op: &O) -> Bb {
    c.append(op).unwrap()
}

#[test]
fn minimal_coverage() {
    let u8k = kind(false, Width::W8);
    assert_eq!(Bb::new(u8k).apply(Value::U8(5)), Ok(Value::U8(5)));

    let c = chain(chain(chain(Bb::new(u8k), &CastSigned), &CastUnsigned), &CastSigned);
    assert_eq!(c.apply(Value::U8(255)), Ok(Value::I8(-1)));

    let c = chain(Bb::new(kind(false, Width::W64)), &Truncate8);
    assert_eq!(c.apply(Value::U64(u64::MAX)), Ok(Value::U8(255)));

    let c = chain(chain(chain(Bb::new(u8k), &CastSigned), &Extend16), &CastUnsigned);
    assert_eq!(c.apply(Value::U8(0xfe)), Ok(Value::U16(0xfffe)));
}

#[test]
fn unsigned_then_extend_then_signed() {
    let c = chain(
        chain(chain(Bb::new(kind(true, Width::W32)), &CastUnsigned), &Extend64),
        &CastSigned,
    );
    assert_eq!(c.apply(Value::I32(-1)), Ok(Value::I64(4294967295)));
}

#[test]
fn identity_keeps_every_kind() {
    let values = [
        Value::I8(-128),
        Value::U8(200),
        Value::I16(-3),
        Value::U16(65535),
        Value::I32(i32::MIN),
        Value::U32(7),
        Value::I64(i64::MAX),
        Value::U64(u64::MAX),
        Value::I128(i128::MIN),
        Value::U128(u128::MAX),
    ];
    for v in values {
        let c = chain(Bb::new(v.kind_of()), &Identity);
        assert_eq!(c.output_kind(), v.kind_of());
        assert_eq!(c.apply(v), Ok(v));
    }
}

#[test]
fn double_sign_flip_restores_value() {
    let c = chain(chain(Bb::new(kind(false, Width::W8)), &SignFlip), &SignFlip);
    assert_eq!(c.output_kind(), kind(false, Width::W8));
    assert_eq!(c.apply(Value::U8(255)), Ok(Value::U8(255)));

    let c = chain(chain(Bb::new(kind(true, Width::W128)), &SignFlip), &SignFlip);
    assert_eq!(c.apply(Value::I128(i128::MIN)), Ok(Value::I128(i128::MIN)));
}

#[test]
fn single_sign_flip_reinterprets() {
    let c = chain(Bb::new(kind(true, Width::W16)), &SignFlip);
    assert_eq!(c.apply(Value::I16(-2)), Ok(Value::U16(65534)));
    let c = chain(Bb::new(kind(false, Width::W128)), &SignFlip);
    assert_eq!(c.apply(Value::U128(u128::MAX)), Ok(Value::I128(-1)));
}

#[test]
fn truncate_twice_to_same_width_is_rejected() {
    let c = chain(Bb::new(kind(false, Width::W32)), &Truncate8);
    assert_eq!(c.append(&Truncate8).err(), Some(CastError::InapplicableOperation));
}

#[test]
fn truncate_then_narrower_truncate() {
    let c = chain(chain(Bb::new(kind(false, Width::W64)), &Truncate16), &Truncate8);
    assert_eq!(c.apply(Value::U64(0x1234_5678)), Ok(Value::U8(0x78)));
}

#[test]
fn extend_then_truncate_round_trip() {
    let c = chain(chain(Bb::new(kind(false, Width::W8)), &Extend64), &Truncate8);
    for x in [0u8, 1, 127, 128, 254, 255] {
        assert_eq!(c.apply(Value::U8(x)), Ok(Value::U8(x)));
    }
    let c = chain(chain(Bb::new(kind(false, Width::W16)), &Extend128), &Truncate16);
    assert_eq!(c.apply(Value::U16(0xbeef)), Ok(Value::U16(0xbeef)));
    let c = chain(chain(Bb::new(kind(true, Width::W32)), &Extend64), &Truncate32);
    assert_eq!(c.apply(Value::I32(i32::MIN)), Ok(Value::I32(i32::MIN)));
}

#[test]
fn sign_extension_and_zero_extension() {
    let c = chain(Bb::new(kind(true, Width::W8)), &Extend16);
    assert_eq!(c.apply(Value::I8(-1)), Ok(Value::I16(-1)));
    let c = chain(Bb::new(kind(false, Width::W8)), &Extend16);
    assert_eq!(c.apply(Value::U8(255)), Ok(Value::U16(255)));
    let c = chain(Bb::new(kind(true, Width::W64)), &Extend128);
    assert_eq!(c.apply(Value::I64(i64::MIN)), Ok(Value::I128(i64::MIN as i128)));
    let c = chain(Bb::new(kind(false, Width::W16)), &Extend32);
    assert_eq!(c.apply(Value::U16(0x8000)), Ok(Value::U32(0x8000)));
}

#[test]
fn empty_chain_is_identity() {
    let c = Bb::new(kind(false, Width::W8));
    assert_eq!(c.len(), 0);
    assert_eq!(c.apply(Value::U8(5)), Ok(Value::U8(5)));
}

#[test]
fn double_flip_scenario() {
    let c = chain(chain(Bb::new(kind(false, Width::W8)), &SignFlip), &SignFlip);
    assert_eq!(c.len(), 2);
    assert_eq!(c.apply(Value::U8(255)), Ok(Value::U8(255)));
}

#[test]
fn truncate_max_to_eight_bits() {
    let c = chain(Bb::new(kind(false, Width::W64)), &Truncate8);
    assert_eq!(c.output_kind(), kind(false, Width::W8));
    assert_eq!(
        c.apply(Value::U64(18446744073709551615)),
        Ok(Value::U8(255))
    );
}

#[test]
fn flip_extend_flip() {
    let c = chain(
        chain(chain(Bb::new(kind(false, Width::W8)), &SignFlip), &Extend16),
        &SignFlip,
    );
    assert_eq!(c.output_kind(), kind(false, Width::W16));
    assert_eq!(c.apply(Value::U8(254)), Ok(Value::U16(65534)));
}

#[test]
fn signed_truncation_then_flip() {
    let c = chain(Bb::new(kind(true, Width::W32)), &Truncate8);
    assert_eq!(c.apply(Value::I32(-1)), Ok(Value::I8(-1)));
    let c = chain(c, &SignFlip);
    assert_eq!(c.apply(Value::I32(-1)), Ok(Value::U8(255)));
}

#[test]
fn inapplicable_operations_are_rejected() {
    let start = Bb::new(kind(true, Width::W8));
    assert_eq!(
        start.clone().append(&Truncate16).err(),
        Some(CastError::InapplicableOperation)
    );
    let c = chain(Bb::new(kind(true, Width::W32)), &Identity);
    assert_eq!(c.append(&Extend16).err(), Some(CastError::InapplicableOperation));
    let c = Bb::new(kind(false, Width::W128));
    assert_eq!(c.append(&Extend128).err(), Some(CastError::InapplicableOperation));
    let c = Bb::new(kind(false, Width::W64));
    assert_eq!(c.append(&Truncate64).err(), Some(CastError::InapplicableOperation));
}

#[test]
fn value_of_another_kind_is_rejected() {
    let c = chain(Bb::new(kind(false, Width::W16)), &Truncate8);
    assert_eq!(c.start_kind(), kind(false, Width::W16));
    assert_eq!(c.apply(Value::I16(3)), Err(CastError::MalformedChain));
    assert_eq!(c.apply(Value::U32(3)), Err(CastError::MalformedChain));
}

#[test]
fn single_operations_apply_directly() {
    assert_eq!(Truncate32.apply(Value::I64(-5)), Ok(Value::I32(-5)));
    assert_eq!(Truncate64.apply(Value::U128(u128::MAX)), Ok(Value::U64(u64::MAX)));
    assert_eq!(Extend32.apply(Value::I16(-300)), Ok(Value::I32(-300)));
    assert_eq!(
        Extend64.apply(Value::U64(1)),
        Err(CastError::InapplicableOperation)
    );
    assert_eq!(CastSigned.apply(Value::I8(-7)), Ok(Value::I8(-7)));
    assert_eq!(CastUnsigned.apply(Value::U32(9)), Ok(Value::U32(9)));
    assert_eq!(Truncate16.resolve(kind(true, Width::W8)), None);
    assert_eq!(Extend128.resolve(kind(true, Width::W8)), Some(kind(true, Width::W128)));
}

#[test]
fn signed_and_unsigned_counterparts() {
    assert_eq!(Value::U8(0x80).cast_signed(), Value::I8(-128));
    assert_eq!(Value::I64(-1).cast_unsigned(), Value::U64(u64::MAX));
    assert_eq!(Value::I16(5).cast_signed(), Value::I16(5));
    assert_eq!(Value::U128(1).cast_unsigned(), Value::U128(1));
    assert_eq!(kind(false, Width::W32).cast_signed(), kind(true, Width::W32));
    assert_eq!(kind(true, Width::W32).cast_unsigned(), kind(false, Width::W32));
}

#[test]
fn reinterpret_between_any_kinds() {
    let v = Value::I128(-2);
    assert_eq!(v.reinterpret(kind(false, Width::W8)), Value::U8(254));
    assert_eq!(v.reinterpret(kind(true, Width::W64)), Value::I64(-2));
    assert_eq!(Value::U8(0xff).reinterpret(kind(true, Width::W128)), Value::I128(255));
    assert_eq!(Value::U32(0x8000_0001).reinterpret(kind(true, Width::W16)), Value::I16(1));
    assert_eq!(Value::U16(0x8001).reinterpret(kind(true, Width::W16)), Value::I16(-32767));
}

#[test]
fn widths_report_bits() {
    assert_eq!(Width::W8.bits(), 8);
    assert_eq!(Width::W128.bits(), 128);
    assert_eq!(kind(true, Width::W16).flipped(), kind(false, Width::W16));
    assert_eq!(kind(true, Width::W16).truncated(Width::W8), Some(kind(true, Width::W8)));
    assert_eq!(kind(true, Width::W16).extended(Width::W8), None);
}
