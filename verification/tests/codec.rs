use beacn_mic::messages::{
    BeacnValue, DomainValue, FloatBits, MessageValue, ValueKind, RGB,
};

#[test]
fn u32_is_written_low_byte_first() {
    assert_eq!(BeacnValue::from(MessageValue(0x1234_5678u32)), [0x78, 0x56, 0x34, 0x12]);
    assert_eq!(BeacnValue::from(MessageValue(3u32)), [3, 0, 0, 0]);
    assert_eq!(BeacnValue::from(MessageValue(0u32)), [0, 0, 0, 0]);
    assert_eq!(BeacnValue::from(MessageValue(u32::MAX)), [0xff, 0xff, 0xff, 0xff]);
}

#[test]
fn u32_is_read_low_byte_first() {
    assert_eq!(MessageValue::<u32>::from([0x78, 0x56, 0x34, 0x12]).0, 0x1234_5678);
    assert_eq!(MessageValue::<u32>::from([0, 1, 0, 0]).0, 256);
    assert_eq!(MessageValue::<u32>::from([0xff, 0xff, 0xff, 0xff]).0, u32::MAX);
}

#[test]
fn i32_is_written_in_twos_complement() {
    assert_eq!(BeacnValue::from(MessageValue(-1i32)), [0xff, 0xff, 0xff, 0xff]);
    assert_eq!(BeacnValue::from(MessageValue(-10i32)), [0xf6, 0xff, 0xff, 0xff]);
    assert_eq!(BeacnValue::from(MessageValue(10i32)), [10, 0, 0, 0]);
    assert_eq!(BeacnValue::from(MessageValue(i32::MIN)), [0, 0, 0, 0x80]);
    assert_eq!(BeacnValue::from(MessageValue(i32::MAX)), [0xff, 0xff, 0xff, 0x7f]);
}

#[test]
fn i32_is_read_in_twos_complement() {
    assert_eq!(MessageValue::<i32>::from([0xff, 0xff, 0xff, 0xff]).0, -1);
    assert_eq!(MessageValue::<i32>::from([0xf6, 0xff, 0xff, 0xff]).0, -10);
    assert_eq!(MessageValue::<i32>::from([0, 0, 0, 0x80]).0, i32::MIN);
    assert_eq!(MessageValue::<i32>::from([100, 0, 0, 0]).0, 100);
}

#[test]
fn float_travels_as_its_bit_pattern() {
    let one = FloatBits(1.0f32.to_bits());
    assert_eq!(BeacnValue::from(MessageValue(one)), [0x00, 0x00, 0x80, 0x3f]);
    let back = MessageValue::<FloatBits>::from([0x00, 0x00, 0x20, 0x40]).0;
    assert_eq!(f32::from_bits(back.0), 2.5f32);
}

#[test]
fn float_nan_and_subnormal_patterns_pass_unchanged() {
    for bits in [0x7fc0_0001u32, 0xffc1_2345, 0x7f80_0001, 0x0000_0001, 0x8000_0001, 0x007f_ffff] {
        let wire = BeacnValue::from(MessageValue(FloatBits(bits)));
        assert_eq!(wire, bits.to_le_bytes());
        assert_eq!(MessageValue::<FloatBits>::from(wire).0, FloatBits(bits));
    }
}

#[test]
fn rgb_is_written_blue_first_with_zero_alpha() {
    let colour = RGB { red: 10, green: 20, blue: 30, alpha: 0 };
    assert_eq!(BeacnValue::from(MessageValue(colour)), [30, 20, 10, 0]);
    let loud = RGB { red: 1, green: 2, blue: 3, alpha: 0xff };
    assert_eq!(BeacnValue::from(MessageValue(loud)), [3, 2, 1, 0]);
}

#[test]
fn rgb_is_read_blue_first_with_alpha() {
    let colour = MessageValue::<RGB>::from([30, 20, 10, 99]).0;
    assert_eq!(colour, RGB { red: 10, green: 20, blue: 30, alpha: 99 });
}

#[test]
fn round_trip_of_integers() {
    for v in [0u32, 1, 255, 256, 65535, 65536, 0x00ff_ffff, 0x0100_0000, 0xdead_beef, u32::MAX] {
        assert_eq!(MessageValue::<u32>::from(BeacnValue::from(MessageValue(v))).0, v);
    }
    for v in [0i32, 1, -1, 127, -128, 32767, -32768, 100, -10, i32::MAX, i32::MIN] {
        assert_eq!(MessageValue::<i32>::from(BeacnValue::from(MessageValue(v))).0, v);
    }
}

#[test]
fn round_trip_of_wire_values() {
    for wire in [[0u8, 0, 0, 0], [1, 2, 3, 4], [0xff, 0, 0xff, 0], [0x80, 0x80, 0x80, 0x80]] {
        assert_eq!(BeacnValue::from(MessageValue::<u32>::from(wire)), wire);
        assert_eq!(BeacnValue::from(MessageValue::<i32>::from(wire)), wire);
        assert_eq!(BeacnValue::from(MessageValue::<FloatBits>::from(wire)), wire);
        let colour = BeacnValue::from(MessageValue::<RGB>::from(wire));
        assert_eq!(colour, [wire[0], wire[1], wire[2], 0]);
    }
}

#[test]
fn round_trip_of_rgb_loses_alpha_only() {
    for alpha in [0u8, 1, 0x7f, 0xff] {
        let colour = RGB { red: 200, green: 100, blue: 50, alpha };
        let back = MessageValue::<RGB>::from(BeacnValue::from(MessageValue(colour))).0;
        assert_eq!(back.red, 200);
        assert_eq!(back.green, 100);
        assert_eq!(back.blue, 50);
        assert_eq!(back.alpha, 0);
        assert_eq!(back == colour, alpha == 0);
    }
}

#[test]
fn codec_keeps_the_order_of_numbers() {
    let unsigned = [0u32, 1, 255, 256, 70000, u32::MAX];
    for pair in unsigned.windows(2) {
        let a = MessageValue::<u32>::from(BeacnValue::from(MessageValue(pair[0]))).0;
        let b = MessageValue::<u32>::from(BeacnValue::from(MessageValue(pair[1]))).0;
        assert!(a < b);
    }
    let signed = [i32::MIN, -70000, -1, 0, 1, 70000, i32::MAX];
    for pair in signed.windows(2) {
        let a = MessageValue::<i32>::from(BeacnValue::from(MessageValue(pair[0]))).0;
        let b = MessageValue::<i32>::from(BeacnValue::from(MessageValue(pair[1]))).0;
        assert!(a < b);
    }
}

#[test]
fn one_wire_value_under_each_type() {
    let wire = [0xf6, 0xff, 0xff, 0xff];
    assert_eq!(DomainValue::decode(ValueKind::Unsigned, wire), DomainValue::Unsigned(0xffff_fff6));
    assert_eq!(DomainValue::decode(ValueKind::Signed, wire), DomainValue::Signed(-10));
    assert_eq!(
        DomainValue::decode(ValueKind::Float, wire),
        DomainValue::Float(FloatBits(0xffff_fff6))
    );
    assert_eq!(
        DomainValue::decode(ValueKind::Colour, wire),
        DomainValue::Colour(RGB { red: 0xff, green: 0xff, blue: 0xf6, alpha: 0xff })
    );
}

#[test]
fn domain_values_encode_by_their_type() {
    assert_eq!(DomainValue::Unsigned(3).encode(), [3, 0, 0, 0]);
    assert_eq!(DomainValue::Signed(-2).encode(), [0xfe, 0xff, 0xff, 0xff]);
    assert_eq!(DomainValue::Float(FloatBits(0x4120_0000)).encode(), [0, 0, 0x20, 0x41]);
    let colour = RGB { red: 1, green: 2, blue: 3, alpha: 4 };
    assert_eq!(DomainValue::Colour(colour).encode(), [3, 2, 1, 0]);
    assert_eq!(DomainValue::Unsigned(3).kind(), ValueKind::Unsigned);
    assert_eq!(DomainValue::Signed(3).kind(), ValueKind::Signed);
    assert_eq!(DomainValue::Float(FloatBits(3)).kind(), ValueKind::Float);
    assert_eq!(DomainValue::Colour(colour).kind(), ValueKind::Colour);
}

#[test]
fn domain_values_round_trip() {
    let values = [
        DomainValue::Unsigned(77),
        DomainValue::Signed(-77),
        DomainValue::Float(FloatBits(7.75f32.to_bits())),
        DomainValue::Colour(RGB { red: 9, green: 8, blue: 7, alpha: 0 }),
    ];
    for value in values {
        assert_eq!(DomainValue::decode(value.kind(), value.encode()), value);
    }
    let tinted = DomainValue::Colour(RGB { red: 9, green: 8, blue: 7, alpha: 6 });
    assert_eq!(
        DomainValue::decode(ValueKind::Colour, tinted.encode()),
        DomainValue::Colour(RGB { red: 9, green: 8, blue: 7, alpha: 0 })
    );
}

#[test]
fn rgb_channels_and_back() {
    let colour = RGB::from_channels([10, 20, 30]);
    assert_eq!(colour, RGB { red: 10, green: 20, blue: 30, alpha: 0 });
    assert_eq!(colour.channels(), [10, 20, 30]);
    assert_eq!(RGB { red: 1, green: 2, blue: 3, alpha: 4 }.channels(), [1, 2, 3]);
    assert_eq!(RGB::default(), RGB { red: 0, green: 0, blue: 0, alpha: 0 });
}
