use michiru::bthome::{encode_value, DecodeError, Object, RawValue};
use michiru::payload::{DataType, Decimal, Payload};

fn header(len: u8, ty: u8) -> u8 {
    len | (ty << 5)
}

#[test]
fn battery_single_byte_segment() {
    // Three header bytes, then one segment: length 2 (id + one value
    // byte), unsigned encoding, battery id, value 85.
    let data = vec![0u8, 0, 0, header(2, 0), 0x01, 0x55];
    let objs = Object::decode(&data).unwrap();
    assert_eq!(objs, vec![Object::Battery(RawValue::U8(0x55))]);

    let (prop, payload) = objs[0].into_michiru();
    assert_eq!(prop.id, "battery");
    assert!(matches!(prop.datatype, DataType::Float));
    let text = payload.to_text();
    assert_eq!(text, "85");
    assert_eq!(0x55 as f32, 85.0);
}

#[test]
fn temperature_u16_segment() {
    // Length 3, unsigned encoding, temperature id, 2500 little endian:
    // 2500 x 0.01 = 25 degrees.
    let data = vec![0u8, 0, 0, header(3, 0), 0x02, 0xC4, 0x09];
    let objs = Object::decode(&data).unwrap();
    assert_eq!(objs, vec![Object::Temperature(RawValue::U16(2500))]);

    let (prop, payload) = objs[0].into_michiru();
    assert_eq!(prop.id, "temperature");
    assert_eq!(payload.to_text(), "25");
    assert_eq!(2500 as f32 * 0.01, 25.0);
}

#[test]
fn whole_buffer_abort_on_unknown_id() {
    // A valid battery segment followed by a segment with an unknown
    // reading id: the whole buffer fails, no readings come back.
    let data = vec![0u8, 0, 0, header(2, 0), 0x01, 0x55, header(2, 0), 0xEE, 0x01];
    let r = Object::decode(&data);
    assert_eq!(r, Err(DecodeError::UnknownReadingKind));
}

#[test]
fn unsupported_length_encoding_pair() {
    let data = vec![0u8, 0, 0, header(4, 0), 0x01, 1, 2, 3];
    assert_eq!(Object::decode(&data), Err(DecodeError::UnsupportedEncoding));
    // A one-byte segment leaves no room for value bytes under any
    // encoding.
    let data = vec![0u8, 0, 0, header(1, 0), 0x01];
    assert_eq!(Object::decode(&data), Err(DecodeError::UnsupportedEncoding));
}

#[test]
fn truncated_buffers() {
    // Too short for the three-byte header.
    assert_eq!(Object::decode(&[0u8, 0]), Err(DecodeError::Truncated));
    // A segment whose declared length runs past the end of the buffer.
    let data = vec![0u8, 0, 0, header(3, 0), 0x01, 0x55];
    assert_eq!(Object::decode(&data), Err(DecodeError::Truncated));
    // A segment of length zero cannot even hold the reading id.
    let data = vec![0u8, 0, 0, 0x00];
    assert_eq!(Object::decode(&data), Err(DecodeError::Truncated));
}

#[test]
fn empty_segment_run_is_ok() {
    let data = vec![0u8, 0, 0];
    assert_eq!(Object::decode(&data), Ok(vec![]));
}

#[test]
fn multiple_segments_in_order() {
    let data = vec![
        0u8, 0, 0, // header
        header(2, 0), 0x01, 0x62, // battery 98
        header(3, 0), 0x03, 0xC6, 0x11, // humidity 0x11C6 = 4550
        header(2, 0), 0x10, 0x01, // power on
    ];
    let objs = Object::decode(&data).unwrap();
    assert_eq!(
        objs,
        vec![
            Object::Battery(RawValue::U8(0x62)),
            Object::Humidity(RawValue::U16(4550)),
            Object::Power(true),
        ]
    );
    let (_, humidity) = objs[1].into_michiru();
    assert_eq!(humidity.to_text(), "45.5");
}

#[test]
fn signed_and_float_encodings() {
    let bits = (-1.5f32).to_bits();
    let data = vec![
        0u8, 0, 0,
        header(2, 1), 0x02, 0xFB, // temperature, signed byte -5
        header(3, 1), 0x02, 0x24, 0xFF, // temperature, signed word -220
        header(5, 2), 0x02,
        (bits & 0xff) as u8,
        ((bits >> 8) & 0xff) as u8,
        ((bits >> 16) & 0xff) as u8,
        ((bits >> 24) & 0xff) as u8,
    ];
    let objs = Object::decode(&data).unwrap();
    assert_eq!(
        objs,
        vec![
            Object::Temperature(RawValue::I8(-5)),
            Object::Temperature(RawValue::I16(-220)),
            Object::Temperature(RawValue::F32Bits(bits)),
        ]
    );
    let (_, t) = objs[0].into_michiru();
    assert_eq!(t.to_text(), "-0.05");
    let (_, t) = objs[1].into_michiru();
    assert_eq!(t.to_text(), "-2.2");
}

#[test]
fn power_zero_is_off() {
    let data = vec![0u8, 0, 0, header(2, 0), 0x10, 0x00];
    let objs = Object::decode(&data).unwrap();
    assert_eq!(objs, vec![Object::Power(false)]);
    let (prop, payload) = objs[0].into_michiru();
    assert_eq!(prop.id, "power");
    assert!(matches!(prop.datatype, DataType::Boolean));
    assert_eq!(payload.to_text(), "false");
}

#[test]
fn negative_zero_float_power_is_off() {
    // IEEE negative zero is not strictly positive.
    let bits = (-0.0f32).to_bits();
    let data = vec![
        0u8, 0, 0,
        header(5, 2), 0x10,
        (bits & 0xff) as u8,
        ((bits >> 8) & 0xff) as u8,
        ((bits >> 16) & 0xff) as u8,
        ((bits >> 24) & 0xff) as u8,
    ];
    let objs = Object::decode(&data).unwrap();
    assert_eq!(objs, vec![Object::Power(false)]);
    assert!(!(-0.0f32 > 0.0));
}

#[test]
fn value_round_trip_for_every_valid_pair() {
    // Re-encoding a decoded value gives the same bytes, and decoding
    // the re-encoded bytes gives the same value, pair by pair.
    let cases: Vec<(u8, u8, u8, Vec<u8>, Object)> = vec![
        (2, 0, 0x01, vec![0xC8], Object::Battery(RawValue::U8(200))),
        (3, 0, 0x02, vec![0xC4, 0x09], Object::Temperature(RawValue::U16(2500))),
        (2, 1, 0x02, vec![0xFB], Object::Temperature(RawValue::I8(-5))),
        (3, 1, 0x02, vec![0x24, 0xFF], Object::Temperature(RawValue::I16(-220))),
        (
            5,
            2,
            0x0c,
            1.5f32.to_bits().to_le_bytes().to_vec(),
            Object::Voltage(RawValue::F32Bits(1.5f32.to_bits())),
        ),
    ];
    for (len, ty, id, value_bytes, expected) in cases {
        let mut data = vec![0u8, 0, 0, header(len, ty), id];
        data.extend_from_slice(&value_bytes);
        let objs = Object::decode(&data).unwrap();
        assert_eq!(objs, vec![expected]);
        let raw = match &objs[0] {
            Object::Battery(r) => r,
            Object::Temperature(r) => r,
            Object::Humidity(r) => r,
            Object::Voltage(r) => r,
            Object::Power(_) => panic!("no raw value"),
        };
        assert_eq!(encode_value(raw), value_bytes);
    }
}

#[test]
fn voltage_scaling_to_thousandths() {
    let data = vec![0u8, 0, 0, header(3, 0), 0x0c, 0xE4, 0x0C]; // 3300 mV
    let objs = Object::decode(&data).unwrap();
    assert_eq!(objs, vec![Object::Voltage(RawValue::U16(3300))]);
    let (prop, payload) = objs[0].into_michiru();
    assert_eq!(prop.id, "voltage");
    assert_eq!(payload, Payload::Float(Decimal { mantissa: 3300, exp: 3 }));
    assert_eq!(payload.to_text(), "3.3");
}
