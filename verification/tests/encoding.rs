use michiru::attributes::{DeviceState, Format, Unit};
use michiru::numfmt::{i64_text, u64_text};
use michiru::payload::{bool_text, Color, DataType, Decimal, Payload, Timestamp};

#[test]
fn decimal_texts() {
    assert_eq!(Decimal { mantissa: 2500, exp: 2 }.to_text(), "25");
    assert_eq!(Decimal { mantissa: 2505, exp: 2 }.to_text(), "25.05");
    assert_eq!(Decimal { mantissa: -123, exp: 2 }.to_text(), "-1.23");
    assert_eq!(Decimal { mantissa: 5, exp: 3 }.to_text(), "0.005");
    assert_eq!(Decimal { mantissa: -5, exp: 3 }.to_text(), "-0.005");
    assert_eq!(Decimal { mantissa: 0, exp: 0 }.to_text(), "0");
    assert_eq!(Decimal { mantissa: 0, exp: 2 }.to_text(), "0");
    assert_eq!(Decimal { mantissa: 100, exp: 0 }.to_text(), "100");
    assert_eq!(Decimal { mantissa: 45500, exp: 3 }.to_text(), "45.5");
    // The extremes of the mantissa at the largest supported scale.
    assert_eq!(
        Decimal { mantissa: i64::MAX, exp: 18 }.to_text(),
        "9.223372036854775807"
    );
    assert_eq!(
        Decimal { mantissa: i64::MIN, exp: 18 }.to_text(),
        "-9.223372036854775808"
    );
    assert_eq!(Decimal { mantissa: 1, exp: 18 }.to_text(), "0.000000000000000001");
}

#[test]
fn integer_texts() {
    assert_eq!(u64_text(0), "0");
    assert_eq!(u64_text(17), "17");
    assert_eq!(u64_text(u64::MAX), "18446744073709551615");
    assert_eq!(i64_text(-1), "-1");
    assert_eq!(i64_text(i64::MIN), "-9223372036854775808");
    assert_eq!(i64_text(i64::MAX), "9223372036854775807");
}

#[test]
fn datatype_texts() {
    assert_eq!(DataType::Integer.to_text(), "integer");
    assert_eq!(DataType::Float.to_text(), "float");
    assert_eq!(DataType::Boolean.to_text(), "boolean");
    assert_eq!(DataType::String.to_text(), "string");
    assert_eq!(DataType::Enum.to_text(), "enum");
    assert_eq!(DataType::Color.to_text(), "color");
}

#[test]
fn unit_texts() {
    assert_eq!(Unit::DegreeCelsius.to_text(), "°C");
    assert_eq!(Unit::Percent.to_text(), "%");
    assert_eq!(Unit::Volts.to_text(), "V");
    assert_eq!(Unit::Count.to_text(), "#");
    assert_eq!(Unit::Other("dBm".to_string()).to_text(), "dBm");
}

#[test]
fn state_texts() {
    assert_eq!(DeviceState::Init.to_text(), "init");
    assert_eq!(DeviceState::Ready.to_text(), "ready");
    assert_eq!(DeviceState::Disconnected.to_text(), "disconnected");
    assert_eq!(DeviceState::Sleeping.to_text(), "sleeping");
    assert_eq!(DeviceState::Lost.to_text(), "lost");
    assert_eq!(DeviceState::Alert.to_text(), "alert");
}

#[test]
fn format_texts() {
    assert_eq!(Format::IntRange(0, 255).to_text(), "0:255");
    assert_eq!(Format::IntRange(-10, 10).to_text(), "-10:10");
    assert_eq!(
        Format::FloatRange(
            Decimal { mantissa: 0, exp: 0 },
            Decimal { mantissa: 100, exp: 0 },
        )
        .to_text(),
        "0:100"
    );
    assert_eq!(
        Format::Enum(vec!["on".to_string(), "off".to_string(), "toggle".to_string()]).to_text(),
        "on,off,toggle"
    );
    assert_eq!(Format::Enum(vec![]).to_text(), "");
    assert_eq!(Format::ColorRgb.to_text(), "rgb");
    assert_eq!(Format::ColorHsv.to_text(), "hsv");
}

#[test]
fn color_texts() {
    assert_eq!(Color::Rgb(255, 0, 10).to_text(), "255,0,10");
    assert_eq!(Color::Hsv(300, 50, 100).to_text(), "300,50,100");
}

#[test]
fn timestamp_texts() {
    let t = Timestamp {
        year: 2023,
        month: 1,
        day: 2,
        hour: 3,
        minute: 4,
        second: 5,
        offset_minutes: 540,
    };
    assert_eq!(t.to_text(), "2023-01-02T03:04:05+09:00");

    let t = Timestamp {
        year: 999,
        month: 12,
        day: 31,
        hour: 23,
        minute: 59,
        second: 59,
        offset_minutes: -330,
    };
    assert_eq!(t.to_text(), "0999-12-31T23:59:59-05:30");

    let t = Timestamp {
        year: 2024,
        month: 6,
        day: 15,
        hour: 0,
        minute: 0,
        second: 0,
        offset_minutes: 0,
    };
    assert_eq!(t.to_text(), "2024-06-15T00:00:00+00:00");
}

#[test]
fn payload_texts() {
    assert_eq!(Payload::String("hello".to_string()).to_text(), "hello");
    assert_eq!(Payload::Integer(-42).to_text(), "-42");
    assert_eq!(Payload::Percent(Decimal { mantissa: 505, exp: 1 }).to_text(), "50.5");
    assert_eq!(Payload::Boolean(true).to_text(), "true");
    assert_eq!(Payload::Enum("press".to_string()).to_text(), "press");
    assert_eq!(Payload::Color(Color::Rgb(1, 2, 3)).to_text(), "1,2,3");
    assert_eq!(Payload::Duration(90).to_text(), "90");
    assert_eq!(bool_text(false), "false");
}
