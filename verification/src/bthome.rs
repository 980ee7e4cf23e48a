//! Decoder for the compact binary sensor advertisement payloads.
//!
//! A payload starts with a three-byte header that is not interpreted
//! here. After it, the payload is a run of segments. Each segment
//! starts with one header byte: its low five bits give the segment
//! length `len` (counting everything that follows the header byte,
//! including the reading-id byte), its top three bits give the numeric
//! encoding `ty`. The first segment byte is the reading id; the
//! remaining `len - 1` bytes are the numeric value.
//!
//! Decoding stops at the first ill-formed segment and returns an error
//! for the whole buffer: no partial result is handed out.

use vstd::prelude::*;

use crate::attributes::{Format, PropertyAttributes, Unit};
use crate::payload::{DataType, Decimal, Payload};

verus! {

/// A numeric value exactly as it stood in a segment, before scaling.
#[derive(Clone, Copy, Debug, PartialEq, Eq, Structural)]
pub enum RawValue {
    /// One byte, unsigned.
    U8(u8),
    /// Two bytes, unsigned, little endian.
    U16(u16),
    /// One byte, signed.
    I8(i8),
    /// Two bytes, signed, little endian.
    I16(i16),
    /// Four bytes: the bit pattern of a binary32 floating-point
    /// number, little endian.
    F32Bits(u32),
}

/// Why a payload failed to decode.
#[derive(Clone, Copy, Debug, PartialEq, Eq, Structural)]
pub enum DecodeError {
    /// The buffer ended before a complete header or segment.
    Truncated,
    /// A segment declared a length/encoding pair that has no meaning.
    UnsupportedEncoding,
    /// A segment carried a reading id that has no meaning.
    UnknownReadingKind,
}

/// One decoded sensor reading, still carrying its raw wire value.
#[derive(Clone, Copy, Debug, PartialEq, Eq, Structural)]
pub enum Object {
    /// Battery level; the raw value is whole percent.
    Battery(RawValue),
    /// Temperature; the raw value is hundredths of a degree Celsius.
    Temperature(RawValue),
    /// Relative humidity; the raw value is hundredths of a percent.
    Humidity(RawValue),
    /// Battery voltage; the raw value is millivolts.
    Voltage(RawValue),
    /// Power state: whether the raw value was strictly positive.
    Power(bool),
}

/// The value of the two-byte little-endian word starting at `b0`.
pub open spec fn word16(b0: u8, b1: u8) -> u16 {
    (b0 + 256 * b1) as u16
}

/// The value of the four-byte little-endian word starting at `b0`.
pub open spec fn word32(b0: u8, b1: u8, b2: u8, b3: u8) -> u32 {
    (b0 + 256 * b1 + 65536 * b2 + 16777216 * b3) as u32
}

/// The raw value encoded by the value bytes of a segment with the
/// given length and numeric encoding, if the pair has a meaning.
pub open spec fn spec_decode_value(len: u8, ty: u8, vb: Seq<u8>) -> Option<RawValue> {
    if len == 2 && ty == 0 {
        Some(RawValue::U8(vb[0]))
    } else if len == 3 && ty == 0 {
        Some(RawValue::U16(word16(vb[0], vb[1])))
    } else if len == 2 && ty == 1 {
        Some(RawValue::I8(vb[0] as i8))
    } else if len == 3 && ty == 1 {
        Some(RawValue::I16(word16(vb[0], vb[1]) as i16))
    } else if len == 5 && ty == 2 {
        Some(RawValue::F32Bits(word32(vb[0], vb[1], vb[2], vb[3])))
    } else {
        None
    }
}

/// Whether a raw value is strictly positive. For the binary32 bit
/// pattern this is the IEEE 754 comparison: the sign bit is clear, the
/// value is not a zero, and it is not a NaN.
pub open spec fn spec_raw_positive(r: RawValue) -> bool {
    match r {
        RawValue::U8(b) => b > 0,
        RawValue::U16(w) => w > 0,
        RawValue::I8(x) => x > 0,
        RawValue::I16(x) => x > 0,
        RawValue::F32Bits(bits) => bits & 0x8000_0000 == 0 && bits & 0x7fff_ffff != 0 && !(bits
            >> 23 & 0xff == 0xff && bits & 0x7f_ffff != 0),
    }
}

/// The reading for one segment, given its id byte and raw value, if
/// the id has a meaning.
pub open spec fn spec_object(id: u8, r: RawValue) -> Option<Object> {
    if id == 0x01 {
        Some(Object::Battery(r))
    } else if id == 0x02 {
        Some(Object::Temperature(r))
    } else if id == 0x03 {
        Some(Object::Humidity(r))
    } else if id == 0x0c {
        Some(Object::Voltage(r))
    } else if id == 0x10 {
        Some(Object::Power(spec_raw_positive(r)))
    } else {
        None
    }
}

/// The readings encoded by the run of segments in `data`, or the first
/// error. A segment whose declared length runs past the end of the
/// buffer, or leaves no room for the reading id, is truncated.
pub open spec fn spec_decode_segments(data: Seq<u8>) -> Result<Seq<Object>, DecodeError>
    decreases data.len(),
{
    if data.len() == 0 {
        Ok(Seq::<Object>::empty())
    } else {
        let len = data[0] & 0x1f;
        let ty = data[0] >> 5;
        if len == 0 || data.len() < 1 + len {
            Err(DecodeError::Truncated)
        } else {
            let id = data[1];
            let vb = data.subrange(2, 1 + len);
            match spec_decode_value(len, ty, vb) {
                Option::None => Err(DecodeError::UnsupportedEncoding),
                Option::Some(r) => match spec_object(id, r) {
                    Option::None => Err(DecodeError::UnknownReadingKind),
                    Option::Some(obj) => match spec_decode_segments(data.skip(1 + len)) {
                        Ok(rest) => Ok(seq![obj] + rest),
                        Err(e) => Err(e),
                    },
                },
            }
        }
    }
}

/// The readings encoded by a whole advertisement payload: a three-byte
/// header that is skipped, then the run of segments.
pub open spec fn spec_decode(data: Seq<u8>) -> Result<Seq<Object>, DecodeError> {
    if data.len() < 3 {
        Err(DecodeError::Truncated)
    } else {
        spec_decode_segments(data.skip(3))
    }
}

/// The raw value as a plain integer. The binary32 bit pattern has no
/// exact integer reading and is mapped to zero here; readings that
/// carry one are never scaled through this function.
pub open spec fn raw_int(r: RawValue) -> int {
    match r {
        RawValue::U8(b) => b as int,
        RawValue::U16(w) => w as int,
        RawValue::I8(x) => x as int,
        RawValue::I16(x) => x as int,
        RawValue::F32Bits(_) => 0,
    }
}

/// The segment length under which a raw value travels.
pub open spec fn raw_len(r: RawValue) -> u8 {
    match r {
        RawValue::U8(_) => 2,
        RawValue::U16(_) => 3,
        RawValue::I8(_) => 2,
        RawValue::I16(_) => 3,
        RawValue::F32Bits(_) => 5,
    }
}

/// The numeric encoding under which a raw value travels.
pub open spec fn raw_ty(r: RawValue) -> u8 {
    match r {
        RawValue::U8(_) => 0,
        RawValue::U16(_) => 0,
        RawValue::I8(_) => 1,
        RawValue::I16(_) => 1,
        RawValue::F32Bits(_) => 2,
    }
}

/// The value bytes of a segment carrying the given raw value.
pub open spec fn spec_encode_value(r: RawValue) -> Seq<u8> {
    match r {
        RawValue::U8(b) => seq![b],
        RawValue::U16(w) => seq![(w % 256) as u8, (w / 256) as u8],
        RawValue::I8(x) => seq![x as u8],
        RawValue::I16(x) => seq![((x as u16) % 256) as u8, ((x as u16) / 256) as u8],
        RawValue::F32Bits(b) => seq![
            (b % 256) as u8,
            ((b / 256) % 256) as u8,
            ((b / 65536) % 256) as u8,
            ((b / 16777216) % 256) as u8,
        ],
    }
}

/// Re-encodes a raw value into the value bytes of its segment.
pub fn encode_value(r: &RawValue) -> (v: Vec<u8>)
    ensures
        v@ =~= spec_encode_value(*r),
{
    let mut v: Vec<u8> = Vec::new();
    match r {
        RawValue::U8(b) => {
            v.push(*b);
        },
        RawValue::U16(w) => {
            v.push((*w % 256) as u8);
            v.push((*w / 256) as u8);
        },
        RawValue::I8(x) => {
            v.push(*x as u8);
        },
        RawValue::I16(x) => {
            let w = *x as u16;
            v.push((w % 256) as u8);
            v.push((w / 256) as u8);
        },
        RawValue::F32Bits(b) => {
            let b = *b;
            v.push((b % 256) as u8);
            v.push(((b / 256) % 256) as u8);
            v.push(((b / 65536) % 256) as u8);
            v.push(((b / 16777216) % 256) as u8);
        },
    }
    v
}

/// Round trip, value first: a raw value, encoded as the value bytes of
/// a segment with its own length and encoding, decodes back to the
/// same raw value — for every raw value, and so for every valid
/// length/encoding pair.
pub proof fn lemma_value_round_trip(r: RawValue)
    ensures
        spec_decode_value(raw_len(r), raw_ty(r), spec_encode_value(r)) == Some(r),
{
    match r {
        RawValue::U8(_) => {
        },
        RawValue::U16(w) => {
            assert(word16((w % 256) as u8, (w / 256) as u8) == w);
        },
        RawValue::I8(x) => {
            assert((x as u8) as i8 == x) by (bit_vector);
        },
        RawValue::I16(x) => {
            let w = x as u16;
            assert(word16((w % 256) as u8, (w / 256) as u8) == w);
            assert((x as u16) as i16 == x) by (bit_vector);
        },
        RawValue::F32Bits(b) => {
            assert(word32(
                (b % 256) as u8,
                ((b / 256) % 256) as u8,
                ((b / 65536) % 256) as u8,
                ((b / 16777216) % 256) as u8,
            ) == b);
        },
    }
}

/// Round trip, bytes first: the value bytes of a well-formed segment,
/// re-encoded from the raw value they decode to, come back unchanged.
pub proof fn lemma_bytes_round_trip(len: u8, ty: u8, vb: Seq<u8>)
    requires
        spec_decode_value(len, ty, vb) is Some,
        vb.len() == len - 1,
    ensures
        spec_encode_value(spec_decode_value(len, ty, vb)->Some_0) =~= vb,
{
    let r = spec_decode_value(len, ty, vb)->Some_0;
    if len == 2 && ty == 0 {
    } else if len == 3 && ty == 0 {
        assert(word16(vb[0], vb[1]) % 256 == vb[0]);
        assert(word16(vb[0], vb[1]) / 256 == vb[1]);
    } else if len == 2 && ty == 1 {
        let b = vb[0];
        assert((b as i8) as u8 == b) by (bit_vector);
    } else if len == 3 && ty == 1 {
        let w = word16(vb[0], vb[1]);
        assert((w as i16) as u16 == w) by (bit_vector);
        assert(w % 256 == vb[0]);
        assert(w / 256 == vb[1]);
    } else {
        let b = word32(vb[0], vb[1], vb[2], vb[3]);
        assert(b % 256 == vb[0]);
        assert(b / 256 % 256 == vb[1]);
        assert(b / 65536 % 256 == vb[2]);
        assert(b / 16777216 % 256 == vb[3]);
    }
}

/// Whether a raw value is strictly positive.
pub fn raw_positive(r: &RawValue) -> (b: bool)
    ensures
        b == spec_raw_positive(*r),
{
    match r {
        RawValue::U8(b) => *b > 0,
        RawValue::U16(w) => *w > 0,
        RawValue::I8(x) => *x > 0,
        RawValue::I16(x) => *x > 0,
        RawValue::F32Bits(bits) => {
            let bits = *bits;
            bits & 0x8000_0000 == 0 && bits & 0x7fff_ffff != 0 && !(bits >> 23 & 0xff == 0xff
                && bits & 0x7f_ffff != 0)
        },
    }
}

impl Object {
    /// Decodes one advertisement payload into its readings, or the
    /// first error. On an error nothing is returned, even if earlier
    /// segments were well formed.
    pub fn decode(data: &[u8]) -> (r: Result<Vec<Object>, DecodeError>)
        ensures
            match r {
                Ok(objs) => spec_decode(data@) == Ok::<Seq<Object>, DecodeError>(objs@),
                Err(e) => spec_decode(data@) == Err::<Seq<Object>, DecodeError>(e),
            },
    {
        if data.len() < 3 {
            return Err(DecodeError::Truncated);
        }
        let mut out: Vec<Object> = Vec::new();
        let mut pos: usize = 3;
        loop
            invariant
                3 <= pos <= data@.len(),
                spec_decode(data@) == match spec_decode_segments(data@.skip(pos as int)) {
                    Ok(rest) => Ok::<Seq<Object>, DecodeError>(out@ + rest),
                    Err(e) => Err::<Seq<Object>, DecodeError>(e),
                },
            ensures
                spec_decode(data@) == Ok::<Seq<Object>, DecodeError>(out@),
            decreases data@.len() - pos,
        {
            let ghost rem = data@.skip(pos as int);
            if pos >= data.len() {
                proof {
                    assert(rem.len() == 0);
                    assert(out@ + Seq::<Object>::empty() =~= out@);
                }
                break ;
            }
            assert(rem[0] == data@[pos as int]);
            let header = data[pos];
            let len = (header & 0x1f) as usize;
            let ty = header >> 5;
            if len == 0 {
                return Err(DecodeError::Truncated);
            }
            if data.len() - pos < 1 + len {
                return Err(DecodeError::Truncated);
            }
            assert(rem[1] == data@[pos + 1]);
            let id = data[pos + 1];
            let ghost vb = rem.subrange(2, 1 + len as int);
            assert(forall|k: int| 0 <= k < len - 1 ==> vb[k] == data@[pos + 2 + k]);
            let raw: RawValue = if len == 2 && ty == 0 {
                RawValue::U8(data[pos + 2])
            } else if len == 3 && ty == 0 {
                let w: u16 = data[pos + 2] as u16 + 256 * (data[pos + 3] as u16);
                RawValue::U16(w)
            } else if len == 2 && ty == 1 {
                RawValue::I8(data[pos + 2] as i8)
            } else if len == 3 && ty == 1 {
                let w: u16 = data[pos + 2] as u16 + 256 * (data[pos + 3] as u16);
                RawValue::I16(w as i16)
            } else if len == 5 && ty == 2 {
                let w: u32 = data[pos + 2] as u32 + 256 * (data[pos + 3] as u32) + 65536 * (data[pos
                    + 4] as u32) + 16777216 * (data[pos + 5] as u32);
                RawValue::F32Bits(w)
            } else {
                proof {
                    assert(spec_decode_value(len as u8, ty, vb) is None);
                }
                return Err(DecodeError::UnsupportedEncoding);
            };
            proof {
                assert(spec_decode_value(len as u8, ty, vb) == Some(raw));
            }
            let obj: Object = if id == 0x01 {
                Object::Battery(raw)
            } else if id == 0x02 {
                Object::Temperature(raw)
            } else if id == 0x03 {
                Object::Humidity(raw)
            } else if id == 0x0c {
                Object::Voltage(raw)
            } else if id == 0x10 {
                Object::Power(raw_positive(&raw))
            } else {
                proof {
                    assert(spec_object(id, raw) is None);
                }
                return Err(DecodeError::UnknownReadingKind);
            };
            proof {
                assert(spec_object(id, raw) == Some(obj));
            }
            let ghost out0 = out@;
            out.push(obj);
            pos = pos + 1 + len;
            proof {
                assert(rem.skip(1 + len as int) =~= data@.skip(pos as int));
                assert(spec_decode_segments(rem) == match spec_decode_segments(
                    data@.skip(pos as int),
                ) {
                    Ok(rest) => Ok::<Seq<Object>, DecodeError>(seq![obj] + rest),
                    Err(e) => Err::<Seq<Object>, DecodeError>(e),
                });
                assert(forall|rest: Seq<Object>| (out0 + (seq![obj] + rest)) =~= (out@ + rest));
                if spec_decode_segments(data@.skip(pos as int)) is Ok {
                    let rest = spec_decode_segments(data@.skip(pos as int))->Ok_0;
                    assert(out0 + (seq![obj] + rest) =~= out@ + rest);
                }
            }
        }
        Ok(out)
    }
}

/// The raw value as a machine integer.
fn raw_to_i64(r: &RawValue) -> (v: i64)
    ensures
        v as int == raw_int(*r),
{
    match r {
        RawValue::U8(b) => *b as i64,
        RawValue::U16(w) => *w as i64,
        RawValue::I8(x) => *x as i64,
        RawValue::I16(x) => *x as i64,
        RawValue::F32Bits(_) => 0,
    }
}

impl Object {
    /// Whether the reading's value can be scaled exactly: every raw
    /// encoding except the binary32 bit pattern, whose scaling is
    /// floating-point work and stays outside this crate.
    pub open spec fn mappable(self) -> bool {
        match self {
            Object::Battery(r) => !(r is F32Bits),
            Object::Temperature(r) => !(r is F32Bits),
            Object::Humidity(r) => !(r is F32Bits),
            Object::Voltage(r) => !(r is F32Bits),
            Object::Power(_) => true,
        }
    }

    /// The value this reading publishes: the raw value under the
    /// reading's own scale (hundredths for temperature and humidity,
    /// thousandths for voltage), or the power flag.
    pub open spec fn spec_payload(self) -> Payload {
        match self {
            Object::Battery(r) => Payload::Float(Decimal { mantissa: raw_int(r) as i64, exp: 0 }),
            Object::Temperature(r) => Payload::Float(
                Decimal { mantissa: raw_int(r) as i64, exp: 2 },
            ),
            Object::Humidity(r) => Payload::Float(Decimal { mantissa: raw_int(r) as i64, exp: 2 }),
            Object::Voltage(r) => Payload::Float(Decimal { mantissa: raw_int(r) as i64, exp: 3 }),
            Object::Power(b) => Payload::Boolean(b),
        }
    }

    /// The fixed descriptor table of the mapper: which property a
    /// reading kind is published under.
    pub open spec fn spec_describes(self, p: PropertyAttributes) -> bool {
        match self {
            Object::Battery(_) => {
                &&& p.id@ == "battery"@
                &&& p.name@ == "Battery"@
                &&& p.datatype == DataType::Float
                &&& p.unit == Some(Unit::Percent)
                &&& p.format == Some(
                    Format::FloatRange(
                        Decimal { mantissa: 0, exp: 0 },
                        Decimal { mantissa: 100, exp: 0 },
                    ),
                )
            },
            Object::Temperature(_) => {
                &&& p.id@ == "temperature"@
                &&& p.name@ == "Temperature"@
                &&& p.datatype == DataType::Float
                &&& p.unit == Some(Unit::DegreeCelsius)
                &&& p.format is None
            },
            Object::Humidity(_) => {
                &&& p.id@ == "humidity"@
                &&& p.name@ == "Humidity"@
                &&& p.datatype == DataType::Float
                &&& p.unit == Some(Unit::Percent)
                &&& p.format == Some(
                    Format::FloatRange(
                        Decimal { mantissa: 0, exp: 0 },
                        Decimal { mantissa: 100, exp: 0 },
                    ),
                )
            },
            Object::Voltage(_) => {
                &&& p.id@ == "voltage"@
                &&& p.name@ == "Battery voltage"@
                &&& p.datatype == DataType::Float
                &&& p.unit == Some(Unit::Volts)
                &&& p.format is None
            },
            Object::Power(_) => {
                &&& p.id@ == "power"@
                &&& p.name@ == "Power"@
                &&& p.datatype == DataType::Boolean
                &&& p.unit is None
                &&& p.format is None
            },
        }
    }

    /// Whether the reading's value can be scaled exactly, so that
    /// [`Object::into_michiru`] accepts it.
    pub fn is_mappable(&self) -> (b: bool)
        ensures
            b == self.mappable(),
    {
        match self {
            Object::Battery(r) => !matches!(r, RawValue::F32Bits(_)),
            Object::Temperature(r) => !matches!(r, RawValue::F32Bits(_)),
            Object::Humidity(r) => !matches!(r, RawValue::F32Bits(_)),
            Object::Voltage(r) => !matches!(r, RawValue::F32Bits(_)),
            Object::Power(_) => true,
        }
    }

    /// Maps a reading to the property it is published under and the
    /// value to publish. Descriptors are never settable and always
    /// retained.
    pub fn into_michiru(self) -> (r: (PropertyAttributes, Payload))
        requires
            self.mappable(),
        ensures
            self.spec_describes(r.0),
            !r.0.settable,
            r.0.retained,
            r.0.format_wf(),
            r.1 == self.spec_payload(),
            r.1.wf(),
    {
        match self {
            Object::Battery(v) => (
                PropertyAttributes {
                    id: String::from_str("battery"),
                    name: String::from_str("Battery"),
                    datatype: DataType::Float,
                    settable: false,
                    retained: true,
                    unit: Some(Unit::Percent),
                    format: Some(
                        Format::FloatRange(
                            Decimal { mantissa: 0, exp: 0 },
                            Decimal { mantissa: 100, exp: 0 },
                        ),
                    ),
                },
                Payload::Float(Decimal { mantissa: raw_to_i64(&v), exp: 0 }),
            ),
            Object::Temperature(v) => (
                PropertyAttributes {
                    id: String::from_str("temperature"),
                    name: String::from_str("Temperature"),
                    datatype: DataType::Float,
                    settable: false,
                    retained: true,
                    unit: Some(Unit::DegreeCelsius),
                    format: None,
                },
                Payload::Float(Decimal { mantissa: raw_to_i64(&v), exp: 2 }),
            ),
            Object::Humidity(v) => (
                PropertyAttributes {
                    id: String::from_str("humidity"),
                    name: String::from_str("Humidity"),
                    datatype: DataType::Float,
                    settable: false,
                    retained: true,
                    unit: Some(Unit::Percent),
                    format: Some(
                        Format::FloatRange(
                            Decimal { mantissa: 0, exp: 0 },
                            Decimal { mantissa: 100, exp: 0 },
                        ),
                    ),
                },
                Payload::Float(Decimal { mantissa: raw_to_i64(&v), exp: 2 }),
            ),
            Object::Voltage(v) => (
                PropertyAttributes {
                    id: String::from_str("voltage"),
                    name: String::from_str("Battery voltage"),
                    datatype: DataType::Float,
                    settable: false,
                    retained: true,
                    unit: Some(Unit::Volts),
                    format: None,
                },
                Payload::Float(Decimal { mantissa: raw_to_i64(&v), exp: 3 }),
            ),
            Object::Power(v) => (
                PropertyAttributes {
                    id: String::from_str("power"),
                    name: String::from_str("Power"),
                    datatype: DataType::Boolean,
                    settable: false,
                    retained: true,
                    unit: None,
                    format: None,
                },
                Payload::Boolean(v),
            ),
        }
    }
}

} // verus!
