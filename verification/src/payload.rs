//! Value payloads and their text encodings.
//!
//! Every value sent over the bus is encoded as text. Numeric values are
//! carried as exact fixed-point decimals ([`Decimal`]) so that the text
//! encoding is a pure function of the value.

use vstd::prelude::*;

use crate::numfmt::{
    decimal_text, frac_text, i64_text, int_text, lemma_pow10_pos, nat_digits, pad_digits,
    pad_text, pow10_u64, u64_text,
};

verus! {

/// An exact fixed-point decimal value: `mantissa / 10^exp`.
#[derive(Clone, Copy, Debug, PartialEq, Eq, Structural)]
pub struct Decimal {
    pub mantissa: i64,
    pub exp: u32,
}

impl Decimal {
    /// The exponent must be small enough that `10^exp` fits a machine
    /// word.
    pub open spec fn wf(self) -> bool {
        self.exp <= 18
    }

    /// The decimal text of this value: sign, integer part, and the
    /// fractional part without trailing zeros.
    pub open spec fn spec_text(self) -> Seq<char> {
        decimal_text(self.mantissa as int, self.exp as nat)
    }

    /// A whole number, scaled by no fractional digits.
    pub fn from_int(mantissa: i64) -> (d: Decimal)
        ensures
            d.wf(),
            d == (Decimal { mantissa, exp: 0u32 }),
    {
        Decimal { mantissa, exp: 0 }
    }

    pub fn to_text(&self) -> (s: String)
        requires
            self.wf(),
        ensures
            s@ =~= self.spec_text(),
    {
        let p = pow10_u64(self.exp);
        proof {
            lemma_pow10_pos(self.exp as nat);
        }
        let neg = self.mantissa < 0;
        let a: u64 = if self.mantissa < 0 {
            (-(self.mantissa as i128)) as u64
        } else {
            self.mantissa as u64
        };
        let ip = a / p;
        let fp = a % p;
        let mut s = if neg {
            proof {
                reveal_strlit("-");
            }
            String::from_str("-")
        } else {
            String::new()
        };
        let whole = u64_text(ip);
        s.append(whole.as_str());
        if fp != 0 {
            proof {
                reveal_strlit(".");
            }
            s.append(".");
            let frac = frac_text(fp, self.exp);
            s.append(frac.as_str());
        }
        s
    }
}

/// The declared datatype of a property.
#[derive(Clone, Copy, Debug, PartialEq, Eq, Structural)]
pub enum DataType {
    Integer,
    Float,
    Boolean,
    String,
    Enum,
    Color,
}

impl DataType {
    pub open spec fn spec_text(self) -> Seq<char> {
        match self {
            DataType::Integer => "integer"@,
            DataType::Float => "float"@,
            DataType::Boolean => "boolean"@,
            DataType::String => "string"@,
            DataType::Enum => "enum"@,
            DataType::Color => "color"@,
        }
    }

    pub fn to_text(&self) -> (s: String)
        ensures
            s@ == self.spec_text(),
    {
        match self {
            DataType::Integer => String::from_str("integer"),
            DataType::Float => String::from_str("float"),
            DataType::Boolean => String::from_str("boolean"),
            DataType::String => String::from_str("string"),
            DataType::Enum => String::from_str("enum"),
            DataType::Color => String::from_str("color"),
        }
    }
}

/// A colour value, either red/green/blue or hue/saturation/value.
#[derive(Clone, Copy, Debug, PartialEq, Eq, Structural)]
pub enum Color {
    Rgb(u8, u8, u8),
    Hsv(u16, u8, u8),
}

impl Color {
    /// Three decimal components joined by commas.
    pub open spec fn spec_text(self) -> Seq<char> {
        match self {
            Color::Rgb(r, g, b) => nat_digits(r as nat) + seq![','] + nat_digits(g as nat) + seq![
                ',',
            ] + nat_digits(b as nat),
            Color::Hsv(h, s, v) => nat_digits(h as nat) + seq![','] + nat_digits(s as nat) + seq![
                ',',
            ] + nat_digits(v as nat),
        }
    }

    pub fn to_text(&self) -> (s: String)
        ensures
            s@ =~= self.spec_text(),
    {
        proof {
            reveal_strlit(",");
        }
        match self {
            Color::Rgb(r, g, b) => {
                let mut s = u64_text(*r as u64);
                s.append(",");
                let t = u64_text(*g as u64);
                s.append(t.as_str());
                s.append(",");
                let t = u64_text(*b as u64);
                s.append(t.as_str());
                s
            },
            Color::Hsv(h, sat, v) => {
                let mut s = u64_text(*h as u64);
                s.append(",");
                let t = u64_text(*sat as u64);
                s.append(t.as_str());
                s.append(",");
                let t = u64_text(*v as u64);
                s.append(t.as_str());
                s
            },
        }
    }
}

/// A calendar timestamp with a fixed offset from UTC, to second
/// precision.
#[derive(Clone, Copy, Debug, PartialEq, Eq, Structural)]
pub struct Timestamp {
    pub year: u32,
    pub month: u8,
    pub day: u8,
    pub hour: u8,
    pub minute: u8,
    pub second: u8,
    /// Offset of the local time from UTC, in minutes.
    pub offset_minutes: i32,
}

impl Timestamp {
    pub open spec fn wf(self) -> bool {
        &&& self.year <= 9999
        &&& 1 <= self.month <= 12
        &&& 1 <= self.day <= 31
        &&& self.hour < 24
        &&& self.minute < 60
        &&& self.second < 60
        &&& -1440 < self.offset_minutes < 1440
    }

    /// The offset rendered as `+hh:mm` or `-hh:mm`.
    pub open spec fn spec_offset_text(self) -> Seq<char> {
        let sign = if self.offset_minutes < 0 {
            seq!['-']
        } else {
            seq!['+']
        };
        let a = if self.offset_minutes < 0 {
            (-self.offset_minutes) as nat
        } else {
            self.offset_minutes as nat
        };
        sign + pad_digits(a / 60, 2) + seq![':'] + pad_digits(a % 60, 2)
    }

    /// The timestamp in the `yyyy-mm-ddThh:mm:ss` date-and-time text
    /// form, followed by the offset.
    pub open spec fn spec_text(self) -> Seq<char> {
        pad_digits(self.year as nat, 4) + seq!['-'] + pad_digits(self.month as nat, 2) + seq!['-']
            + pad_digits(self.day as nat, 2) + seq!['T'] + pad_digits(self.hour as nat, 2)
            + seq![':'] + pad_digits(self.minute as nat, 2) + seq![':'] + pad_digits(
            self.second as nat,
            2,
        ) + self.spec_offset_text()
    }

    pub fn to_text(&self) -> (s: String)
        requires
            self.wf(),
        ensures
            s@ =~= self.spec_text(),
    {
        proof {
            reveal_strlit("-");
            reveal_strlit("T");
            reveal_strlit(":");
            reveal_strlit("+");
        }
        let mut s = pad_text(self.year as u64, 4);
        s.append("-");
        let t = pad_text(self.month as u64, 2);
        s.append(t.as_str());
        s.append("-");
        let t = pad_text(self.day as u64, 2);
        s.append(t.as_str());
        s.append("T");
        let t = pad_text(self.hour as u64, 2);
        s.append(t.as_str());
        s.append(":");
        let t = pad_text(self.minute as u64, 2);
        s.append(t.as_str());
        s.append(":");
        let t = pad_text(self.second as u64, 2);
        s.append(t.as_str());
        if self.offset_minutes < 0 {
            s.append("-");
        } else {
            s.append("+");
        }
        let a: u32 = if self.offset_minutes < 0 {
            (-self.offset_minutes) as u32
        } else {
            self.offset_minutes as u32
        };
        let t = pad_text((a / 60) as u64, 2);
        s.append(t.as_str());
        s.append(":");
        let t = pad_text((a % 60) as u64, 2);
        s.append(t.as_str());
        s
    }
}

/// The text of a boolean value.
pub open spec fn spec_bool_text(b: bool) -> Seq<char> {
    if b {
        "true"@
    } else {
        "false"@
    }
}

/// The text of a boolean value.
pub fn bool_text(b: bool) -> (s: String)
    ensures
        s@ == spec_bool_text(b),
{
    if b {
        String::from_str("true")
    } else {
        String::from_str("false")
    }
}

/// A value to publish for a property.
#[derive(Clone, Debug, PartialEq)]
pub enum Payload {
    String(String),
    Integer(i64),
    Float(Decimal),
    Percent(Decimal),
    Boolean(bool),
    Enum(String),
    Color(Color),
    DateTime(Timestamp),
    /// A span of time, in whole seconds.
    Duration(i64),
}

impl Payload {
    pub open spec fn wf(self) -> bool {
        match self {
            Payload::Float(d) => d.wf(),
            Payload::Percent(d) => d.wf(),
            Payload::DateTime(t) => t.wf(),
            _ => true,
        }
    }

    /// The text form sent over the bus: numbers in decimal, booleans as
    /// `true`/`false`, colours as comma-joined components, timestamps
    /// in date-and-time text, durations as whole seconds.
    pub open spec fn spec_text(self) -> Seq<char> {
        match self {
            Payload::String(s) => s@,
            Payload::Integer(i) => int_text(i as int),
            Payload::Float(d) => d.spec_text(),
            Payload::Percent(d) => d.spec_text(),
            Payload::Boolean(b) => spec_bool_text(b),
            Payload::Enum(s) => s@,
            Payload::Color(c) => c.spec_text(),
            Payload::DateTime(t) => t.spec_text(),
            Payload::Duration(secs) => int_text(secs as int),
        }
    }

    pub fn to_text(&self) -> (s: String)
        requires
            self.wf(),
        ensures
            s@ =~= self.spec_text(),
    {
        match self {
            Payload::String(s) => s.clone(),
            Payload::Integer(i) => i64_text(*i),
            Payload::Float(d) => d.to_text(),
            Payload::Percent(d) => d.to_text(),
            Payload::Boolean(b) => bool_text(*b),
            Payload::Enum(s) => s.clone(),
            Payload::Color(c) => c.to_text(),
            Payload::DateTime(t) => t.to_text(),
            Payload::Duration(secs) => i64_text(*secs),
        }
    }
}

} // verus!
