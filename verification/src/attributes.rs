//! Descriptors for devices, nodes and properties, and the text
//! encodings of their metadata.

use vstd::prelude::*;

use crate::numfmt::int_text;
use crate::payload::{DataType, Decimal};
use crate::utils::{comma_join, spec_comma_join, spec_valid_topic_id};

verus! {

/// The unit annotation of a property.
#[derive(Clone, Debug, PartialEq)]
pub enum Unit {
    DegreeCelsius,
    DegreeFahrenheit,
    Degree,
    Liter,
    Galon,
    Volts,
    Watt,
    Ampere,
    Percent,
    Meter,
    Feet,
    Pascal,
    Psi,
    Count,
    Other(String),
}

impl Unit {
    pub open spec fn spec_text(self) -> Seq<char> {
        match self {
            Unit::DegreeCelsius => "°C"@,
            Unit::DegreeFahrenheit => "°F"@,
            Unit::Degree => "°"@,
            Unit::Liter => "L"@,
            Unit::Galon => "gal"@,
            Unit::Volts => "V"@,
            Unit::Watt => "W"@,
            Unit::Ampere => "A"@,
            Unit::Percent => "%"@,
            Unit::Meter => "m"@,
            Unit::Feet => "ft"@,
            Unit::Pascal => "Pa"@,
            Unit::Psi => "psi"@,
            Unit::Count => "#"@,
            Unit::Other(s) => s@,
        }
    }

    pub fn to_text(&self) -> (s: String)
        ensures
            s@ == self.spec_text(),
    {
        match self {
            Unit::DegreeCelsius => String::from_str("°C"),
            Unit::DegreeFahrenheit => String::from_str("°F"),
            Unit::Degree => String::from_str("°"),
            Unit::Liter => String::from_str("L"),
            Unit::Galon => String::from_str("gal"),
            Unit::Volts => String::from_str("V"),
            Unit::Watt => String::from_str("W"),
            Unit::Ampere => String::from_str("A"),
            Unit::Percent => String::from_str("%"),
            Unit::Meter => String::from_str("m"),
            Unit::Feet => String::from_str("ft"),
            Unit::Pascal => String::from_str("Pa"),
            Unit::Psi => String::from_str("psi"),
            Unit::Count => String::from_str("#"),
            Unit::Other(s) => s.clone(),
        }
    }
}

/// The value-format annotation of a property.
#[derive(Clone, Debug)]
pub enum Format {
    IntRange(i64, i64),
    FloatRange(Decimal, Decimal),
    Enum(Vec<String>),
    ColorRgb,
    ColorHsv,
}

impl Format {
    pub open spec fn wf(self) -> bool {
        match self {
            Format::FloatRange(lo, hi) => lo.wf() && hi.wf(),
            _ => true,
        }
    }

    /// Ranges as `low:high`, enumerations as their comma-joined
    /// values, colour spaces by name.
    pub open spec fn spec_text(self) -> Seq<char> {
        match self {
            Format::IntRange(lo, hi) => int_text(lo as int) + seq![':'] + int_text(hi as int),
            Format::FloatRange(lo, hi) => lo.spec_text() + seq![':'] + hi.spec_text(),
            Format::Enum(values) => spec_comma_join(values.deep_view()),
            Format::ColorRgb => "rgb"@,
            Format::ColorHsv => "hsv"@,
        }
    }

    pub fn to_text(&self) -> (s: String)
        requires
            self.wf(),
        ensures
            s@ =~= self.spec_text(),
    {
        match self {
            Format::IntRange(lo, hi) => {
                proof {
                    reveal_strlit(":");
                }
                let mut s = crate::numfmt::i64_text(*lo);
                s.append(":");
                let t = crate::numfmt::i64_text(*hi);
                s.append(t.as_str());
                s
            },
            Format::FloatRange(lo, hi) => {
                proof {
                    reveal_strlit(":");
                }
                let mut s = lo.to_text();
                s.append(":");
                let t = hi.to_text();
                s.append(t.as_str());
                s
            },
            Format::Enum(values) => comma_join(values),
            Format::ColorRgb => String::from_str("rgb"),
            Format::ColorHsv => String::from_str("hsv"),
        }
    }
}

/// The lifecycle state of a device as seen on the bus.
#[derive(Clone, Copy, Debug, PartialEq, Eq, Structural)]
pub enum DeviceState {
    Init,
    Ready,
    Disconnected,
    Sleeping,
    Lost,
    Alert,
}

impl DeviceState {
    pub open spec fn spec_text(self) -> Seq<char> {
        match self {
            DeviceState::Init => "init"@,
            DeviceState::Ready => "ready"@,
            DeviceState::Disconnected => "disconnected"@,
            DeviceState::Sleeping => "sleeping"@,
            DeviceState::Lost => "lost"@,
            DeviceState::Alert => "alert"@,
        }
    }

    pub fn to_text(&self) -> (s: String)
        ensures
            s@ == self.spec_text(),
    {
        match self {
            DeviceState::Init => String::from_str("init"),
            DeviceState::Ready => String::from_str("ready"),
            DeviceState::Disconnected => String::from_str("disconnected"),
            DeviceState::Sleeping => String::from_str("sleeping"),
            DeviceState::Lost => String::from_str("lost"),
            DeviceState::Alert => String::from_str("alert"),
        }
    }
}

/// The full description of one property of a node.
#[derive(Clone, Debug)]
pub struct PropertyAttributes {
    pub id: String,
    pub name: String,
    pub datatype: DataType,
    pub settable: bool,
    pub retained: bool,
    pub unit: Option<Unit>,
    pub format: Option<Format>,
}

impl PropertyAttributes {
    /// The format annotation, if any, stays within machine range.
    pub open spec fn format_wf(self) -> bool {
        match self.format {
            Some(f) => f.wf(),
            None => true,
        }
    }

    pub open spec fn wf(self) -> bool {
        &&& spec_valid_topic_id(self.id@)
        &&& self.format_wf()
    }
}

/// The full description of one node of a device, with its properties
/// in insertion order.
#[derive(Clone, Debug)]
pub struct NodeAttributes {
    pub id: String,
    pub name: String,
    pub type_: String,
    pub properties: Vec<PropertyAttributes>,
}

impl NodeAttributes {
    /// The property identifiers, in insertion order.
    pub open spec fn spec_property_ids(self) -> Seq<Seq<char>> {
        self.properties@.map_values(|p: PropertyAttributes| p.id@)
    }

    /// Every format annotation on this node's properties stays within
    /// machine range.
    pub open spec fn formats_wf(self) -> bool {
        forall|i: int| 0 <= i < self.properties@.len() ==> (#[trigger] self.properties@[i]).format_wf()
    }

    pub open spec fn wf(self) -> bool {
        &&& spec_valid_topic_id(self.id@)
        &&& forall|i: int|
            0 <= i < self.properties@.len() ==> (#[trigger] self.properties@[i]).wf()
        &&& forall|i: int, j: int|
            0 <= i < j < self.properties@.len() ==> self.properties@[i].id@
                != self.properties@[j].id@
    }

    /// Whether some property of this node has the given identifier.
    pub open spec fn spec_has_property(self, id: Seq<char>) -> bool {
        exists|i: int| 0 <= i < self.properties@.len() && (#[trigger] self.properties@[i]).id@ == id
    }
}

/// The full description of a device: identity, lifecycle state, and
/// its nodes in insertion order.
#[derive(Clone, Debug)]
pub struct DeviceAttributes {
    pub id: String,
    pub homie: String,
    pub name: String,
    pub state: DeviceState,
    pub nodes: Vec<NodeAttributes>,
    pub extensions: Vec<String>,
    pub implementation: Option<String>,
}

} // verus!
