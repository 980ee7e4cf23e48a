//! Device definitions for the alternate, schema-based sensor source:
//! what a device exposes and under which names, and the packed access
//! flags of each feature.

use vstd::prelude::*;

verus! {

/// What may be done with a feature, unpacked from the wire's packed
/// bit form.
#[derive(Clone, Copy, Debug, PartialEq, Eq, Structural)]
pub struct FeatureAccess {
    pub published: bool,
    pub settable: bool,
    pub gettable: bool,
}

impl FeatureAccess {
    /// The packed form: bit 0 published, bit 1 settable, bit 2
    /// gettable.
    pub open spec fn spec_bits(self) -> u32 {
        (((if self.published {
            1u32
        } else {
            0u32
        }) + (if self.settable {
            2u32
        } else {
            0u32
        }) + (if self.gettable {
            4u32
        } else {
            0u32
        })) as u32)
    }

    /// The flags encoded by a packed word; bits past the third are
    /// ignored.
    pub open spec fn spec_from_bits(access: u32) -> FeatureAccess {
        FeatureAccess {
            published: access & 1 != 0,
            settable: access & 2 != 0,
            gettable: access & 4 != 0,
        }
    }

    /// Unpacks the wire form.
    pub fn from_bits(access: u32) -> (r: FeatureAccess)
        ensures
            r == FeatureAccess::spec_from_bits(access),
    {
        FeatureAccess {
            published: access & 1 != 0,
            settable: access & 2 != 0,
            gettable: access & 4 != 0,
        }
    }

    /// Packs the flags back into the wire form.
    pub fn to_bits(&self) -> (r: u32)
        ensures
            r == self.spec_bits(),
    {
        let mut access: u32 = 0;
        if self.published {
            access = access + 1;
        }
        if self.settable {
            access = access + 2;
        }
        if self.gettable {
            access = access + 4;
        }
        access
    }
}

/// Packing the flags and unpacking them again gives the flags back,
/// for every combination of flags.
pub proof fn lemma_access_pack_round_trip(fa: FeatureAccess)
    ensures
        FeatureAccess::spec_from_bits(fa.spec_bits()) == fa,
{
    assert(1u32 & 1 != 0 && 1u32 & 2 == 0 && 1u32 & 4 == 0) by (bit_vector);
    assert(2u32 & 1 == 0 && 2u32 & 2 != 0 && 2u32 & 4 == 0) by (bit_vector);
    assert(3u32 & 1 != 0 && 3u32 & 2 != 0 && 3u32 & 4 == 0) by (bit_vector);
    assert(4u32 & 1 == 0 && 4u32 & 2 == 0 && 4u32 & 4 != 0) by (bit_vector);
    assert(5u32 & 1 != 0 && 5u32 & 2 == 0 && 5u32 & 4 != 0) by (bit_vector);
    assert(6u32 & 1 == 0 && 6u32 & 2 != 0 && 6u32 & 4 != 0) by (bit_vector);
    assert(7u32 & 1 != 0 && 7u32 & 2 != 0 && 7u32 & 4 != 0) by (bit_vector);
    assert(0u32 & 1 == 0 && 0u32 & 2 == 0 && 0u32 & 4 == 0) by (bit_vector);
}

/// Unpacking a packed word that has no bits past the third, and
/// packing it again, gives the word back.
pub proof fn lemma_access_unpack_round_trip(access: u32)
    requires
        access < 8,
    ensures
        FeatureAccess::spec_from_bits(access).spec_bits() == access,
{
    let a = access;
    assert((a & 1 != 0 ==> a & 1 == 1) && a & 1 <= 1) by (bit_vector);
    assert(a < 8 ==> a == (if a & 1 != 0 {
        1u32
    } else {
        0u32
    }) + (if a & 2 != 0 {
        2u32
    } else {
        0u32
    }) + (if a & 4 != 0 {
        4u32
    } else {
        0u32
    })) by (bit_vector);
}

/// The shape of a feature.
#[derive(Clone, Copy, Debug, PartialEq, Eq, Structural)]
pub enum FeatureType {
    Binary,
    Numeric,
    Text,
    Enum,
    Composite,
    List,
    Light,
    Switch,
    Fan,
    Cover,
    Lock,
    Climate,
}

impl FeatureType {
    pub open spec fn spec_label(self) -> Seq<char> {
        match self {
            FeatureType::Binary => "Binary"@,
            FeatureType::Numeric => "Numeric"@,
            FeatureType::Text => "Text"@,
            FeatureType::Enum => "Enum"@,
            FeatureType::Composite => "Composite"@,
            FeatureType::List => "List"@,
            FeatureType::Light => "Light"@,
            FeatureType::Switch => "Switch"@,
            FeatureType::Fan => "Fan"@,
            FeatureType::Cover => "Cover"@,
            FeatureType::Lock => "Lock"@,
            FeatureType::Climate => "Climate"@,
        }
    }

    /// The display label of the shape.
    pub fn label(&self) -> (s: String)
        ensures
            s@ == self.spec_label(),
    {
        match self {
            FeatureType::Binary => String::from_str("Binary"),
            FeatureType::Numeric => String::from_str("Numeric"),
            FeatureType::Text => String::from_str("Text"),
            FeatureType::Enum => String::from_str("Enum"),
            FeatureType::Composite => String::from_str("Composite"),
            FeatureType::List => String::from_str("List"),
            FeatureType::Light => String::from_str("Light"),
            FeatureType::Switch => String::from_str("Switch"),
            FeatureType::Fan => String::from_str("Fan"),
            FeatureType::Cover => String::from_str("Cover"),
            FeatureType::Lock => String::from_str("Lock"),
            FeatureType::Climate => String::from_str("Climate"),
        }
    }
}

/// How a device participates in the radio network.
#[derive(Clone, Copy, Debug, PartialEq, Eq, Structural)]
pub enum ZigbeeDeviceType {
    Coordinator,
    Router,
    EndDevice,
}

impl ZigbeeDeviceType {
    pub open spec fn spec_label(self) -> Seq<char> {
        match self {
            ZigbeeDeviceType::Coordinator => "Coordinator"@,
            ZigbeeDeviceType::Router => "Router"@,
            ZigbeeDeviceType::EndDevice => "End Device"@,
        }
    }

    /// The display label of the role.
    pub fn label(&self) -> (s: String)
        ensures
            s@ == self.spec_label(),
    {
        match self {
            ZigbeeDeviceType::Coordinator => String::from_str("Coordinator"),
            ZigbeeDeviceType::Router => String::from_str("Router"),
            ZigbeeDeviceType::EndDevice => String::from_str("End Device"),
        }
    }
}

/// The naming and access data every feature carries.
#[derive(Debug)]
pub struct FeatureMeta {
    pub access: FeatureAccess,
    pub name: String,
    pub property: String,
    pub description: Option<String>,
}

/// One feature a device exposes. Only the data the mapping logic
/// reads is modelled here; free-form payload values stay with the
/// schema reader.
#[derive(Debug)]
pub enum Feature {
    Binary { meta: FeatureMeta },
    Numeric { meta: FeatureMeta, unit: Option<String> },
    Text { meta: FeatureMeta },
    Enum { meta: FeatureMeta, values: Vec<String> },
    Composite { meta: FeatureMeta, features: Vec<Feature> },
    List,
}

impl Feature {
    pub open spec fn spec_ty(self) -> FeatureType {
        match self {
            Feature::Binary { .. } => FeatureType::Binary,
            Feature::Numeric { .. } => FeatureType::Numeric,
            Feature::Text { .. } => FeatureType::Text,
            Feature::Enum { .. } => FeatureType::Enum,
            Feature::Composite { .. } => FeatureType::Composite,
            Feature::List => FeatureType::List,
        }
    }

    /// Whether the feature carries naming data: every shape but a
    /// bare list.
    pub open spec fn spec_has_meta(self) -> bool {
        !(self is List)
    }

    pub open spec fn spec_meta(self) -> FeatureMeta {
        match self {
            Feature::Binary { meta } => meta,
            Feature::Numeric { meta, .. } => meta,
            Feature::Text { meta } => meta,
            Feature::Enum { meta, .. } => meta,
            Feature::Composite { meta, .. } => meta,
            Feature::List => FeatureMeta {
                access: FeatureAccess { published: false, settable: false, gettable: false },
                name: arbitrary(),
                property: arbitrary(),
                description: None,
            },
        }
    }

    /// The shape of this feature.
    pub fn ty(&self) -> (t: FeatureType)
        ensures
            t == self.spec_ty(),
    {
        match self {
            Feature::Binary { .. } => FeatureType::Binary,
            Feature::Numeric { .. } => FeatureType::Numeric,
            Feature::Text { .. } => FeatureType::Text,
            Feature::Enum { .. } => FeatureType::Enum,
            Feature::Composite { .. } => FeatureType::Composite,
            Feature::List => FeatureType::List,
        }
    }

    /// The naming data of this feature. A bare list carries none.
    pub fn meta(&self) -> (m: &FeatureMeta)
        requires
            self.spec_has_meta(),
        ensures
            *m == self.spec_meta(),
    {
        match self {
            Feature::Binary { meta } => meta,
            Feature::Numeric { meta, .. } => meta,
            Feature::Text { meta } => meta,
            Feature::Enum { meta, .. } => meta,
            Feature::Composite { meta, .. } => meta,
            Feature::List => unreached(),
        }
    }
}

/// A composed feature of a specific device class.
#[derive(Debug)]
pub struct SpecificFeature {
    pub features: Vec<Feature>,
    pub ty: FeatureType,
}

/// One entry in a device's list of exposed capabilities.
#[derive(Debug)]
pub enum Expose {
    Generic(Feature),
    Specific(SpecificFeature),
}

impl Expose {
    /// Whether the entry leads to naming data: a generic feature with
    /// naming data, or a specific one whose first feature has it.
    pub open spec fn spec_has_meta(self) -> bool {
        match self {
            Expose::Generic(f) => f.spec_has_meta(),
            Expose::Specific(s) => s.features@.len() > 0 && s.features@[0].spec_has_meta(),
        }
    }

    /// The shape of the entry.
    pub fn ty(&self) -> (t: FeatureType)
        ensures
            match self {
                Expose::Generic(f) => t == f.spec_ty(),
                Expose::Specific(s) => t == s.ty,
            },
    {
        match self {
            Expose::Generic(f) => f.ty(),
            Expose::Specific(s) => s.ty,
        }
    }

    /// The property name the entry publishes under.
    pub fn property(&self) -> (r: &String)
        requires
            self.spec_has_meta(),
        ensures
            match self {
                Expose::Generic(f) => r@ == f.spec_meta().property@,
                Expose::Specific(s) => r@ == s.features@[0].spec_meta().property@,
            },
    {
        match self {
            Expose::Generic(f) => &f.meta().property,
            Expose::Specific(s) => &s.features[0].meta().property,
        }
    }

    /// The display name of the entry. A specific entry has no name of
    /// its own and falls back to its first feature's property name.
    pub fn name(&self) -> (r: &String)
        requires
            self.spec_has_meta(),
        ensures
            match self {
                Expose::Generic(f) => r@ == f.spec_meta().name@,
                Expose::Specific(s) => r@ == s.features@[0].spec_meta().property@,
            },
    {
        match self {
            Expose::Generic(f) => &f.meta().name,
            Expose::Specific(s) => &s.features[0].meta().property,
        }
    }
}

/// What a device's schema says it exposes.
#[derive(Debug)]
pub struct DeviceDefinition {
    pub description: String,
    pub exposes: Vec<Expose>,
}

/// The identity and schema of one device on the radio network.
#[derive(Debug)]
pub struct DeviceInfo {
    pub ieee_address: String,
    pub model_id: String,
    pub manufacturer: String,
    pub power_source: String,
    pub zigbee_device_type: ZigbeeDeviceType,
    pub interview_completed: bool,
    pub disabled: bool,
    pub definition: DeviceDefinition,
}

} // verus!
