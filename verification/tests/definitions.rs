use michiru::zigbee2mqtt::{
    Expose, Feature, FeatureAccess, FeatureMeta, FeatureType, SpecificFeature, ZigbeeDeviceType,
};

fn meta(name: &str, property: &str) -> FeatureMeta {
    FeatureMeta {
        access: FeatureAccess { published: true, settable: false, gettable: false },
        name: name.to_string(),
        property: property.to_string(),
        description: None,
    }
}

#[test]
fn access_bit_unpacking() {
    let a = FeatureAccess::from_bits(1);
    assert!(a.published && !a.settable && !a.gettable);
    let a = FeatureAccess::from_bits(5);
    assert!(a.published && !a.settable && a.gettable);
    let a = FeatureAccess::from_bits(0);
    assert!(!a.published && !a.settable && !a.gettable);
    // Bits past the third are ignored.
    let a = FeatureAccess::from_bits(0x10);
    assert!(!a.published && !a.settable && !a.gettable);
}

#[test]
fn access_bit_round_trip() {
    for bits in 0u32..8 {
        assert_eq!(FeatureAccess::from_bits(bits).to_bits(), bits);
    }
    let a = FeatureAccess { published: true, settable: true, gettable: false };
    assert_eq!(FeatureAccess::from_bits(a.to_bits()), a);
}

#[test]
fn feature_shapes_and_meta() {
    let f = Feature::Enum {
        meta: meta("Action", "action"),
        values: vec!["on".to_string(), "off".to_string()],
    };
    assert!(matches!(f.ty(), FeatureType::Enum));
    assert_eq!(f.meta().property, "action");
    assert!(matches!(Feature::List.ty(), FeatureType::List));
}

#[test]
fn expose_names() {
    let generic = Expose::Generic(Feature::Numeric {
        meta: meta("Linkquality", "linkquality"),
        unit: Some("lqi".to_string()),
    });
    assert_eq!(generic.property(), "linkquality");
    assert_eq!(generic.name(), "Linkquality");
    assert!(matches!(generic.ty(), FeatureType::Numeric));

    let specific = Expose::Specific(SpecificFeature {
        features: vec![Feature::Binary { meta: meta("State", "state") }],
        ty: FeatureType::Light,
    });
    assert_eq!(specific.property(), "state");
    // A specific entry has no name of its own; it answers with its
    // first feature's property name.
    assert_eq!(specific.name(), "state");
    assert!(matches!(specific.ty(), FeatureType::Light));
}

#[test]
fn display_labels() {
    assert_eq!(FeatureType::Binary.label(), "Binary");
    assert_eq!(FeatureType::Climate.label(), "Climate");
    assert_eq!(ZigbeeDeviceType::Coordinator.label(), "Coordinator");
    assert_eq!(ZigbeeDeviceType::EndDevice.label(), "End Device");
}
