use michiru::attributes::{DeviceState, Format, NodeAttributes, PropertyAttributes, Unit};
use michiru::device::{Device, DeviceBuilder, PublishCommand, RegistryError};
use michiru::payload::{DataType, Decimal, Payload};

fn rssi_property() -> PropertyAttributes {
    PropertyAttributes {
        id: "rssi".to_string(),
        name: "RSSI".to_string(),
        datatype: DataType::Integer,
        settable: false,
        retained: true,
        unit: Some(Unit::Other("dBm".to_string())),
        format: None,
    }
}

fn link_node() -> NodeAttributes {
    NodeAttributes {
        id: "link".to_string(),
        name: "Link".to_string(),
        type_: "Bluetooth".to_string(),
        properties: vec![rssi_property()],
    }
}

fn battery_property() -> PropertyAttributes {
    PropertyAttributes {
        id: "battery".to_string(),
        name: "Battery".to_string(),
        datatype: DataType::Float,
        settable: false,
        retained: true,
        unit: Some(Unit::Percent),
        format: Some(Format::FloatRange(
            Decimal { mantissa: 0, exp: 0 },
            Decimal { mantissa: 100, exp: 0 },
        )),
    }
}

fn ready_device() -> Device {
    let (mut builder, _) =
        DeviceBuilder::new("dev1".to_string(), "Device One".to_string()).unwrap();
    builder.node(link_node()).unwrap();
    let (device, _) = builder.build();
    device
}

fn topics(cmds: &[PublishCommand]) -> Vec<&str> {
    cmds.iter().map(|c| c.topic.as_str()).collect()
}

#[test]
fn bring_up_sequence() {
    let (builder, cmds) =
        DeviceBuilder::new("dev1".to_string(), "Device One".to_string()).unwrap();

    assert_eq!(
        topics(&cmds),
        vec!["homie/dev1/$homie", "homie/dev1/$state", "homie/dev1/$name"]
    );
    assert_eq!(cmds[0].payload, "4.0.0");
    assert_eq!(cmds[1].payload, "init");
    assert_eq!(cmds[2].payload, "Device One");
    assert!(cmds.iter().all(|c| c.retain));

    let will = builder.last_will();
    assert_eq!(will.topic, "homie/dev1/$state");
    assert_eq!(will.payload, "lost");
    assert!(will.retain);
}

#[test]
fn node_advertisement_and_build() {
    let (mut builder, _) =
        DeviceBuilder::new("dev1".to_string(), "Device One".to_string()).unwrap();
    let cmds = builder.node(link_node()).unwrap();

    assert_eq!(
        topics(&cmds),
        vec![
            "homie/dev1/link/$name",
            "homie/dev1/link/$type",
            "homie/dev1/link/$properties",
            "homie/dev1/link/rssi/$name",
            "homie/dev1/link/rssi/$datatype",
            "homie/dev1/link/rssi/$settable",
            "homie/dev1/link/rssi/$retained",
            "homie/dev1/link/rssi/$unit",
        ]
    );
    assert_eq!(cmds[0].payload, "Link");
    assert_eq!(cmds[1].payload, "Bluetooth");
    assert_eq!(cmds[2].payload, "rssi");
    assert_eq!(cmds[3].payload, "RSSI");
    assert_eq!(cmds[4].payload, "integer");
    assert_eq!(cmds[5].payload, "false");
    assert_eq!(cmds[6].payload, "true");
    assert_eq!(cmds[7].payload, "dBm");

    let (device, cmds) = builder.build();
    assert_eq!(topics(&cmds), vec!["homie/dev1/$nodes", "homie/dev1/$state"]);
    assert_eq!(cmds[0].payload, "link");
    assert_eq!(cmds[1].payload, "ready");
    assert_eq!(device.state(), DeviceState::Ready);
}

#[test]
fn identifier_errors() {
    assert_eq!(
        DeviceBuilder::new("-bad".to_string(), "Bad".to_string()).err(),
        Some(RegistryError::InvalidDeviceId)
    );

    let (mut builder, _) = DeviceBuilder::new("dev1".to_string(), "D".to_string()).unwrap();

    let mut node = link_node();
    node.id = "Link".to_string();
    assert_eq!(builder.node(node).err(), Some(RegistryError::InvalidNodeId));

    let mut node = link_node();
    node.properties[0].id = "RSSI".to_string();
    assert_eq!(builder.node(node).err(), Some(RegistryError::InvalidPropertyId));

    let mut node = link_node();
    node.properties.push(rssi_property());
    assert_eq!(builder.node(node).err(), Some(RegistryError::DuplicatePropertyId));

    builder.node(link_node()).unwrap();
    assert_eq!(builder.node(link_node()).err(), Some(RegistryError::DuplicateNodeId));
}

#[test]
fn property_insert_bracket_order() {
    let mut device = ready_device();
    let cmds = device.property_or_insert("link", battery_property()).unwrap();

    // The Init/Ready bracket: state Init, the new property's metadata
    // topics, the updated property-id list, state Ready.
    assert_eq!(
        topics(&cmds),
        vec![
            "homie/dev1/$state",
            "homie/dev1/link/battery/$name",
            "homie/dev1/link/battery/$datatype",
            "homie/dev1/link/battery/$settable",
            "homie/dev1/link/battery/$retained",
            "homie/dev1/link/battery/$format",
            "homie/dev1/link/battery/$unit",
            "homie/dev1/link/$properties",
            "homie/dev1/$state",
        ]
    );
    assert_eq!(cmds[0].payload, "init");
    assert_eq!(cmds[1].payload, "Battery");
    assert_eq!(cmds[2].payload, "float");
    assert_eq!(cmds[3].payload, "false");
    assert_eq!(cmds[4].payload, "true");
    assert_eq!(cmds[5].payload, "0:100");
    assert_eq!(cmds[6].payload, "%");
    assert_eq!(cmds[7].payload, "rssi,battery");
    assert_eq!(cmds[8].payload, "ready");
    assert!(cmds.iter().all(|c| c.retain));

    // Only this device's topics are touched.
    assert!(cmds.iter().all(|c| c.topic.starts_with("homie/dev1/")));
    assert_eq!(device.state(), DeviceState::Ready);
}

#[test]
fn property_insert_is_idempotent() {
    let mut device = ready_device();
    let first = device.property_or_insert("link", battery_property()).unwrap();
    assert!(!first.is_empty());

    // Inserting the same property id again: no publishes, no state
    // transition, and the stored descriptor stays the first one.
    let mut renamed = battery_property();
    renamed.name = "Battery level".to_string();
    let again = device.property_or_insert("link", renamed).unwrap();
    assert!(again.is_empty());
    assert_eq!(device.state(), DeviceState::Ready);

    let node = device.node("link").unwrap();
    let prop = node.property("battery").unwrap();
    assert_eq!(prop.attributes.name, "Battery");
}

#[test]
fn node_insert_bracket_and_idempotence() {
    let mut device = ready_device();
    let sensor = NodeAttributes {
        id: "sensor".to_string(),
        name: "Sensor".to_string(),
        type_: "BTHome".to_string(),
        properties: vec![],
    };
    let cmds = device.node_or_insert(sensor).unwrap();
    assert_eq!(
        topics(&cmds),
        vec![
            "homie/dev1/$state",
            "homie/dev1/sensor/$name",
            "homie/dev1/sensor/$type",
            "homie/dev1/sensor/$properties",
            "homie/dev1/$nodes",
            "homie/dev1/$state",
        ]
    );
    assert_eq!(cmds[0].payload, "init");
    assert_eq!(cmds[3].payload, "");
    assert_eq!(cmds[4].payload, "link,sensor");
    assert_eq!(cmds[5].payload, "ready");

    let again = device
        .node_or_insert(NodeAttributes {
            id: "sensor".to_string(),
            name: "Other".to_string(),
            type_: "Other".to_string(),
            properties: vec![],
        })
        .unwrap();
    assert!(again.is_empty());
}

#[test]
fn unknown_node_is_reported() {
    let mut device = ready_device();
    assert_eq!(
        device.property_or_insert("nope", battery_property()).err(),
        Some(RegistryError::UnknownNode)
    );
}

#[test]
fn value_send_uses_property_retained_flag() {
    let mut device = ready_device();
    device.property_or_insert("link", battery_property()).unwrap();

    let node = device.node("link").unwrap();
    let prop = node.property("battery").unwrap();
    let cmd = prop.send(Payload::Float(Decimal { mantissa: 85, exp: 0 }));
    assert_eq!(cmd.topic, "homie/dev1/link/battery");
    assert_eq!(cmd.payload, "85");
    assert!(cmd.retain);

    let mut transient = battery_property();
    transient.id = "charge".to_string();
    transient.retained = false;
    device.property_or_insert("link", transient).unwrap();
    let node = device.node("link").unwrap();
    let prop = node.property("charge").unwrap();
    let cmd = prop.send(Payload::Float(Decimal { mantissa: 505, exp: 1 }));
    assert_eq!(cmd.payload, "50.5");
    assert!(!cmd.retain);
}

#[test]
fn disconnect_announces_cleanly() {
    let device = ready_device();
    let cmd = device.disconnect();
    assert_eq!(cmd.topic, "homie/dev1/$state");
    assert_eq!(cmd.payload, "disconnected");
    assert!(cmd.retain);
}

#[test]
fn lookups_reflect_insertions() {
    let mut device = ready_device();
    assert_eq!(device.id(), "dev1");
    assert!(device.node("nope").is_none());

    device.property_or_insert("link", battery_property()).unwrap();
    let nodes = device.nodes();
    assert_eq!(nodes.len(), 1);
    let props = nodes[0].properties();
    assert_eq!(props.len(), 2);
    assert_eq!(props[0].attributes.id, "rssi");
    assert_eq!(props[1].attributes.id, "battery");
    assert!(nodes[0].property("nope").is_none());
}
