//! The device registry: devices, their nodes and properties, and the
//! exact publish sequences that announce them on the bus.
//!
//! Nothing here talks to the bus. Every operation that has a
//! bus-visible effect returns the ordered list of publish commands the
//! caller must perform; the contracts pin that list down exactly, in
//! particular the Init/Ready bracket around every topology change.

use vstd::prelude::*;

use crate::attributes::{DeviceState, NodeAttributes, PropertyAttributes};
use crate::payload::{spec_bool_text, bool_text, Payload};
use crate::utils::{comma_join, spec_comma_join, spec_valid_topic_id, valid_topic_id};
use crate::BASE_TOPIC;

verus! {

/// One publish operation for the bus client to perform, in order.
#[derive(Clone, Debug)]
pub struct PublishCommand {
    pub topic: String,
    pub payload: String,
    pub retain: bool,
}

/// The mathematical shadow of a publish command.
pub struct CmdModel {
    pub topic: Seq<char>,
    pub payload: Seq<char>,
    pub retain: bool,
}

impl View for PublishCommand {
    type V = CmdModel;

    open spec fn view(&self) -> CmdModel {
        CmdModel { topic: self.topic@, payload: self.payload@, retain: self.retain }
    }
}

/// The models of a command list, in order.
pub open spec fn cmd_models(cmds: Seq<PublishCommand>) -> Seq<CmdModel> {
    cmds.map_values(|c: PublishCommand| c@)
}

/// The last-will message a device registers at bring-up: the bus
/// publishes it on the device's behalf if the connection drops
/// uncleanly.
#[derive(Clone, Debug)]
pub struct LastWill {
    pub topic: String,
    pub payload: String,
    pub retain: bool,
}

/// Why a registry operation was refused. Identifier checks are made
/// at every insertion point; nothing is published when one fails.
#[derive(Clone, Copy, Debug, PartialEq, Eq, Structural)]
pub enum RegistryError {
    InvalidDeviceId,
    InvalidNodeId,
    InvalidPropertyId,
    DuplicateNodeId,
    DuplicatePropertyId,
    UnknownNode,
}

/// The topic `{base}/{device}/{tail}`.
pub open spec fn spec_device_topic(device_id: Seq<char>, tail: Seq<char>) -> Seq<char> {
    BASE_TOPIC@ + seq!['/'] + device_id + seq!['/'] + tail
}

/// The topic `{base}/{device}/{node}/{tail}`.
pub open spec fn spec_node_topic(device_id: Seq<char>, node_id: Seq<char>, tail: Seq<char>) -> Seq<
    char,
> {
    spec_device_topic(device_id, node_id + seq!['/'] + tail)
}

/// The topic `{base}/{device}/{node}/{property}/{tail}`.
pub open spec fn spec_property_topic(
    device_id: Seq<char>,
    node_id: Seq<char>,
    property_id: Seq<char>,
    tail: Seq<char>,
) -> Seq<char> {
    spec_device_topic(device_id, node_id + seq!['/'] + property_id + seq!['/'] + tail)
}

/// The topic a property's value is published on:
/// `{base}/{device}/{node}/{property}`.
pub open spec fn spec_value_topic(
    device_id: Seq<char>,
    node_id: Seq<char>,
    property_id: Seq<char>,
) -> Seq<char> {
    spec_device_topic(device_id, node_id + seq!['/'] + property_id)
}

fn device_topic(device_id: &str, tail: &str) -> (t: String)
    ensures
        t@ =~= spec_device_topic(device_id@, tail@),
{
    proof {
        reveal_strlit("/");
    }
    let mut t = String::from_str(BASE_TOPIC);
    t.append("/");
    t.append(device_id);
    t.append("/");
    t.append(tail);
    t
}

fn node_topic(device_id: &str, node_id: &str, tail: &str) -> (t: String)
    ensures
        t@ =~= spec_node_topic(device_id@, node_id@, tail@),
{
    proof {
        reveal_strlit("/");
    }
    let mut t = String::from_str(BASE_TOPIC);
    t.append("/");
    t.append(device_id);
    t.append("/");
    t.append(node_id);
    t.append("/");
    t.append(tail);
    t
}

fn property_topic(device_id: &str, node_id: &str, property_id: &str, tail: &str) -> (t: String)
    ensures
        t@ =~= spec_property_topic(device_id@, node_id@, property_id@, tail@),
{
    proof {
        reveal_strlit("/");
    }
    let mut t = String::from_str(BASE_TOPIC);
    t.append("/");
    t.append(device_id);
    t.append("/");
    t.append(node_id);
    t.append("/");
    t.append(property_id);
    t.append("/");
    t.append(tail);
    t
}

fn value_topic(device_id: &str, node_id: &str, property_id: &str) -> (t: String)
    ensures
        t@ =~= spec_value_topic(device_id@, node_id@, property_id@),
{
    proof {
        reveal_strlit("/");
    }
    let mut t = String::from_str(BASE_TOPIC);
    t.append("/");
    t.append(device_id);
    t.append("/");
    t.append(node_id);
    t.append("/");
    t.append(property_id);
    t
}

fn push_cmd(out: &mut Vec<PublishCommand>, topic: String, payload: String, retain: bool)
    ensures
        cmd_models(final (out)@) =~= cmd_models(old(out)@) + seq![
            CmdModel { topic: topic@, payload: payload@, retain },
        ],
{
    let ghost before = out@;
    out.push(PublishCommand { topic, payload, retain });
    proof {
        assert(out@.drop_last() =~= before);
        assert(cmd_models(out@) =~= cmd_models(before) + seq![out@.last()@]);
    }
}

/// The device's lifecycle state announcement.
pub open spec fn spec_state_cmd(device_id: Seq<char>, s: DeviceState) -> CmdModel {
    CmdModel {
        topic: spec_device_topic(device_id, "$state"@),
        payload: s.spec_text(),
        retain: true,
    }
}

/// The metadata topics that advertise one property, in order: name,
/// datatype, settable, retained, then format and unit when present.
pub open spec fn spec_property_cmds(
    device_id: Seq<char>,
    node_id: Seq<char>,
    p: PropertyAttributes,
) -> Seq<CmdModel> {
    let head = seq![
        CmdModel {
            topic: spec_property_topic(device_id, node_id, p.id@, "$name"@),
            payload: p.name@,
            retain: true,
        },
        CmdModel {
            topic: spec_property_topic(device_id, node_id, p.id@, "$datatype"@),
            payload: p.datatype.spec_text(),
            retain: true,
        },
        CmdModel {
            topic: spec_property_topic(device_id, node_id, p.id@, "$settable"@),
            payload: spec_bool_text(p.settable),
            retain: true,
        },
        CmdModel {
            topic: spec_property_topic(device_id, node_id, p.id@, "$retained"@),
            payload: spec_bool_text(p.retained),
            retain: true,
        },
    ];
    let with_format = match p.format {
        Some(f) => head + seq![
            CmdModel {
                topic: spec_property_topic(device_id, node_id, p.id@, "$format"@),
                payload: f.spec_text(),
                retain: true,
            },
        ],
        None => head,
    };
    match p.unit {
        Some(u) => with_format + seq![
            CmdModel {
                topic: spec_property_topic(device_id, node_id, p.id@, "$unit"@),
                payload: u.spec_text(),
                retain: true,
            },
        ],
        None => with_format,
    }
}

/// Appends the advertisement of one property to `out`.
fn advertise_property(
    device_id: &str,
    node_id: &str,
    p: &PropertyAttributes,
    out: &mut Vec<PublishCommand>,
)
    requires
        p.format_wf(),
    ensures
        cmd_models(final (out)@) =~= cmd_models(old(out)@) + spec_property_cmds(
            device_id@,
            node_id@,
            *p,
        ),
{
    push_cmd(
        out,
        property_topic(device_id, node_id, p.id.as_str(), "$name"),
        p.name.clone(),
        true,
    );
    push_cmd(
        out,
        property_topic(device_id, node_id, p.id.as_str(), "$datatype"),
        p.datatype.to_text(),
        true,
    );
    push_cmd(
        out,
        property_topic(device_id, node_id, p.id.as_str(), "$settable"),
        bool_text(p.settable),
        true,
    );
    push_cmd(
        out,
        property_topic(device_id, node_id, p.id.as_str(), "$retained"),
        bool_text(p.retained),
        true,
    );
    match &p.format {
        Some(f) => {
            push_cmd(
                out,
                property_topic(device_id, node_id, p.id.as_str(), "$format"),
                f.to_text(),
                true,
            );
        },
        None => {},
    }
    match &p.unit {
        Some(u) => {
            push_cmd(
                out,
                property_topic(device_id, node_id, p.id.as_str(), "$unit"),
                u.to_text(),
                true,
            );
        },
        None => {},
    }
}

/// The advertisements of a run of properties, in order.
pub open spec fn spec_properties_cmds(
    device_id: Seq<char>,
    node_id: Seq<char>,
    props: Seq<PropertyAttributes>,
) -> Seq<CmdModel>
    decreases props.len(),
{
    if props.len() == 0 {
        Seq::<CmdModel>::empty()
    } else {
        spec_properties_cmds(device_id, node_id, props.drop_last()) + spec_property_cmds(
            device_id,
            node_id,
            props.last(),
        )
    }
}

/// The topics that advertise a whole node, in order: its name, its
/// type, its property-id list, then each property's advertisement.
pub open spec fn spec_node_cmds(device_id: Seq<char>, node: NodeAttributes) -> Seq<CmdModel> {
    seq![
        CmdModel {
            topic: spec_node_topic(device_id, node.id@, "$name"@),
            payload: node.name@,
            retain: true,
        },
        CmdModel {
            topic: spec_node_topic(device_id, node.id@, "$type"@),
            payload: node.type_@,
            retain: true,
        },
        CmdModel {
            topic: spec_node_topic(device_id, node.id@, "$properties"@),
            payload: spec_comma_join(node.spec_property_ids()),
            retain: true,
        },
    ] + spec_properties_cmds(device_id, node.id@, node.properties@)
}

/// The property identifiers of a node, as strings.
fn property_ids(node: &NodeAttributes) -> (ids: Vec<String>)
    ensures
        ids.deep_view() =~~= node.spec_property_ids(),
{
    let mut ids: Vec<String> = Vec::new();
    let mut i: usize = 0;
    while i < node.properties.len()
        invariant
            i <= node.properties@.len(),
            ids@.len() == i,
            forall|j: int| 0 <= j < i ==> (#[trigger] ids@[j])@ == node.properties@[j].id@,
        decreases node.properties@.len() - i,
    {
        ids.push(node.properties[i].id.clone());
        i += 1;
    }
    proof {
        assert(ids.deep_view() =~~= node.spec_property_ids());
    }
    ids
}

/// Appends the advertisement of a whole node to `out`.
fn advertise_node(device_id: &str, node: &NodeAttributes, out: &mut Vec<PublishCommand>)
    requires
        node.formats_wf(),
    ensures
        cmd_models(final (out)@) =~= cmd_models(old(out)@) + spec_node_cmds(device_id@, *node),
{
    push_cmd(out, node_topic(device_id, node.id.as_str(), "$name"), node.name.clone(), true);
    push_cmd(out, node_topic(device_id, node.id.as_str(), "$type"), node.type_.clone(), true);
    let ids = property_ids(node);
    push_cmd(out, node_topic(device_id, node.id.as_str(), "$properties"), comma_join(&ids), true);
    let ghost head = cmd_models(out@);
    let mut i: usize = 0;
    while i < node.properties.len()
        invariant
            i <= node.properties@.len(),
            node.formats_wf(),
            cmd_models(out@) =~= head + spec_properties_cmds(
                device_id@,
                node.id@,
                node.properties@.take(i as int),
            ),
        decreases node.properties@.len() - i,
    {
        advertise_property(device_id, node.id.as_str(), &node.properties[i], out);
        i += 1;
        proof {
            assert(node.properties@.take(i as int).drop_last() =~= node.properties@.take(i - 1));
            assert(node.properties@.take(i as int).last() == node.properties@[i - 1]);
            assert(cmd_models(out@) =~= head + spec_properties_cmds(
                device_id@,
                node.id@,
                node.properties@.take(i as int),
            ));
        }
    }
    proof {
        assert(node.properties@.take(node.properties@.len() as int) =~= node.properties@);
    }
}

/// Finds the position of the property with the given identifier.
fn find_property(props: &Vec<PropertyAttributes>, id: &str) -> (r: Option<usize>)
    ensures
        match r {
            Some(i) => i < props@.len() && props@[i as int].id@ == id@,
            None => forall|j: int| 0 <= j < props@.len() ==> (#[trigger] props@[j]).id@ != id@,
        },
{
    let key = id.to_owned();
    let mut i: usize = 0;
    while i < props.len()
        invariant
            i <= props@.len(),
            key@ == id@,
            forall|j: int| 0 <= j < i ==> (#[trigger] props@[j]).id@ != id@,
        decreases props@.len() - i,
    {
        if props[i].id == key {
            return Some(i);
        }
        i += 1;
    }
    None
}

/// Checks a node description against the identifier rules: the node's
/// own identifier, every property identifier, and property-identifier
/// uniqueness.
fn check_node_attrs(node: &NodeAttributes) -> (r: Option<RegistryError>)
    ensures
        match r {
            None => {
                &&& spec_valid_topic_id(node.id@)
                &&& forall|i: int|
                    0 <= i < node.properties@.len() ==> spec_valid_topic_id(
                        (#[trigger] node.properties@[i]).id@,
                    )
                &&& forall|i: int, j: int|
                    0 <= i < j < node.properties@.len() ==> node.properties@[i].id@
                        != node.properties@[j].id@
            },
            Some(e) => match e {
                RegistryError::InvalidNodeId => !spec_valid_topic_id(node.id@),
                RegistryError::InvalidPropertyId => spec_valid_topic_id(node.id@) && exists|i: int|
                    0 <= i < node.properties@.len() && !spec_valid_topic_id(
                        (#[trigger] node.properties@[i]).id@,
                    ),
                RegistryError::DuplicatePropertyId => spec_valid_topic_id(node.id@) && exists|
                    i: int,
                    j: int,
                |
                    0 <= i < j < node.properties@.len() && node.properties@[i].id@
                        == node.properties@[j].id@,
                _ => false,
            },
        },
{
    if !valid_topic_id(node.id.as_str()) {
        return Some(RegistryError::InvalidNodeId);
    }
    let mut i: usize = 0;
    while i < node.properties.len()
        invariant
            i <= node.properties@.len(),
            spec_valid_topic_id(node.id@),
            forall|j: int|
                0 <= j < i ==> spec_valid_topic_id((#[trigger] node.properties@[j]).id@),
        decreases node.properties@.len() - i,
    {
        if !valid_topic_id(node.properties[i].id.as_str()) {
            assert(!spec_valid_topic_id(node.properties@[i as int].id@));
            return Some(RegistryError::InvalidPropertyId);
        }
        i += 1;
    }
    let mut i: usize = 0;
    while i < node.properties.len()
        invariant
            i <= node.properties@.len(),
            spec_valid_topic_id(node.id@),
            forall|a: int, b: int|
                0 <= a < b < node.properties@.len() && a < i ==> node.properties@[a].id@
                    != node.properties@[b].id@,
        decreases node.properties@.len() - i,
    {
        let mut j: usize = i + 1;
        while j < node.properties.len()
            invariant
                i < j <= node.properties@.len() || (i + 1 == j && j > node.properties@.len()),
                i < node.properties@.len(),
                spec_valid_topic_id(node.id@),
                forall|b: int| i < b < j ==> node.properties@[i as int].id@ != (
                #[trigger] node.properties@[b]).id@,
            decreases node.properties@.len() - j,
        {
            if node.properties[i].id == node.properties[j].id {
                assert(node.properties@[i as int].id@ == node.properties@[j as int].id@);
                return Some(RegistryError::DuplicatePropertyId);
            }
            j += 1;
        }
        i += 1;
    }
    None
}

/// The node identifiers of a device, as strings.
fn node_ids_vec(nodes: &Vec<NodeAttributes>) -> (ids: Vec<String>)
    ensures
        ids.deep_view() =~~= nodes@.map_values(|n: NodeAttributes| n.id@),
{
    let mut ids: Vec<String> = Vec::new();
    let mut i: usize = 0;
    while i < nodes.len()
        invariant
            i <= nodes@.len(),
            ids@.len() == i,
            forall|j: int| 0 <= j < i ==> (#[trigger] ids@[j])@ == nodes@[j].id@,
        decreases nodes@.len() - i,
    {
        ids.push(nodes[i].id.clone());
        i += 1;
    }
    proof {
        assert(ids.deep_view() =~~= nodes@.map_values(|n: NodeAttributes| n.id@));
    }
    ids
}

/// The aggregate `$nodes` announcement of a device.
pub open spec fn spec_nodes_list_cmd(device_id: Seq<char>, node_ids: Seq<Seq<char>>) -> CmdModel {
    CmdModel {
        topic: spec_device_topic(device_id, "$nodes"@),
        payload: spec_comma_join(node_ids),
        retain: true,
    }
}

/// The aggregate `$properties` announcement of a node.
pub open spec fn spec_properties_list_cmd(
    device_id: Seq<char>,
    node_id: Seq<char>,
    prop_ids: Seq<Seq<char>>,
) -> CmdModel {
    CmdModel {
        topic: spec_node_topic(device_id, node_id, "$properties"@),
        payload: spec_comma_join(prop_ids),
        retain: true,
    }
}

/// The Init/Ready bracket around the insertion of a new node: state
/// Init, the node's full advertisement, the updated node-id list,
/// state Ready.
pub open spec fn spec_node_bracket_cmds(
    device_id: Seq<char>,
    node: NodeAttributes,
    node_ids_after: Seq<Seq<char>>,
) -> Seq<CmdModel> {
    seq![spec_state_cmd(device_id, DeviceState::Init)] + spec_node_cmds(device_id, node) + seq![
        spec_nodes_list_cmd(device_id, node_ids_after),
        spec_state_cmd(device_id, DeviceState::Ready),
    ]
}

/// The Init/Ready bracket around the insertion of a new property:
/// state Init, the property's advertisement, the node's updated
/// property-id list, state Ready.
pub open spec fn spec_property_bracket_cmds(
    device_id: Seq<char>,
    node_id: Seq<char>,
    p: PropertyAttributes,
    prop_ids_after: Seq<Seq<char>>,
) -> Seq<CmdModel> {
    seq![spec_state_cmd(device_id, DeviceState::Init)] + spec_property_cmds(device_id, node_id, p)
        + seq![
        spec_properties_list_cmd(device_id, node_id, prop_ids_after),
        spec_state_cmd(device_id, DeviceState::Ready),
    ]
}

/// Whether a topic lies under a device's own prefix
/// `{base}/{device}/`.
pub open spec fn spec_topic_under_device(topic: Seq<char>, device_id: Seq<char>) -> bool {
    let prefix = BASE_TOPIC@ + seq!['/'] + device_id + seq!['/'];
    topic.len() >= prefix.len() && topic.take(prefix.len() as int) == prefix
}

proof fn lemma_device_topic_scoped(device_id: Seq<char>, tail: Seq<char>)
    ensures
        spec_topic_under_device(spec_device_topic(device_id, tail), device_id),
{
    let prefix = BASE_TOPIC@ + seq!['/'] + device_id + seq!['/'];
    assert(spec_device_topic(device_id, tail).take(prefix.len() as int) =~= prefix);
}

/// Every metadata topic of one property lies under the device's own
/// prefix.
pub proof fn lemma_property_cmds_scoped(
    device_id: Seq<char>,
    node_id: Seq<char>,
    p: PropertyAttributes,
)
    ensures
        forall|k: int|
            0 <= k < spec_property_cmds(device_id, node_id, p).len()
                ==> spec_topic_under_device(
                #[trigger] spec_property_cmds(device_id, node_id, p)[k].topic,
                device_id,
            ),
{
    lemma_device_topic_scoped(device_id, node_id + seq!['/'] + p.id@ + seq!['/'] + "$name"@);
    lemma_device_topic_scoped(device_id, node_id + seq!['/'] + p.id@ + seq!['/'] + "$datatype"@);
    lemma_device_topic_scoped(device_id, node_id + seq!['/'] + p.id@ + seq!['/'] + "$settable"@);
    lemma_device_topic_scoped(device_id, node_id + seq!['/'] + p.id@ + seq!['/'] + "$retained"@);
    lemma_device_topic_scoped(device_id, node_id + seq!['/'] + p.id@ + seq!['/'] + "$format"@);
    lemma_device_topic_scoped(device_id, node_id + seq!['/'] + p.id@ + seq!['/'] + "$unit"@);
}

/// Every topic in the advertisement of a run of properties lies under
/// the device's own prefix.
pub proof fn lemma_properties_cmds_scoped(
    device_id: Seq<char>,
    node_id: Seq<char>,
    props: Seq<PropertyAttributes>,
)
    ensures
        forall|k: int|
            0 <= k < spec_properties_cmds(device_id, node_id, props).len()
                ==> spec_topic_under_device(
                #[trigger] spec_properties_cmds(device_id, node_id, props)[k].topic,
                device_id,
            ),
    decreases props.len(),
{
    if props.len() > 0 {
        lemma_properties_cmds_scoped(device_id, node_id, props.drop_last());
        lemma_property_cmds_scoped(device_id, node_id, props.last());
        let whole = spec_properties_cmds(device_id, node_id, props);
        let left = spec_properties_cmds(device_id, node_id, props.drop_last());
        let right = spec_property_cmds(device_id, node_id, props.last());
        assert forall|k: int| 0 <= k < whole.len() implies spec_topic_under_device(
            whole[k].topic,
            device_id,
        ) by {
            if k < left.len() {
                assert(whole[k] == left[k]);
            } else {
                assert(whole[k] == right[k - left.len()]);
            }
        }
    }
}

/// Every topic in the advertisement of a whole node lies under the
/// device's own prefix.
pub proof fn lemma_node_cmds_scoped(device_id: Seq<char>, node: NodeAttributes)
    ensures
        forall|k: int|
            0 <= k < spec_node_cmds(device_id, node).len() ==> spec_topic_under_device(
                #[trigger] spec_node_cmds(device_id, node)[k].topic,
                device_id,
            ),
{
    lemma_device_topic_scoped(device_id, node.id@ + seq!['/'] + "$name"@);
    lemma_device_topic_scoped(device_id, node.id@ + seq!['/'] + "$type"@);
    lemma_device_topic_scoped(device_id, node.id@ + seq!['/'] + "$properties"@);
    lemma_properties_cmds_scoped(device_id, node.id@, node.properties@);
}

/// The Init/Ready bracket around a property insertion touches only
/// topics under the device's own prefix: no other device's topics.
pub proof fn lemma_property_bracket_scoped(
    device_id: Seq<char>,
    node_id: Seq<char>,
    p: PropertyAttributes,
    prop_ids: Seq<Seq<char>>,
)
    ensures
        forall|k: int|
            0 <= k < spec_property_bracket_cmds(device_id, node_id, p, prop_ids).len()
                ==> spec_topic_under_device(
                #[trigger] spec_property_bracket_cmds(device_id, node_id, p, prop_ids)[k].topic,
                device_id,
            ),
{
    lemma_device_topic_scoped(device_id, "$state"@);
    lemma_device_topic_scoped(device_id, node_id + seq!['/'] + "$properties"@);
    lemma_property_cmds_scoped(device_id, node_id, p);
}

/// The Init/Ready bracket around a node insertion touches only topics
/// under the device's own prefix: no other device's topics.
pub proof fn lemma_node_bracket_scoped(
    device_id: Seq<char>,
    node: NodeAttributes,
    node_ids: Seq<Seq<char>>,
)
    ensures
        forall|k: int|
            0 <= k < spec_node_bracket_cmds(device_id, node, node_ids).len()
                ==> spec_topic_under_device(
                #[trigger] spec_node_bracket_cmds(device_id, node, node_ids)[k].topic,
                device_id,
            ),
{
    lemma_device_topic_scoped(device_id, "$state"@);
    lemma_device_topic_scoped(device_id, "$nodes"@);
    lemma_node_cmds_scoped(device_id, node);
}

/// A read-only view of one node of a device.
pub struct Node<'a> {
    pub device_id: &'a String,
    pub attributes: &'a NodeAttributes,
}

/// A read-only view of one property of a node.
pub struct Property<'a> {
    pub device_id: &'a String,
    pub node_id: &'a String,
    pub attributes: &'a PropertyAttributes,
}

impl<'a> Node<'a> {
    /// Looks up one property of this node.
    pub fn property(&self, id: &str) -> (r: Option<Property<'a>>)
        ensures
            match r {
                Some(p) => {
                    &&& p.device_id@ == self.device_id@
                    &&& p.node_id@ == self.attributes.id@
                    &&& p.attributes.id@ == id@
                    &&& exists|i: int|
                        0 <= i < self.attributes.properties@.len() && *p.attributes == (
                        #[trigger] self.attributes.properties@[i])
                },
                None => !self.attributes.spec_has_property(id@),
            },
    {
        match find_property(&self.attributes.properties, id) {
            Some(i) => Some(
                Property {
                    device_id: self.device_id,
                    node_id: &self.attributes.id,
                    attributes: &self.attributes.properties[i],
                },
            ),
            None => None,
        }
    }

    /// All properties of this node, in insertion order.
    pub fn properties(&self) -> (r: Vec<Property<'a>>)
        ensures
            r@.len() == self.attributes.properties@.len(),
            forall|i: int|
                0 <= i < r@.len() ==> (#[trigger] r@[i]).device_id@ == self.device_id@
                    && r@[i].node_id@ == self.attributes.id@ && *r@[i].attributes
                    == self.attributes.properties@[i],
    {
        let mut r: Vec<Property<'a>> = Vec::new();
        let mut i: usize = 0;
        while i < self.attributes.properties.len()
            invariant
                i <= self.attributes.properties@.len(),
                r@.len() == i,
                forall|k: int|
                    0 <= k < i ==> (#[trigger] r@[k]).device_id@ == self.device_id@
                        && r@[k].node_id@ == self.attributes.id@ && *r@[k].attributes
                        == self.attributes.properties@[k],
            decreases self.attributes.properties@.len() - i,
        {
            r.push(
                Property {
                    device_id: self.device_id,
                    node_id: &self.attributes.id,
                    attributes: &self.attributes.properties[i],
                },
            );
            i += 1;
        }
        r
    }
}

/// A live device on the bus: its identity, lifecycle state, and nodes
/// in insertion order. All mutation goes through the operations here,
/// which enforce the identifier rules and emit the exact publish
/// sequences, bracketing every topology change between Init and
/// Ready.
pub struct Device {
    id: String,
    state: DeviceState,
    nodes: Vec<NodeAttributes>,
}

impl Device {
    pub closed spec fn spec_id(self) -> Seq<char> {
        self.id@
    }

    pub closed spec fn spec_state(self) -> DeviceState {
        self.state
    }

    pub closed spec fn spec_nodes(self) -> Seq<NodeAttributes> {
        self.nodes@
    }

    /// The node identifiers, in insertion order.
    pub open spec fn spec_node_ids(self) -> Seq<Seq<char>> {
        self.spec_nodes().map_values(|n: NodeAttributes| n.id@)
    }

    pub open spec fn spec_has_node(self, id: Seq<char>) -> bool {
        exists|i: int|
            0 <= i < self.spec_nodes().len() && (#[trigger] self.spec_nodes()[i]).id@ == id
    }

    /// The registry invariant: all identifiers valid, node ids unique
    /// within the device, property ids unique within each node.
    pub open spec fn wf(self) -> bool {
        &&& spec_valid_topic_id(self.spec_id())
        &&& forall|i: int|
            0 <= i < self.spec_nodes().len() ==> (#[trigger] self.spec_nodes()[i]).wf()
        &&& forall|i: int, j: int|
            0 <= i < j < self.spec_nodes().len() ==> self.spec_nodes()[i].id@
                != self.spec_nodes()[j].id@
    }

    pub fn id(&self) -> (r: &String)
        ensures
            r@ == self.spec_id(),
    {
        &self.id
    }

    pub fn state(&self) -> (s: DeviceState)
        ensures
            s == self.spec_state(),
    {
        self.state
    }

    fn find_node(&self, id: &str) -> (r: Option<usize>)
        ensures
            match r {
                Some(i) => i < self.nodes@.len() && self.nodes@[i as int].id@ == id@,
                None => !self.spec_has_node(id@),
            },
    {
        let key = id.to_owned();
        let mut i: usize = 0;
        while i < self.nodes.len()
            invariant
                i <= self.nodes@.len(),
                key@ == id@,
                forall|j: int| 0 <= j < i ==> (#[trigger] self.nodes@[j]).id@ != id@,
            decreases self.nodes@.len() - i,
        {
            if self.nodes[i].id == key {
                return Some(i);
            }
            i += 1;
        }
        None
    }

    /// Looks up one node of this device.
    pub fn node(&self, id: &str) -> (r: Option<Node<'_>>)
        ensures
            match r {
                Some(n) => {
                    &&& n.device_id@ == self.spec_id()
                    &&& n.attributes.id@ == id@
                    &&& exists|i: int|
                        0 <= i < self.spec_nodes().len() && *n.attributes == (
                        #[trigger] self.spec_nodes()[i])
                },
                None => !self.spec_has_node(id@),
            },
    {
        match self.find_node(id) {
            Some(i) => {
                let n = Node { device_id: &self.id, attributes: &self.nodes[i] };
                proof {
                    assert(*n.attributes == self.spec_nodes()[i as int]);
                }
                Some(n)
            },
            None => None,
        }
    }

    /// All nodes of this device, in insertion order.
    pub fn nodes(&self) -> (r: Vec<Node<'_>>)
        ensures
            r@.len() == self.spec_nodes().len(),
            forall|i: int|
                0 <= i < r@.len() ==> (#[trigger] r@[i]).device_id@ == self.spec_id()
                    && *r@[i].attributes == self.spec_nodes()[i],
    {
        let mut r: Vec<Node<'_>> = Vec::new();
        let mut i: usize = 0;
        while i < self.nodes.len()
            invariant
                i <= self.nodes@.len(),
                r@.len() == i,
                forall|k: int|
                    0 <= k < i ==> (#[trigger] r@[k]).device_id@ == self.id@ && *r@[k].attributes
                        == self.nodes@[k],
            decreases self.nodes@.len() - i,
        {
            r.push(Node { device_id: &self.id, attributes: &self.nodes[i] });
            i += 1;
        }
        r
    }

    /// Looks the node up, inserting and announcing it when it is new.
    /// A new node is announced under an Init/Ready bracket: state
    /// Init, the node's advertisement, the updated `$nodes` list,
    /// state Ready. Inserting an existing node id is a no-op: nothing
    /// is published and no state transition happens.
    pub fn node_or_insert(&mut self, attrs: NodeAttributes) -> (r: Result<
        Vec<PublishCommand>,
        RegistryError,
    >)
        requires
            old(self).wf(),
            old(self).spec_state() == DeviceState::Ready,
            attrs.formats_wf(),
        ensures
            final (self).wf(),
            final (self).spec_id() == old(self).spec_id(),
            final (self).spec_state() == DeviceState::Ready,
            match r {
                Ok(cmds) => {
                    if old(self).spec_has_node(attrs.id@) {
                        &&& *final (self) == *old(self)
                        &&& cmds@.len() == 0
                    } else {
                        &&& attrs.wf()
                        &&& final (self).spec_nodes() == old(self).spec_nodes().push(attrs)
                        &&& cmd_models(cmds@) =~= spec_node_bracket_cmds(
                            old(self).spec_id(),
                            attrs,
                            final (self).spec_node_ids(),
                        )
                    }
                },
                Err(e) => {
                    &&& *final (self) == *old(self)
                    &&& !old(self).spec_has_node(attrs.id@)
                    &&& match e {
                        RegistryError::InvalidNodeId => !spec_valid_topic_id(attrs.id@),
                        RegistryError::InvalidPropertyId => spec_valid_topic_id(attrs.id@)
                            && exists|i: int|
                            0 <= i < attrs.properties@.len() && !spec_valid_topic_id(
                                (#[trigger] attrs.properties@[i]).id@,
                            ),
                        RegistryError::DuplicatePropertyId => spec_valid_topic_id(attrs.id@)
                            && exists|i: int, j: int|
                            0 <= i < j < attrs.properties@.len() && attrs.properties@[i].id@
                                == attrs.properties@[j].id@,
                        _ => false,
                    }
                },
            },
    {
        if let Some(_) = self.find_node(attrs.id.as_str()) {
            return Ok(Vec::new());
        }
        if let Some(e) = check_node_attrs(&attrs) {
            return Err(e);
        }
        let mut cmds: Vec<PublishCommand> = Vec::new();
        push_cmd(
            &mut cmds,
            device_topic(self.id.as_str(), "$state"),
            DeviceState::Init.to_text(),
            true,
        );
        advertise_node(self.id.as_str(), &attrs, &mut cmds);
        self.nodes.push(attrs);
        let ids = node_ids_vec(&self.nodes);
        push_cmd(&mut cmds, device_topic(self.id.as_str(), "$nodes"), comma_join(&ids), true);
        push_cmd(
            &mut cmds,
            device_topic(self.id.as_str(), "$state"),
            DeviceState::Ready.to_text(),
            true,
        );
        proof {
            let oldn = old(self).spec_nodes();
            assert(forall|j: int| 0 <= j < oldn.len() ==> (#[trigger] oldn[j]).id@ != attrs.id@);
            assert(forall|i: int|
                0 <= i < attrs.properties@.len() ==> (#[trigger] attrs.properties@[i]).wf());
            assert(attrs.wf());
            assert(self.spec_nodes() =~= oldn.push(attrs));
            assert forall|i: int, j: int|
                0 <= i < j < self.spec_nodes().len() implies self.spec_nodes()[i].id@
                != self.spec_nodes()[j].id@ by {
                if j == oldn.len() as int {
                    assert(self.spec_nodes()[i] == oldn[i]);
                }
            }
            assert(self.wf());
            assert(cmd_models(cmds@) =~= spec_node_bracket_cmds(
                old(self).spec_id(),
                attrs,
                self.spec_node_ids(),
            ));
        }
        Ok(cmds)
    }

    /// Looks the property up on the given node, inserting and
    /// announcing it when it is new. A new property is announced
    /// under an Init/Ready bracket: state Init, the property's
    /// advertisement, the node's updated `$properties` list, state
    /// Ready. Inserting an existing property id is a no-op: the
    /// stored descriptor stays as it is, nothing is published and no
    /// state transition happens.
    pub fn property_or_insert(&mut self, node_id: &str, attrs: PropertyAttributes) -> (r: Result<
        Vec<PublishCommand>,
        RegistryError,
    >)
        requires
            old(self).wf(),
            old(self).spec_state() == DeviceState::Ready,
            attrs.format_wf(),
        ensures
            final (self).wf(),
            final (self).spec_id() == old(self).spec_id(),
            final (self).spec_state() == DeviceState::Ready,
            match r {
                Ok(cmds) => {
                    &&& old(self).spec_has_node(node_id@)
                    &&& final (self).spec_nodes().len() == old(self).spec_nodes().len()
                    &&& forall|j: int|
                        0 <= j < old(self).spec_nodes().len() && (
                        #[trigger] old(self).spec_nodes()[j]).id@ != node_id@ ==> final (
                        self).spec_nodes()[j] == old(self).spec_nodes()[j]
                    &&& forall|j: int|
                        0 <= j < old(self).spec_nodes().len() && (
                        #[trigger] old(self).spec_nodes()[j]).id@ == node_id@ ==> {
                            if old(self).spec_nodes()[j].spec_has_property(attrs.id@) {
                                &&& *final (self) == *old(self)
                                &&& cmds@.len() == 0
                            } else {
                                &&& spec_valid_topic_id(attrs.id@)
                                &&& final (self).spec_nodes()[j].id@ == old(
                                    self,
                                ).spec_nodes()[j].id@
                                &&& final (self).spec_nodes()[j].name == old(
                                    self,
                                ).spec_nodes()[j].name
                                &&& final (self).spec_nodes()[j].type_ == old(
                                    self,
                                ).spec_nodes()[j].type_
                                &&& final (self).spec_nodes()[j].properties@ == old(
                                    self,
                                ).spec_nodes()[j].properties@.push(attrs)
                                &&& cmd_models(cmds@) =~= spec_property_bracket_cmds(
                                    old(self).spec_id(),
                                    node_id@,
                                    attrs,
                                    final (self).spec_nodes()[j].spec_property_ids(),
                                )
                            }
                        }
                },
                Err(e) => {
                    &&& *final (self) == *old(self)
                    &&& match e {
                        RegistryError::UnknownNode => !old(self).spec_has_node(node_id@),
                        RegistryError::InvalidPropertyId => {
                            &&& old(self).spec_has_node(node_id@)
                            &&& !spec_valid_topic_id(attrs.id@)
                            &&& forall|j: int|
                                0 <= j < old(self).spec_nodes().len() && (
                                #[trigger] old(self).spec_nodes()[j]).id@ == node_id@ ==> !old(
                                    self,
                                ).spec_nodes()[j].spec_has_property(attrs.id@)
                        },
                        _ => false,
                    }
                },
            },
    {
        let idx = match self.find_node(node_id) {
            Some(i) => i,
            None => {
                return Err(RegistryError::UnknownNode);
            },
        };
        if let Some(_) = find_property(&self.nodes[idx].properties, attrs.id.as_str()) {
            proof {
                assert(self.spec_nodes()[idx as int].spec_has_property(attrs.id@));
                assert forall|j: int|
                    0 <= j < self.spec_nodes().len() && (#[trigger] self.spec_nodes()[j]).id@
                        == node_id@ implies self.spec_nodes()[j].spec_has_property(
                    attrs.id@,
                ) by {
                    if j != idx {
                        assert(self.spec_nodes()[j].id@ == self.spec_nodes()[idx as int].id@);
                    }
                }
            }
            return Ok(Vec::new());
        }
        if !valid_topic_id(attrs.id.as_str()) {
            proof {
                assert forall|j: int|
                    0 <= j < self.spec_nodes().len() && (#[trigger] self.spec_nodes()[j]).id@
                        == node_id@ implies !self.spec_nodes()[j].spec_has_property(
                    attrs.id@,
                ) by {
                    if j != idx {
                        assert(self.spec_nodes()[j].id@ == self.spec_nodes()[idx as int].id@);
                    }
                }
            }
            return Err(RegistryError::InvalidPropertyId);
        }
        let ghost before = self.nodes@;
        let mut node = self.nodes.remove(idx);
        node.properties.push(attrs);
        let mut cmds: Vec<PublishCommand> = Vec::new();
        push_cmd(
            &mut cmds,
            device_topic(self.id.as_str(), "$state"),
            DeviceState::Init.to_text(),
            true,
        );
        advertise_property(
            self.id.as_str(),
            node_id,
            &node.properties[node.properties.len() - 1],
            &mut cmds,
        );
        let ids = property_ids(&node);
        push_cmd(
            &mut cmds,
            node_topic(self.id.as_str(), node_id, "$properties"),
            comma_join(&ids),
            true,
        );
        push_cmd(
            &mut cmds,
            device_topic(self.id.as_str(), "$state"),
            DeviceState::Ready.to_text(),
            true,
        );
        let ghost newnode = node;
        self.nodes.insert(idx, node);
        proof {
            assert(self.nodes@ =~= before.update(idx as int, newnode));
            assert(newnode.properties@ =~= before[idx as int].properties@.push(attrs));
            assert(newnode.wf());
            assert(self.wf());
            assert forall|j: int|
                0 <= j < before.len() && (#[trigger] before[j]).id@ == node_id@ implies j == idx
                    as int by {
                if j != idx {
                    assert(before[j].id@ == before[idx as int].id@);
                }
            }
            assert(cmd_models(cmds@) =~= spec_property_bracket_cmds(
                old(self).spec_id(),
                node_id@,
                attrs,
                newnode.spec_property_ids(),
            ));
        }
        Ok(cmds)
    }

    /// The graceful-shutdown announcement: the device leaves the bus
    /// as Disconnected. The caller publishes it and then closes the
    /// connection.
    pub fn disconnect(self) -> (c: PublishCommand)
        ensures
            c.topic@ =~= spec_device_topic(self.spec_id(), "$state"@),
            c.payload@ == DeviceState::Disconnected.spec_text(),
            c.retain,
    {
        PublishCommand {
            topic: device_topic(self.id.as_str(), "$state"),
            payload: DeviceState::Disconnected.to_text(),
            retain: true,
        }
    }
}

/// A device being configured, before it is announced as Ready: the
/// staged form of a [`Device`]. Building it performs the bring-up
/// sequence; any publish failure during bring-up must abort the whole
/// sequence, so the device never reaches Ready.
pub struct DeviceBuilder {
    device: Device,
}

impl DeviceBuilder {
    pub closed spec fn spec_id(self) -> Seq<char> {
        self.device.spec_id()
    }

    pub closed spec fn spec_nodes(self) -> Seq<NodeAttributes> {
        self.device.spec_nodes()
    }

    pub closed spec fn spec_node_ids(self) -> Seq<Seq<char>> {
        self.device.spec_node_ids()
    }

    pub closed spec fn spec_has_node(self, id: Seq<char>) -> bool {
        self.device.spec_has_node(id)
    }

    pub closed spec fn wf(self) -> bool {
        &&& self.device.wf()
        &&& self.device.spec_state() == DeviceState::Init
    }

    /// Starts the bring-up of a device: the convention version, state
    /// Init, and the display name, in that order. Nothing may be
    /// published for the device before these.
    pub fn new(id: String, name: String) -> (r: Result<
        (DeviceBuilder, Vec<PublishCommand>),
        RegistryError,
    >)
        ensures
            match r {
                Ok(p) => {
                    &&& spec_valid_topic_id(id@)
                    &&& p.0.wf()
                    &&& p.0.spec_id() == id@
                    &&& p.0.spec_nodes().len() == 0
                    &&& cmd_models(p.1@) =~= seq![
                        CmdModel {
                            topic: spec_device_topic(id@, "$homie"@),
                            payload: crate::HOMIE_VERSION@,
                            retain: true,
                        },
                        spec_state_cmd(id@, DeviceState::Init),
                        CmdModel {
                            topic: spec_device_topic(id@, "$name"@),
                            payload: name@,
                            retain: true,
                        },
                    ]
                },
                Err(e) => e == RegistryError::InvalidDeviceId && !spec_valid_topic_id(id@),
            },
    {
        if !valid_topic_id(id.as_str()) {
            return Err(RegistryError::InvalidDeviceId);
        }
        let mut cmds: Vec<PublishCommand> = Vec::new();
        push_cmd(
            &mut cmds,
            device_topic(id.as_str(), "$homie"),
            String::from_str(crate::HOMIE_VERSION),
            true,
        );
        push_cmd(&mut cmds, device_topic(id.as_str(), "$state"), DeviceState::Init.to_text(), true);
        push_cmd(&mut cmds, device_topic(id.as_str(), "$name"), name, true);
        let builder = DeviceBuilder {
            device: Device { id, state: DeviceState::Init, nodes: Vec::new() },
        };
        Ok((builder, cmds))
    }

    /// The last-will message to register before connecting: if the
    /// connection is lost uncleanly, the bus marks the device Lost on
    /// its behalf.
    pub fn last_will(&self) -> (w: LastWill)
        ensures
            w.topic@ =~= spec_device_topic(self.spec_id(), "$state"@),
            w.payload@ == DeviceState::Lost.spec_text(),
            w.retain,
    {
        LastWill {
            topic: device_topic(self.device.id.as_str(), "$state"),
            payload: DeviceState::Lost.to_text(),
            retain: true,
        }
    }

    /// Adds a statically configured node and returns its full
    /// advertisement: name, type, property-id list, and each
    /// property's metadata.
    pub fn node(&mut self, node: NodeAttributes) -> (r: Result<Vec<PublishCommand>, RegistryError>)
        requires
            old(self).wf(),
            node.formats_wf(),
        ensures
            final (self).wf(),
            final (self).spec_id() == old(self).spec_id(),
            match r {
                Ok(cmds) => {
                    &&& node.wf()
                    &&& !old(self).spec_has_node(node.id@)
                    &&& final (self).spec_nodes() == old(self).spec_nodes().push(node)
                    &&& cmd_models(cmds@) =~= spec_node_cmds(old(self).spec_id(), node)
                },
                Err(e) => {
                    &&& *final (self) == *old(self)
                    &&& match e {
                        RegistryError::InvalidNodeId => !spec_valid_topic_id(node.id@),
                        RegistryError::InvalidPropertyId => spec_valid_topic_id(node.id@)
                            && exists|i: int|
                            0 <= i < node.properties@.len() && !spec_valid_topic_id(
                                (#[trigger] node.properties@[i]).id@,
                            ),
                        RegistryError::DuplicatePropertyId => spec_valid_topic_id(node.id@)
                            && exists|i: int, j: int|
                            0 <= i < j < node.properties@.len() && node.properties@[i].id@
                                == node.properties@[j].id@,
                        RegistryError::DuplicateNodeId => node.wf() && old(self).spec_has_node(
                            node.id@,
                        ),
                        _ => false,
                    }
                },
            },
    {
        if let Some(e) = check_node_attrs(&node) {
            return Err(e);
        }
        proof {
            assert(forall|i: int|
                0 <= i < node.properties@.len() ==> (#[trigger] node.properties@[i]).wf());
            assert(node.wf());
        }
        if let Some(i) = self.device.find_node(node.id.as_str()) {
            proof {
                assert(self.device.spec_nodes()[i as int].id@ == node.id@);
                assert(old(self).spec_has_node(node.id@));
            }
            return Err(RegistryError::DuplicateNodeId);
        }
        let mut cmds: Vec<PublishCommand> = Vec::new();
        advertise_node(self.device.id.as_str(), &node, &mut cmds);
        self.device.nodes.push(node);
        proof {
            let oldn = old(self).spec_nodes();
            assert(forall|j: int| 0 <= j < oldn.len() ==> (#[trigger] oldn[j]).id@ != node.id@);
            assert(self.device.spec_nodes() =~= oldn.push(node));
            assert forall|i: int, j: int|
                0 <= i < j < self.device.spec_nodes().len() implies self.device.spec_nodes()[i].id@
                != self.device.spec_nodes()[j].id@ by {
                if j == oldn.len() as int {
                    assert(self.device.spec_nodes()[i] == oldn[i]);
                }
            }
            assert(self.device.wf());
        }
        Ok(cmds)
    }

    /// Finishes bring-up: publishes the aggregate node-id list and
    /// announces the device Ready. Only when every command so far has
    /// succeeded may the device be treated as live.
    pub fn build(self) -> (r: (Device, Vec<PublishCommand>))
        requires
            self.wf(),
        ensures
            r.0.wf(),
            r.0.spec_state() == DeviceState::Ready,
            r.0.spec_id() == self.spec_id(),
            r.0.spec_nodes() == self.spec_nodes(),
            cmd_models(r.1@) =~= seq![
                spec_nodes_list_cmd(self.spec_id(), self.spec_node_ids()),
                spec_state_cmd(self.spec_id(), DeviceState::Ready),
            ],
    {
        let mut cmds: Vec<PublishCommand> = Vec::new();
        let ids = node_ids_vec(&self.device.nodes);
        push_cmd(
            &mut cmds,
            device_topic(self.device.id.as_str(), "$nodes"),
            comma_join(&ids),
            true,
        );
        push_cmd(
            &mut cmds,
            device_topic(self.device.id.as_str(), "$state"),
            DeviceState::Ready.to_text(),
            true,
        );
        let mut device = self.device;
        device.state = DeviceState::Ready;
        proof {
            assert(device.spec_id() == self.spec_id());
            assert(device.spec_nodes() == self.spec_nodes());
            assert(device.wf());
        }
        (device, cmds)
    }
}

impl<'a> Property<'a> {
    /// The command that publishes a value for this property: no state
    /// transition, and the property's own retained flag.
    pub fn send(&self, payload: Payload) -> (c: PublishCommand)
        requires
            payload.wf(),
        ensures
            c.topic@ =~= spec_value_topic(self.device_id@, self.node_id@, self.attributes.id@),
            c.payload@ =~= payload.spec_text(),
            c.retain == self.attributes.retained,
    {
        PublishCommand {
            topic: value_topic(
                self.device_id.as_str(),
                self.node_id.as_str(),
                self.attributes.id.as_str(),
            ),
            payload: payload.to_text(),
            retain: self.attributes.retained,
        }
    }
}

} // verus!
