//! The per-family handlers: what each received frame does to the store and
//! which lines leave for the gateway or the controller. The surrounding
//! process feeds them from the interceptor's channels and forwards their
//! outputs.

use vstd::prelude::*;

use crate::proto::internal::{
    internal_type_code, render_internal, InternalMessage, InternalMessageView, InternalType,
};
use crate::proto::presentation::{render_presentation, PresentationMessage};
use crate::proto::set_msg::{render_set, SetMessage, Value};
use crate::proto::stream;
use crate::proto::stream::{render_stream, StreamMessage, StreamMessageView, StreamPayload, StreamPayloadView};
use crate::store::{Sensor, SensorOutcome, Store};
use crate::wire;

verus! {

/// The lines an INTERNAL frame produces: at most one reply towards the
/// gateway and at most one forward towards the controller.
pub struct InternalOutcome {
    pub gateway: Option<String>,
    pub controller: Option<String>,
}

/// A node asking for an address: the broadcast ID-request shape.
pub open spec fn is_id_request(v: InternalMessageView) -> bool {
    v.node_id == 255 && v.child_sensor_id == 255 && v.ack == 0 && v.sub_type
        == InternalType::IdRequest && v.payload == "0"@
}

/// A node reporting its parent after discovery.
pub open spec fn is_discover_response(v: InternalMessageView) -> bool {
    v.child_sensor_id == 255 && v.sub_type == InternalType::DiscoverResponse
}

/// The reply to an ID request once an address has been picked.
pub open spec fn id_response_line(id: u8) -> Seq<char> {
    render_internal(
        InternalMessageView {
            node_id: 255,
            child_sensor_id: 255,
            ack: 0,
            sub_type: InternalType::IdResponse,
            payload: wire::dec_render_u8(id),
        },
    )
}

/// Handle one INTERNAL frame. An ID request allocates the least free
/// address, records the new node and answers the gateway; when no address is
/// free the request is dropped. A discover response records the reported
/// parent, and is dropped when its payload is not a number. Every other
/// INTERNAL frame is forwarded to the controller unchanged.
pub fn handle_internal(store: &mut Store, message: &InternalMessage) -> (r: InternalOutcome)
    requires
        old(store).wf(),
    ensures
        final(store).wf(),
        final(store).sensors == old(store).sensors,
        final(store).firmwares == old(store).firmwares,
        ({
            let v = message@;
            if is_id_request(v) {
                &&& r.controller is None
                &&& if (forall|k: int| 1 <= k <= 254 ==> old(store).has_node(k)) {
                    r.gateway is None && *final(store) == *old(store)
                } else {
                    exists|id: u8|
                        {
                            &&& 1 <= id <= 254
                            &&& !old(store).has_node(id as int)
                            &&& forall|k: int| 1 <= k < id ==> old(store).has_node(k)
                            &&& final(store).nodes@ == old(store).nodes@.push(
                                final(store).nodes@.last(),
                            )
                            &&& final(store).nodes@.last()@ == (crate::store::NodeView {
                                node_id: id as i32,
                                node_name: "New Node"@,
                                firmware_type: 0,
                                firmware_version: 0,
                                desired_firmware_type: 0,
                                desired_firmware_version: 0,
                                auto_update: false,
                                scheduled: false,
                                parent_node_id: 0,
                            })
                            &&& (#[trigger] r.gateway) matches Some(line) && line@
                                == id_response_line(id)
                        }
                }
            } else if is_discover_response(v) {
                &&& r.gateway is None
                &&& r.controller is None
                &&& match wire::dec_parse_u8(v.payload) {
                    Some(parent) => if old(store).has_node(v.node_id as int) {
                        let j = old(store).node_index(v.node_id as int);
                        &&& final(store).nodes@.len() == old(store).nodes@.len()
                        &&& final(store).nodes@[j]@ == (crate::store::NodeView {
                            parent_node_id: parent as i32,
                            ..old(store).nodes@[j]@
                        })
                        &&& forall|k: int|
                            0 <= k < old(store).nodes@.len() && k != j ==> final(store).nodes@[k]
                                == old(store).nodes@[k]
                    } else {
                        *final(store) == *old(store)
                    },
                    None => *final(store) == *old(store),
                }
            } else {
                &&& r.gateway is None
                &&& r.controller matches Some(line) && line@ == render_internal(v)
                &&& *final(store) == *old(store)
            }
        }),
{
    let zero: String = "0".to_owned();
    if message.node_id == 255 && message.child_sensor_id == 255 && message.ack == 0
        && message.sub_type == InternalType::IdRequest && message.payload == zero {
        match store.get_next_node_id() {
            Some(new_node_id) => {
                let created = store.create_node(new_node_id as i32);
                proof {
                    assert(created is Ok);
                }
                let mut payload = String::new();
                wire::append_dec_u8(&mut payload, new_node_id);
                let response = InternalMessage {
                    node_id: 255,
                    child_sensor_id: 255,
                    ack: 0,
                    sub_type: InternalType::IdResponse,
                    payload,
                };
                let line = response.render();
                proof {
                    assert(Seq::<char>::empty() + wire::dec_render_u8(new_node_id)
                        =~= wire::dec_render_u8(new_node_id));
                }
                InternalOutcome { gateway: Some(line), controller: None }
            },
            None => InternalOutcome { gateway: None, controller: None },
        }
    } else if message.child_sensor_id == 255 && message.sub_type
        == InternalType::DiscoverResponse {
        match wire::parse_dec_u8(message.payload.as_str()) {
            Some(parent) => {
                store.update_network_topology(message.node_id as i32, parent as i32);
                InternalOutcome { gateway: None, controller: None }
            },
            None => InternalOutcome { gateway: None, controller: None },
        }
    } else {
        let line = message.render();
        InternalOutcome { gateway: None, controller: Some(line) }
    }
}

/// Handle one PRESENTATION frame: register the declared sensor (when its
/// parent node exists), announce a newly created sensor for the WoT bridge,
/// and always forward the frame's rendered line to the controller.
pub fn handle_presentation(store: &mut Store, message: &PresentationMessage) -> (r: (
    String,
    Option<(String, Sensor)>,
))
    requires
        old(store).wf(),
    ensures
        final(store).wf(),
        final(store).nodes == old(store).nodes,
        final(store).firmwares == old(store).firmwares,
        r.0@ == render_presentation(message@),
        ({
            let nid = message.node_id as int;
            let cid = message.child_sensor_id as int;
            let declared = crate::store::SensorView {
                node_id: message.node_id as i32,
                child_sensor_id: message.child_sensor_id as i32,
                sensor_type: message.sub_type,
                description: message.payload@,
            };
            if !old(store).has_node(nid) {
                *final(store) == *old(store) && r.1 is None
            } else if !old(store).has_sensor(nid, cid) {
                &&& final(store).sensors@ == old(store).sensors@.push(
                    final(store).sensors@.last(),
                )
                &&& final(store).sensors@.last()@ == declared
                &&& r.1 matches Some((name, sensor)) && name@ == old(store).node_at(
                    nid,
                ).node_name && sensor@ == declared
            } else if old(store).sensor_at(nid, cid) != declared {
                &&& final(store).sensors@.len() == old(store).sensors@.len()
                &&& final(store).sensors@[old(store).sensor_index(nid, cid)]@ == declared
                &&& forall|k: int|
                    0 <= k < old(store).sensors@.len() && k != old(store).sensor_index(nid, cid)
                        ==> final(store).sensors@[k] == old(store).sensors@[k]
                &&& r.1 is None
            } else {
                *final(store) == *old(store) && r.1 is None
            }
        }),
{
    let (outcome, signal) = store.create_or_update_sensor(message);
    proof {
        match outcome {
            SensorOutcome::NoParent => {},
            SensorOutcome::Created => {},
            SensorOutcome::Updated => {},
            SensorOutcome::Unchanged => {},
        }
    }
    let line = message.render();
    (line, signal)
}

/// Relay one SET frame that arrived from the gateway: its rendered line goes
/// to the controller and the frame itself to the WoT property notifier.
pub fn handle_from_gateway(message: &SetMessage) -> (r: (String, SetMessage))
    ensures
        r.0@ == render_set(message@),
        r.1@ == message@,
{
    let line = message.render();
    let notify = SetMessage {
        node_id: message.node_id,
        child_sensor_id: message.child_sensor_id,
        ack: message.ack,
        value: Value {
            set_type: message.value.set_type,
            value: message.value.value.clone(),
        },
    };
    (line, notify)
}

/// Relay one SET frame injected by the WoT bridge: its rendered line goes to
/// the gateway.
pub fn handle_from_controller(message: &SetMessage) -> (r: String)
    ensures
        r@ == render_set(message@),
{
    message.render()
}

/// Handle one STREAM frame; the returned line, if any, goes to the gateway.
///
/// A firmware-config request from a known node first records what the node
/// advertised it runs, then answers with the shape of the node's desired
/// firmware; the request is dropped when the node is unknown or no such
/// firmware is stored. A block request is answered with the requested block
/// of the named firmware, and dropped when that firmware is not stored.
/// Inbound response frames are ignored.
pub fn handle_stream(store: &mut Store, message: &StreamMessage) -> (r: Option<String>)
    requires
        old(store).wf(),
    ensures
        final(store).wf(),
        final(store).sensors == old(store).sensors,
        final(store).firmwares == old(store).firmwares,
        ({
            let v = message@;
            match v.payload {
                StreamPayloadView::FwConfigRequest(req) => if !old(store).has_node(
                    v.node_id as int,
                ) {
                    *final(store) == *old(store) && r is None
                } else {
                    let j = old(store).node_index(v.node_id as int);
                    let node = old(store).nodes@[j]@;
                    &&& final(store).nodes@.len() == old(store).nodes@.len()
                    &&& final(store).nodes@[j]@ == (crate::store::NodeView {
                        firmware_type: req.firmware_type as i32,
                        firmware_version: req.firmware_version as i32,
                        ..node
                    })
                    &&& forall|k: int|
                        0 <= k < old(store).nodes@.len() && k != j ==> final(store).nodes@[k]
                            == old(store).nodes@[k]
                    &&& if old(store).has_firmware(
                        node.desired_firmware_type as int,
                        node.desired_firmware_version as int,
                    ) {
                        r matches Some(line) && line@ == render_stream(
                            StreamMessageView {
                                node_id: v.node_id,
                                child_sensor_id: v.child_sensor_id,
                                ack: v.ack,
                                sub_type: stream::response_sub_type(v.sub_type),
                                payload: stream::response_payload(
                                    v.payload,
                                    old(store).firmware_at(
                                        node.desired_firmware_type as int,
                                        node.desired_firmware_version as int,
                                    ),
                                ),
                            },
                        )
                    } else {
                        r is None
                    }
                },
                StreamPayloadView::FwRequest(req) => {
                    &&& *final(store) == *old(store)
                    &&& if old(store).has_firmware(
                        req.firmware_type as int,
                        req.firmware_version as int,
                    ) {
                        r matches Some(line) && line@ == render_stream(
                            StreamMessageView {
                                node_id: v.node_id,
                                child_sensor_id: v.child_sensor_id,
                                ack: v.ack,
                                sub_type: stream::response_sub_type(v.sub_type),
                                payload: stream::response_payload(
                                    v.payload,
                                    old(store).firmware_at(
                                        req.firmware_type as int,
                                        req.firmware_version as int,
                                    ),
                                ),
                            },
                        )
                    } else {
                        r is None
                    }
                },
                _ => *final(store) == *old(store) && r is None,
            }
        }),
{
    let (fw_type, fw_version) = match &message.payload {
        StreamPayload::FwConfigRequest(req) => {
            let j = match store.find_node(message.node_id as i32) {
                Some(j) => j,
                None => {
                    return None;
                },
            };
            let desired_type = store.nodes[j].desired_firmware_type as u16;
            let desired_version = store.nodes[j].desired_firmware_version as u16;
            store.update_node_firmware(
                message.node_id as i32,
                req.firmware_type,
                req.firmware_version,
            );
            (desired_type, desired_version)
        },
        StreamPayload::FwRequest(req) => (req.firmware_type, req.firmware_version),
        _ => {
            return None;
        },
    };
    let j = match store.find_firmware(fw_type as i32, fw_version as i32) {
        Some(j) => j,
        None => {
            return None;
        },
    };
    let mut response = *message;
    response.response(&store.firmwares[j]);
    Some(response.render())
}

} // verus!
