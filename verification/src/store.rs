//! The persistent records the proxy keeps: nodes, their sensors, and
//! firmware images, together with the table invariants and operations the
//! handlers rely on.

use vstd::prelude::*;

use crate::firmware::{firmware_wf, Firmware, FirmwareView, NewFirmware};
use crate::proto::presentation::PresentationType;

verus! {

/// The `{status, message}` envelope the HTTP layer reports store results
/// with.
#[derive(Debug, Clone)]
pub struct Msgs {
    pub status: u16,
    pub message: String,
}

/// One node of the radio network. `node_id` identifies it; the firmware
/// fields mirror what the node last advertised, the desired fields say what
/// it should be running.
#[derive(Debug, Clone)]
pub struct Node {
    pub node_id: i32,
    pub node_name: String,
    pub firmware_type: i32,
    pub firmware_version: i32,
    pub desired_firmware_type: i32,
    pub desired_firmware_version: i32,
    pub auto_update: bool,
    pub scheduled: bool,
    pub parent_node_id: i32,
}

/// The mathematical shape of a node record.
pub struct NodeView {
    pub node_id: i32,
    pub node_name: Seq<char>,
    pub firmware_type: i32,
    pub firmware_version: i32,
    pub desired_firmware_type: i32,
    pub desired_firmware_version: i32,
    pub auto_update: bool,
    pub scheduled: bool,
    pub parent_node_id: i32,
}

impl View for Node {
    type V = NodeView;

    open spec fn view(&self) -> NodeView {
        NodeView {
            node_id: self.node_id,
            node_name: self.node_name@,
            firmware_type: self.firmware_type,
            firmware_version: self.firmware_version,
            desired_firmware_type: self.desired_firmware_type,
            desired_firmware_version: self.desired_firmware_version,
            auto_update: self.auto_update,
            scheduled: self.scheduled,
            parent_node_id: self.parent_node_id,
        }
    }
}

impl Node {
    /// The node's wire address.
    pub fn node_id(&self) -> (r: u8)
        requires
            0 <= self.node_id <= 255,
        ensures
            r == self.node_id,
    {
        self.node_id as u8
    }
}

/// One sensor of a node, keyed by `(node_id, child_sensor_id)`.
#[derive(Debug, Clone)]
pub struct Sensor {
    pub node_id: i32,
    pub child_sensor_id: i32,
    pub sensor_type: PresentationType,
    pub description: String,
}

/// The mathematical shape of a sensor record.
pub struct SensorView {
    pub node_id: i32,
    pub child_sensor_id: i32,
    pub sensor_type: PresentationType,
    pub description: Seq<char>,
}

impl View for Sensor {
    type V = SensorView;

    open spec fn view(&self) -> SensorView {
        SensorView {
            node_id: self.node_id,
            child_sensor_id: self.child_sensor_id,
            sensor_type: self.sensor_type,
            description: self.description@,
        }
    }
}

/// No two node records share an address.
pub open spec fn nodes_unique(nodes: Seq<Node>) -> bool {
    forall|j: int, k: int|
        #![trigger nodes[j].node_id, nodes[k].node_id]
        0 <= j < k < nodes.len() ==> nodes[j].node_id != nodes[k].node_id
}

/// No two sensor records share a `(node, child)` key.
pub open spec fn sensors_unique(sensors: Seq<Sensor>) -> bool {
    forall|j: int, k: int|
        #![trigger sensors[j].node_id, sensors[k].node_id]
        0 <= j < k < sensors.len() ==> !(sensors[j].node_id == sensors[k].node_id
            && sensors[j].child_sensor_id == sensors[k].child_sensor_id)
}

/// No two firmware records share a `(type, version)` key.
pub open spec fn firmwares_unique(firmwares: Seq<Firmware>) -> bool {
    forall|j: int, k: int|
        #![trigger firmwares[j].firmware_type, firmwares[k].firmware_type]
        0 <= j < k < firmwares.len() ==> !(firmwares[j].firmware_type
            == firmwares[k].firmware_type && firmwares[j].firmware_version
            == firmwares[k].firmware_version)
}

/// The three tables the handlers read and write.
#[derive(Debug)]
pub struct Store {
    pub nodes: Vec<Node>,
    pub sensors: Vec<Sensor>,
    pub firmwares: Vec<Firmware>,
}

impl Store {
    /// The invariant of the tables: unique keys, wire-representable
    /// addresses, and firmware records that satisfy their integrity
    /// invariant.
    pub open spec fn wf(self) -> bool {
        &&& nodes_unique(self.nodes@)
        &&& forall|j: int|
            0 <= j < self.nodes@.len() ==> 1 <= (#[trigger] self.nodes@[j]).node_id <= 254
        &&& forall|j: int|
            0 <= j < self.nodes@.len() ==> {
                &&& 0 <= (#[trigger] self.nodes@[j]).firmware_type <= 0xFFFF
                &&& 0 <= self.nodes@[j].firmware_version <= 0xFFFF
                &&& 0 <= self.nodes@[j].desired_firmware_type <= 0xFFFF
                &&& 0 <= self.nodes@[j].desired_firmware_version <= 0xFFFF
            }
        &&& sensors_unique(self.sensors@)
        &&& forall|j: int|
            0 <= j < self.sensors@.len() ==> {
                &&& 0 <= (#[trigger] self.sensors@[j]).node_id <= 255
                &&& 0 <= self.sensors@[j].child_sensor_id <= 255
            }
        &&& firmwares_unique(self.firmwares@)
        &&& forall|j: int| 0 <= j < self.firmwares@.len() ==> firmware_wf(
            (#[trigger] self.firmwares@[j])@,
        )
    }

    /// An empty store.
    pub fn new() -> (r: Store)
        ensures
            r.wf(),
            r.nodes@.len() == 0,
            r.sensors@.len() == 0,
            r.firmwares@.len() == 0,
    {
        Store { nodes: Vec::new(), sensors: Vec::new(), firmwares: Vec::new() }
    }

    /// Whether a node with this address exists.
    pub open spec fn has_node(self, id: int) -> bool {
        exists|j: int| 0 <= j < self.nodes@.len() && (#[trigger] self.nodes@[j]).node_id == id
    }

    /// The position of the node with this address.
    pub open spec fn node_index(self, id: int) -> int {
        choose|j: int| 0 <= j < self.nodes@.len() && (#[trigger] self.nodes@[j]).node_id == id
    }

    /// The node record with this address.
    pub open spec fn node_at(self, id: int) -> NodeView {
        self.nodes@[self.node_index(id)]@
    }

    /// Find the position of a node by address.
    pub fn find_node(&self, node_id: i32) -> (r: Option<usize>)
        requires
            self.wf(),
        ensures
            (match r {
                Some(j) => j == self.node_index(node_id as int) && self.has_node(node_id as int)
                    && j < self.nodes@.len() && self.nodes@[j as int].node_id == node_id,
                None => !self.has_node(node_id as int),
            }),
    {
        let n = self.nodes.len();
        let mut j: usize = 0;
        while j < n
            invariant
                self.wf(),
                0 <= j <= n == self.nodes@.len(),
                forall|k: int| 0 <= k < j ==> (#[trigger] self.nodes@[k]).node_id != node_id,
            decreases n - j,
        {
            if self.nodes[j].node_id == node_id {
                proof {
                    assert(self.has_node(node_id as int));
                    let c = self.node_index(node_id as int);
                    assert(self.nodes@[c].node_id == node_id);
                    if c != j {
                        assert(self.nodes@[j as int].node_id != self.nodes@[c].node_id);
                    }
                }
                return Some(j);
            }
            j = j + 1;
        }
        proof {
            if self.has_node(node_id as int) {
                let c = self.node_index(node_id as int);
                assert(self.nodes@[c].node_id == node_id);
            }
        }
        None
    }

    /// The least free node address, if one is left. A returned address is in
    /// `[1, 254]`, taken by no node, and every smaller positive address is
    /// taken; nothing is returned only when all 254 addresses are taken.
    pub fn get_next_node_id(&self) -> (r: Option<u8>)
        requires
            self.wf(),
        ensures
            (match r {
                Some(id) => 1 <= id <= 254 && !self.has_node(id as int) && forall|k: int|
                    1 <= k < id ==> self.has_node(k),
                None => forall|k: int| 1 <= k <= 254 ==> self.has_node(k),
            }),
    {
        let mut candidate: u8 = 1;
        while candidate <= 254
            invariant
                self.wf(),
                1 <= candidate <= 255,
                forall|k: int| 1 <= k < candidate ==> self.has_node(k),
            decreases 255 - candidate,
        {
            if self.find_node(candidate as i32).is_none() {
                return Some(candidate);
            }
            candidate = candidate + 1;
        }
        None
    }

    /// Record a freshly allocated node with its default fields.
    pub fn create_node(&mut self, id: i32) -> (r: Result<(), ()>)
        requires
            old(self).wf(),
            1 <= id <= 254,
        ensures
            final(self).wf(),
            final(self).sensors == old(self).sensors,
            final(self).firmwares == old(self).firmwares,
            (match r {
                Ok(()) => !old(self).has_node(id as int) && final(self).nodes@ == old(
                    self,
                ).nodes@.push(final(self).nodes@.last()) && final(self).nodes@.last()@
                    == (NodeView {
                    node_id: id,
                    node_name: "New Node"@,
                    firmware_type: 0,
                    firmware_version: 0,
                    desired_firmware_type: 0,
                    desired_firmware_version: 0,
                    auto_update: false,
                    scheduled: false,
                    parent_node_id: 0,
                }),
                Err(()) => old(self).has_node(id as int) && *final(self) == *old(self),
            }),
    {
        if self.find_node(id).is_some() {
            return Err(());
        }
        let node = Node {
            node_id: id,
            node_name: "New Node".to_owned(),
            firmware_type: 0,
            firmware_version: 0,
            desired_firmware_type: 0,
            desired_firmware_version: 0,
            auto_update: false,
            scheduled: false,
            parent_node_id: 0,
        };
        let ghost old_nodes = self.nodes@;
        self.nodes.push(node);
        proof {
            assert forall|j: int, k: int|
                #![trigger self.nodes@[j].node_id, self.nodes@[k].node_id]
                0 <= j < k < self.nodes@.len() implies self.nodes@[j].node_id
                != self.nodes@[k].node_id by {
                if k == self.nodes@.len() - 1 {
                    assert(self.nodes@[j] == old_nodes[j]);
                }
            }
        }
        Ok(())
    }

    /// Record the parent a node reported in a discover response. Returns how
    /// many rows changed: one when the node exists, none otherwise.
    pub fn update_network_topology(&mut self, node_id: i32, parent_node_id: i32) -> (r: usize)
        requires
            old(self).wf(),
        ensures
            final(self).wf(),
            final(self).sensors == old(self).sensors,
            final(self).firmwares == old(self).firmwares,
            final(self).nodes@.len() == old(self).nodes@.len(),
            (if old(self).has_node(node_id as int) {
                r == 1 && {
                    let j = old(self).node_index(node_id as int);
                    &&& final(self).nodes@[j]@ == (NodeView {
                        parent_node_id: parent_node_id as int as i32,
                        ..old(self).nodes@[j]@
                    })
                    &&& forall|k: int|
                        0 <= k < old(self).nodes@.len() && k != j ==> final(self).nodes@[k] == old(
                            self,
                        ).nodes@[k]
                }
            } else {
                r == 0 && *final(self) == *old(self)
            }),
    {
        match self.find_node(node_id) {
            Some(j) => {
                let ghost old_nodes = self.nodes@;
                let old_node = self.nodes.remove(j);
                let new_node = Node { parent_node_id, ..old_node };
                self.nodes.insert(j, new_node);
                proof {
                    assert(self.nodes@ =~= old_nodes.update(j as int, self.nodes@[j as int]));
                }
                1
            },
            None => 0,
        }
    }

    /// Record the firmware a node advertised it is running.
    pub fn update_node_firmware(&mut self, node_id: i32, firmware_type: u16, firmware_version: u16)
        requires
            old(self).wf(),
        ensures
            final(self).wf(),
            final(self).sensors == old(self).sensors,
            final(self).firmwares == old(self).firmwares,
            final(self).nodes@.len() == old(self).nodes@.len(),
            (if old(self).has_node(node_id as int) {
                let j = old(self).node_index(node_id as int);
                &&& final(self).nodes@[j]@ == (NodeView {
                    firmware_type: firmware_type as i32,
                    firmware_version: firmware_version as i32,
                    ..old(self).nodes@[j]@
                })
                &&& forall|k: int|
                    0 <= k < old(self).nodes@.len() && k != j ==> final(self).nodes@[k] == old(
                        self,
                    ).nodes@[k]
            } else {
                *final(self) == *old(self)
            }),
    {
        match self.find_node(node_id) {
            Some(j) => {
                let ghost old_nodes = self.nodes@;
                let old_node = self.nodes.remove(j);
                let new_node = Node {
                    firmware_type: firmware_type as i32,
                    firmware_version: firmware_version as i32,
                    ..old_node
                };
                self.nodes.insert(j, new_node);
                proof {
                    assert(self.nodes@ =~= old_nodes.update(j as int, self.nodes@[j as int]));
                }
            },
            None => {},
        }
    }
}

/// What the sensor registry does with one presentation: nothing without the
/// parent node; otherwise a new record, an update of a changed record, or
/// nothing for an identical one.
pub enum SensorOutcome {
    NoParent,
    Created,
    Updated,
    Unchanged,
}

impl Store {
    /// Whether a sensor with this key exists.
    pub open spec fn has_sensor(self, node_id: int, child_sensor_id: int) -> bool {
        exists|j: int|
            0 <= j < self.sensors@.len() && (#[trigger] self.sensors@[j]).node_id == node_id
                && self.sensors@[j].child_sensor_id == child_sensor_id
    }

    /// The position of the sensor with this key.
    pub open spec fn sensor_index(self, node_id: int, child_sensor_id: int) -> int {
        choose|j: int|
            0 <= j < self.sensors@.len() && (#[trigger] self.sensors@[j]).node_id == node_id
                && self.sensors@[j].child_sensor_id == child_sensor_id
    }

    /// The sensor record with this key.
    pub open spec fn sensor_at(self, node_id: int, child_sensor_id: int) -> SensorView {
        self.sensors@[self.sensor_index(node_id, child_sensor_id)]@
    }

    /// Find the position of a sensor by key.
    pub fn find_sensor(&self, node_id: i32, child_sensor_id: i32) -> (r: Option<usize>)
        requires
            self.wf(),
        ensures
            (match r {
                Some(j) => j == self.sensor_index(node_id as int, child_sensor_id as int)
                    && self.has_sensor(node_id as int, child_sensor_id as int) && j
                    < self.sensors@.len() && self.sensors@[j as int].node_id == node_id
                    && self.sensors@[j as int].child_sensor_id == child_sensor_id,
                None => !self.has_sensor(node_id as int, child_sensor_id as int),
            }),
    {
        let n = self.sensors.len();
        let mut j: usize = 0;
        while j < n
            invariant
                self.wf(),
                0 <= j <= n == self.sensors@.len(),
                forall|k: int|
                    0 <= k < j ==> !((#[trigger] self.sensors@[k]).node_id == node_id
                        && self.sensors@[k].child_sensor_id == child_sensor_id),
            decreases n - j,
        {
            if self.sensors[j].node_id == node_id && self.sensors[j].child_sensor_id
                == child_sensor_id {
                proof {
                    assert(self.has_sensor(node_id as int, child_sensor_id as int));
                    let c = self.sensor_index(node_id as int, child_sensor_id as int);
                    if c != j {
                        assert(self.sensors@[c].node_id == self.sensors@[j as int].node_id
                            && self.sensors@[c].child_sensor_id == self.sensors@[
                        j as int].child_sensor_id);
                        assert(false);
                    }
                }
                return Some(j);
            }
            j = j + 1;
        }
        proof {
            if self.has_sensor(node_id as int, child_sensor_id as int) {
                let c = self.sensor_index(node_id as int, child_sensor_id as int);
                assert(self.sensors@[c].node_id == node_id);
            }
        }
        None
    }

    /// Register the sensor a presentation declares: nothing happens for an
    /// unknown parent node, an unknown key is inserted and announced with
    /// the parent's name, a changed record is rewritten, an identical one is
    /// left alone.
    pub fn create_or_update_sensor(&mut self, message: &crate::proto::presentation::PresentationMessage) -> (r: (
        SensorOutcome,
        Option<(String, Sensor)>,
    ))
        requires
            old(self).wf(),
        ensures
            final(self).wf(),
            final(self).nodes == old(self).nodes,
            final(self).firmwares == old(self).firmwares,
            ({
                let nid = message.node_id as int;
                let cid = message.child_sensor_id as int;
                let declared = SensorView {
                    node_id: message.node_id as i32,
                    child_sensor_id: message.child_sensor_id as i32,
                    sensor_type: message.sub_type,
                    description: message.payload@,
                };
                match r.0 {
                    SensorOutcome::NoParent => !old(self).has_node(nid) && *final(self) == *old(
                        self,
                    ) && r.1 is None,
                    SensorOutcome::Created => {
                        &&& old(self).has_node(nid)
                        &&& !old(self).has_sensor(nid, cid)
                        &&& final(self).sensors@ == old(self).sensors@.push(
                            final(self).sensors@.last(),
                        )
                        &&& final(self).sensors@.last()@ == declared
                        &&& r.1 matches Some((name, sensor)) && name@ == old(self).node_at(
                            nid,
                        ).node_name && sensor@ == declared
                    },
                    SensorOutcome::Updated => {
                        &&& old(self).has_node(nid)
                        &&& old(self).has_sensor(nid, cid)
                        &&& old(self).sensor_at(nid, cid) != declared
                        &&& final(self).sensors@.len() == old(self).sensors@.len()
                        &&& final(self).sensors@[old(self).sensor_index(nid, cid)]@ == declared
                        &&& forall|k: int|
                            0 <= k < old(self).sensors@.len() && k != old(self).sensor_index(
                                nid,
                                cid,
                            ) ==> final(self).sensors@[k] == old(self).sensors@[k]
                        &&& r.1 is None
                    },
                    SensorOutcome::Unchanged => {
                        &&& old(self).has_node(nid)
                        &&& old(self).has_sensor(nid, cid)
                        &&& old(self).sensor_at(nid, cid) == declared
                        &&& *final(self) == *old(self)
                        &&& r.1 is None
                    },
                }
            }),
    {
        let nid = message.node_id as i32;
        let cid = message.child_sensor_id as i32;
        let parent = match self.find_node(nid) {
            Some(j) => j,
            None => {
                return (SensorOutcome::NoParent, None);
            },
        };
        match self.find_sensor(nid, cid) {
            None => {
                let sensor = Sensor {
                    node_id: nid,
                    child_sensor_id: cid,
                    sensor_type: message.sub_type,
                    description: message.payload.clone(),
                };
                let signal_sensor = Sensor {
                    node_id: nid,
                    child_sensor_id: cid,
                    sensor_type: message.sub_type,
                    description: message.payload.clone(),
                };
                let name = self.nodes[parent].node_name.clone();
                let ghost old_sensors = self.sensors@;
                self.sensors.push(sensor);
                proof {
                    assert forall|j: int, k: int|
                        #![trigger self.sensors@[j].node_id, self.sensors@[k].node_id]
                        0 <= j < k < self.sensors@.len() implies !(self.sensors@[j].node_id
                        == self.sensors@[k].node_id && self.sensors@[j].child_sensor_id
                        == self.sensors@[k].child_sensor_id) by {
                        if k == self.sensors@.len() - 1 {
                            assert(self.sensors@[j] == old_sensors[j]);
                        }
                    }
                }
                (SensorOutcome::Created, Some((name, signal_sensor)))
            },
            Some(j) => {
                let same = self.sensors[j].sensor_type.type_code() == message.sub_type.type_code()
                    && self.sensors[j].description == message.payload;
                proof {
                    let a = self.sensors@[j as int].sensor_type;
                    let b = message.sub_type;
                    if crate::proto::presentation::presentation_code(a)
                        == crate::proto::presentation::presentation_code(b) {
                        assert(a == b);
                    }
                }
                if same {
                    (SensorOutcome::Unchanged, None)
                } else {
                    let ghost old_sensors = self.sensors@;
                    let old_sensor = self.sensors.remove(j);
                    let new_sensor = Sensor {
                        sensor_type: message.sub_type,
                        description: message.payload.clone(),
                        ..old_sensor
                    };
                    self.sensors.insert(j, new_sensor);
                    proof {
                        assert(self.sensors@ =~= old_sensors.update(
                            j as int,
                            self.sensors@[j as int],
                        ));
                    }
                    (SensorOutcome::Updated, None)
                }
            },
        }
    }

    /// The sensor with a key, if any.
    pub fn get_sensor(&self, node_id: i32, child_sensor_id: i32) -> (r: Option<&Sensor>)
        requires
            self.wf(),
        ensures
            (match r {
                Some(s) => self.has_sensor(node_id as int, child_sensor_id as int) && s@
                    == self.sensor_at(node_id as int, child_sensor_id as int),
                None => !self.has_sensor(node_id as int, child_sensor_id as int),
            }),
    {
        match self.find_sensor(node_id, child_sensor_id) {
            Some(j) => Some(&self.sensors[j]),
            None => None,
        }
    }

    /// Delete the sensor with a key; a missing key is reported as a client
    /// error.
    pub fn delete_sensor(&mut self, node_id: i32, child_sensor_id: i32) -> (r: Msgs)
        requires
            old(self).wf(),
        ensures
            final(self).wf(),
            final(self).nodes == old(self).nodes,
            final(self).firmwares == old(self).firmwares,
            (if old(self).has_sensor(node_id as int, child_sensor_id as int) {
                r.status == 200 && final(self).sensors@ == old(self).sensors@.remove(
                    old(self).sensor_index(node_id as int, child_sensor_id as int),
                )
            } else {
                r.status == 400 && *final(self) == *old(self)
            }),
    {
        match self.find_sensor(node_id, child_sensor_id) {
            Some(j) => {
                self.sensors.remove(j);
                proof {
                    let s = self.sensors@;
                    assert forall|a: int, b: int|
                        #![trigger s[a].node_id, s[b].node_id]
                        0 <= a < b < s.len() implies !(s[a].node_id == s[b].node_id
                        && s[a].child_sensor_id == s[b].child_sensor_id) by {
                        assert(s[a] == if a < j as int {
                            old(self).sensors@[a]
                        } else {
                            old(self).sensors@[a + 1]
                        });
                        assert(s[b] == if b < j as int {
                            old(self).sensors@[b]
                        } else {
                            old(self).sensors@[b + 1]
                        });
                    }
                }
                Msgs { status: 200, message: "deleted sensor.".to_owned() }
            },
            None => Msgs {
                status: 400,
                message: "delete failed. sensor not present".to_owned(),
            },
        }
    }
}

/// Whether the auto-upgrade rule applies to a node when a firmware with this
/// type and version appears: the node opted in, follows that type, and
/// desires an older version.
pub open spec fn auto_affected(n: NodeView, firmware_type: int, firmware_version: int) -> bool {
    n.auto_update && n.desired_firmware_type == firmware_type && n.desired_firmware_version
        < firmware_version
}

/// How many nodes the auto-upgrade rule applies to.
pub open spec fn auto_affected_count(
    nodes: Seq<Node>,
    firmware_type: int,
    firmware_version: int,
) -> int
    decreases nodes.len(),
{
    if nodes.len() == 0 {
        0
    } else {
        auto_affected_count(nodes.drop_last(), firmware_type, firmware_version) + (
        if auto_affected(nodes.last()@, firmware_type, firmware_version) {
            1int
        } else {
            0int
        })
    }
}

impl Store {
    /// Whether a firmware with this key exists.
    pub open spec fn has_firmware(self, firmware_type: int, firmware_version: int) -> bool {
        exists|j: int|
            0 <= j < self.firmwares@.len() && (#[trigger] self.firmwares@[j]).firmware_type
                == firmware_type && self.firmwares@[j].firmware_version == firmware_version
    }

    /// The position of the firmware with this key.
    pub open spec fn firmware_index(self, firmware_type: int, firmware_version: int) -> int {
        choose|j: int|
            0 <= j < self.firmwares@.len() && (#[trigger] self.firmwares@[j]).firmware_type
                == firmware_type && self.firmwares@[j].firmware_version == firmware_version
    }

    /// The firmware record with this key.
    pub open spec fn firmware_at(self, firmware_type: int, firmware_version: int) -> FirmwareView {
        self.firmwares@[self.firmware_index(firmware_type, firmware_version)]@
    }

    /// Find the position of a firmware by key.
    pub fn find_firmware(&self, firmware_type: i32, firmware_version: i32) -> (r: Option<usize>)
        requires
            self.wf(),
        ensures
            (match r {
                Some(j) => j == self.firmware_index(firmware_type as int, firmware_version as int)
                    && self.has_firmware(firmware_type as int, firmware_version as int) && j
                    < self.firmwares@.len() && self.firmwares@[j as int].firmware_type
                    == firmware_type && self.firmwares@[j as int].firmware_version
                    == firmware_version,
                None => !self.has_firmware(firmware_type as int, firmware_version as int),
            }),
    {
        let n = self.firmwares.len();
        let mut j: usize = 0;
        while j < n
            invariant
                self.wf(),
                0 <= j <= n == self.firmwares@.len(),
                forall|k: int|
                    0 <= k < j ==> !((#[trigger] self.firmwares@[k]).firmware_type == firmware_type
                        && self.firmwares@[k].firmware_version == firmware_version),
            decreases n - j,
        {
            if self.firmwares[j].firmware_type == firmware_type
                && self.firmwares[j].firmware_version == firmware_version {
                proof {
                    assert(self.has_firmware(firmware_type as int, firmware_version as int));
                    let c = self.firmware_index(firmware_type as int, firmware_version as int);
                    if c != j {
                        assert(self.firmwares@[c].firmware_type == self.firmwares@[
                        j as int].firmware_type && self.firmwares@[c].firmware_version
                            == self.firmwares@[j as int].firmware_version);
                        assert(false);
                    }
                }
                return Some(j);
            }
            j = j + 1;
        }
        proof {
            if self.has_firmware(firmware_type as int, firmware_version as int) {
                let c = self.firmware_index(firmware_type as int, firmware_version as int);
                assert(self.firmwares@[c].firmware_type == firmware_type);
            }
        }
        None
    }

    /// The firmware with a key, if any.
    pub fn get_firmware(&self, firmware_type: i32, firmware_version: i32) -> (r: Option<&Firmware>)
        requires
            self.wf(),
        ensures
            (match r {
                Some(f) => self.has_firmware(firmware_type as int, firmware_version as int) && f@
                    == self.firmware_at(firmware_type as int, firmware_version as int),
                None => !self.has_firmware(firmware_type as int, firmware_version as int),
            }),
    {
        match self.find_firmware(firmware_type, firmware_version) {
            Some(j) => Some(&self.firmwares[j]),
            None => None,
        }
    }

    /// Apply the auto-upgrade rule for a newly stored firmware: every node
    /// with `auto_update` set, following this firmware type and desiring an
    /// older version, now desires this version and is scheduled; every other
    /// node is unchanged. Returns how many nodes were upgraded.
    #[verifier::rlimit(100)]
    pub fn auto_update_nodes(&mut self, firmware_type: i32, firmware_version: i32) -> (count:
        usize)
        requires
            old(self).wf(),
            0 <= firmware_version <= 0xFFFF,
        ensures
            final(self).wf(),
            final(self).sensors == old(self).sensors,
            final(self).firmwares == old(self).firmwares,
            final(self).nodes@.len() == old(self).nodes@.len(),
            forall|k: int|
                0 <= k < old(self).nodes@.len() && auto_affected(
                    (#[trigger] old(self).nodes@[k])@,
                    firmware_type as int,
                    firmware_version as int,
                ) ==> final(self).nodes@[k]@ == (NodeView {
                    desired_firmware_version: firmware_version as int as i32,
                    scheduled: true,
                    ..old(self).nodes@[k]@
                }),
            forall|k: int|
                0 <= k < old(self).nodes@.len() && !auto_affected(
                    (#[trigger] old(self).nodes@[k])@,
                    firmware_type as int,
                    firmware_version as int,
                ) ==> final(self).nodes@[k] == old(self).nodes@[k],
            count == auto_affected_count(
                old(self).nodes@,
                firmware_type as int,
                firmware_version as int,
            ),
    {
        let ghost orig = self.nodes@;
        let n = self.nodes.len();
        let mut count: usize = 0;
        let mut j: usize = 0;
        while j < n
            invariant
                old(self).wf(),
                0 <= firmware_version <= 0xFFFF,
                0 <= j <= n == orig.len(),
                orig == old(self).nodes@,
                self.sensors == old(self).sensors,
                self.firmwares == old(self).firmwares,
                self.nodes@.len() == orig.len(),
                forall|k: int|
                    j <= k < orig.len() ==> self.nodes@[k] == (#[trigger] orig[k]),
                forall|k: int|
                    0 <= k < j && auto_affected((#[trigger] orig[k])@, firmware_type as int, firmware_version as int)
                        ==> self.nodes@[k]@ == (NodeView {
                        desired_firmware_version: firmware_version as int as i32,
                        scheduled: true,
                        ..orig[k]@
                    }),
                forall|k: int|
                    0 <= k < j && !auto_affected((#[trigger] orig[k])@, firmware_type as int, firmware_version as int) ==> self.nodes@[k]
                        == orig[k],
                count == auto_affected_count(orig.take(j as int), firmware_type as int, firmware_version as int),
                count <= j,
            decreases n - j,
        {
            proof {
                assert(orig.take(j + 1).drop_last() =~= orig.take(j as int));
                assert(orig.take(j + 1).last() == orig[j as int]);
            }
            let ghost entry = self.nodes@;
            let affected = self.nodes[j].auto_update && self.nodes[j].desired_firmware_type
                == firmware_type && self.nodes[j].desired_firmware_version < firmware_version;
            proof {
                assert(entry[j as int] == orig[j as int]);
                assert(affected == auto_affected(orig[j as int]@, firmware_type as int, firmware_version as int));
            }
            if affected {
                let old_node = self.nodes.remove(j);
                let new_node = Node {
                    desired_firmware_version: firmware_version,
                    scheduled: true,
                    ..old_node
                };
                self.nodes.insert(j, new_node);
                proof {
                    assert(self.nodes@ =~= entry.update(j as int, self.nodes@[j as int]));
                    assert(self.nodes@[j as int] == new_node);
                    assert(new_node@ == (NodeView {
                        desired_firmware_version: firmware_version as int as i32,
                        scheduled: true,
                        ..orig[j as int]@
                    }));
                }
                count = count + 1;
            }
            proof {
                assert forall|k: int|
                    0 <= k < j + 1 && auto_affected((#[trigger] orig[k])@, firmware_type as int, firmware_version as int)
                    implies self.nodes@[k]@ == (NodeView {
                    desired_firmware_version: firmware_version as int as i32,
                    scheduled: true,
                    ..orig[k]@
                }) by {
                    if k < j {
                        assert(self.nodes@[k] == entry[k]);
                        assert(entry[k]@ == (NodeView {
                            desired_firmware_version: firmware_version as int as i32,
                            scheduled: true,
                            ..orig[k]@
                        }));
                    } else {
                        assert(affected);
                    }
                }
                assert forall|k: int|
                    0 <= k < j + 1 && !auto_affected((#[trigger] orig[k])@, firmware_type as int, firmware_version as int)
                    implies self.nodes@[k] == orig[k] by {
                    if k < j {
                        assert(self.nodes@[k] == entry[k]);
                        assert(entry[k] == orig[k]);
                    } else {
                        assert(!affected);
                        assert(self.nodes@[k] == entry[k]);
                    }
                }
            }
            j = j + 1;
        }
        proof {
            assert(orig.take(n as int) =~= orig);
            assert forall|a: int, b: int|
                #![trigger self.nodes@[a].node_id, self.nodes@[b].node_id]
                0 <= a < b < self.nodes@.len() implies self.nodes@[a].node_id
                != self.nodes@[b].node_id by {
                assert(self.nodes@[a].node_id == orig[a].node_id);
                assert(self.nodes@[b].node_id == orig[b].node_id);
            }
            assert forall|k: int|
                0 <= k < self.nodes@.len() implies 1 <= (#[trigger] self.nodes@[k]).node_id <= 254
                && 0 <= self.nodes@[k].firmware_type <= 0xFFFF && 0
                <= self.nodes@[k].firmware_version <= 0xFFFF && 0
                <= self.nodes@[k].desired_firmware_type <= 0xFFFF && 0
                <= self.nodes@[k].desired_firmware_version <= 0xFFFF by {
                assert(orig[k] == old(self).nodes@[k]);
            }
        }
        count
    }
}

/// The firmware store invariant, spelled out: every record of a well-formed
/// store is page-padded, carries the block count its data derives, and the
/// MODBUS checksum of exactly that data.
pub proof fn lemma_firmware_store_invariants(s: Store, j: int)
    requires
        s.wf(),
        0 <= j < s.firmwares@.len(),
    ensures
        s.firmwares@[j]@.data.len() % 128 == 0,
        s.firmwares@[j]@.blocks == s.firmwares@[j]@.data.len() / 16,
        s.firmwares@[j]@.crc == crate::firmware::crc16_modbus(s.firmwares@[j]@.data),
{
}

/// A request to register a node by hand.
#[derive(Debug, Clone)]
pub struct NewNode {
    pub node_id: i32,
    pub node_name: String,
    pub firmware_type: i32,
    pub firmware_version: i32,
    pub auto_update: bool,
    pub scheduled: bool,
}

/// A request to change a node's name, desired firmware and update flags.
#[derive(Debug, Clone)]
pub struct NodeUpdate {
    pub node_id: i32,
    pub node_name: String,
    pub firmware_type: i32,
    pub firmware_version: i32,
    pub auto_update: bool,
    pub scheduled: bool,
}

/// A firmware upload, destined either for a new slot or over an existing
/// one.
pub enum CreateOrUpdate {
    Create(NewFirmware),
    Update(NewFirmware),
}

/// An upload whose fields agree with each other and fit the wire protocol:
/// page-padded data, the block count and checksum derived from it, and a
/// 16-bit key. `NewFirmware::build` produces exactly such uploads.
pub open spec fn upload_consistent(v: crate::firmware::NewFirmwareView) -> bool {
    &&& v.data.len() % 128 == 0
    &&& v.blocks == v.data.len() / 16
    &&& 0 <= v.blocks <= 0xFFFF
    &&& v.crc == crate::firmware::crc16_modbus(v.data)
    &&& 0 <= v.firmware_type <= 0xFFFF
    &&& 0 <= v.firmware_version <= 0xFFFF
}

/// What storing an upload does to the node table: the auto-upgrade rule
/// applied for the upload's key, with the count of nodes it scheduled.
pub open spec fn upload_auto_upgrade_effect(
    before: Store,
    after: Store,
    nf: crate::firmware::NewFirmwareView,
    count: int,
) -> bool {
    &&& after.nodes@.len() == before.nodes@.len()
    &&& forall|k: int|
        0 <= k < before.nodes@.len() && auto_affected(
            (#[trigger] before.nodes@[k])@,
            nf.firmware_type as int,
            nf.firmware_version as int,
        ) ==> after.nodes@[k]@ == (NodeView {
            desired_firmware_version: nf.firmware_version,
            scheduled: true,
            ..before.nodes@[k]@
        })
    &&& forall|k: int|
        0 <= k < before.nodes@.len() && !auto_affected(
            (#[trigger] before.nodes@[k])@,
            nf.firmware_type as int,
            nf.firmware_version as int,
        ) ==> after.nodes@[k] == before.nodes@[k]
    &&& count == auto_affected_count(
        before.nodes@,
        nf.firmware_type as int,
        nf.firmware_version as int,
    )
}

impl Store {
    /// Check an upload before letting it into the table: its block count and
    /// checksum must be the ones its data derives, and its key must fit the
    /// wire protocol.
    fn check_upload(nf: &NewFirmware) -> (r: bool)
        ensures
            r == upload_consistent(nf@),
    {
        if !(0 <= nf.firmware_type && nf.firmware_type <= 0xFFFF && 0 <= nf.firmware_version
            && nf.firmware_version <= 0xFFFF) {
            return false;
        }
        if nf.data.len() % 128 != 0 {
            return false;
        }
        if !(0 <= nf.blocks && nf.blocks <= 0xFFFF && nf.blocks as usize == nf.data.len() / 16) {
            return false;
        }
        let crc = Firmware::compute_crc(nf.data.as_slice());
        if !(0 <= nf.crc && nf.crc <= 0xFFFF && nf.crc as u16 == crc) {
            return false;
        }
        true
    }

    /// Store an uploaded firmware in a new slot and apply the auto-upgrade
    /// rule to every node in the same transaction. Returns how many nodes
    /// were scheduled for upgrade; an occupied slot or an inconsistent
    /// upload is reported as a client error.
    pub fn create_firmware(&mut self, nf: NewFirmware) -> (r: Result<usize, Msgs>)
        requires
            old(self).wf(),
        ensures
            final(self).wf(),
            final(self).sensors == old(self).sensors,
            (match r {
                Ok(count) => {
                    &&& upload_consistent(nf@)
                    &&& !old(self).has_firmware(nf.firmware_type as int, nf.firmware_version as int)
                    &&& final(self).firmwares@.len() == old(self).firmwares@.len() + 1
                    &&& final(self).firmwares@.last()@ == (FirmwareView {
                        firmware_type: nf@.firmware_type,
                        firmware_version: nf@.firmware_version,
                        name: nf@.name,
                        blocks: nf@.blocks,
                        crc: nf@.crc,
                        data: nf@.data,
                    })
                    &&& final(self).firmwares@.drop_last() == old(self).firmwares@
                    &&& upload_auto_upgrade_effect(*old(self), *final(self), nf@, count as int)
                },
                Err(m) => m.status == 400 && *final(self) == *old(self) && (!upload_consistent(nf@)
                    || old(self).has_firmware(nf.firmware_type as int, nf.firmware_version as int)),
            }),
    {
        if !Store::check_upload(&nf) {
            return Err(Msgs { status: 400, message: "invalid firmware upload.".to_owned() });
        }
        if self.find_firmware(nf.firmware_type, nf.firmware_version).is_some() {
            return Err(Msgs { status: 400, message: "firmware already present.".to_owned() });
        }
        let firmware_type = nf.firmware_type;
        let firmware_version = nf.firmware_version;
        let record = Firmware {
            firmware_type: nf.firmware_type,
            firmware_version: nf.firmware_version,
            name: nf.name,
            blocks: nf.blocks,
            crc: nf.crc,
            data: nf.data,
        };
        let ghost old_firmwares = self.firmwares@;
        self.firmwares.push(record);
        proof {
            assert forall|j: int, k: int|
                #![trigger self.firmwares@[j].firmware_type, self.firmwares@[k].firmware_type]
                0 <= j < k < self.firmwares@.len() implies !(self.firmwares@[j].firmware_type
                == self.firmwares@[k].firmware_type && self.firmwares@[j].firmware_version
                == self.firmwares@[k].firmware_version) by {
                if k == self.firmwares@.len() - 1 {
                    assert(self.firmwares@[j] == old_firmwares[j]);
                }
            }
            assert(self.firmwares@.drop_last() =~= old_firmwares);
        }
        let count = self.auto_update_nodes(firmware_type, firmware_version);
        Ok(count)
    }

    /// Overwrite the firmware in an existing slot with an upload and apply
    /// the auto-upgrade rule to every node in the same transaction; a missing
    /// slot or an inconsistent upload is reported as a client error. Returns
    /// the report and how many nodes were scheduled for upgrade.
    pub fn update_firmware(&mut self, nf: NewFirmware) -> (r: (Msgs, usize))
        requires
            old(self).wf(),
        ensures
            final(self).wf(),
            final(self).sensors == old(self).sensors,
            (if upload_consistent(nf@) && old(self).has_firmware(
                nf.firmware_type as int,
                nf.firmware_version as int,
            ) {
                let j = old(self).firmware_index(nf.firmware_type as int, nf.firmware_version as int);
                &&& r.0.status == 200
                &&& final(self).firmwares@.len() == old(self).firmwares@.len()
                &&& final(self).firmwares@[j]@ == (FirmwareView {
                    firmware_type: nf@.firmware_type,
                    firmware_version: nf@.firmware_version,
                    name: nf@.name,
                    blocks: nf@.blocks,
                    crc: nf@.crc,
                    data: nf@.data,
                })
                &&& forall|k: int|
                    0 <= k < old(self).firmwares@.len() && k != j ==> final(self).firmwares@[k]
                        == old(self).firmwares@[k]
                &&& upload_auto_upgrade_effect(*old(self), *final(self), nf@, r.1 as int)
            } else {
                r.0.status == 400 && r.1 == 0 && *final(self) == *old(self)
            }),
    {
        if !Store::check_upload(&nf) {
            return (Msgs { status: 400, message: "invalid firmware upload.".to_owned() }, 0);
        }
        match self.find_firmware(nf.firmware_type, nf.firmware_version) {
            Some(j) => {
                let firmware_type = nf.firmware_type;
                let firmware_version = nf.firmware_version;
                let ghost old_firmwares = self.firmwares@;
                let _old = self.firmwares.remove(j);
                let record = Firmware {
                    firmware_type: nf.firmware_type,
                    firmware_version: nf.firmware_version,
                    name: nf.name,
                    blocks: nf.blocks,
                    crc: nf.crc,
                    data: nf.data,
                };
                self.firmwares.insert(j, record);
                proof {
                    assert(self.firmwares@ =~= old_firmwares.update(
                        j as int,
                        self.firmwares@[j as int],
                    ));
                }
                let count = self.auto_update_nodes(firmware_type, firmware_version);
                (Msgs { status: 200, message: "update firmware success.".to_owned() }, count)
            },
            None => (
                Msgs {
                    status: 400,
                    message: "update firmware failed. type and version is not present".to_owned(),
                },
                0,
            ),
        }
    }

    /// Route an upload to a new or an existing slot: a `Create` inserts into
    /// a free slot, an `Update` overwrites a taken one, and both apply the
    /// auto-upgrade rule and report how many nodes it scheduled; anything
    /// else is a client error with the store unchanged.
    pub fn handle_create_or_update(&mut self, request: CreateOrUpdate) -> (r: Result<usize, Msgs>)
        requires
            old(self).wf(),
        ensures
            final(self).wf(),
            final(self).sensors == old(self).sensors,
            (match request {
                CreateOrUpdate::Create(nf) => match r {
                    Ok(count) => {
                        &&& upload_consistent(nf@)
                        &&& !old(self).has_firmware(
                            nf.firmware_type as int,
                            nf.firmware_version as int,
                        )
                        &&& final(self).firmwares@.len() == old(self).firmwares@.len() + 1
                        &&& final(self).firmwares@.last()@ == (FirmwareView {
                            firmware_type: nf@.firmware_type,
                            firmware_version: nf@.firmware_version,
                            name: nf@.name,
                            blocks: nf@.blocks,
                            crc: nf@.crc,
                            data: nf@.data,
                        })
                        &&& final(self).firmwares@.drop_last() == old(self).firmwares@
                        &&& upload_auto_upgrade_effect(*old(self), *final(self), nf@, count as int)
                    },
                    Err(m) => m.status == 400 && *final(self) == *old(self) && (
                    !upload_consistent(nf@) || old(self).has_firmware(
                        nf.firmware_type as int,
                        nf.firmware_version as int,
                    )),
                },
                CreateOrUpdate::Update(nf) => match r {
                    Ok(count) => {
                        &&& upload_consistent(nf@)
                        &&& old(self).has_firmware(
                            nf.firmware_type as int,
                            nf.firmware_version as int,
                        )
                        &&& final(self).firmwares@.len() == old(self).firmwares@.len()
                        &&& final(self).firmwares@[old(self).firmware_index(
                            nf.firmware_type as int,
                            nf.firmware_version as int,
                        )]@ == (FirmwareView {
                            firmware_type: nf@.firmware_type,
                            firmware_version: nf@.firmware_version,
                            name: nf@.name,
                            blocks: nf@.blocks,
                            crc: nf@.crc,
                            data: nf@.data,
                        })
                        &&& forall|k: int|
                            0 <= k < old(self).firmwares@.len() && k != old(self).firmware_index(
                                nf.firmware_type as int,
                                nf.firmware_version as int,
                            ) ==> final(self).firmwares@[k] == old(self).firmwares@[k]
                        &&& upload_auto_upgrade_effect(*old(self), *final(self), nf@, count as int)
                    },
                    Err(m) => m.status == 400 && *final(self) == *old(self) && (
                    !upload_consistent(nf@) || !old(self).has_firmware(
                        nf.firmware_type as int,
                        nf.firmware_version as int,
                    )),
                },
            }),
    {
        match request {
            CreateOrUpdate::Create(nf) => self.create_firmware(nf),
            CreateOrUpdate::Update(nf) => {
                let (outcome, count) = self.update_firmware(nf);
                if outcome.status == 200 {
                    Ok(count)
                } else {
                    Err(outcome)
                }
            },
        }
    }

    /// Delete the firmware in a slot; a missing slot is reported as a client
    /// error.
    pub fn delete_firmware(&mut self, firmware_type: i32, firmware_version: i32) -> (r: Msgs)
        requires
            old(self).wf(),
        ensures
            final(self).wf(),
            final(self).sensors == old(self).sensors,
            final(self).nodes == old(self).nodes,
            (if old(self).has_firmware(firmware_type as int, firmware_version as int) {
                r.status == 200 && final(self).firmwares@ == old(self).firmwares@.remove(
                    old(self).firmware_index(firmware_type as int, firmware_version as int),
                )
            } else {
                r.status == 400 && *final(self) == *old(self)
            }),
    {
        match self.find_firmware(firmware_type, firmware_version) {
            Some(j) => {
                self.firmwares.remove(j);
                proof {
                    let s = self.firmwares@;
                    assert forall|a: int, b: int|
                        #![trigger s[a].firmware_type, s[b].firmware_type]
                        0 <= a < b < s.len() implies !(s[a].firmware_type == s[b].firmware_type
                        && s[a].firmware_version == s[b].firmware_version) by {
                        assert(s[a] == if a < j as int {
                            old(self).firmwares@[a]
                        } else {
                            old(self).firmwares@[a + 1]
                        });
                        assert(s[b] == if b < j as int {
                            old(self).firmwares@[b]
                        } else {
                            old(self).firmwares@[b + 1]
                        });
                    }
                }
                Msgs { status: 200, message: "deleted firmware.".to_owned() }
            },
            None => Msgs {
                status: 400,
                message: "delete failed. firmware is not present".to_owned(),
            },
        }
    }

    /// Register a node by hand: a fresh address in `[1, 254]` with the
    /// requested name, desired firmware and flags; a taken address or one
    /// outside the range is reported as a client error.
    pub fn insert_node(&mut self, new: NewNode) -> (r: Msgs)
        requires
            old(self).wf(),
        ensures
            final(self).wf(),
            final(self).sensors == old(self).sensors,
            final(self).firmwares == old(self).firmwares,
            (if 1 <= new.node_id <= 254 && 0 <= new.firmware_type <= 0xFFFF && 0
                <= new.firmware_version <= 0xFFFF && !old(self).has_node(new.node_id as int) {
                &&& r.status == 200
                &&& final(self).nodes@ == old(self).nodes@.push(final(self).nodes@.last())
                &&& final(self).nodes@.last()@ == (NodeView {
                    node_id: new.node_id,
                    node_name: new.node_name@,
                    firmware_type: 0,
                    firmware_version: 0,
                    desired_firmware_type: new.firmware_type,
                    desired_firmware_version: new.firmware_version,
                    auto_update: new.auto_update,
                    scheduled: new.scheduled,
                    parent_node_id: 0,
                })
            } else {
                r.status == 400 && *final(self) == *old(self)
            }),
    {
        if !(1 <= new.node_id && new.node_id <= 254 && 0 <= new.firmware_type && new.firmware_type
            <= 0xFFFF && 0 <= new.firmware_version && new.firmware_version <= 0xFFFF) {
            return Msgs { status: 400, message: "invalid node fields.".to_owned() };
        }
        if self.find_node(new.node_id).is_some() {
            return Msgs { status: 400, message: "node_id already present.".to_owned() };
        }
        let node = Node {
            node_id: new.node_id,
            node_name: new.node_name,
            firmware_type: 0,
            firmware_version: 0,
            desired_firmware_type: new.firmware_type,
            desired_firmware_version: new.firmware_version,
            auto_update: new.auto_update,
            scheduled: new.scheduled,
            parent_node_id: 0,
        };
        let ghost old_nodes = self.nodes@;
        self.nodes.push(node);
        proof {
            assert forall|j: int, k: int|
                #![trigger self.nodes@[j].node_id, self.nodes@[k].node_id]
                0 <= j < k < self.nodes@.len() implies self.nodes@[j].node_id
                != self.nodes@[k].node_id by {
                if k == self.nodes@.len() - 1 {
                    assert(self.nodes@[j] == old_nodes[j]);
                }
            }
        }
        Msgs { status: 200, message: "create node success.".to_owned() }
    }

    /// Change a node's name, desired firmware and flags; an unknown address
    /// or desired firmware outside the wire range is reported as a client
    /// error.
    pub fn node_update(&mut self, update: NodeUpdate) -> (r: Msgs)
        requires
            old(self).wf(),
        ensures
            final(self).wf(),
            final(self).sensors == old(self).sensors,
            final(self).firmwares == old(self).firmwares,
            (if 0 <= update.firmware_type <= 0xFFFF && 0 <= update.firmware_version <= 0xFFFF
                && old(self).has_node(update.node_id as int) {
                let j = old(self).node_index(update.node_id as int);
                &&& r.status == 200
                &&& final(self).nodes@.len() == old(self).nodes@.len()
                &&& final(self).nodes@[j]@ == (NodeView {
                    node_name: update.node_name@,
                    desired_firmware_type: update.firmware_type,
                    desired_firmware_version: update.firmware_version,
                    auto_update: update.auto_update,
                    scheduled: update.scheduled,
                    ..old(self).nodes@[j]@
                })
                &&& forall|k: int|
                    0 <= k < old(self).nodes@.len() && k != j ==> final(self).nodes@[k] == old(
                        self,
                    ).nodes@[k]
            } else {
                r.status == 400 && *final(self) == *old(self)
            }),
    {
        if !(0 <= update.firmware_type && update.firmware_type <= 0xFFFF && 0
            <= update.firmware_version && update.firmware_version <= 0xFFFF) {
            return Msgs { status: 400, message: "invalid node fields.".to_owned() };
        }
        match self.find_node(update.node_id) {
            Some(j) => {
                let ghost old_nodes = self.nodes@;
                let old_node = self.nodes.remove(j);
                let new_node = Node {
                    node_name: update.node_name,
                    desired_firmware_type: update.firmware_type,
                    desired_firmware_version: update.firmware_version,
                    auto_update: update.auto_update,
                    scheduled: update.scheduled,
                    ..old_node
                };
                self.nodes.insert(j, new_node);
                proof {
                    assert(self.nodes@ =~= old_nodes.update(j as int, self.nodes@[j as int]));
                }
                Msgs { status: 200, message: "update node success.".to_owned() }
            },
            None => Msgs {
                status: 400,
                message: "update failed. node id is not present".to_owned(),
            },
        }
    }

    /// Delete the node with an address; an unknown address is reported as a
    /// client error.
    pub fn delete_node(&mut self, node_id: i32) -> (r: Msgs)
        requires
            old(self).wf(),
        ensures
            final(self).wf(),
            final(self).sensors == old(self).sensors,
            final(self).firmwares == old(self).firmwares,
            (if old(self).has_node(node_id as int) {
                r.status == 200 && final(self).nodes@ == old(self).nodes@.remove(
                    old(self).node_index(node_id as int),
                )
            } else {
                r.status == 400 && *final(self) == *old(self)
            }),
    {
        match self.find_node(node_id) {
            Some(j) => {
                self.nodes.remove(j);
                proof {
                    let s = self.nodes@;
                    assert forall|a: int, b: int|
                        #![trigger s[a].node_id, s[b].node_id]
                        0 <= a < b < s.len() implies s[a].node_id != s[b].node_id by {
                        assert(s[a] == if a < j as int {
                            old(self).nodes@[a]
                        } else {
                            old(self).nodes@[a + 1]
                        });
                        assert(s[b] == if b < j as int {
                            old(self).nodes@[b]
                        } else {
                            old(self).nodes@[b + 1]
                        });
                    }
                }
                Msgs { status: 200, message: "deleted node.".to_owned() }
            },
            None => Msgs {
                status: 400,
                message: "delete failed. node id is not present".to_owned(),
            },
        }
    }

    /// The node with an address, if any.
    pub fn get_node(&self, node_id: i32) -> (r: Option<&Node>)
        requires
            self.wf(),
        ensures
            (match r {
                Some(n) => self.has_node(node_id as int) && n@ == self.node_at(node_id as int),
                None => !self.has_node(node_id as int),
            }),
    {
        match self.find_node(node_id) {
            Some(j) => Some(&self.nodes[j]),
            None => None,
        }
    }

    /// All node records.
    pub fn list_nodes(&self) -> (r: &Vec<Node>)
        ensures
            r@ == self.nodes@,
    {
        &self.nodes
    }

    /// All sensor records.
    pub fn list_sensors(&self) -> (r: &Vec<Sensor>)
        ensures
            r@ == self.sensors@,
    {
        &self.sensors
    }

    /// All firmware records.
    pub fn list_firmwares(&self) -> (r: &Vec<Firmware>)
        ensures
            r@ == self.firmwares@,
    {
        &self.firmwares
    }
}

} // verus!
