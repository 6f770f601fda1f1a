use myscontroller_rs::firmware::NewFirmware;
use myscontroller_rs::handlers::{
    handle_from_controller, handle_from_gateway, handle_internal, handle_presentation,
    handle_stream,
};
use myscontroller_rs::interceptor::{intercept, Route};
use myscontroller_rs::proto::command::CommandMessage;
use myscontroller_rs::proto::set_msg::SetReqType;
use myscontroller_rs::store::{CreateOrUpdate, NewNode, NodeUpdate, Store};

fn parse_internal(line: &str) -> myscontroller_rs::proto::internal::InternalMessage {
    match CommandMessage::new(&String::from(line)) {
        Ok(CommandMessage::Internal(m)) => m,
        _ => panic!("expected an INTERNAL frame"),
    }
}

fn parse_stream(line: &str) -> myscontroller_rs::proto::stream::StreamMessage {
    match CommandMessage::new(&String::from(line)) {
        Ok(CommandMessage::Stream(m)) => m,
        _ => panic!("expected a STREAM frame"),
    }
}

fn parse_presentation(line: &str) -> myscontroller_rs::proto::presentation::PresentationMessage {
    match CommandMessage::new(&String::from(line)) {
        Ok(CommandMessage::Presentation(m)) => m,
        _ => panic!("expected a PRESENTATION frame"),
    }
}

fn parse_set(line: &str) -> myscontroller_rs::proto::set_msg::SetMessage {
    match CommandMessage::new(&String::from(line)) {
        Ok(CommandMessage::SetMsg(m)) => m,
        _ => panic!("expected a SET frame"),
    }
}

fn blink_upload(version: i32) -> NewFirmware {
    let records = vec![
        ":10000000000102030405060708090A0B0C0D0E0F78".to_owned(),
        ":10001000101112131415161718191A1B1C1D1E1F68".to_owned(),
        ":00000001FF".to_owned(),
    ];
    let fw = myscontroller_rs::firmware::Firmware::prepare_fw(10, version, String::from("Blink"), &records)
        .unwrap();
    NewFirmware::build(fw.firmware_type, fw.firmware_version, fw.name, fw.data)
}

#[test]
fn allocates_first_node_id_and_answers() {
    // A node on the broadcast address asks for an ID over an empty table.
    let mut store = Store::new();
    let request = parse_internal("255;255;3;0;3;0\n");
    let outcome = handle_internal(&mut store, &request);
    assert_eq!(outcome.gateway, Some("255;255;3;0;4;1\n".to_owned()));
    assert_eq!(outcome.controller, None);
    assert_eq!(store.nodes.len(), 1);
    assert_eq!(store.nodes[0].node_id, 1);
    assert_eq!(store.nodes[0].node_name, "New Node");
    assert_eq!(store.nodes[0].parent_node_id, 0);
    assert!(!store.nodes[0].auto_update);
}

#[test]
fn allocates_least_free_node_id() {
    let mut store = Store::new();
    for id in [1i32, 2, 4, 5] {
        store.create_node(id).unwrap();
    }
    let request = parse_internal("255;255;3;0;3;0\n");
    let outcome = handle_internal(&mut store, &request);
    assert_eq!(outcome.gateway, Some("255;255;3;0;4;3\n".to_owned()));
    assert_eq!(store.nodes.len(), 5);
    assert_eq!(store.nodes[4].node_id, 3);
}

#[test]
fn exhausted_id_space_drops_the_request() {
    let mut store = Store::new();
    for id in 1..=254i32 {
        store.create_node(id).unwrap();
    }
    let request = parse_internal("255;255;3;0;3;0\n");
    let outcome = handle_internal(&mut store, &request);
    assert_eq!(outcome.gateway, None);
    assert_eq!(outcome.controller, None);
    assert_eq!(store.nodes.len(), 254);
}

#[test]
fn discover_response_records_the_parent() {
    let mut store = Store::new();
    store.create_node(5).unwrap();
    let report = parse_internal("5;255;3;0;21;1\n");
    let outcome = handle_internal(&mut store, &report);
    assert_eq!(outcome.gateway, None);
    assert_eq!(outcome.controller, None);
    assert_eq!(store.nodes[0].parent_node_id, 1);
}

#[test]
fn other_internal_frames_go_to_the_controller() {
    let mut store = Store::new();
    let sketch = parse_internal("7;255;3;0;11;My Sketch\n");
    let outcome = handle_internal(&mut store, &sketch);
    assert_eq!(outcome.gateway, None);
    assert_eq!(outcome.controller, Some("7;255;3;0;11;My Sketch\n".to_owned()));
}

#[test]
fn firmware_config_request_is_answered_from_the_store() {
    // A firmware (10, 2) is stored; the node at address 1 desires it and
    // advertises that it currently runs (10, 1).
    let mut store = Store::new();
    handle_internal(&mut store, &parse_internal("255;255;3;0;3;0\n"));
    let updated = store
        .node_update(NodeUpdate {
            node_id: 1,
            node_name: "Blinker".to_owned(),
            firmware_type: 10,
            firmware_version: 2,
            auto_update: false,
            scheduled: false,
        })
        .status;
    assert_eq!(updated, 200);
    store.create_firmware(blink_upload(2)).unwrap();

    let request = parse_stream("1;255;4;0;0;0A0001005000D4460102\n");
    let response = handle_stream(&mut store, &request);
    assert_eq!(response, Some("1;255;4;0;1;0A0002000800EF86\n".to_owned()));
    // The node's reported firmware fields now mirror the advertisement.
    assert_eq!(store.nodes[0].firmware_type, 10);
    assert_eq!(store.nodes[0].firmware_version, 1);
}

#[test]
fn firmware_block_request_is_served_byte_exact() {
    let mut store = Store::new();
    store.create_firmware(blink_upload(2)).unwrap();
    let request = parse_stream("1;255;4;0;2;0A0002000000\n");
    let response = handle_stream(&mut store, &request);
    assert_eq!(
        response,
        Some("1;255;4;0;3;0A0002000000000102030405060708090A0B0C0D0E0F\n".to_owned())
    );
    // Block 2 is page padding.
    let request = parse_stream("1;255;4;0;2;0A0002000200\n");
    let response = handle_stream(&mut store, &request);
    assert_eq!(
        response,
        Some("1;255;4;0;3;0A0002000200FFFFFFFFFFFFFFFFFFFFFFFFFFFFFFFF\n".to_owned())
    );
}

#[test]
fn stream_requests_without_a_match_are_dropped() {
    let mut store = Store::new();
    // Config request from an unknown node.
    let request = parse_stream("9;255;4;0;0;0A0001005000D4460102\n");
    assert_eq!(handle_stream(&mut store, &request), None);
    // Block request for a missing firmware.
    let request = parse_stream("1;255;4;0;2;0A0002000000\n");
    assert_eq!(handle_stream(&mut store, &request), None);
    // Inbound response frames are ignored.
    let request = parse_stream("1;255;4;0;1;0A0002005000D446\n");
    assert_eq!(handle_stream(&mut store, &request), None);
}

#[test]
fn malformed_lines_are_forwarded_verbatim() {
    // The interceptor hands anything unparsable to the controller unchanged.
    let line = String::from("xx;yy;zz");
    match intercept(&line) {
        Route::Controller(s) => assert_eq!(s, "xx;yy;zz"),
        _ => panic!("malformed line must go to the controller"),
    }
}

#[test]
fn interceptor_routes_by_family() {
    assert!(matches!(intercept(&"255;255;3;0;3;0\n".to_owned()), Route::Internal(_)));
    assert!(matches!(intercept(&"1;255;4;0;2;0A0002000000\n".to_owned()), Route::Stream(_)));
    assert!(matches!(intercept(&"5;1;0;0;6;T\n".to_owned()), Route::Presentation(_)));
    assert!(matches!(intercept(&"2;1;1;0;2;1\n".to_owned()), Route::SetMsg(_)));
    assert!(matches!(intercept(&"12;6;2;0;3;52\n".to_owned()), Route::Controller(_)));
}

#[test]
fn set_from_gateway_reaches_controller_and_wot() {
    // A Set frame relays to the controller verbatim and notifies the bridge
    // that property `on` is true for sensor (2, 1).
    let message = parse_set("2;1;1;0;2;1\n");
    let (controller_line, notify) = handle_from_gateway(&message);
    assert_eq!(controller_line, "2;1;1;0;2;1\n");
    assert_eq!(notify.node_id, 2);
    assert_eq!(notify.child_sensor_id, 1);
    assert_eq!(notify.value.set_type.property_name(), "on");
    assert_eq!(notify.value.as_bool(), Some(true));
    let sensor = myscontroller_rs::store::Sensor {
        node_id: 2,
        child_sensor_id: 1,
        sensor_type: myscontroller_rs::proto::presentation::PresentationType::Binary,
        description: "Lamp".to_owned(),
    };
    assert!(notify.for_sensor(&sensor));
}

#[test]
fn set_from_controller_reaches_the_gateway() {
    let message = parse_set("3;2;1;0;3;40\n");
    assert_eq!(handle_from_controller(&message), "3;2;1;0;3;40\n");
}

#[test]
fn presentations_register_sensors() {
    let mut store = Store::new();
    // Orphan presentations are dropped, but still forwarded.
    let message = parse_presentation("5;1;0;0;6;Bedroom\n");
    let (line, signal) = handle_presentation(&mut store, &message);
    assert_eq!(line, "5;1;0;0;6;Bedroom\n");
    assert!(signal.is_none());
    assert_eq!(store.sensors.len(), 0);

    store.create_node(5).unwrap();
    let (_, signal) = handle_presentation(&mut store, &message);
    let (name, sensor) = signal.unwrap();
    assert_eq!(name, "New Node");
    assert_eq!(sensor.node_id, 5);
    assert_eq!(sensor.child_sensor_id, 1);
    assert_eq!(sensor.description, "Bedroom");
    assert_eq!(store.sensors.len(), 1);

    // The identical declaration changes nothing.
    let (_, signal) = handle_presentation(&mut store, &message);
    assert!(signal.is_none());
    assert_eq!(store.sensors.len(), 1);
    // A changed declaration rewrites the record without a new signal.
    let changed = parse_presentation("5;1;0;0;7;Bedroom hum\n");
    let (_, signal) = handle_presentation(&mut store, &changed);
    assert!(signal.is_none());
    assert_eq!(store.sensors.len(), 1);
    assert_eq!(store.sensors[0].description, "Bedroom hum");
}

#[test]
fn auto_update_schedules_opted_in_nodes() {
    let mut store = Store::new();
    store
        .insert_node(NewNode {
            node_id: 1,
            node_name: "follows".to_owned(),
            firmware_type: 10,
            firmware_version: 1,
            auto_update: true,
            scheduled: false,
        });
    store
        .insert_node(NewNode {
            node_id: 2,
            node_name: "pinned".to_owned(),
            firmware_type: 10,
            firmware_version: 1,
            auto_update: false,
            scheduled: false,
        });
    store
        .insert_node(NewNode {
            node_id: 3,
            node_name: "other type".to_owned(),
            firmware_type: 9,
            firmware_version: 1,
            auto_update: true,
            scheduled: false,
        });
    let upgraded = store.create_firmware(blink_upload(2)).unwrap();
    assert_eq!(upgraded, 1);
    assert_eq!(store.nodes[0].desired_firmware_version, 2);
    assert!(store.nodes[0].scheduled);
    assert_eq!(store.nodes[1].desired_firmware_version, 1);
    assert!(!store.nodes[1].scheduled);
    assert_eq!(store.nodes[2].desired_firmware_version, 1);
    assert!(!store.nodes[2].scheduled);
}

#[test]
fn firmware_slots_are_unique() {
    let mut store = Store::new();
    store.create_firmware(blink_upload(2)).unwrap();
    let err = store.create_firmware(blink_upload(2)).unwrap_err();
    assert_eq!(err.status, 400);
    assert_eq!(err.message, "firmware already present.");
    assert_eq!(store.update_firmware(blink_upload(2)).0.status, 200);
    assert_eq!(store.delete_firmware(10, 2).status, 200);
    assert_eq!(store.delete_firmware(10, 2).status, 400);
}

#[test]
fn node_table_rejects_taken_and_invalid_addresses() {
    let mut store = Store::new();
    let ok = store.insert_node(NewNode {
        node_id: 7,
        node_name: "a".to_owned(),
        firmware_type: 0,
        firmware_version: 0,
        auto_update: false,
        scheduled: false,
    });
    assert_eq!(ok.status, 200);
    let dup = store.insert_node(NewNode {
        node_id: 7,
        node_name: "b".to_owned(),
        firmware_type: 0,
        firmware_version: 0,
        auto_update: false,
        scheduled: false,
    });
    assert_eq!(dup.status, 400);
    assert_eq!(dup.message, "node_id already present.");
    let broadcast = store.insert_node(NewNode {
        node_id: 255,
        node_name: "c".to_owned(),
        firmware_type: 0,
        firmware_version: 0,
        auto_update: false,
        scheduled: false,
    });
    assert_eq!(broadcast.status, 400);
    assert!(store.get_node(7).is_some());
    assert_eq!(store.delete_node(7).status, 200);
    assert_eq!(store.delete_node(7).status, 400);
}

#[test]
fn sensors_can_be_read_and_deleted() {
    let mut store = Store::new();
    store.create_node(2).unwrap();
    let message = parse_presentation("2;1;0;0;3;Lamp\n");
    handle_presentation(&mut store, &message);
    assert!(store.get_sensor(2, 1).is_some());
    assert!(store.get_sensor(2, 9).is_none());
    assert_eq!(store.delete_sensor(2, 1).status, 200);
    assert_eq!(store.delete_sensor(2, 1).status, 400);
}

#[test]
fn store_listings_and_upload_routing() {
    let mut store = Store::new();
    store.create_node(3).unwrap();
    assert_eq!(store.list_nodes().len(), 1);
    assert_eq!(store.list_nodes()[0].node_id(), 3);
    assert!(store.list_sensors().is_empty());
    let routed = store.handle_create_or_update(CreateOrUpdate::Create(blink_upload(2)));
    assert_eq!(routed.unwrap(), 0);
    assert_eq!(store.list_firmwares().len(), 1);
    let routed = store.handle_create_or_update(CreateOrUpdate::Update(blink_upload(2)));
    assert_eq!(routed.unwrap(), 0);
    let routed = store.handle_create_or_update(CreateOrUpdate::Update(blink_upload(9)));
    assert_eq!(routed.unwrap_err().status, 400);
}

#[test]
fn auto_update_applies_on_overwrite_too() {
    // A node opted in at desired (10, 1); overwriting the stored (10, 2)
    // image schedules it just as a fresh upload would.
    let mut store = Store::new();
    store.create_firmware(blink_upload(2)).unwrap();
    store.insert_node(NewNode {
        node_id: 1,
        node_name: "follows".to_owned(),
        firmware_type: 10,
        firmware_version: 1,
        auto_update: true,
        scheduled: false,
    });
    let scheduled = store.handle_create_or_update(CreateOrUpdate::Update(blink_upload(2)));
    assert_eq!(scheduled.unwrap(), 1);
    assert_eq!(store.nodes[0].desired_firmware_version, 2);
    assert!(store.nodes[0].scheduled);
}
