use myscontroller_rs::message;
use myscontroller_rs::proto::command::{CommandMessage, CommandType};
use myscontroller_rs::proto::error::ParseError;
use myscontroller_rs::proto::presentation::PresentationType;
use myscontroller_rs::proto::set_msg::{SetMessage, SetReqType, Value};
use myscontroller_rs::proto::stream::{StreamPayload, StreamType};
use myscontroller_rs::firmware::Firmware;

#[test]
fn mod_parse_correct_command_fw_config_request() {
    let message_string = "1;255;4;0;0;0A0001005000D4460102\n";
    if let Ok(CommandMessage::Stream(message)) = CommandMessage::new(&String::from(message_string))
    {
        assert_eq!(message.sub_type, StreamType::StFirmwareConfigRequest);
        let stream_payload = match message.payload {
            StreamPayload::FwConfigRequest(stream_payload) => Some(stream_payload),
            _ => None,
        }
        .unwrap();
        assert_eq!(stream_payload.firmware_type, 10);
        assert_eq!(stream_payload.firmware_version, 1);
        assert_eq!(stream_payload.blocks, 80);
        assert_eq!(stream_payload.crc, 18132);
        assert_eq!(stream_payload.bl_version, 513);
    } else {
        assert!(false, "Didn't parse to Stream message");
    }
}

#[test]
fn mod_parse_correct_command_fw_config_response() {
    let message_string = "1;255;4;0;1;0A0002005000D446\n";
    if let Ok(CommandMessage::Stream(message)) = CommandMessage::new(&String::from(message_string))
    {
        assert_eq!(message.sub_type, StreamType::StFirmwareConfigResponse);
        let stream_payload = match message.payload {
            StreamPayload::FwConfigResponse(stream_payload) => Some(stream_payload),
            _ => None,
        }
        .unwrap();
        assert_eq!(stream_payload.firmware_type, 10);
        assert_eq!(stream_payload.firmware_version, 2);
        assert_eq!(stream_payload.blocks, 80);
        assert_eq!(stream_payload.crc, 18132);
    } else {
        assert!(false, "Didn't parse to Stream message");
    }
}

#[test]
fn mod_parse_correct_command_fw_request() {
    let message_string = "1;255;4;0;2;0A0002004F00\n ";
    if let Ok(CommandMessage::Stream(message)) = CommandMessage::new(&String::from(message_string))
    {
        assert_eq!(message.sub_type, StreamType::StFirmwareRequest);
        let stream_payload = match message.payload {
            StreamPayload::FwRequest(stream_payload) => Some(stream_payload),
            _ => None,
        }
        .unwrap();
        assert_eq!(stream_payload.firmware_type, 10);
        assert_eq!(stream_payload.firmware_version, 2);
        assert_eq!(stream_payload.blocks, 79);
    } else {
        assert!(false, "Didn't parse to Stream message");
    }
}

#[test]
fn mod_parse_correct_command_fw_response() {
    let message_string = "1;255;4;0;3;0A0001004F00FFFFFFFFFFFFFFFFFFFFFFFFFFFFFFFF\n ";
    if let Ok(CommandMessage::Stream(message)) = CommandMessage::new(&String::from(message_string))
    {
        assert_eq!(message.sub_type, StreamType::StFirmwareResponse);
        let stream_payload = match message.payload {
            StreamPayload::FwResponse(stream_payload) => Some(stream_payload),
            _ => None,
        }
        .unwrap();
        assert_eq!(stream_payload.firmware_type, 10);
        assert_eq!(stream_payload.firmware_version, 1);
        assert_eq!(stream_payload.blocks, 79);
    } else {
        assert!(false, "Didn't parse to Stream message");
    }
}

#[test]
fn mod_format_fw_config_request() {
    let message_string = "1;255;4;0;0;0A0001005000D4460102\n";
    let command_message = CommandMessage::new(&String::from(message_string)).unwrap();
    assert_eq!(command_message.render(), String::from(message_string));
}

#[test]
fn mod_format_fw_config_response() {
    let message_string = "1;255;4;0;1;0A0002005000D446\n";
    let command_message = CommandMessage::new(&String::from(message_string)).unwrap();
    assert_eq!(command_message.render(), String::from(message_string));
}

#[test]
fn mod_format_fw_resquest() {
    let message_string = "1;255;4;0;3;0A0002004F0000000000000000000000000000000000\n";
    let command_message = CommandMessage::new(&String::from(message_string)).unwrap();
    assert_eq!(command_message.render(), String::from(message_string));
}

#[test]
fn mod_format_fw_response() {
    let message_string = "1;255;4;0;3;0A0001004F00FFFFFFFFFFFFFFFFFFFFFFFFFFFFFFFF\n";
    let command_message = CommandMessage::new(&String::from(message_string)).unwrap();
    assert_eq!(command_message.render(), String::from(message_string));
}

#[test]
fn mod_convert_fw_config_request_to_response() {
    let message_string = "1;255;4;0;0;0A0001005000D4460102\n";
    if let Ok(CommandMessage::Stream(mut message)) =
        CommandMessage::new(&String::from(message_string))
    {
        message.response(&Firmware {
            firmware_type: 10,
            firmware_version: 2,
            blocks: 79,
            crc: 1000,
            data: vec![],
            name: String::from("Blink.hex"),
        });
        assert_eq!(message.render(), String::from("1;255;4;0;1;0A0002004F00E803\n"));
    } else {
        assert!(false, "Didn't parse to Stream message");
    }
}

#[test]
fn message_parse_correct_command_fw_config_request() {
    let message_string = "1;255;4;0;0;0A0001005000D4460102\n";
    let command_message = message::CommandMessage::new(&String::from(message_string)).unwrap();
    assert_eq!(
        command_message.sub_type,
        message::CommandSubType::StFirmwareConfigRequest
    );
    let stream_payload = match command_message.payload {
        message::MessagePayloadType::FwConfigRequest(stream_payload) => Some(stream_payload),
        _ => None,
    }
    .unwrap();
    assert_eq!(stream_payload._type, 10);
    assert_eq!(stream_payload.version, 1);
    assert_eq!(stream_payload.blocks, 80);
    assert_eq!(stream_payload.crc, 18132);
    assert_eq!(stream_payload.bl_version, 513);
}

#[test]
fn message_parse_correct_command_fw_config_response() {
    let message_string = "1;255;4;0;1;0A0002005000D446\n";
    let command_message = message::CommandMessage::new(&String::from(message_string)).unwrap();
    assert_eq!(
        command_message.sub_type,
        message::CommandSubType::StFirmwareConfigResponse
    );
    let stream_payload = match command_message.payload {
        message::MessagePayloadType::FwConfigResponse(stream_payload) => Some(stream_payload),
        _ => None,
    }
    .unwrap();
    assert_eq!(stream_payload._type, 10);
    assert_eq!(stream_payload.version, 2);
    assert_eq!(stream_payload.blocks, 80);
    assert_eq!(stream_payload.crc, 18132);
}

#[test]
fn message_parse_correct_command_fw_request() {
    let message_string = "1;255;4;0;2;0A0002004F00\n ";
    let command_message = message::CommandMessage::new(&String::from(message_string)).unwrap();
    assert_eq!(command_message.sub_type, message::CommandSubType::StFirmwareRequest);
    let stream_payload = match command_message.payload {
        message::MessagePayloadType::FwRequest(stream_payload) => Some(stream_payload),
        _ => None,
    }
    .unwrap();
    assert_eq!(stream_payload._type, 10);
    assert_eq!(stream_payload.version, 2);
    assert_eq!(stream_payload.blocks, 79);
}

#[test]
fn message_parse_correct_command_fw_response() {
    let message_string = "1;255;4;0;3;0A0001004F00FFFFFFFFFFFFFFFFFFFFFFFFFFFFFFFF\n ";
    let command_message = message::CommandMessage::new(&String::from(message_string)).unwrap();
    assert_eq!(command_message.sub_type, message::CommandSubType::StFirmwareResponse);
    let stream_payload = match command_message.payload {
        message::MessagePayloadType::FwResponse(stream_payload) => Some(stream_payload),
        _ => None,
    }
    .unwrap();
    assert_eq!(stream_payload._type, 10);
    assert_eq!(stream_payload.version, 1);
    assert_eq!(stream_payload.blocks, 79);
}

#[test]
fn message_format_fw_config_request() {
    let message_string = "1;255;4;0;0;0A0001005000D4460102\n";
    let command_message = message::CommandMessage::new(&String::from(message_string)).unwrap();
    assert_eq!(command_message.serialize(), String::from(message_string));
}

#[test]
fn message_format_fw_config_response() {
    let message_string = "1;255;4;0;1;0A0002005000D446\n";
    let command_message = message::CommandMessage::new(&String::from(message_string)).unwrap();
    assert_eq!(command_message.serialize(), String::from(message_string));
}

#[test]
fn message_format_fw_resquest() {
    let message_string = "1;255;4;0;3;0A0002004F0000000000000000000000000000000000\n";
    let command_message = message::CommandMessage::new(&String::from(message_string)).unwrap();
    assert_eq!(command_message.serialize(), String::from(message_string));
}

#[test]
fn message_format_fw_response() {
    let message_string = "1;255;4;0;3;0A0001004F00FFFFFFFFFFFFFFFFFFFFFFFFFFFFFFFF\n";
    let command_message = message::CommandMessage::new(&String::from(message_string)).unwrap();
    assert_eq!(command_message.serialize(), String::from(message_string));
}

#[test]
fn message_convert_fw_config_request_to_response() {
    let message_string = "1;255;4;0;0;0A0001005000D4460102\n";
    let mut command_message = message::CommandMessage::new(&String::from(message_string)).unwrap();
    command_message.to_response(&Firmware {
        firmware_type: 10,
        firmware_version: 2,
        blocks: 79,
        crc: 1000,
        data: vec![],
        name: String::from("Blink.hex"),
    });
    assert_eq!(
        command_message.serialize(),
        String::from("1;255;4;0;1;0A0002004F00E803\n")
    );
}

#[test]
fn supported_sensor_types() {
    assert!(PresentationType::Door.is_supported());
    assert!(PresentationType::Motion.is_supported());
    assert!(PresentationType::Smoke.is_supported());
    assert!(PresentationType::Binary.is_supported());
    assert!(PresentationType::Dimmer.is_supported());
    assert!(PresentationType::Temp.is_supported());
    assert!(PresentationType::Hum.is_supported());
    assert!(PresentationType::Lock.is_supported());
    assert!(PresentationType::AirQuality.is_supported());
    assert!(PresentationType::Moisture.is_supported());
    assert!(PresentationType::Baro.is_supported());
    assert!(PresentationType::Dust.is_supported());
    assert!(PresentationType::Info.is_supported());
}

#[test]
fn enum_primitive() {
    assert_eq!(0, SetReqType::Temp as u8);
}

#[test]
fn supported_sub_type() {
    assert!(SetReqType::Temp.is_supported());
    assert!(SetReqType::Status.is_supported());
    assert!(SetReqType::Percentage.is_supported());
}

#[test]
fn set_message_display_method() {
    assert_eq!(
        "1;2;1;0;2;1\n",
        SetMessage {
            node_id: 1,
            child_sensor_id: 2,
            ack: 0,
            value: Value { set_type: SetReqType::Status, value: "1".to_owned() }
        }
        .render()
    )
}

#[test]
fn set_frames_keep_their_ack_field() {
    // Rendering is the reverse of parsing, acknowledgement field included.
    let line = String::from("2;1;1;1;2;1\n");
    match CommandMessage::new(&line) {
        Ok(CommandMessage::SetMsg(m)) => {
            assert_eq!(m.ack, 1);
            assert_eq!(m.render(), line);
        }
        _ => panic!("expected a SET frame"),
    }
}

#[test]
fn parse_errors_name_the_bad_field() {
    let parse = |s: &str| CommandMessage::new(&String::from(s));
    assert!(matches!(parse("1;2;3"), Err(ParseError::InvalidCommandMessage)));
    assert!(matches!(parse("x;255;3;0;3;0\n"), Err(ParseError::InvalidNodeId)));
    assert!(matches!(parse("256;255;3;0;3;0\n"), Err(ParseError::InvalidNodeId)));
    assert!(matches!(parse("1;y;3;0;3;0\n"), Err(ParseError::InvalidChildSensorId)));
    assert!(matches!(parse("1;255;z;0;3;0\n"), Err(ParseError::InvalidCommand)));
    assert!(matches!(parse("1;255;7;0;3;0\n"), Err(ParseError::InvalidCommand)));
    assert!(matches!(parse("1;255;3;a;3;0\n"), Err(ParseError::InvalidACK)));
    assert!(matches!(parse("1;255;3;0;b;0\n"), Err(ParseError::InvalidSubType)));
    assert!(matches!(parse("1;255;3;0;99;0\n"), Err(ParseError::InvalidSubType)));
    assert!(matches!(parse("1;255;4;0;0;XYZ\n"), Err(ParseError::InvalidPayload)));
    assert!(matches!(parse("1;255;4;0;0;0A00\n"), Err(ParseError::InvalidPayload)));
    assert!(matches!(parse("1;255;0;0;99;x\n"), Err(ParseError::InvalidSubType)));
    assert!(matches!(parse("1;255;1;0;99;x\n"), Err(ParseError::InvalidSubType)));
}

#[test]
fn req_and_unparsed_lines_stay_verbatim() {
    let line = String::from("12;6;2;0;3;52\n");
    match CommandMessage::new(&line) {
        Ok(CommandMessage::Other(s)) => assert_eq!(s, line),
        _ => panic!("REQ frame should stay verbatim"),
    }
}

#[test]
fn internal_frames_parse_and_render() {
    let line = String::from("255;255;3;0;3;0\n");
    match CommandMessage::new(&line) {
        Ok(CommandMessage::Internal(m)) => {
            assert_eq!(m.node_id, 255);
            assert_eq!(m.child_sensor_id, 255);
            assert_eq!(m.ack, 0);
            assert_eq!(m.payload, "0");
            assert_eq!(m.render(), line);
        }
        _ => panic!("broadcast ID request should parse as INTERNAL"),
    }
}

#[test]
fn presentation_round_trip() {
    let line = String::from("5;1;0;0;6;Living room\n");
    match CommandMessage::new(&line) {
        Ok(CommandMessage::Presentation(m)) => {
            assert_eq!(m.sub_type, PresentationType::Temp);
            assert_eq!(m.payload, "Living room");
            assert_eq!(m.render(), line);
        }
        _ => panic!("expected a presentation frame"),
    }
}

#[test]
fn command_type_peeks_at_the_family() {
    assert_eq!(
        myscontroller_rs::proto::command::command_type(&String::from("1;2;1;0;2;1\n")),
        Some(CommandType::SET)
    );
    assert_eq!(
        myscontroller_rs::proto::command::command_type(&String::from("1;2;9;0;2;1\n")),
        None
    );
    assert_eq!(
        myscontroller_rs::proto::command::command_type(&String::from("no separators")),
        None
    );
    assert_eq!(
        message::command_type(&String::from("1;255;4;0;0;AA\n")),
        Some(message::CommandType::STREAM)
    );
}

#[test]
fn message_serialize_keeps_raw_buffers_in_lower_case_hex() {
    // A non-STREAM frame keeps the zeroed payload buffer, written as
    // lower-case hex.
    let command_message = message::CommandMessage::new(&String::from("1;2;2;0;3;52\n")).unwrap();
    assert_eq!(command_message.command, message::CommandType::REQ);
    assert_eq!(
        command_message.serialize(),
        format!("1;2;2;0;9;{}\n", "0".repeat(64))
    );
    // A short STREAM payload is tolerated and zero-padded.
    let padded = message::CommandMessage::new(&String::from("1;255;4;0;2;0A00\n")).unwrap();
    match padded.payload {
        message::MessagePayloadType::FwRequest(p) => {
            assert_eq!(p._type, 10);
            assert_eq!(p.version, 0);
            assert_eq!(p.blocks, 0);
        }
        _ => panic!("expected a block request"),
    }
}

#[test]
fn bool_values_read_and_build() {
    let v = Value { set_type: SetReqType::Status, value: "1".to_owned() };
    assert_eq!(v.as_bool(), Some(true));
    let v = Value { set_type: SetReqType::Status, value: "0".to_owned() };
    assert_eq!(v.as_bool(), Some(false));
    let v = Value { set_type: SetReqType::Status, value: "7".to_owned() };
    assert_eq!(v.as_bool(), None);
    let v = Value { set_type: SetReqType::Temp, value: "1".to_owned() };
    assert_eq!(v.as_bool(), None);
    let built = Value::build_bool(SetReqType::Status, true).unwrap();
    assert_eq!(built.value, "1");
    assert!(Value::build_bool(SetReqType::Temp, true).is_none());
}

#[test]
fn set_req_type_wot_maps() {
    assert_eq!(SetReqType::Status.property_name(), "on");
    assert_eq!(SetReqType::Temp.property_name(), "level");
    assert_eq!(SetReqType::Status.data_type(), "boolean");
    assert_eq!(SetReqType::Percentage.data_type(), "number");
    assert_eq!(SetReqType::Percentage.description(), "The level of the thing from 0-100");
    assert!(!SetReqType::Armed.is_supported());
    assert!(SetReqType::Status.is_forwardable());
    assert!(!SetReqType::Temp.is_forwardable());
}

#[test]
fn presentation_wot_maps() {
    assert_eq!(PresentationType::Door.thing_type(), "onOffSwitch");
    assert_eq!(PresentationType::Dimmer.thing_description(), "Dimmable device");
    assert_eq!(
        PresentationType::Baro.property_types(),
        vec![SetReqType::Pressure, SetReqType::Forecast]
    );
    assert!(!PresentationType::Gps.is_supported());
    assert!(PresentationType::Cover.property_types().is_empty());
}
