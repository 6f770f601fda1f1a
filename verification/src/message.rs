//! The flat frame codec: one record type for every family, with the binary
//! firmware payload decoded from a fixed 32-byte buffer and every other
//! payload kept as raw bytes. The gateway proxy's typed codec lives beside
//! it; this form serves tooling that wants one uniform record shape.

use vstd::prelude::*;

use crate::firmware::Firmware;
use crate::proto::stream::{le16_at, le_bytes16};
use crate::wire;

verus! {

/// The longest binary payload a frame can carry.
pub const MAX_MESSAGE_LENGTH: usize = 32;

/// The five MySensors command families.
#[allow(non_camel_case_types)]
#[derive(Debug, Clone, Copy, PartialEq, Eq, Structural)]
pub enum CommandType {
    PRESENTATION,
    SET,
    REQ,
    INTERNAL,
    STREAM,
}

/// The STREAM sub-types, with a rest class for everything the firmware
/// protocol does not use.
#[derive(Debug, Clone, Copy, PartialEq, Eq, Structural)]
pub enum CommandSubType {
    StFirmwareConfigRequest,
    StFirmwareConfigResponse,
    StFirmwareRequest,
    StFirmwareResponse,
    Other,
}

/// The command family encoded by a byte, if any.
pub open spec fn command_type_of(b: int) -> Option<CommandType> {
    if b == 0 {
        Some(CommandType::PRESENTATION)
    } else if b == 1 {
        Some(CommandType::SET)
    } else if b == 2 {
        Some(CommandType::REQ)
    } else if b == 3 {
        Some(CommandType::INTERNAL)
    } else if b == 4 {
        Some(CommandType::STREAM)
    } else {
        None
    }
}

/// The byte of each command family.
pub open spec fn command_type_code(t: CommandType) -> u8 {
    match t {
        CommandType::PRESENTATION => 0,
        CommandType::SET => 1,
        CommandType::REQ => 2,
        CommandType::INTERNAL => 3,
        CommandType::STREAM => 4,
    }
}

/// The sub-type encoded by a byte, if any; byte 9 is the rest class.
pub open spec fn command_sub_type_of(b: int) -> Option<CommandSubType> {
    if b == 0 {
        Some(CommandSubType::StFirmwareConfigRequest)
    } else if b == 1 {
        Some(CommandSubType::StFirmwareConfigResponse)
    } else if b == 2 {
        Some(CommandSubType::StFirmwareRequest)
    } else if b == 3 {
        Some(CommandSubType::StFirmwareResponse)
    } else if b == 9 {
        Some(CommandSubType::Other)
    } else {
        None
    }
}

/// The byte of each sub-type.
pub open spec fn command_sub_type_code(t: CommandSubType) -> u8 {
    match t {
        CommandSubType::StFirmwareConfigRequest => 0,
        CommandSubType::StFirmwareConfigResponse => 1,
        CommandSubType::StFirmwareRequest => 2,
        CommandSubType::StFirmwareResponse => 3,
        CommandSubType::Other => 9,
    }
}

impl CommandType {
    /// The command family a byte stands for, if any.
    pub fn _u8(value: u8) -> (r: Option<CommandType>)
        ensures
            r == command_type_of(value as int),
    {
        match value {
            0 => Some(CommandType::PRESENTATION),
            1 => Some(CommandType::SET),
            2 => Some(CommandType::REQ),
            3 => Some(CommandType::INTERNAL),
            4 => Some(CommandType::STREAM),
            _ => None,
        }
    }

    /// The family's byte on the wire.
    pub fn type_code(&self) -> (r: u8)
        ensures
            r == command_type_code(*self),
    {
        match self {
            CommandType::PRESENTATION => 0,
            CommandType::SET => 1,
            CommandType::REQ => 2,
            CommandType::INTERNAL => 3,
            CommandType::STREAM => 4,
        }
    }
}

impl CommandSubType {
    /// The sub-type a byte stands for, if any.
    pub fn _u8(value: u8) -> (r: Option<CommandSubType>)
        ensures
            r == command_sub_type_of(value as int),
    {
        match value {
            0 => Some(CommandSubType::StFirmwareConfigRequest),
            1 => Some(CommandSubType::StFirmwareConfigResponse),
            2 => Some(CommandSubType::StFirmwareRequest),
            3 => Some(CommandSubType::StFirmwareResponse),
            9 => Some(CommandSubType::Other),
            _ => None,
        }
    }

    /// The sub-type's byte on the wire.
    pub fn type_code(&self) -> (r: u8)
        ensures
            r == command_sub_type_code(*self),
    {
        match self {
            CommandSubType::StFirmwareConfigRequest => 0,
            CommandSubType::StFirmwareConfigResponse => 1,
            CommandSubType::StFirmwareRequest => 2,
            CommandSubType::StFirmwareResponse => 3,
            CommandSubType::Other => 9,
        }
    }
}

/// A node advertising what it runs: the first ten payload bytes.
#[derive(Debug, Clone, Copy, PartialEq, Eq, Structural)]
pub struct FwConfigRequestMessage {
    pub _type: u16,
    pub version: u16,
    pub blocks: u16,
    pub crc: u16,
    pub bl_version: u16,
}

/// The answer naming the firmware a node should fetch: eight bytes.
#[derive(Debug, Clone, Copy, PartialEq, Eq, Structural)]
pub struct FwConfigResponseMessage {
    pub _type: u16,
    pub version: u16,
    pub blocks: u16,
    pub crc: u16,
}

/// A node asking for one firmware block: six bytes; `blocks` carries the
/// block index.
#[derive(Debug, Clone, Copy, PartialEq, Eq, Structural)]
pub struct FwRequestMessage {
    pub _type: u16,
    pub version: u16,
    pub blocks: u16,
}

/// One firmware block on its way to a node: 22 bytes.
#[derive(Debug, Clone, Copy)]
pub struct FwResponseMessage {
    pub _type: u16,
    pub version: u16,
    pub blocks: u16,
    pub data: [u8; 16],
}

/// The binary payload of a frame, decoded by sub-type; everything else is
/// the raw zero-padded buffer.
#[derive(Debug, Clone, Copy)]
pub enum MessagePayloadType {
    FwConfigRequest(FwConfigRequestMessage),
    FwRequest(FwRequestMessage),
    FwConfigResponse(FwConfigResponseMessage),
    FwResponse(FwResponseMessage),
    Other([u8; 32]),
}

/// A fixed 32-byte payload buffer, filled from the decoded hex text.
pub struct FirmwarePayload {
    pub data: [u8; 32],
}

impl FirmwarePayload {
    /// Wrap a payload buffer.
    pub fn new(data: [u8; 32]) -> (r: FirmwarePayload)
        ensures
            r.data@ == data@,
    {
        FirmwarePayload { data }
    }
}

/// Bytes zero-padded, and cut, to the fixed payload size.
pub open spec fn padded_32(v: Seq<u8>) -> Seq<u8> {
    Seq::new(32, |i: int| if i < v.len() { v[i] } else { 0u8 })
}

/// Zero-pad decoded bytes into the fixed payload buffer, dropping anything
/// past its end.
pub fn vector_as_u8_32_array(vector: Vec<u8>) -> (r: [u8; 32])
    ensures
        r@ == padded_32(vector@),
{
    let mut arr = [0u8; 32];
    let n = vector.len();
    let mut i: usize = 0;
    while i < 32
        invariant
            0 <= i <= 32,
            n == vector@.len(),
            arr@.len() == 32,
            forall|k: int| 0 <= k < i ==> arr@[k] == padded_32(vector@)[k],
            forall|k: int| i <= k < 32 ==> arr@[k] == 0,
        decreases 32 - i,
    {
        if i < n {
            arr[i] = vector[i];
        }
        i = i + 1;
    }
    proof {
        assert(arr@ =~= padded_32(vector@));
    }
    arr
}

/// One frame of any family, with its payload decoded when the family is
/// STREAM.
#[derive(Debug, Clone, Copy)]
pub struct CommandMessage {
    pub node_id: u8,
    pub child_sensor_id: u8,
    pub command: CommandType,
    pub ack: u8,
    pub sub_type: CommandSubType,
    pub payload: MessagePayloadType,
}

/// The mathematical shape of a firmware block response.
pub struct FwResponseView {
    pub _type: u16,
    pub version: u16,
    pub blocks: u16,
    pub data: Seq<u8>,
}

impl View for FwResponseMessage {
    type V = FwResponseView;

    open spec fn view(&self) -> FwResponseView {
        FwResponseView {
            _type: self._type,
            version: self.version,
            blocks: self.blocks,
            data: self.data@,
        }
    }
}

/// The mathematical shape of a decoded payload.
pub enum MessagePayloadTypeView {
    FwConfigRequest(FwConfigRequestMessage),
    FwRequest(FwRequestMessage),
    FwConfigResponse(FwConfigResponseMessage),
    FwResponse(FwResponseView),
    Other(Seq<u8>),
}

impl View for MessagePayloadType {
    type V = MessagePayloadTypeView;

    open spec fn view(&self) -> MessagePayloadTypeView {
        match self {
            MessagePayloadType::FwConfigRequest(m) => MessagePayloadTypeView::FwConfigRequest(*m),
            MessagePayloadType::FwRequest(m) => MessagePayloadTypeView::FwRequest(*m),
            MessagePayloadType::FwConfigResponse(m) => MessagePayloadTypeView::FwConfigResponse(
                *m,
            ),
            MessagePayloadType::FwResponse(m) => MessagePayloadTypeView::FwResponse(m@),
            MessagePayloadType::Other(d) => MessagePayloadTypeView::Other(d@),
        }
    }
}

/// The mathematical shape of a frame.
pub struct CommandMessageView {
    pub node_id: u8,
    pub child_sensor_id: u8,
    pub command: CommandType,
    pub ack: u8,
    pub sub_type: CommandSubType,
    pub payload: MessagePayloadTypeView,
}

impl View for CommandMessage {
    type V = CommandMessageView;

    open spec fn view(&self) -> CommandMessageView {
        CommandMessageView {
            node_id: self.node_id,
            child_sensor_id: self.child_sensor_id,
            command: self.command,
            ack: self.ack,
            sub_type: self.sub_type,
            payload: self.payload@,
        }
    }
}

/// The payload decoded from the padded buffer for one sub-type.
pub open spec fn payload_of(t: CommandSubType, v: Seq<u8>) -> MessagePayloadTypeView {
    match t {
        CommandSubType::StFirmwareConfigRequest => MessagePayloadTypeView::FwConfigRequest(
            FwConfigRequestMessage {
                _type: le16_at(v, 0),
                version: le16_at(v, 2),
                blocks: le16_at(v, 4),
                crc: le16_at(v, 6),
                bl_version: le16_at(v, 8),
            },
        ),
        CommandSubType::StFirmwareConfigResponse => MessagePayloadTypeView::FwConfigResponse(
            FwConfigResponseMessage {
                _type: le16_at(v, 0),
                version: le16_at(v, 2),
                blocks: le16_at(v, 4),
                crc: le16_at(v, 6),
            },
        ),
        CommandSubType::StFirmwareRequest => MessagePayloadTypeView::FwRequest(
            FwRequestMessage { _type: le16_at(v, 0), version: le16_at(v, 2), blocks: le16_at(v, 4) },
        ),
        CommandSubType::StFirmwareResponse => MessagePayloadTypeView::FwResponse(
            FwResponseView {
                _type: le16_at(v, 0),
                version: le16_at(v, 2),
                blocks: le16_at(v, 4),
                data: v.subrange(6, 22),
            },
        ),
        CommandSubType::Other => MessagePayloadTypeView::Other(v),
    }
}

/// What parsing a line into the flat record yields: the six fields after
/// trimming, the family and sub-type bytes, and the decoded buffer for
/// STREAM frames. Each failure carries its message.
pub open spec fn flat_parse_spec(s: Seq<char>) -> Result<CommandMessageView, Seq<char>> {
    let p = wire::split_semi_spec(wire::trim_spec(s));
    if p.len() != 6 {
        Err("Invalid Command Message, should have 6 components separated by ';'"@)
    } else if wire::dec_parse_u8(p[2]) is None || command_type_of(
        wire::dec_parse_u8(p[2]).unwrap() as int,
    ) is None {
        Err("Error parsing string to command"@)
    } else {
        let command = command_type_of(wire::dec_parse_u8(p[2]).unwrap() as int).unwrap();
        if command == CommandType::STREAM && (wire::dec_parse_u8(p[4]) is None
            || command_sub_type_of(wire::dec_parse_u8(p[4]).unwrap() as int) is None) {
            Err("Error parsing string to sub_type"@)
        } else if command == CommandType::STREAM && wire::hex_decode_spec(p[5]) is None {
            Err("Error while decoding hex"@)
        } else if wire::dec_parse_u8(p[0]) is None {
            Err("Error parsing string to node_id"@)
        } else if wire::dec_parse_u8(p[1]) is None {
            Err("Error parsing string to child_sensor_id"@)
        } else if wire::dec_parse_u8(p[3]) is None {
            Err("Error parsing string to ack"@)
        } else {
            let sub_type = if command == CommandType::STREAM {
                command_sub_type_of(wire::dec_parse_u8(p[4]).unwrap() as int).unwrap()
            } else {
                CommandSubType::Other
            };
            let buffer = if command == CommandType::STREAM {
                padded_32(wire::hex_decode_spec(p[5]).unwrap())
            } else {
                Seq::new(32, |i: int| 0u8)
            };
            Ok(
                CommandMessageView {
                    node_id: wire::dec_parse_u8(p[0]).unwrap(),
                    child_sensor_id: wire::dec_parse_u8(p[1]).unwrap(),
                    command,
                    ack: wire::dec_parse_u8(p[3]).unwrap(),
                    sub_type,
                    payload: if command == CommandType::STREAM {
                        payload_of(sub_type, buffer)
                    } else {
                        MessagePayloadTypeView::Other(buffer)
                    },
                },
            )
        }
    }
}

/// The bytes a payload packs to: little-endian fields, or the raw buffer.
pub open spec fn flat_payload_bytes(p: MessagePayloadTypeView) -> Seq<u8> {
    match p {
        MessagePayloadTypeView::FwConfigRequest(m) => le_bytes16(m._type) + le_bytes16(m.version)
            + le_bytes16(m.blocks) + le_bytes16(m.crc) + le_bytes16(m.bl_version),
        MessagePayloadTypeView::FwConfigResponse(m) => le_bytes16(m._type) + le_bytes16(m.version)
            + le_bytes16(m.blocks) + le_bytes16(m.crc),
        MessagePayloadTypeView::FwRequest(m) => le_bytes16(m._type) + le_bytes16(m.version)
            + le_bytes16(m.blocks),
        MessagePayloadTypeView::FwResponse(m) => le_bytes16(m._type) + le_bytes16(m.version)
            + le_bytes16(m.blocks) + m.data,
        MessagePayloadTypeView::Other(d) => d,
    }
}

/// The line a flat record serializes to: firmware payloads in upper-case
/// hex, raw buffers in lower-case hex.
pub open spec fn flat_render(v: CommandMessageView) -> Seq<char> {
    wire::render_fields(
        v.node_id,
        v.child_sensor_id,
        command_type_code(v.command),
        v.ack,
        command_sub_type_code(v.sub_type),
        (match v.payload {
            MessagePayloadTypeView::Other(d) => wire::hex_lower_of(d),
            _ => wire::hex_upper_of(flat_payload_bytes(v.payload)),
        }),
    )
}

/// Append the two little-endian bytes of a 16-bit integer.
fn push_le16(out: &mut Vec<u8>, x: u16)
    ensures
        final(out)@ == old(out)@ + le_bytes16(x),
{
    out.push((x % 256) as u8);
    out.push((x / 256) as u8);
    proof {
        assert(out@ =~= old(out)@ + le_bytes16(x));
    }
}

impl CommandMessage {
    /// Parse one received line into a flat record.
    pub fn new(command_message: &String) -> (r: Result<CommandMessage, String>)
        ensures
            (match r {
                Ok(m) => flat_parse_spec(command_message@) == Ok::<CommandMessageView, Seq<char>>(
                    m@,
                ),
                Err(e) => flat_parse_spec(command_message@) matches Err(msg) && e@ == msg,
            }),
    {
        let trimmed = wire::trim_ws(command_message.as_str());
        let parts = wire::split_semi(trimmed);
        let ghost p = wire::split_semi_spec(wire::trim_spec(command_message@));
        proof {
            assert(parts.deep_view() == p);
        }
        if parts.len() != 6 {
            return Err(
                "Invalid Command Message, should have 6 components separated by ';'".to_owned(),
            );
        }
        proof {
            assert forall|i: int| 0 <= i < 6 implies parts@[i]@ == p[i] by {
                assert(parts.deep_view()[i] == parts@[i]@);
            }
        }
        let command = match wire::parse_dec_u8(parts[2].as_str()) {
            Some(b) => match CommandType::_u8(b) {
                Some(c) => c,
                None => {
                    return Err("Error parsing string to command".to_owned());
                },
            },
            None => {
                return Err("Error parsing string to command".to_owned());
            },
        };
        let is_stream = match command {
            CommandType::STREAM => true,
            _ => false,
        };
        let sub_type = if is_stream {
            match wire::parse_dec_u8(parts[4].as_str()) {
                Some(b) => match CommandSubType::_u8(b) {
                    Some(t) => t,
                    None => {
                        return Err("Error parsing string to sub_type".to_owned());
                    },
                },
                None => {
                    return Err("Error parsing string to sub_type".to_owned());
                },
            }
        } else {
            CommandSubType::Other
        };
        let array_val: [u8; 32] = if is_stream {
            match wire::hex_decode(parts[5].as_str()) {
                Ok(v) => vector_as_u8_32_array(v),
                Err(_) => {
                    return Err("Error while decoding hex".to_owned());
                },
            }
        } else {
            let zeroes = [0u8; 32];
            proof {
                assert(zeroes@ =~= Seq::new(32, |i: int| 0u8));
            }
            zeroes
        };
        let node_id = match wire::parse_dec_u8(parts[0].as_str()) {
            Some(v) => v,
            None => {
                return Err("Error parsing string to node_id".to_owned());
            },
        };
        let child_sensor_id = match wire::parse_dec_u8(parts[1].as_str()) {
            Some(v) => v,
            None => {
                return Err("Error parsing string to child_sensor_id".to_owned());
            },
        };
        let ack = match wire::parse_dec_u8(parts[3].as_str()) {
            Some(v) => v,
            None => {
                return Err("Error parsing string to ack".to_owned());
            },
        };
        let buffer = FirmwarePayload::new(array_val);
        let payload = if is_stream {
            match sub_type {
                CommandSubType::StFirmwareConfigRequest => MessagePayloadType::FwConfigRequest(
                    FwConfigRequestMessage {
                        _type: buffer.read_le16(0),
                        version: buffer.read_le16(2),
                        blocks: buffer.read_le16(4),
                        crc: buffer.read_le16(6),
                        bl_version: buffer.read_le16(8),
                    },
                ),
                CommandSubType::StFirmwareConfigResponse => MessagePayloadType::FwConfigResponse(
                    FwConfigResponseMessage {
                        _type: buffer.read_le16(0),
                        version: buffer.read_le16(2),
                        blocks: buffer.read_le16(4),
                        crc: buffer.read_le16(6),
                    },
                ),
                CommandSubType::StFirmwareRequest => MessagePayloadType::FwRequest(
                    FwRequestMessage {
                        _type: buffer.read_le16(0),
                        version: buffer.read_le16(2),
                        blocks: buffer.read_le16(4),
                    },
                ),
                CommandSubType::StFirmwareResponse => {
                    let mut data = [0u8; 16];
                    let mut i: usize = 0;
                    while i < 16
                        invariant
                            0 <= i <= 16,
                            buffer.data@.len() == 32,
                            data@.len() == 16,
                            forall|k: int| 0 <= k < i ==> data@[k] == buffer.data@[6 + k],
                        decreases 16 - i,
                    {
                        data[i] = buffer.data[6 + i];
                        i = i + 1;
                    }
                    proof {
                        assert(data@ =~= buffer.data@.subrange(6, 22));
                    }
                    MessagePayloadType::FwResponse(
                        FwResponseMessage {
                            _type: buffer.read_le16(0),
                            version: buffer.read_le16(2),
                            blocks: buffer.read_le16(4),
                            data,
                        },
                    )
                },
                CommandSubType::Other => MessagePayloadType::Other(buffer.data),
            }
        } else {
            MessagePayloadType::Other(buffer.data)
        };
        Ok(CommandMessage { node_id, child_sensor_id, command, ack, sub_type, payload })
    }

    /// The firmware key a request frame names, if it is one.
    pub fn fw_type_version(&self) -> (r: Option<(u16, u16)>)
        ensures
            r == (match self@.payload {
                MessagePayloadTypeView::FwConfigRequest(m) => Some((m._type, m.version)),
                MessagePayloadTypeView::FwRequest(m) => Some((m._type, m.version)),
                _ => None::<(u16, u16)>,
            }),
    {
        match &self.payload {
            MessagePayloadType::FwConfigRequest(request) => Some((request._type, request.version)),
            MessagePayloadType::FwRequest(request) => Some((request._type, request.version)),
            _ => None,
        }
    }

    /// Turn a request frame into its reply for the given firmware, in place.
    pub fn to_response(&mut self, firmware: &Firmware)
        requires
            0 <= firmware.firmware_type <= 0xFFFF,
            0 <= firmware.firmware_version <= 0xFFFF,
            0 <= firmware.blocks <= 0xFFFF,
            0 <= firmware.crc <= 0xFFFF,
        ensures
            final(self).node_id == old(self).node_id,
            final(self).child_sensor_id == old(self).child_sensor_id,
            final(self).command == old(self).command,
            final(self).ack == old(self).ack,
            final(self).sub_type == (match old(self).sub_type {
                CommandSubType::StFirmwareConfigRequest => CommandSubType::StFirmwareConfigResponse,
                CommandSubType::StFirmwareRequest => CommandSubType::StFirmwareResponse,
                other => other,
            }),
            final(self)@.payload == (match old(self)@.payload {
                MessagePayloadTypeView::FwConfigRequest(_) => MessagePayloadTypeView::FwConfigResponse(
                    FwConfigResponseMessage {
                        _type: firmware.firmware_type as u16,
                        version: firmware.firmware_version as u16,
                        blocks: firmware.blocks as u16,
                        crc: firmware.crc as u16,
                    },
                ),
                MessagePayloadTypeView::FwRequest(request) => MessagePayloadTypeView::FwResponse(
                    FwResponseView {
                        _type: firmware.firmware_type as u16,
                        version: firmware.firmware_version as u16,
                        blocks: request.blocks,
                        data: crate::firmware::block_of(firmware.data@, request.blocks as int),
                    },
                ),
                other => other,
            }),
    {
        self.sub_type = match self.sub_type {
            CommandSubType::StFirmwareConfigRequest => CommandSubType::StFirmwareConfigResponse,
            CommandSubType::StFirmwareRequest => CommandSubType::StFirmwareResponse,
            other => other,
        };
        self.payload = match self.payload {
            MessagePayloadType::FwConfigRequest(_request) => MessagePayloadType::FwConfigResponse(
                FwConfigResponseMessage {
                    _type: firmware.firmware_type as u16,
                    version: firmware.firmware_version as u16,
                    blocks: firmware.blocks as u16,
                    crc: firmware.crc as u16,
                },
            ),
            MessagePayloadType::FwRequest(request) => MessagePayloadType::FwResponse(
                FwResponseMessage {
                    _type: firmware.firmware_type as u16,
                    version: firmware.firmware_version as u16,
                    blocks: request.blocks,
                    data: firmware.get_block(request.blocks),
                },
            ),
            other => other,
        };
    }

    /// The wire line of this record, with its trailing newline.
    pub fn serialize(self) -> (r: String)
        ensures
            r@ == flat_render(self@),
    {
        let mut bytes: Vec<u8> = Vec::new();
        let lower = match &self.payload {
            MessagePayloadType::Other(_) => true,
            _ => false,
        };
        match &self.payload {
            MessagePayloadType::FwConfigRequest(m) => {
                push_le16(&mut bytes, m._type);
                push_le16(&mut bytes, m.version);
                push_le16(&mut bytes, m.blocks);
                push_le16(&mut bytes, m.crc);
                push_le16(&mut bytes, m.bl_version);
            },
            MessagePayloadType::FwConfigResponse(m) => {
                push_le16(&mut bytes, m._type);
                push_le16(&mut bytes, m.version);
                push_le16(&mut bytes, m.blocks);
                push_le16(&mut bytes, m.crc);
            },
            MessagePayloadType::FwRequest(m) => {
                push_le16(&mut bytes, m._type);
                push_le16(&mut bytes, m.version);
                push_le16(&mut bytes, m.blocks);
            },
            MessagePayloadType::FwResponse(m) => {
                push_le16(&mut bytes, m._type);
                push_le16(&mut bytes, m.version);
                push_le16(&mut bytes, m.blocks);
                let mut i: usize = 0;
                while i < 16
                    invariant
                        0 <= i <= 16,
                        m.data@.len() == 16,
                        bytes@ == le_bytes16(m._type) + le_bytes16(m.version) + le_bytes16(m.blocks)
                            + m.data@.take(i as int),
                    decreases 16 - i,
                {
                    let b = m.data[i];
                    bytes.push(b);
                    proof {
                        assert(m.data@.take(i + 1) =~= m.data@.take(i as int).push(b));
                        assert(bytes@ =~= le_bytes16(m._type) + le_bytes16(m.version) + le_bytes16(
                            m.blocks,
                        ) + m.data@.take(i + 1));
                    }
                    i = i + 1;
                }
                proof {
                    assert(m.data@.take(16) =~= m.data@);
                }
            },
            MessagePayloadType::Other(d) => {
                let mut i: usize = 0;
                while i < 32
                    invariant
                        0 <= i <= 32,
                        d@.len() == 32,
                        bytes@ == d@.take(i as int),
                    decreases 32 - i,
                {
                    let b = d[i];
                    bytes.push(b);
                    proof {
                        assert(d@.take(i + 1) =~= d@.take(i as int).push(b));
                    }
                    i = i + 1;
                }
                proof {
                    assert(d@.take(32) =~= d@);
                }
            },
        }
        let payload = if lower {
            wire::hex_encode_lower(bytes.as_slice())
        } else {
            proof {
                assert(bytes@ =~= flat_payload_bytes(self@.payload));
            }
            wire::hex_encode_upper(bytes.as_slice())
        };
        wire::render_fields_line(
            self.node_id,
            self.child_sensor_id,
            self.command.type_code(),
            self.ack,
            self.sub_type.type_code(),
            payload.as_str(),
        )
    }
}

impl FirmwarePayload {
    /// Read the 16-bit integer packed little-endian at a byte offset.
    pub fn read_le16(&self, i: usize) -> (r: u16)
        requires
            i + 2 <= 32,
        ensures
            r == le16_at(self.data@, i as int),
    {
        let lo = self.data[i];
        let hi = self.data[i + 1];
        lo as u16 + 256 * (hi as u16)
    }
}

/// What peeking at a line's command field yields: the family byte of a line
/// with exactly six fields, where that field is a decimal number. Unlike
/// parsing, peeking does not trim the line.
pub open spec fn flat_command_type_spec(s: Seq<char>) -> Option<CommandType> {
    let p = wire::split_semi_spec(s);
    if p.len() != 6 {
        None
    } else {
        match wire::dec_parse_u8(p[2]) {
            Some(b) => command_type_of(b as int),
            None => None,
        }
    }
}

/// The command family of a raw line, without parsing the rest of it.
pub fn command_type(message_string: &String) -> (r: Option<CommandType>)
    ensures
        r == flat_command_type_spec(message_string@),
{
    let parts = wire::split_semi(message_string.as_str());
    if parts.len() != 6 {
        return None;
    }
    proof {
        assert(parts.deep_view()[2] == parts@[2]@);
    }
    match wire::parse_dec_u8(parts[2].as_str()) {
        Some(b) => CommandType::_u8(b),
        None => None,
    }
}

} // verus!
