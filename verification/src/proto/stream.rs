//! STREAM-family frames: the binary firmware-update protocol, carried as
//! upper-case hex in the payload field. Every multi-byte integer is packed
//! little-endian with no padding.

use vstd::prelude::*;

use crate::proto::error::ParseError;
use crate::wire;

verus! {

/// Sub-types of the STREAM command family.
#[derive(Debug, Clone, Copy, PartialEq, Eq, Structural)]
pub enum StreamType {
    StFirmwareConfigRequest,
    StFirmwareConfigResponse,
    StFirmwareRequest,
    StFirmwareResponse,
}

/// The sub-type byte of each STREAM sub-type.
pub open spec fn stream_type_code(t: StreamType) -> u8 {
    match t {
        StreamType::StFirmwareConfigRequest => 0,
        StreamType::StFirmwareConfigResponse => 1,
        StreamType::StFirmwareRequest => 2,
        StreamType::StFirmwareResponse => 3,
    }
}

/// The STREAM sub-type encoded by a byte, if any.
pub open spec fn stream_type_of(b: int) -> Option<StreamType> {
    if b == 0 {
        Some(StreamType::StFirmwareConfigRequest)
    } else if b == 1 {
        Some(StreamType::StFirmwareConfigResponse)
    } else if b == 2 {
        Some(StreamType::StFirmwareRequest)
    } else if b == 3 {
        Some(StreamType::StFirmwareResponse)
    } else {
        None
    }
}

impl StreamType {
    /// The sub-type byte sent on the wire.
    pub fn type_code(&self) -> (r: u8)
        ensures
            r == stream_type_code(*self),
    {
        match self {
            StreamType::StFirmwareConfigRequest => 0,
            StreamType::StFirmwareConfigResponse => 1,
            StreamType::StFirmwareRequest => 2,
            StreamType::StFirmwareResponse => 3,
        }
    }

    /// The sub-type a byte stands for, if it is one.
    pub fn from_u8(b: u8) -> (r: Option<StreamType>)
        ensures
            r == stream_type_of(b as int),
    {
        match b {
            0 => Some(StreamType::StFirmwareConfigRequest),
            1 => Some(StreamType::StFirmwareConfigResponse),
            2 => Some(StreamType::StFirmwareRequest),
            3 => Some(StreamType::StFirmwareResponse),
            _ => None,
        }
    }
}

/// The 16-bit integer packed little-endian at byte offset `i`.
pub open spec fn le16_at(b: Seq<u8>, i: int) -> u16 {
    (b[i] + 256 * b[i + 1]) as u16
}

/// The two little-endian bytes of a 16-bit integer.
pub open spec fn le_bytes16(x: u16) -> Seq<u8> {
    seq![(x % 256) as u8, (x / 256) as u8]
}

/// A node advertising what it runs and asking what it should run: 10 bytes.
#[derive(Debug, Clone, Copy, PartialEq, Eq, Structural)]
pub struct FwConfigRequestMessage {
    pub firmware_type: u16,
    pub firmware_version: u16,
    pub blocks: u16,
    pub crc: u16,
    pub bl_version: u16,
}

/// The answer naming the firmware the node should fetch: 8 bytes.
#[derive(Debug, Clone, Copy, PartialEq, Eq, Structural)]
pub struct FwConfigResponseMessage {
    pub firmware_type: u16,
    pub firmware_version: u16,
    pub blocks: u16,
    pub crc: u16,
}

/// A node asking for one 16-byte block of a firmware: 6 bytes. The `blocks`
/// field carries the requested block index.
#[derive(Debug, Clone, Copy, PartialEq, Eq, Structural)]
pub struct FwRequestMessage {
    pub firmware_type: u16,
    pub firmware_version: u16,
    pub blocks: u16,
}

/// One block of firmware data on its way to a node: 22 bytes.
#[derive(Debug, Clone, Copy)]
pub struct FwResponseMessage {
    pub firmware_type: u16,
    pub firmware_version: u16,
    pub blocks: u16,
    pub data: [u8; 16],
}

/// The mathematical shape of a firmware block response.
pub struct FwResponseMessageView {
    pub firmware_type: u16,
    pub firmware_version: u16,
    pub blocks: u16,
    pub data: Seq<u8>,
}

impl View for FwResponseMessage {
    type V = FwResponseMessageView;

    open spec fn view(&self) -> FwResponseMessageView {
        FwResponseMessageView {
            firmware_type: self.firmware_type,
            firmware_version: self.firmware_version,
            blocks: self.blocks,
            data: self.data@,
        }
    }
}

/// The decoded binary payload of a STREAM frame.
#[derive(Debug, Clone, Copy)]
pub enum StreamPayload {
    FwConfigRequest(FwConfigRequestMessage),
    FwRequest(FwRequestMessage),
    FwConfigResponse(FwConfigResponseMessage),
    FwResponse(FwResponseMessage),
}

/// The mathematical shape of a STREAM payload.
pub enum StreamPayloadView {
    FwConfigRequest(FwConfigRequestMessage),
    FwRequest(FwRequestMessage),
    FwConfigResponse(FwConfigResponseMessage),
    FwResponse(FwResponseMessageView),
}

impl View for StreamPayload {
    type V = StreamPayloadView;

    open spec fn view(&self) -> StreamPayloadView {
        match self {
            StreamPayload::FwConfigRequest(m) => StreamPayloadView::FwConfigRequest(*m),
            StreamPayload::FwRequest(m) => StreamPayloadView::FwRequest(*m),
            StreamPayload::FwConfigResponse(m) => StreamPayloadView::FwConfigResponse(*m),
            StreamPayload::FwResponse(m) => StreamPayloadView::FwResponse(m@),
        }
    }
}

/// A frame of the STREAM command family.
#[derive(Debug, Clone, Copy)]
pub struct StreamMessage {
    pub node_id: u8,
    pub child_sensor_id: u8,
    pub ack: u8,
    pub sub_type: StreamType,
    pub payload: StreamPayload,
}

/// The mathematical shape of a STREAM frame.
pub struct StreamMessageView {
    pub node_id: u8,
    pub child_sensor_id: u8,
    pub ack: u8,
    pub sub_type: StreamType,
    pub payload: StreamPayloadView,
}

impl View for StreamMessage {
    type V = StreamMessageView;

    open spec fn view(&self) -> StreamMessageView {
        StreamMessageView {
            node_id: self.node_id,
            child_sensor_id: self.child_sensor_id,
            ack: self.ack,
            sub_type: self.sub_type,
            payload: self.payload@,
        }
    }
}

/// How many payload bytes each STREAM sub-type needs.
pub open spec fn stream_payload_len(t: StreamType) -> int {
    match t {
        StreamType::StFirmwareConfigRequest => 10,
        StreamType::StFirmwareConfigResponse => 8,
        StreamType::StFirmwareRequest => 6,
        StreamType::StFirmwareResponse => 22,
    }
}

/// The payload decoded from at least `stream_payload_len(t)` bytes.
pub open spec fn stream_payload_of(t: StreamType, v: Seq<u8>) -> StreamPayloadView {
    match t {
        StreamType::StFirmwareConfigRequest => StreamPayloadView::FwConfigRequest(
            FwConfigRequestMessage {
                firmware_type: le16_at(v, 0),
                firmware_version: le16_at(v, 2),
                blocks: le16_at(v, 4),
                crc: le16_at(v, 6),
                bl_version: le16_at(v, 8),
            },
        ),
        StreamType::StFirmwareConfigResponse => StreamPayloadView::FwConfigResponse(
            FwConfigResponseMessage {
                firmware_type: le16_at(v, 0),
                firmware_version: le16_at(v, 2),
                blocks: le16_at(v, 4),
                crc: le16_at(v, 6),
            },
        ),
        StreamType::StFirmwareRequest => StreamPayloadView::FwRequest(
            FwRequestMessage {
                firmware_type: le16_at(v, 0),
                firmware_version: le16_at(v, 2),
                blocks: le16_at(v, 4),
            },
        ),
        StreamType::StFirmwareResponse => StreamPayloadView::FwResponse(
            FwResponseMessageView {
                firmware_type: le16_at(v, 0),
                firmware_version: le16_at(v, 2),
                blocks: le16_at(v, 4),
                data: v.subrange(6, 22),
            },
        ),
    }
}

/// What building a STREAM message from raw fields yields: the payload must
/// be hex text encoding enough bytes for the sub-type.
pub open spec fn stream_build_spec(
    node_id: u8,
    child_sensor_id: u8,
    sub_type: u8,
    ack: u8,
    payload: Seq<char>,
) -> Result<StreamMessageView, ParseError> {
    match wire::hex_decode_spec(payload) {
        None => Err(ParseError::InvalidPayload),
        Some(v) => match stream_type_of(sub_type as int) {
            None => Err(ParseError::InvalidSubType),
            Some(t) => if v.len() < stream_payload_len(t) {
                Err(ParseError::InvalidPayload)
            } else {
                Ok(
                    StreamMessageView {
                        node_id,
                        child_sensor_id,
                        ack,
                        sub_type: t,
                        payload: stream_payload_of(t, v),
                    },
                )
            },
        },
    }
}

/// The binary bytes a STREAM payload packs to.
pub open spec fn stream_payload_bytes(p: StreamPayloadView) -> Seq<u8> {
    match p {
        StreamPayloadView::FwConfigRequest(m) => le_bytes16(m.firmware_type) + le_bytes16(
            m.firmware_version,
        ) + le_bytes16(m.blocks) + le_bytes16(m.crc) + le_bytes16(m.bl_version),
        StreamPayloadView::FwConfigResponse(m) => le_bytes16(m.firmware_type) + le_bytes16(
            m.firmware_version,
        ) + le_bytes16(m.blocks) + le_bytes16(m.crc),
        StreamPayloadView::FwRequest(m) => le_bytes16(m.firmware_type) + le_bytes16(
            m.firmware_version,
        ) + le_bytes16(m.blocks),
        StreamPayloadView::FwResponse(m) => le_bytes16(m.firmware_type) + le_bytes16(
            m.firmware_version,
        ) + le_bytes16(m.blocks) + m.data,
    }
}

/// The line a STREAM message renders to: command byte 4, payload in
/// upper-case hex.
pub open spec fn render_stream(v: StreamMessageView) -> Seq<char> {
    wire::render_fields(
        v.node_id,
        v.child_sensor_id,
        4,
        v.ack,
        stream_type_code(v.sub_type),
        wire::hex_upper_of(stream_payload_bytes(v.payload)),
    )
}

/// The sub-type of the reply to a request sub-type; replies and unknown
/// shapes keep theirs.
pub open spec fn response_sub_type(t: StreamType) -> StreamType {
    match t {
        StreamType::StFirmwareConfigRequest => StreamType::StFirmwareConfigResponse,
        StreamType::StFirmwareRequest => StreamType::StFirmwareResponse,
        _ => t,
    }
}

/// The payload of the reply built from a stored firmware: a config request
/// is answered with the firmware's shape, a block request with the block's
/// bytes; reply payloads stay as they are.
pub open spec fn response_payload(
    p: StreamPayloadView,
    f: crate::firmware::FirmwareView,
) -> StreamPayloadView {
    match p {
        StreamPayloadView::FwConfigRequest(_) => StreamPayloadView::FwConfigResponse(
            FwConfigResponseMessage {
                firmware_type: f.firmware_type as u16,
                firmware_version: f.firmware_version as u16,
                blocks: f.blocks as u16,
                crc: f.crc as u16,
            },
        ),
        StreamPayloadView::FwRequest(req) => StreamPayloadView::FwResponse(
            FwResponseMessageView {
                firmware_type: f.firmware_type as u16,
                firmware_version: f.firmware_version as u16,
                blocks: req.blocks,
                data: crate::firmware::block_of(f.data, req.blocks as int),
            },
        ),
        _ => p,
    }
}

impl StreamMessage {
    /// Turn a request frame into its reply for the given firmware, in place.
    pub fn response(&mut self, firmware: &crate::firmware::Firmware)
        requires
            0 <= firmware.firmware_type <= 0xFFFF,
            0 <= firmware.firmware_version <= 0xFFFF,
            0 <= firmware.blocks <= 0xFFFF,
            0 <= firmware.crc <= 0xFFFF,
        ensures
            final(self)@ == (StreamMessageView {
                node_id: old(self)@.node_id,
                child_sensor_id: old(self)@.child_sensor_id,
                ack: old(self)@.ack,
                sub_type: response_sub_type(old(self)@.sub_type),
                payload: response_payload(old(self)@.payload, firmware@),
            }),
    {
        self.sub_type = match self.sub_type {
            StreamType::StFirmwareConfigRequest => StreamType::StFirmwareConfigResponse,
            StreamType::StFirmwareRequest => StreamType::StFirmwareResponse,
            other => other,
        };
        self.payload = match self.payload {
            StreamPayload::FwConfigRequest(_request) => StreamPayload::FwConfigResponse(
                FwConfigResponseMessage {
                    firmware_type: firmware.firmware_type as u16,
                    firmware_version: firmware.firmware_version as u16,
                    blocks: firmware.blocks as u16,
                    crc: firmware.crc as u16,
                },
            ),
            StreamPayload::FwRequest(request) => StreamPayload::FwResponse(
                FwResponseMessage {
                    firmware_type: firmware.firmware_type as u16,
                    firmware_version: firmware.firmware_version as u16,
                    blocks: request.blocks,
                    data: firmware.get_block(request.blocks),
                },
            ),
            other => other,
        };
    }
}

/// A STREAM frame whose payload variant agrees with its sub-type and whose
/// block data, if any, has its full 16 bytes. Every parsed STREAM frame has
/// this shape.
pub open spec fn stream_canonical(v: StreamMessageView) -> bool {
    match v.payload {
        StreamPayloadView::FwConfigRequest(_) => v.sub_type == StreamType::StFirmwareConfigRequest,
        StreamPayloadView::FwConfigResponse(_) => v.sub_type
            == StreamType::StFirmwareConfigResponse,
        StreamPayloadView::FwRequest(_) => v.sub_type == StreamType::StFirmwareRequest,
        StreamPayloadView::FwResponse(m) => v.sub_type == StreamType::StFirmwareResponse
            && m.data.len() == 16,
    }
}

/// Decoding the packed bytes of a payload gives the payload back, and the
/// packed form has exactly the length its sub-type demands.
pub proof fn lemma_stream_payload_round_trip(t: StreamType, p: StreamPayloadView)
    requires
        stream_canonical(StreamMessageView { node_id: 0, child_sensor_id: 0, ack: 0, sub_type: t, payload: p }),
    ensures
        stream_payload_bytes(p).len() == stream_payload_len(t),
        stream_payload_of(t, stream_payload_bytes(p)) == p,
{
    let b = stream_payload_bytes(p);
    match p {
        StreamPayloadView::FwConfigRequest(m) => {
            assert(b =~= seq![
                (m.firmware_type % 256) as u8,
                (m.firmware_type / 256) as u8,
                (m.firmware_version % 256) as u8,
                (m.firmware_version / 256) as u8,
                (m.blocks % 256) as u8,
                (m.blocks / 256) as u8,
                (m.crc % 256) as u8,
                (m.crc / 256) as u8,
                (m.bl_version % 256) as u8,
                (m.bl_version / 256) as u8,
            ]);
            assert(le16_at(b, 0) == m.firmware_type);
            assert(le16_at(b, 2) == m.firmware_version);
            assert(le16_at(b, 4) == m.blocks);
            assert(le16_at(b, 6) == m.crc);
            assert(le16_at(b, 8) == m.bl_version);
        },
        StreamPayloadView::FwConfigResponse(m) => {
            assert(b =~= seq![
                (m.firmware_type % 256) as u8,
                (m.firmware_type / 256) as u8,
                (m.firmware_version % 256) as u8,
                (m.firmware_version / 256) as u8,
                (m.blocks % 256) as u8,
                (m.blocks / 256) as u8,
                (m.crc % 256) as u8,
                (m.crc / 256) as u8,
            ]);
            assert(le16_at(b, 0) == m.firmware_type);
            assert(le16_at(b, 2) == m.firmware_version);
            assert(le16_at(b, 4) == m.blocks);
            assert(le16_at(b, 6) == m.crc);
        },
        StreamPayloadView::FwRequest(m) => {
            assert(b =~= seq![
                (m.firmware_type % 256) as u8,
                (m.firmware_type / 256) as u8,
                (m.firmware_version % 256) as u8,
                (m.firmware_version / 256) as u8,
                (m.blocks % 256) as u8,
                (m.blocks / 256) as u8,
            ]);
            assert(le16_at(b, 0) == m.firmware_type);
            assert(le16_at(b, 2) == m.firmware_version);
            assert(le16_at(b, 4) == m.blocks);
        },
        StreamPayloadView::FwResponse(m) => {
            let head = seq![
                (m.firmware_type % 256) as u8,
                (m.firmware_type / 256) as u8,
                (m.firmware_version % 256) as u8,
                (m.firmware_version / 256) as u8,
                (m.blocks % 256) as u8,
                (m.blocks / 256) as u8,
            ];
            assert(b =~= head + m.data);
            assert(le16_at(b, 0) == m.firmware_type);
            assert(le16_at(b, 2) == m.firmware_version);
            assert(le16_at(b, 4) == m.blocks);
            assert(b.subrange(6, 22) =~= m.data);
        },
    }
}

/// Append the two little-endian bytes of a 16-bit integer.
fn push_le16(out: &mut Vec<u8>, x: u16)
    ensures
        final(out)@ == old(out)@ + le_bytes16(x),
{
    out.push((x % 256) as u8);
    out.push((x / 256) as u8);
    proof {
        assert(out@ =~= old(out)@ + le_bytes16(x));
    }
}

/// Read the 16-bit integer packed little-endian at a byte offset.
fn read_le16(v: &Vec<u8>, i: usize) -> (r: u16)
    requires
        i + 2 <= v@.len(),
    ensures
        r == le16_at(v@, i as int),
{
    let n = v.len();
    assert(i + 2 <= n);
    let lo = v[i];
    let hi = v[i + 1];
    lo as u16 + 256 * (hi as u16)
}

impl StreamMessage {
    /// Build a message of this family from the six parsed fields.
    pub fn build(
        node_id: u8,
        child_sensor_id: u8,
        sub_type: u8,
        ack: u8,
        payload: &str,
    ) -> (r: Result<StreamMessage, ParseError>)
        ensures
            (match r {
                Ok(m) => stream_build_spec(node_id, child_sensor_id, sub_type, ack, payload@)
                    == Ok::<StreamMessageView, ParseError>(m@),
                Err(e) => stream_build_spec(node_id, child_sensor_id, sub_type, ack, payload@)
                    == Err::<StreamMessageView, ParseError>(e),
            }),
    {
        let v = match wire::hex_decode(payload) {
            Ok(v) => v,
            Err(_) => {
                return Err(ParseError::InvalidPayload);
            },
        };
        let t = match StreamType::from_u8(sub_type) {
            Some(t) => t,
            None => {
                return Err(ParseError::InvalidSubType);
            },
        };
        let need: usize = match t {
            StreamType::StFirmwareConfigRequest => 10,
            StreamType::StFirmwareConfigResponse => 8,
            StreamType::StFirmwareRequest => 6,
            StreamType::StFirmwareResponse => 22,
        };
        if v.len() < need {
            return Err(ParseError::InvalidPayload);
        }
        let payload = match t {
            StreamType::StFirmwareConfigRequest => StreamPayload::FwConfigRequest(
                FwConfigRequestMessage {
                    firmware_type: read_le16(&v, 0),
                    firmware_version: read_le16(&v, 2),
                    blocks: read_le16(&v, 4),
                    crc: read_le16(&v, 6),
                    bl_version: read_le16(&v, 8),
                },
            ),
            StreamType::StFirmwareConfigResponse => StreamPayload::FwConfigResponse(
                FwConfigResponseMessage {
                    firmware_type: read_le16(&v, 0),
                    firmware_version: read_le16(&v, 2),
                    blocks: read_le16(&v, 4),
                    crc: read_le16(&v, 6),
                },
            ),
            StreamType::StFirmwareRequest => StreamPayload::FwRequest(
                FwRequestMessage {
                    firmware_type: read_le16(&v, 0),
                    firmware_version: read_le16(&v, 2),
                    blocks: read_le16(&v, 4),
                },
            ),
            StreamType::StFirmwareResponse => {
                let mut data = [0u8; 16];
                let mut i: usize = 0;
                while i < 16
                    invariant
                        0 <= i <= 16,
                        v@.len() >= 22,
                        data@.len() == 16,
                        forall|k: int| 0 <= k < i ==> data@[k] == v@[6 + k],
                    decreases 16 - i,
                {
                    data[i] = v[6 + i];
                    i = i + 1;
                }
                proof {
                    assert(data@ =~= v@.subrange(6, 22));
                }
                StreamPayload::FwResponse(
                    FwResponseMessage {
                        firmware_type: read_le16(&v, 0),
                        firmware_version: read_le16(&v, 2),
                        blocks: read_le16(&v, 4),
                        data,
                    },
                )
            },
        };
        Ok(StreamMessage { node_id, child_sensor_id, ack, sub_type: t, payload })
    }

    /// The wire line of this message, with its trailing newline.
    pub fn render(&self) -> (r: String)
        ensures
            r@ == render_stream(self@),
    {
        let mut bytes: Vec<u8> = Vec::new();
        match &self.payload {
            StreamPayload::FwConfigRequest(m) => {
                push_le16(&mut bytes, m.firmware_type);
                push_le16(&mut bytes, m.firmware_version);
                push_le16(&mut bytes, m.blocks);
                push_le16(&mut bytes, m.crc);
                push_le16(&mut bytes, m.bl_version);
            },
            StreamPayload::FwConfigResponse(m) => {
                push_le16(&mut bytes, m.firmware_type);
                push_le16(&mut bytes, m.firmware_version);
                push_le16(&mut bytes, m.blocks);
                push_le16(&mut bytes, m.crc);
            },
            StreamPayload::FwRequest(m) => {
                push_le16(&mut bytes, m.firmware_type);
                push_le16(&mut bytes, m.firmware_version);
                push_le16(&mut bytes, m.blocks);
            },
            StreamPayload::FwResponse(m) => {
                push_le16(&mut bytes, m.firmware_type);
                push_le16(&mut bytes, m.firmware_version);
                push_le16(&mut bytes, m.blocks);
                let mut i: usize = 0;
                while i < 16
                    invariant
                        0 <= i <= 16,
                        m.data@.len() == 16,
                        bytes@ == le_bytes16(m.firmware_type) + le_bytes16(m.firmware_version)
                            + le_bytes16(m.blocks) + m.data@.take(i as int),
                    decreases 16 - i,
                {
                    let b = m.data[i];
                    bytes.push(b);
                    proof {
                        assert(m.data@.take(i + 1) =~= m.data@.take(i as int).push(b));
                        assert(bytes@ =~= le_bytes16(m.firmware_type) + le_bytes16(
                            m.firmware_version,
                        ) + le_bytes16(m.blocks) + m.data@.take(i + 1));
                    }
                    i = i + 1;
                }
                proof {
                    assert(m.data@.take(16) =~= m.data@);
                }
            },
        }
        proof {
            assert(bytes@ =~= stream_payload_bytes(self@.payload));
        }
        let payload = wire::hex_encode_upper(bytes.as_slice());
        wire::render_fields_line(
            self.node_id,
            self.child_sensor_id,
            4,
            self.ack,
            self.sub_type.type_code(),
            payload.as_str(),
        )
    }
}

} // verus!
