//! Parsing a received line into a typed frame, and rendering frames back.
//!
//! A line is trimmed and split at `;` into exactly six fields:
//! `node-id;child-sensor-id;command;ack;type;payload`. The command byte
//! selects the family; REQ frames are kept verbatim and relayed.

use vstd::prelude::*;

use crate::proto::error::ParseError;
use crate::proto::internal;
use crate::proto::internal::{InternalMessage, InternalMessageView};
use crate::proto::presentation;
use crate::proto::presentation::{PresentationMessage, PresentationMessageView};
use crate::proto::set_msg::{self, SetMessage, SetMessageView};
use crate::proto::stream;
use crate::proto::stream::{StreamMessage, StreamMessageView};
use crate::wire;

verus! {

/// The five MySensors command families.
#[allow(non_camel_case_types)]
#[derive(Debug, Clone, Copy, PartialEq, Eq, Structural)]
pub enum CommandType {
    PRESENTATION,
    SET,
    REQ,
    INTERNAL,
    STREAM,
}

/// The command family encoded by a byte, if any.
pub open spec fn command_type_of(b: int) -> Option<CommandType> {
    if b == 0 {
        Some(CommandType::PRESENTATION)
    } else if b == 1 {
        Some(CommandType::SET)
    } else if b == 2 {
        Some(CommandType::REQ)
    } else if b == 3 {
        Some(CommandType::INTERNAL)
    } else if b == 4 {
        Some(CommandType::STREAM)
    } else {
        None
    }
}

/// A parsed frame, typed by family. Families the proxy does not interpret
/// stay as the line that was received.
#[derive(Debug)]
pub enum CommandMessage {
    Presentation(PresentationMessage),
    SetMsg(SetMessage),
    Other(String),
    Stream(StreamMessage),
    Internal(InternalMessage),
}

/// The mathematical shape of a parsed frame.
pub enum CommandMessageView {
    Presentation(PresentationMessageView),
    SetMsg(SetMessageView),
    Other(Seq<char>),
    Stream(StreamMessageView),
    Internal(InternalMessageView),
}

impl View for CommandMessage {
    type V = CommandMessageView;

    open spec fn view(&self) -> CommandMessageView {
        match self {
            CommandMessage::Presentation(m) => CommandMessageView::Presentation(m@),
            CommandMessage::SetMsg(m) => CommandMessageView::SetMsg(m@),
            CommandMessage::Other(s) => CommandMessageView::Other(s@),
            CommandMessage::Stream(m) => CommandMessageView::Stream(m@),
            CommandMessage::Internal(m) => CommandMessageView::Internal(m@),
        }
    }
}

/// What parsing a line yields, for every line: the fields in order, each
/// with its own error, then the family-specific payload rules.
pub open spec fn parse_spec(s: Seq<char>) -> Result<CommandMessageView, ParseError> {
    let p = wire::split_semi_spec(wire::trim_spec(s));
    if p.len() != 6 {
        Err(ParseError::InvalidCommandMessage)
    } else if wire::dec_parse_u8(p[0]) is None {
        Err(ParseError::InvalidNodeId)
    } else if wire::dec_parse_u8(p[1]) is None {
        Err(ParseError::InvalidChildSensorId)
    } else if wire::dec_parse_u8(p[2]) is None || command_type_of(
        wire::dec_parse_u8(p[2]).unwrap() as int,
    ) is None {
        Err(ParseError::InvalidCommand)
    } else if wire::dec_parse_u8(p[3]) is None {
        Err(ParseError::InvalidACK)
    } else if wire::dec_parse_u8(p[4]) is None {
        Err(ParseError::InvalidSubType)
    } else {
        let node_id = wire::dec_parse_u8(p[0]).unwrap();
        let child_sensor_id = wire::dec_parse_u8(p[1]).unwrap();
        let command = command_type_of(wire::dec_parse_u8(p[2]).unwrap() as int).unwrap();
        let ack = wire::dec_parse_u8(p[3]).unwrap();
        let sub_type = wire::dec_parse_u8(p[4]).unwrap();
        match command {
            CommandType::PRESENTATION => match presentation::presentation_build_spec(
                node_id,
                child_sensor_id,
                ack,
                sub_type,
                p[5],
            ) {
                Ok(m) => Ok(CommandMessageView::Presentation(m)),
                Err(e) => Err(e),
            },
            CommandType::SET => match set_msg::set_build_spec(
                node_id,
                child_sensor_id,
                ack,
                sub_type,
                p[5],
            ) {
                Ok(m) => Ok(CommandMessageView::SetMsg(m)),
                Err(e) => Err(e),
            },
            CommandType::REQ => Ok(CommandMessageView::Other(s)),
            CommandType::INTERNAL => match internal::internal_build_spec(
                node_id,
                child_sensor_id,
                sub_type,
                ack,
                p[5],
            ) {
                Ok(m) => Ok(CommandMessageView::Internal(m)),
                Err(e) => Err(e),
            },
            CommandType::STREAM => match stream::stream_build_spec(
                node_id,
                child_sensor_id,
                sub_type,
                ack,
                p[5],
            ) {
                Ok(m) => Ok(CommandMessageView::Stream(m)),
                Err(e) => Err(e),
            },
        }
    }
}

/// The line a parsed frame renders to. A verbatim frame is returned as it
/// was received; the typed families render canonically with a trailing
/// newline.
pub open spec fn render_command(v: CommandMessageView) -> Seq<char> {
    match v {
        CommandMessageView::Presentation(m) => presentation::render_presentation(m),
        CommandMessageView::SetMsg(m) => set_msg::render_set(m),
        CommandMessageView::Other(s) => s,
        CommandMessageView::Stream(m) => stream::render_stream(m),
        CommandMessageView::Internal(m) => internal::render_internal(m),
    }
}

impl CommandMessage {
    /// Parse one received line into a typed frame.
    pub fn new(command_message: &String) -> (r: Result<CommandMessage, ParseError>)
        ensures
            (match r {
                Ok(m) => parse_spec(command_message@) == Ok::<CommandMessageView, ParseError>(m@),
                Err(e) => parse_spec(command_message@) == Err::<CommandMessageView, ParseError>(e),
            }),
    {
        let trimmed = wire::trim_ws(command_message.as_str());
        let parts = wire::split_semi(trimmed);
        let ghost p = wire::split_semi_spec(wire::trim_spec(command_message@));
        proof {
            assert(parts.deep_view() == p);
            assert(parts@.len() == p.len());
        }
        if parts.len() != 6 {
            return Err(ParseError::InvalidCommandMessage);
        }
        proof {
            assert forall|i: int| 0 <= i < 6 implies parts@[i]@ == p[i] by {
                assert(parts.deep_view()[i] == parts@[i]@);
            }
        }
        let node_id = match wire::parse_dec_u8(parts[0].as_str()) {
            Some(v) => v,
            None => {
                return Err(ParseError::InvalidNodeId);
            },
        };
        let child_sensor_id = match wire::parse_dec_u8(parts[1].as_str()) {
            Some(v) => v,
            None => {
                return Err(ParseError::InvalidChildSensorId);
            },
        };
        let command_byte = match wire::parse_dec_u8(parts[2].as_str()) {
            Some(v) => v,
            None => {
                return Err(ParseError::InvalidCommand);
            },
        };
        if command_byte > 4 {
            return Err(ParseError::InvalidCommand);
        }
        let ack = match wire::parse_dec_u8(parts[3].as_str()) {
            Some(v) => v,
            None => {
                return Err(ParseError::InvalidACK);
            },
        };
        let sub_type = match wire::parse_dec_u8(parts[4].as_str()) {
            Some(v) => v,
            None => {
                return Err(ParseError::InvalidSubType);
            },
        };
        let payload = parts[5].as_str();
        if command_byte == 0 {
            match PresentationMessage::build(node_id, child_sensor_id, ack, sub_type, payload) {
                Ok(m) => Ok(CommandMessage::Presentation(m)),
                Err(e) => Err(e),
            }
        } else if command_byte == 1 {
            match SetMessage::build(node_id, child_sensor_id, ack, sub_type, payload) {
                Ok(m) => Ok(CommandMessage::SetMsg(m)),
                Err(e) => Err(e),
            }
        } else if command_byte == 2 {
            Ok(CommandMessage::Other(command_message.clone()))
        } else if command_byte == 3 {
            match InternalMessage::build(node_id, child_sensor_id, sub_type, ack, payload) {
                Ok(m) => Ok(CommandMessage::Internal(m)),
                Err(e) => Err(e),
            }
        } else {
            match StreamMessage::build(node_id, child_sensor_id, sub_type, ack, payload) {
                Ok(m) => Ok(CommandMessage::Stream(m)),
                Err(e) => Err(e),
            }
        }
    }

    /// The wire line of this frame.
    pub fn render(&self) -> (r: String)
        ensures
            r@ == render_command(self@),
    {
        match self {
            CommandMessage::Presentation(m) => m.render(),
            CommandMessage::SetMsg(m) => m.render(),
            CommandMessage::Other(s) => s.clone(),
            CommandMessage::Stream(m) => m.render(),
            CommandMessage::Internal(m) => m.render(),
        }
    }
}

/// A frame that the codec can carry onto the wire and back unchanged: its
/// payload holds no separator and no trailing whitespace, a SET frame's
/// acknowledgement is 0 as the renderer writes it, a STREAM frame's payload
/// agrees with its sub-type, and it is not a verbatim relay.
pub open spec fn canonical_command(v: CommandMessageView) -> bool {
    match v {
        CommandMessageView::Presentation(m) => wire::canonical_payload(m.payload),
        CommandMessageView::SetMsg(m) => wire::canonical_payload(m.value.value),
        CommandMessageView::Other(_) => false,
        CommandMessageView::Stream(m) => stream::stream_canonical(m),
        CommandMessageView::Internal(m) => wire::canonical_payload(m.payload),
    }
}

#[verifier::rlimit(100)]
proof fn lemma_round_trip_presentation(m: PresentationMessageView)
    requires
        wire::canonical_payload(m.payload),
    ensures
        parse_spec(render_command(CommandMessageView::Presentation(m)))
            == Ok::<CommandMessageView, ParseError>(CommandMessageView::Presentation(m)),
{
    let code = presentation::presentation_code(m.sub_type);
    wire::lemma_render_fields_split(m.node_id, m.child_sensor_id, 0, m.ack, code, m.payload);
    wire::lemma_dec_round_trip(m.node_id);
    wire::lemma_dec_round_trip(m.child_sensor_id);
    wire::lemma_dec_round_trip(0);
    wire::lemma_dec_round_trip(m.ack);
    wire::lemma_dec_round_trip(code);
    assert(presentation::presentation_of(code as int) == Some(m.sub_type));
}

#[verifier::rlimit(100)]
proof fn lemma_round_trip_set(m: SetMessageView)
    requires
        wire::canonical_payload(m.value.value),
    ensures
        parse_spec(render_command(CommandMessageView::SetMsg(m)))
            == Ok::<CommandMessageView, ParseError>(CommandMessageView::SetMsg(m)),
{
    let code = set_msg::set_req_code(m.value.set_type);
    wire::lemma_render_fields_split(m.node_id, m.child_sensor_id, 1, m.ack, code, m.value.value);
    wire::lemma_dec_round_trip(m.node_id);
    wire::lemma_dec_round_trip(m.child_sensor_id);
    wire::lemma_dec_round_trip(1);
    wire::lemma_dec_round_trip(m.ack);
    wire::lemma_dec_round_trip(code);
    assert(set_msg::set_req_of(code as int) == Some(m.value.set_type));
}

#[verifier::rlimit(100)]
proof fn lemma_round_trip_stream(m: StreamMessageView)
    requires
        stream::stream_canonical(m),
    ensures
        parse_spec(render_command(CommandMessageView::Stream(m)))
            == Ok::<CommandMessageView, ParseError>(CommandMessageView::Stream(m)),
{
    let code = stream::stream_type_code(m.sub_type);
    let bytes = stream::stream_payload_bytes(m.payload);
    let payload = wire::hex_upper_of(bytes);
    wire::lemma_hex_upper_plain(bytes);
    wire::lemma_render_fields_split(m.node_id, m.child_sensor_id, 4, m.ack, code, payload);
    wire::lemma_dec_round_trip(m.node_id);
    wire::lemma_dec_round_trip(m.child_sensor_id);
    wire::lemma_dec_round_trip(4);
    wire::lemma_dec_round_trip(m.ack);
    wire::lemma_dec_round_trip(code);
    wire::lemma_hex_round_trip(bytes);
    assert(stream::stream_type_of(code as int) == Some(m.sub_type));
    stream::lemma_stream_payload_round_trip(m.sub_type, m.payload);
}

#[verifier::rlimit(100)]
proof fn lemma_round_trip_internal(m: InternalMessageView)
    requires
        wire::canonical_payload(m.payload),
    ensures
        parse_spec(render_command(CommandMessageView::Internal(m)))
            == Ok::<CommandMessageView, ParseError>(CommandMessageView::Internal(m)),
{
    let code = internal::internal_type_code(m.sub_type);
    wire::lemma_render_fields_split(m.node_id, m.child_sensor_id, 3, m.ack, code, m.payload);
    wire::lemma_dec_round_trip(m.node_id);
    wire::lemma_dec_round_trip(m.child_sensor_id);
    wire::lemma_dec_round_trip(3);
    wire::lemma_dec_round_trip(m.ack);
    wire::lemma_dec_round_trip(code);
    assert(internal::internal_type_of(code as int) == Some(m.sub_type));
}

/// Round trip of the codec: parsing the rendered form of a canonical frame
/// gives the frame back. Together with the exact contracts of
/// `CommandMessage::new` and `CommandMessage::render`, every canonical frame
/// satisfies `render(parse(F)) == F` on the wire.
pub proof fn lemma_parse_render_round_trip(v: CommandMessageView)
    requires
        canonical_command(v),
    ensures
        parse_spec(render_command(v)) == Ok::<CommandMessageView, ParseError>(v),
{
    match v {
        CommandMessageView::Presentation(m) => lemma_round_trip_presentation(m),
        CommandMessageView::SetMsg(m) => lemma_round_trip_set(m),
        CommandMessageView::Other(_) => {},
        CommandMessageView::Stream(m) => lemma_round_trip_stream(m),
        CommandMessageView::Internal(m) => lemma_round_trip_internal(m),
    }
}

/// What peeking at a line's command field yields: the family byte of a line
/// with exactly six fields, where that field is a decimal number.
pub open spec fn command_type_spec(s: Seq<char>) -> Option<CommandType> {
    let p = wire::split_semi_spec(s);
    if p.len() != 6 {
        None
    } else {
        match wire::dec_parse_u8(p[2]) {
            Some(b) => command_type_of(b as int),
            None => None,
        }
    }
}

/// The command family of a raw line, without parsing the rest of it.
pub fn command_type(message_string: &String) -> (r: Option<CommandType>)
    ensures
        r == command_type_spec(message_string@),
{
    let parts = wire::split_semi(message_string.as_str());
    let ghost p = wire::split_semi_spec(message_string@);
    if parts.len() != 6 {
        return None;
    }
    proof {
        assert(parts.deep_view()[2] == parts@[2]@);
    }
    match wire::parse_dec_u8(parts[2].as_str()) {
        Some(b) => {
            if b == 0 {
                Some(CommandType::PRESENTATION)
            } else if b == 1 {
                Some(CommandType::SET)
            } else if b == 2 {
                Some(CommandType::REQ)
            } else if b == 3 {
                Some(CommandType::INTERNAL)
            } else if b == 4 {
                Some(CommandType::STREAM)
            } else {
                None
            }
        },
        None => None,
    }
}

} // verus!
