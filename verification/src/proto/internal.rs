//! INTERNAL-family frames: node lifecycle, liveness and topology messages.

use vstd::prelude::*;

use crate::proto::error::ParseError;
use crate::wire;

verus! {

/// Sub-types of the INTERNAL command family.
#[derive(Debug, Clone, Copy, PartialEq, Eq, Structural)]
pub enum InternalType {
    BatteryLevel,
    Time,
    Version,
    IdRequest,
    IdResponse,
    InclusionMode,
    Config,
    FindParent,
    FindParentResponse,
    LogMessage,
    Children,
    SketchName,
    SketchVersion,
    Reboot,
    GatewayReady,
    SigningPresentation,
    NonceRequest,
    NonceResponse,
    HeartbeatRequest,
    Presentation,
    DiscoverRequest,
    DiscoverResponse,
    HeartbeatResponse,
    Locked,
    Ping,
    Pong,
    RegistrationRequest,
    RegistrationResponse,
    Debug,
}

/// The sub-type byte of each INTERNAL sub-type.
pub open spec fn internal_type_code(t: InternalType) -> u8 {
    match t {
        InternalType::BatteryLevel => 0,
        InternalType::Time => 1,
        InternalType::Version => 2,
        InternalType::IdRequest => 3,
        InternalType::IdResponse => 4,
        InternalType::InclusionMode => 5,
        InternalType::Config => 6,
        InternalType::FindParent => 7,
        InternalType::FindParentResponse => 8,
        InternalType::LogMessage => 9,
        InternalType::Children => 10,
        InternalType::SketchName => 11,
        InternalType::SketchVersion => 12,
        InternalType::Reboot => 13,
        InternalType::GatewayReady => 14,
        InternalType::SigningPresentation => 15,
        InternalType::NonceRequest => 16,
        InternalType::NonceResponse => 17,
        InternalType::HeartbeatRequest => 18,
        InternalType::Presentation => 19,
        InternalType::DiscoverRequest => 20,
        InternalType::DiscoverResponse => 21,
        InternalType::HeartbeatResponse => 22,
        InternalType::Locked => 23,
        InternalType::Ping => 24,
        InternalType::Pong => 25,
        InternalType::RegistrationRequest => 26,
        InternalType::RegistrationResponse => 27,
        InternalType::Debug => 28,
    }
}

/// The INTERNAL sub-type encoded by a byte, if any.
pub open spec fn internal_type_of(b: int) -> Option<InternalType> {
    if b == 0 {
        Some(InternalType::BatteryLevel)
    } else if b == 1 {
        Some(InternalType::Time)
    } else if b == 2 {
        Some(InternalType::Version)
    } else if b == 3 {
        Some(InternalType::IdRequest)
    } else if b == 4 {
        Some(InternalType::IdResponse)
    } else if b == 5 {
        Some(InternalType::InclusionMode)
    } else if b == 6 {
        Some(InternalType::Config)
    } else if b == 7 {
        Some(InternalType::FindParent)
    } else if b == 8 {
        Some(InternalType::FindParentResponse)
    } else if b == 9 {
        Some(InternalType::LogMessage)
    } else if b == 10 {
        Some(InternalType::Children)
    } else if b == 11 {
        Some(InternalType::SketchName)
    } else if b == 12 {
        Some(InternalType::SketchVersion)
    } else if b == 13 {
        Some(InternalType::Reboot)
    } else if b == 14 {
        Some(InternalType::GatewayReady)
    } else if b == 15 {
        Some(InternalType::SigningPresentation)
    } else if b == 16 {
        Some(InternalType::NonceRequest)
    } else if b == 17 {
        Some(InternalType::NonceResponse)
    } else if b == 18 {
        Some(InternalType::HeartbeatRequest)
    } else if b == 19 {
        Some(InternalType::Presentation)
    } else if b == 20 {
        Some(InternalType::DiscoverRequest)
    } else if b == 21 {
        Some(InternalType::DiscoverResponse)
    } else if b == 22 {
        Some(InternalType::HeartbeatResponse)
    } else if b == 23 {
        Some(InternalType::Locked)
    } else if b == 24 {
        Some(InternalType::Ping)
    } else if b == 25 {
        Some(InternalType::Pong)
    } else if b == 26 {
        Some(InternalType::RegistrationRequest)
    } else if b == 27 {
        Some(InternalType::RegistrationResponse)
    } else if b == 28 {
        Some(InternalType::Debug)
    } else {
        None
    }
}

impl InternalType {
    /// The sub-type byte sent on the wire.
    pub fn type_code(&self) -> (r: u8)
        ensures
            r == internal_type_code(*self),
    {
        match self {
            InternalType::BatteryLevel => 0,
            InternalType::Time => 1,
            InternalType::Version => 2,
            InternalType::IdRequest => 3,
            InternalType::IdResponse => 4,
            InternalType::InclusionMode => 5,
            InternalType::Config => 6,
            InternalType::FindParent => 7,
            InternalType::FindParentResponse => 8,
            InternalType::LogMessage => 9,
            InternalType::Children => 10,
            InternalType::SketchName => 11,
            InternalType::SketchVersion => 12,
            InternalType::Reboot => 13,
            InternalType::GatewayReady => 14,
            InternalType::SigningPresentation => 15,
            InternalType::NonceRequest => 16,
            InternalType::NonceResponse => 17,
            InternalType::HeartbeatRequest => 18,
            InternalType::Presentation => 19,
            InternalType::DiscoverRequest => 20,
            InternalType::DiscoverResponse => 21,
            InternalType::HeartbeatResponse => 22,
            InternalType::Locked => 23,
            InternalType::Ping => 24,
            InternalType::Pong => 25,
            InternalType::RegistrationRequest => 26,
            InternalType::RegistrationResponse => 27,
            InternalType::Debug => 28,
        }
    }

    /// The sub-type a byte stands for, if it is one.
    pub fn from_u8(b: u8) -> (r: Option<InternalType>)
        ensures
            r == internal_type_of(b as int),
    {
        match b {
            0 => Some(InternalType::BatteryLevel),
            1 => Some(InternalType::Time),
            2 => Some(InternalType::Version),
            3 => Some(InternalType::IdRequest),
            4 => Some(InternalType::IdResponse),
            5 => Some(InternalType::InclusionMode),
            6 => Some(InternalType::Config),
            7 => Some(InternalType::FindParent),
            8 => Some(InternalType::FindParentResponse),
            9 => Some(InternalType::LogMessage),
            10 => Some(InternalType::Children),
            11 => Some(InternalType::SketchName),
            12 => Some(InternalType::SketchVersion),
            13 => Some(InternalType::Reboot),
            14 => Some(InternalType::GatewayReady),
            15 => Some(InternalType::SigningPresentation),
            16 => Some(InternalType::NonceRequest),
            17 => Some(InternalType::NonceResponse),
            18 => Some(InternalType::HeartbeatRequest),
            19 => Some(InternalType::Presentation),
            20 => Some(InternalType::DiscoverRequest),
            21 => Some(InternalType::DiscoverResponse),
            22 => Some(InternalType::HeartbeatResponse),
            23 => Some(InternalType::Locked),
            24 => Some(InternalType::Ping),
            25 => Some(InternalType::Pong),
            26 => Some(InternalType::RegistrationRequest),
            27 => Some(InternalType::RegistrationResponse),
            28 => Some(InternalType::Debug),
            _ => None,
        }
    }
}

/// A frame of the INTERNAL command family.
#[derive(Debug, Clone)]
pub struct InternalMessage {
    pub node_id: u8,
    pub child_sensor_id: u8,
    pub ack: u8,
    pub sub_type: InternalType,
    pub payload: String,
}

/// The mathematical shape of an INTERNAL frame.
pub struct InternalMessageView {
    pub node_id: u8,
    pub child_sensor_id: u8,
    pub ack: u8,
    pub sub_type: InternalType,
    pub payload: Seq<char>,
}

impl View for InternalMessage {
    type V = InternalMessageView;

    open spec fn view(&self) -> InternalMessageView {
        InternalMessageView {
            node_id: self.node_id,
            child_sensor_id: self.child_sensor_id,
            ack: self.ack,
            sub_type: self.sub_type,
            payload: self.payload@,
        }
    }
}

/// What building an INTERNAL message from raw fields yields.
pub open spec fn internal_build_spec(
    node_id: u8,
    child_sensor_id: u8,
    sub_type: u8,
    ack: u8,
    payload: Seq<char>,
) -> Result<InternalMessageView, ParseError> {
    match internal_type_of(sub_type as int) {
        Some(t) => Ok(
            InternalMessageView { node_id, child_sensor_id, ack, sub_type: t, payload },
        ),
        None => Err(ParseError::InvalidSubType),
    }
}

/// The line an INTERNAL message renders to: command byte 3.
pub open spec fn render_internal(v: InternalMessageView) -> Seq<char> {
    wire::render_fields(
        v.node_id,
        v.child_sensor_id,
        3,
        v.ack,
        internal_type_code(v.sub_type),
        v.payload,
    )
}

impl InternalMessage {
    /// Build a message of this family from the six parsed fields.
    pub fn build(
        node_id: u8,
        child_sensor_id: u8,
        sub_type: u8,
        ack: u8,
        payload: &str,
    ) -> (r: Result<InternalMessage, ParseError>)
        ensures
            (match r {
                Ok(m) => internal_build_spec(node_id, child_sensor_id, sub_type, ack, payload@)
                    == Ok::<InternalMessageView, ParseError>(m@),
                Err(e) => internal_build_spec(node_id, child_sensor_id, sub_type, ack, payload@)
                    == Err::<InternalMessageView, ParseError>(e),
            }),
    {
        match InternalType::from_u8(sub_type) {
            Some(t) => Ok(
                InternalMessage {
                    node_id,
                    child_sensor_id,
                    ack,
                    sub_type: t,
                    payload: payload.to_owned(),
                },
            ),
            None => Err(ParseError::InvalidSubType),
        }
    }

    /// The wire line of this message, with its trailing newline.
    pub fn render(&self) -> (r: String)
        ensures
            r@ == render_internal(self@),
    {
        wire::render_fields_line(
            self.node_id,
            self.child_sensor_id,
            3,
            self.ack,
            self.sub_type.type_code(),
            self.payload.as_str(),
        )
    }
}

} // verus!
