//! PRESENTATION-family frames: a node declaring one of its sensors, and the
//! Web-of-Things face of each sensor capability.

use vstd::prelude::*;

use crate::proto::error::ParseError;
use crate::proto::set_msg::SetReqType;
use crate::wire;

verus! {

/// Sub-types of the PRESENTATION command family: the capability a sensor
/// declares.
#[derive(Debug, Clone, Copy, PartialEq, Eq, Structural)]
pub enum PresentationType {
    Door,
    Motion,
    Smoke,
    Binary,
    Dimmer,
    Cover,
    Temp,
    Hum,
    Baro,
    Wind,
    Rain,
    Uv,
    Weight,
    Power,
    Heater,
    Distance,
    LightLevel,
    ArduinoNode,
    ArduinoRepeaterNode,
    Lock,
    Ir,
    Water,
    AirQuality,
    Custom,
    Dust,
    SceneController,
    RgbLight,
    RgbwLight,
    ColorSensor,
    Hvac,
    Multimeter,
    Sprinkler,
    WaterLeak,
    Sound,
    Vibration,
    Moisture,
    Info,
    Gas,
    Gps,
    WaterQuality,
}

/// The sub-type byte of each PRESENTATION sub-type.
pub open spec fn presentation_code(t: PresentationType) -> u8 {
    match t {
        PresentationType::Door => 0,
        PresentationType::Motion => 1,
        PresentationType::Smoke => 2,
        PresentationType::Binary => 3,
        PresentationType::Dimmer => 4,
        PresentationType::Cover => 5,
        PresentationType::Temp => 6,
        PresentationType::Hum => 7,
        PresentationType::Baro => 8,
        PresentationType::Wind => 9,
        PresentationType::Rain => 10,
        PresentationType::Uv => 11,
        PresentationType::Weight => 12,
        PresentationType::Power => 13,
        PresentationType::Heater => 14,
        PresentationType::Distance => 15,
        PresentationType::LightLevel => 16,
        PresentationType::ArduinoNode => 17,
        PresentationType::ArduinoRepeaterNode => 18,
        PresentationType::Lock => 19,
        PresentationType::Ir => 20,
        PresentationType::Water => 21,
        PresentationType::AirQuality => 22,
        PresentationType::Custom => 23,
        PresentationType::Dust => 24,
        PresentationType::SceneController => 25,
        PresentationType::RgbLight => 26,
        PresentationType::RgbwLight => 27,
        PresentationType::ColorSensor => 28,
        PresentationType::Hvac => 29,
        PresentationType::Multimeter => 30,
        PresentationType::Sprinkler => 31,
        PresentationType::WaterLeak => 32,
        PresentationType::Sound => 33,
        PresentationType::Vibration => 34,
        PresentationType::Moisture => 35,
        PresentationType::Info => 36,
        PresentationType::Gas => 37,
        PresentationType::Gps => 38,
        PresentationType::WaterQuality => 39,
    }
}

/// The PRESENTATION sub-type encoded by a byte, if any.
pub open spec fn presentation_of(b: int) -> Option<PresentationType> {
    if b == 0 {
        Some(PresentationType::Door)
    } else if b == 1 {
        Some(PresentationType::Motion)
    } else if b == 2 {
        Some(PresentationType::Smoke)
    } else if b == 3 {
        Some(PresentationType::Binary)
    } else if b == 4 {
        Some(PresentationType::Dimmer)
    } else if b == 5 {
        Some(PresentationType::Cover)
    } else if b == 6 {
        Some(PresentationType::Temp)
    } else if b == 7 {
        Some(PresentationType::Hum)
    } else if b == 8 {
        Some(PresentationType::Baro)
    } else if b == 9 {
        Some(PresentationType::Wind)
    } else if b == 10 {
        Some(PresentationType::Rain)
    } else if b == 11 {
        Some(PresentationType::Uv)
    } else if b == 12 {
        Some(PresentationType::Weight)
    } else if b == 13 {
        Some(PresentationType::Power)
    } else if b == 14 {
        Some(PresentationType::Heater)
    } else if b == 15 {
        Some(PresentationType::Distance)
    } else if b == 16 {
        Some(PresentationType::LightLevel)
    } else if b == 17 {
        Some(PresentationType::ArduinoNode)
    } else if b == 18 {
        Some(PresentationType::ArduinoRepeaterNode)
    } else if b == 19 {
        Some(PresentationType::Lock)
    } else if b == 20 {
        Some(PresentationType::Ir)
    } else if b == 21 {
        Some(PresentationType::Water)
    } else if b == 22 {
        Some(PresentationType::AirQuality)
    } else if b == 23 {
        Some(PresentationType::Custom)
    } else if b == 24 {
        Some(PresentationType::Dust)
    } else if b == 25 {
        Some(PresentationType::SceneController)
    } else if b == 26 {
        Some(PresentationType::RgbLight)
    } else if b == 27 {
        Some(PresentationType::RgbwLight)
    } else if b == 28 {
        Some(PresentationType::ColorSensor)
    } else if b == 29 {
        Some(PresentationType::Hvac)
    } else if b == 30 {
        Some(PresentationType::Multimeter)
    } else if b == 31 {
        Some(PresentationType::Sprinkler)
    } else if b == 32 {
        Some(PresentationType::WaterLeak)
    } else if b == 33 {
        Some(PresentationType::Sound)
    } else if b == 34 {
        Some(PresentationType::Vibration)
    } else if b == 35 {
        Some(PresentationType::Moisture)
    } else if b == 36 {
        Some(PresentationType::Info)
    } else if b == 37 {
        Some(PresentationType::Gas)
    } else if b == 38 {
        Some(PresentationType::Gps)
    } else if b == 39 {
        Some(PresentationType::WaterQuality)
    } else {
        None
    }
}

/// The sensor capabilities the WoT bridge can expose as things.
pub open spec fn presentation_supported(t: PresentationType) -> bool {
    t == PresentationType::Door || t == PresentationType::Motion || t == PresentationType::Smoke || t == PresentationType::Binary || t == PresentationType::Dimmer || t == PresentationType::Temp || t == PresentationType::Hum || t == PresentationType::Lock || t == PresentationType::AirQuality || t == PresentationType::Moisture || t == PresentationType::Baro || t == PresentationType::Dust || t == PresentationType::Info
}

/// The WoT thing type of a capability; empty where none is assigned.
pub open spec fn presentation_thing_type(t: PresentationType) -> Seq<char> {
    match t {
        PresentationType::Door => "onOffSwitch"@,
        PresentationType::Motion => "binarySensor"@,
        PresentationType::Smoke => "binarySensor"@,
        PresentationType::Binary => "onOffLight"@,
        PresentationType::Dimmer => "dimmableLight"@,
        PresentationType::Temp => "multiLevelSensor"@,
        PresentationType::Hum => "multiLevelSensor"@,
        PresentationType::Lock => "onOffSwitch"@,
        PresentationType::AirQuality => "multiLevelSensor"@,
        PresentationType::Moisture => "multiLevelSensor"@,
        PresentationType::Baro => "multiLevelSensor"@,
        PresentationType::Dust => "multiLevelSensor"@,
        PresentationType::Info => "string"@,
        _ => ""@,
    }
}

/// The WoT thing description of a capability; empty where none is assigned.
pub open spec fn presentation_thing_description(t: PresentationType) -> Seq<char> {
    match t {
        PresentationType::Door => "Door lock"@,
        PresentationType::Motion => "Motion sensor"@,
        PresentationType::Smoke => "Smoke sensor"@,
        PresentationType::Binary => "Binary switch"@,
        PresentationType::Dimmer => "Dimmable device"@,
        PresentationType::Temp => "Temperature sensor"@,
        PresentationType::Hum => "Humidity sensor"@,
        PresentationType::Lock => "Lock device"@,
        PresentationType::AirQuality => "Air Quality sensor"@,
        PresentationType::Moisture => "Moisture sensor"@,
        PresentationType::Baro => "Barometer sensor"@,
        PresentationType::Dust => "Dust sensor"@,
        PresentationType::Info => "Text"@,
        _ => ""@,
    }
}

/// The WoT properties a capability carries.
pub open spec fn presentation_property_types(t: PresentationType) -> Seq<SetReqType> {
    match t {
        PresentationType::Door => seq![SetReqType::Armed],
        PresentationType::Motion => seq![SetReqType::Tripped],
        PresentationType::Smoke => seq![SetReqType::Tripped],
        PresentationType::Binary => seq![SetReqType::Status],
        PresentationType::Dimmer => seq![SetReqType::Status, SetReqType::Percentage],
        PresentationType::Temp => seq![SetReqType::Temp, SetReqType::Status],
        PresentationType::Hum => seq![SetReqType::Hum],
        PresentationType::Lock => seq![SetReqType::LockStatus],
        PresentationType::AirQuality => seq![SetReqType::Level, SetReqType::UnitPrefix],
        PresentationType::Moisture => seq![SetReqType::Level],
        PresentationType::Baro => seq![SetReqType::Pressure, SetReqType::Forecast],
        PresentationType::Dust => seq![SetReqType::Level, SetReqType::UnitPrefix],
        PresentationType::Info => seq![SetReqType::Text],
        _ => Seq::<SetReqType>::empty(),
    }
}

fn vec_of1(a: SetReqType) -> (r: Vec<SetReqType>)
    ensures
        r@ == seq![a],
{
    let mut r: Vec<SetReqType> = Vec::new();
    r.push(a);
    proof {
        assert(r@ =~= seq![a]);
    }
    r
}

fn vec_of2(a: SetReqType, b: SetReqType) -> (r: Vec<SetReqType>)
    ensures
        r@ == seq![a, b],
{
    let mut r: Vec<SetReqType> = Vec::new();
    r.push(a);
    r.push(b);
    proof {
        assert(r@ =~= seq![a, b]);
    }
    r
}

impl PresentationType {
    /// The sub-type byte sent on the wire.
    pub fn type_code(&self) -> (r: u8)
        ensures
            r == presentation_code(*self),
    {
        match self {
            PresentationType::Door => 0,
            PresentationType::Motion => 1,
            PresentationType::Smoke => 2,
            PresentationType::Binary => 3,
            PresentationType::Dimmer => 4,
            PresentationType::Cover => 5,
            PresentationType::Temp => 6,
            PresentationType::Hum => 7,
            PresentationType::Baro => 8,
            PresentationType::Wind => 9,
            PresentationType::Rain => 10,
            PresentationType::Uv => 11,
            PresentationType::Weight => 12,
            PresentationType::Power => 13,
            PresentationType::Heater => 14,
            PresentationType::Distance => 15,
            PresentationType::LightLevel => 16,
            PresentationType::ArduinoNode => 17,
            PresentationType::ArduinoRepeaterNode => 18,
            PresentationType::Lock => 19,
            PresentationType::Ir => 20,
            PresentationType::Water => 21,
            PresentationType::AirQuality => 22,
            PresentationType::Custom => 23,
            PresentationType::Dust => 24,
            PresentationType::SceneController => 25,
            PresentationType::RgbLight => 26,
            PresentationType::RgbwLight => 27,
            PresentationType::ColorSensor => 28,
            PresentationType::Hvac => 29,
            PresentationType::Multimeter => 30,
            PresentationType::Sprinkler => 31,
            PresentationType::WaterLeak => 32,
            PresentationType::Sound => 33,
            PresentationType::Vibration => 34,
            PresentationType::Moisture => 35,
            PresentationType::Info => 36,
            PresentationType::Gas => 37,
            PresentationType::Gps => 38,
            PresentationType::WaterQuality => 39,
        }
    }

    /// The sub-type a byte stands for, if it is one.
    pub fn from_u8(b: u8) -> (r: Option<PresentationType>)
        ensures
            r == presentation_of(b as int),
    {
        match b {
            0 => Some(PresentationType::Door),
            1 => Some(PresentationType::Motion),
            2 => Some(PresentationType::Smoke),
            3 => Some(PresentationType::Binary),
            4 => Some(PresentationType::Dimmer),
            5 => Some(PresentationType::Cover),
            6 => Some(PresentationType::Temp),
            7 => Some(PresentationType::Hum),
            8 => Some(PresentationType::Baro),
            9 => Some(PresentationType::Wind),
            10 => Some(PresentationType::Rain),
            11 => Some(PresentationType::Uv),
            12 => Some(PresentationType::Weight),
            13 => Some(PresentationType::Power),
            14 => Some(PresentationType::Heater),
            15 => Some(PresentationType::Distance),
            16 => Some(PresentationType::LightLevel),
            17 => Some(PresentationType::ArduinoNode),
            18 => Some(PresentationType::ArduinoRepeaterNode),
            19 => Some(PresentationType::Lock),
            20 => Some(PresentationType::Ir),
            21 => Some(PresentationType::Water),
            22 => Some(PresentationType::AirQuality),
            23 => Some(PresentationType::Custom),
            24 => Some(PresentationType::Dust),
            25 => Some(PresentationType::SceneController),
            26 => Some(PresentationType::RgbLight),
            27 => Some(PresentationType::RgbwLight),
            28 => Some(PresentationType::ColorSensor),
            29 => Some(PresentationType::Hvac),
            30 => Some(PresentationType::Multimeter),
            31 => Some(PresentationType::Sprinkler),
            32 => Some(PresentationType::WaterLeak),
            33 => Some(PresentationType::Sound),
            34 => Some(PresentationType::Vibration),
            35 => Some(PresentationType::Moisture),
            36 => Some(PresentationType::Info),
            37 => Some(PresentationType::Gas),
            38 => Some(PresentationType::Gps),
            39 => Some(PresentationType::WaterQuality),
            _ => None,
        }
    }

    /// Whether the WoT bridge can expose sensors of this capability.
    pub fn is_supported(&self) -> (r: bool)
        ensures
            r == presentation_supported(*self),
    {
        match self {
            PresentationType::Door => true,
            PresentationType::Motion => true,
            PresentationType::Smoke => true,
            PresentationType::Binary => true,
            PresentationType::Dimmer => true,
            PresentationType::Temp => true,
            PresentationType::Hum => true,
            PresentationType::Lock => true,
            PresentationType::AirQuality => true,
            PresentationType::Moisture => true,
            PresentationType::Baro => true,
            PresentationType::Dust => true,
            PresentationType::Info => true,
            _ => false,
        }
    }

    /// The WoT thing type of this capability.
    pub fn thing_type(&self) -> (r: String)
        ensures
            r@ == presentation_thing_type(*self),
    {
        let s: &str = match self {
            PresentationType::Door => "onOffSwitch",
            PresentationType::Motion => "binarySensor",
            PresentationType::Smoke => "binarySensor",
            PresentationType::Binary => "onOffLight",
            PresentationType::Dimmer => "dimmableLight",
            PresentationType::Temp => "multiLevelSensor",
            PresentationType::Hum => "multiLevelSensor",
            PresentationType::Lock => "onOffSwitch",
            PresentationType::AirQuality => "multiLevelSensor",
            PresentationType::Moisture => "multiLevelSensor",
            PresentationType::Baro => "multiLevelSensor",
            PresentationType::Dust => "multiLevelSensor",
            PresentationType::Info => "string",
            _ => "",
        };
        s.to_owned()
    }

    /// The WoT thing description of this capability.
    pub fn thing_description(&self) -> (r: String)
        ensures
            r@ == presentation_thing_description(*self),
    {
        let s: &str = match self {
            PresentationType::Door => "Door lock",
            PresentationType::Motion => "Motion sensor",
            PresentationType::Smoke => "Smoke sensor",
            PresentationType::Binary => "Binary switch",
            PresentationType::Dimmer => "Dimmable device",
            PresentationType::Temp => "Temperature sensor",
            PresentationType::Hum => "Humidity sensor",
            PresentationType::Lock => "Lock device",
            PresentationType::AirQuality => "Air Quality sensor",
            PresentationType::Moisture => "Moisture sensor",
            PresentationType::Baro => "Barometer sensor",
            PresentationType::Dust => "Dust sensor",
            PresentationType::Info => "Text",
            _ => "",
        };
        s.to_owned()
    }

    /// The WoT properties a sensor of this capability carries.
    pub fn property_types(&self) -> (r: Vec<SetReqType>)
        ensures
            r@ == presentation_property_types(*self),
    {
        match self {
            PresentationType::Door => vec_of1(SetReqType::Armed),
            PresentationType::Motion => vec_of1(SetReqType::Tripped),
            PresentationType::Smoke => vec_of1(SetReqType::Tripped),
            PresentationType::Binary => vec_of1(SetReqType::Status),
            PresentationType::Dimmer => vec_of2(SetReqType::Status, SetReqType::Percentage),
            PresentationType::Temp => vec_of2(SetReqType::Temp, SetReqType::Status),
            PresentationType::Hum => vec_of1(SetReqType::Hum),
            PresentationType::Lock => vec_of1(SetReqType::LockStatus),
            PresentationType::AirQuality => vec_of2(SetReqType::Level, SetReqType::UnitPrefix),
            PresentationType::Moisture => vec_of1(SetReqType::Level),
            PresentationType::Baro => vec_of2(SetReqType::Pressure, SetReqType::Forecast),
            PresentationType::Dust => vec_of2(SetReqType::Level, SetReqType::UnitPrefix),
            PresentationType::Info => vec_of1(SetReqType::Text),
            _ => Vec::new(),
        }
    }
}

/// A frame of the PRESENTATION command family.
#[derive(Debug, Clone)]
pub struct PresentationMessage {
    pub node_id: u8,
    pub child_sensor_id: u8,
    pub ack: u8,
    pub sub_type: PresentationType,
    pub payload: String,
}

/// The mathematical shape of a PRESENTATION frame.
pub struct PresentationMessageView {
    pub node_id: u8,
    pub child_sensor_id: u8,
    pub ack: u8,
    pub sub_type: PresentationType,
    pub payload: Seq<char>,
}

impl View for PresentationMessage {
    type V = PresentationMessageView;

    open spec fn view(&self) -> PresentationMessageView {
        PresentationMessageView {
            node_id: self.node_id,
            child_sensor_id: self.child_sensor_id,
            ack: self.ack,
            sub_type: self.sub_type,
            payload: self.payload@,
        }
    }
}

/// What building a PRESENTATION message from raw fields yields.
pub open spec fn presentation_build_spec(
    node_id: u8,
    child_sensor_id: u8,
    ack: u8,
    sub_type: u8,
    payload: Seq<char>,
) -> Result<PresentationMessageView, ParseError> {
    match presentation_of(sub_type as int) {
        Some(t) => Ok(
            PresentationMessageView { node_id, child_sensor_id, ack, sub_type: t, payload },
        ),
        None => Err(ParseError::InvalidSubType),
    }
}

/// The line a PRESENTATION message renders to: command byte 0.
pub open spec fn render_presentation(v: PresentationMessageView) -> Seq<char> {
    wire::render_fields(
        v.node_id,
        v.child_sensor_id,
        0,
        v.ack,
        presentation_code(v.sub_type),
        v.payload,
    )
}

impl PresentationMessage {
    /// Build a message of this family from the six parsed fields.
    pub fn build(
        node_id: u8,
        child_sensor_id: u8,
        ack: u8,
        sub_type: u8,
        payload: &str,
    ) -> (r: Result<PresentationMessage, ParseError>)
        ensures
            (match r {
                Ok(m) => presentation_build_spec(node_id, child_sensor_id, ack, sub_type, payload@)
                    == Ok::<PresentationMessageView, ParseError>(m@),
                Err(e) => presentation_build_spec(
                    node_id,
                    child_sensor_id,
                    ack,
                    sub_type,
                    payload@,
                ) == Err::<PresentationMessageView, ParseError>(e),
            }),
    {
        match PresentationType::from_u8(sub_type) {
            Some(t) => Ok(
                PresentationMessage {
                    node_id,
                    child_sensor_id,
                    ack,
                    sub_type: t,
                    payload: payload.to_owned(),
                },
            ),
            None => Err(ParseError::InvalidSubType),
        }
    }

    /// The wire line of this message, with its trailing newline.
    pub fn render(&self) -> (r: String)
        ensures
            r@ == render_presentation(self@),
    {
        wire::render_fields_line(
            self.node_id,
            self.child_sensor_id,
            0,
            self.ack,
            self.sub_type.type_code(),
            self.payload.as_str(),
        )
    }
}

} // verus!
