//! SET-family frames: sensor state values relayed between gateway,
//! controller and the WoT bridge.

use vstd::prelude::*;

use crate::proto::error::ParseError;
use crate::store::Sensor;
use crate::wire;

verus! {

/// Sub-types of the SET and REQ command families: which quantity a value
/// stands for.
#[derive(Debug, Clone, Copy, PartialEq, Eq, Structural)]
pub enum SetReqType {
    Temp,
    Hum,
    Status,
    Percentage,
    Pressure,
    Forecast,
    Rain,
    Rainrate,
    Wind,
    Gust,
    Direction,
    Uv,
    Weight,
    Distance,
    Impedance,
    Armed,
    Tripped,
    Watt,
    Kwh,
    SceneOn,
    SceneOff,
    HvacFlowState,
    HvacSpeed,
    LightLevel,
    Var1,
    Var2,
    Var3,
    Var4,
    Var5,
    Up,
    Down,
    Stop,
    IRSend,
    IRReceive,
    Flow,
    Volume,
    LockStatus,
    Level,
    Voltage,
    Current,
    Rgb,
    Rgbw,
    Id,
    UnitPrefix,
    HvacSetpointCool,
    HvacSetpointHeat,
    HvacFlowMode,
    Text,
    Custom,
    Position,
    IRRecord,
    Ph,
    Orp,
    Ec,
    Var,
    Va,
    PowerFactor,
}

/// The sub-type byte of each SET sub-type.
pub open spec fn set_req_code(t: SetReqType) -> u8 {
    match t {
        SetReqType::Temp => 0,
        SetReqType::Hum => 1,
        SetReqType::Status => 2,
        SetReqType::Percentage => 3,
        SetReqType::Pressure => 4,
        SetReqType::Forecast => 5,
        SetReqType::Rain => 6,
        SetReqType::Rainrate => 7,
        SetReqType::Wind => 8,
        SetReqType::Gust => 9,
        SetReqType::Direction => 10,
        SetReqType::Uv => 11,
        SetReqType::Weight => 12,
        SetReqType::Distance => 13,
        SetReqType::Impedance => 14,
        SetReqType::Armed => 15,
        SetReqType::Tripped => 16,
        SetReqType::Watt => 17,
        SetReqType::Kwh => 18,
        SetReqType::SceneOn => 19,
        SetReqType::SceneOff => 20,
        SetReqType::HvacFlowState => 21,
        SetReqType::HvacSpeed => 22,
        SetReqType::LightLevel => 23,
        SetReqType::Var1 => 24,
        SetReqType::Var2 => 25,
        SetReqType::Var3 => 26,
        SetReqType::Var4 => 27,
        SetReqType::Var5 => 28,
        SetReqType::Up => 29,
        SetReqType::Down => 30,
        SetReqType::Stop => 31,
        SetReqType::IRSend => 32,
        SetReqType::IRReceive => 33,
        SetReqType::Flow => 34,
        SetReqType::Volume => 35,
        SetReqType::LockStatus => 36,
        SetReqType::Level => 37,
        SetReqType::Voltage => 38,
        SetReqType::Current => 39,
        SetReqType::Rgb => 40,
        SetReqType::Rgbw => 41,
        SetReqType::Id => 42,
        SetReqType::UnitPrefix => 43,
        SetReqType::HvacSetpointCool => 44,
        SetReqType::HvacSetpointHeat => 45,
        SetReqType::HvacFlowMode => 46,
        SetReqType::Text => 47,
        SetReqType::Custom => 48,
        SetReqType::Position => 49,
        SetReqType::IRRecord => 50,
        SetReqType::Ph => 51,
        SetReqType::Orp => 52,
        SetReqType::Ec => 53,
        SetReqType::Var => 54,
        SetReqType::Va => 55,
        SetReqType::PowerFactor => 56,
    }
}

/// The SET sub-type encoded by a byte, if any.
pub open spec fn set_req_of(b: int) -> Option<SetReqType> {
    if b == 0 {
        Some(SetReqType::Temp)
    } else if b == 1 {
        Some(SetReqType::Hum)
    } else if b == 2 {
        Some(SetReqType::Status)
    } else if b == 3 {
        Some(SetReqType::Percentage)
    } else if b == 4 {
        Some(SetReqType::Pressure)
    } else if b == 5 {
        Some(SetReqType::Forecast)
    } else if b == 6 {
        Some(SetReqType::Rain)
    } else if b == 7 {
        Some(SetReqType::Rainrate)
    } else if b == 8 {
        Some(SetReqType::Wind)
    } else if b == 9 {
        Some(SetReqType::Gust)
    } else if b == 10 {
        Some(SetReqType::Direction)
    } else if b == 11 {
        Some(SetReqType::Uv)
    } else if b == 12 {
        Some(SetReqType::Weight)
    } else if b == 13 {
        Some(SetReqType::Distance)
    } else if b == 14 {
        Some(SetReqType::Impedance)
    } else if b == 15 {
        Some(SetReqType::Armed)
    } else if b == 16 {
        Some(SetReqType::Tripped)
    } else if b == 17 {
        Some(SetReqType::Watt)
    } else if b == 18 {
        Some(SetReqType::Kwh)
    } else if b == 19 {
        Some(SetReqType::SceneOn)
    } else if b == 20 {
        Some(SetReqType::SceneOff)
    } else if b == 21 {
        Some(SetReqType::HvacFlowState)
    } else if b == 22 {
        Some(SetReqType::HvacSpeed)
    } else if b == 23 {
        Some(SetReqType::LightLevel)
    } else if b == 24 {
        Some(SetReqType::Var1)
    } else if b == 25 {
        Some(SetReqType::Var2)
    } else if b == 26 {
        Some(SetReqType::Var3)
    } else if b == 27 {
        Some(SetReqType::Var4)
    } else if b == 28 {
        Some(SetReqType::Var5)
    } else if b == 29 {
        Some(SetReqType::Up)
    } else if b == 30 {
        Some(SetReqType::Down)
    } else if b == 31 {
        Some(SetReqType::Stop)
    } else if b == 32 {
        Some(SetReqType::IRSend)
    } else if b == 33 {
        Some(SetReqType::IRReceive)
    } else if b == 34 {
        Some(SetReqType::Flow)
    } else if b == 35 {
        Some(SetReqType::Volume)
    } else if b == 36 {
        Some(SetReqType::LockStatus)
    } else if b == 37 {
        Some(SetReqType::Level)
    } else if b == 38 {
        Some(SetReqType::Voltage)
    } else if b == 39 {
        Some(SetReqType::Current)
    } else if b == 40 {
        Some(SetReqType::Rgb)
    } else if b == 41 {
        Some(SetReqType::Rgbw)
    } else if b == 42 {
        Some(SetReqType::Id)
    } else if b == 43 {
        Some(SetReqType::UnitPrefix)
    } else if b == 44 {
        Some(SetReqType::HvacSetpointCool)
    } else if b == 45 {
        Some(SetReqType::HvacSetpointHeat)
    } else if b == 46 {
        Some(SetReqType::HvacFlowMode)
    } else if b == 47 {
        Some(SetReqType::Text)
    } else if b == 48 {
        Some(SetReqType::Custom)
    } else if b == 49 {
        Some(SetReqType::Position)
    } else if b == 50 {
        Some(SetReqType::IRRecord)
    } else if b == 51 {
        Some(SetReqType::Ph)
    } else if b == 52 {
        Some(SetReqType::Orp)
    } else if b == 53 {
        Some(SetReqType::Ec)
    } else if b == 54 {
        Some(SetReqType::Var)
    } else if b == 55 {
        Some(SetReqType::Va)
    } else if b == 56 {
        Some(SetReqType::PowerFactor)
    } else {
        None
    }
}

impl SetReqType {
    /// The sub-type byte sent on the wire.
    pub fn type_code(&self) -> (r: u8)
        ensures
            r == set_req_code(*self),
    {
        match self {
            SetReqType::Temp => 0,
            SetReqType::Hum => 1,
            SetReqType::Status => 2,
            SetReqType::Percentage => 3,
            SetReqType::Pressure => 4,
            SetReqType::Forecast => 5,
            SetReqType::Rain => 6,
            SetReqType::Rainrate => 7,
            SetReqType::Wind => 8,
            SetReqType::Gust => 9,
            SetReqType::Direction => 10,
            SetReqType::Uv => 11,
            SetReqType::Weight => 12,
            SetReqType::Distance => 13,
            SetReqType::Impedance => 14,
            SetReqType::Armed => 15,
            SetReqType::Tripped => 16,
            SetReqType::Watt => 17,
            SetReqType::Kwh => 18,
            SetReqType::SceneOn => 19,
            SetReqType::SceneOff => 20,
            SetReqType::HvacFlowState => 21,
            SetReqType::HvacSpeed => 22,
            SetReqType::LightLevel => 23,
            SetReqType::Var1 => 24,
            SetReqType::Var2 => 25,
            SetReqType::Var3 => 26,
            SetReqType::Var4 => 27,
            SetReqType::Var5 => 28,
            SetReqType::Up => 29,
            SetReqType::Down => 30,
            SetReqType::Stop => 31,
            SetReqType::IRSend => 32,
            SetReqType::IRReceive => 33,
            SetReqType::Flow => 34,
            SetReqType::Volume => 35,
            SetReqType::LockStatus => 36,
            SetReqType::Level => 37,
            SetReqType::Voltage => 38,
            SetReqType::Current => 39,
            SetReqType::Rgb => 40,
            SetReqType::Rgbw => 41,
            SetReqType::Id => 42,
            SetReqType::UnitPrefix => 43,
            SetReqType::HvacSetpointCool => 44,
            SetReqType::HvacSetpointHeat => 45,
            SetReqType::HvacFlowMode => 46,
            SetReqType::Text => 47,
            SetReqType::Custom => 48,
            SetReqType::Position => 49,
            SetReqType::IRRecord => 50,
            SetReqType::Ph => 51,
            SetReqType::Orp => 52,
            SetReqType::Ec => 53,
            SetReqType::Var => 54,
            SetReqType::Va => 55,
            SetReqType::PowerFactor => 56,
        }
    }

    /// The sub-type a byte stands for, if it is one.
    pub fn from_u8(b: u8) -> (r: Option<SetReqType>)
        ensures
            r == set_req_of(b as int),
    {
        match b {
            0 => Some(SetReqType::Temp),
            1 => Some(SetReqType::Hum),
            2 => Some(SetReqType::Status),
            3 => Some(SetReqType::Percentage),
            4 => Some(SetReqType::Pressure),
            5 => Some(SetReqType::Forecast),
            6 => Some(SetReqType::Rain),
            7 => Some(SetReqType::Rainrate),
            8 => Some(SetReqType::Wind),
            9 => Some(SetReqType::Gust),
            10 => Some(SetReqType::Direction),
            11 => Some(SetReqType::Uv),
            12 => Some(SetReqType::Weight),
            13 => Some(SetReqType::Distance),
            14 => Some(SetReqType::Impedance),
            15 => Some(SetReqType::Armed),
            16 => Some(SetReqType::Tripped),
            17 => Some(SetReqType::Watt),
            18 => Some(SetReqType::Kwh),
            19 => Some(SetReqType::SceneOn),
            20 => Some(SetReqType::SceneOff),
            21 => Some(SetReqType::HvacFlowState),
            22 => Some(SetReqType::HvacSpeed),
            23 => Some(SetReqType::LightLevel),
            24 => Some(SetReqType::Var1),
            25 => Some(SetReqType::Var2),
            26 => Some(SetReqType::Var3),
            27 => Some(SetReqType::Var4),
            28 => Some(SetReqType::Var5),
            29 => Some(SetReqType::Up),
            30 => Some(SetReqType::Down),
            31 => Some(SetReqType::Stop),
            32 => Some(SetReqType::IRSend),
            33 => Some(SetReqType::IRReceive),
            34 => Some(SetReqType::Flow),
            35 => Some(SetReqType::Volume),
            36 => Some(SetReqType::LockStatus),
            37 => Some(SetReqType::Level),
            38 => Some(SetReqType::Voltage),
            39 => Some(SetReqType::Current),
            40 => Some(SetReqType::Rgb),
            41 => Some(SetReqType::Rgbw),
            42 => Some(SetReqType::Id),
            43 => Some(SetReqType::UnitPrefix),
            44 => Some(SetReqType::HvacSetpointCool),
            45 => Some(SetReqType::HvacSetpointHeat),
            46 => Some(SetReqType::HvacFlowMode),
            47 => Some(SetReqType::Text),
            48 => Some(SetReqType::Custom),
            49 => Some(SetReqType::Position),
            50 => Some(SetReqType::IRRecord),
            51 => Some(SetReqType::Ph),
            52 => Some(SetReqType::Orp),
            53 => Some(SetReqType::Ec),
            54 => Some(SetReqType::Var),
            55 => Some(SetReqType::Va),
            56 => Some(SetReqType::PowerFactor),
            _ => None,
        }
    }
}

/// The WoT property name a SET sub-type maps to; empty where none does.
pub open spec fn set_req_property_name(t: SetReqType) -> Seq<char> {
    match t {
        SetReqType::Temp => "level"@,
        SetReqType::Status => "on"@,
        SetReqType::Percentage => "level"@,
        _ => ""@,
    }
}

/// The WoT value type of a SET sub-type; empty where none is assigned.
pub open spec fn set_req_data_type(t: SetReqType) -> Seq<char> {
    match t {
        SetReqType::Status => "boolean"@,
        SetReqType::Temp => "number"@,
        SetReqType::Percentage => "number"@,
        _ => ""@,
    }
}

/// The WoT property description of a SET sub-type.
pub open spec fn set_req_description(t: SetReqType) -> Seq<char> {
    match t {
        SetReqType::Temp => "Temperature"@,
        SetReqType::Status => "Whether the thing is on"@,
        SetReqType::Percentage => "The level of the thing from 0-100"@,
        _ => ""@,
    }
}

impl SetReqType {
    /// Whether the WoT bridge can represent values of this sub-type.
    pub fn is_supported(&self) -> (r: bool)
        ensures
            r == (*self == SetReqType::Temp || *self == SetReqType::Status || *self
                == SetReqType::Percentage),
    {
        match self {
            SetReqType::Temp => true,
            SetReqType::Status => true,
            SetReqType::Percentage => true,
            _ => false,
        }
    }

    /// Whether a WoT property write of this sub-type is forwarded to the
    /// gateway.
    pub fn is_forwardable(&self) -> (r: bool)
        ensures
            r == (*self == SetReqType::Percentage || *self == SetReqType::Status),
    {
        match self {
            SetReqType::Percentage => true,
            SetReqType::Status => true,
            _ => false,
        }
    }

    /// The WoT property name this sub-type maps to.
    pub fn property_name(&self) -> (r: String)
        ensures
            r@ == set_req_property_name(*self),
    {
        let s: &str = match self {
            SetReqType::Temp => "level",
            SetReqType::Status => "on",
            SetReqType::Percentage => "level",
            _ => "",
        };
        s.to_owned()
    }

    /// The WoT value type of this sub-type.
    pub fn data_type(&self) -> (r: &'static str)
        ensures
            r@ == set_req_data_type(*self),
    {
        match self {
            SetReqType::Status => "boolean",
            SetReqType::Temp => "number",
            SetReqType::Percentage => "number",
            _ => "",
        }
    }

    /// The WoT property description of this sub-type.
    pub fn description(&self) -> (r: String)
        ensures
            r@ == set_req_description(*self),
    {
        let s: &str = match self {
            SetReqType::Temp => "Temperature",
            SetReqType::Status => "Whether the thing is on",
            SetReqType::Percentage => "The level of the thing from 0-100",
            _ => "",
        };
        s.to_owned()
    }
}

/// A typed SET value: the quantity and its textual payload.
#[derive(Debug, Clone)]
pub struct Value {
    pub set_type: SetReqType,
    pub value: String,
}

/// The mathematical shape of a SET value.
pub struct ValueView {
    pub set_type: SetReqType,
    pub value: Seq<char>,
}

impl View for Value {
    type V = ValueView;

    open spec fn view(&self) -> ValueView {
        ValueView { set_type: self.set_type, value: self.value@ }
    }
}

impl Value {
    /// The boolean a boolean-typed value carries: `"1"` is true and `"0"` is
    /// false; anything else carries none.
    pub fn as_bool(&self) -> (r: Option<bool>)
        ensures
            r == (if set_req_data_type(self.set_type) == "boolean"@ && self.value@ == "1"@ {
                Some(true)
            } else if set_req_data_type(self.set_type) == "boolean"@ && self.value@ == "0"@ {
                Some(false)
            } else {
                None::<bool>
            }),
    {
        match self.set_type {
            SetReqType::Status => {
                let one: String = "1".to_owned();
                let zero: String = "0".to_owned();
                if self.value == one {
                    assert(self.value@ == "1"@);
                    assert(set_req_data_type(self.set_type) == "boolean"@);
                    Some(true)
                } else if self.value == zero {
                    assert(self.value@ == "0"@);
                    Some(false)
                } else {
                    assert(self.value@ != "1"@ && self.value@ != "0"@);
                    None
                }
            },
            _ => {
                proof {
                    reveal_strlit("boolean");
                    reveal_strlit("number");
                    reveal_strlit("");
                    assert(("number"@).len() == 6);
                    assert(("boolean"@).len() == 7);
                    assert(("number"@) != ("boolean"@));
                }
                None
            },
        }
    }

    /// Build a boolean-typed value from a WoT property write.
    pub fn build_bool(set_type: SetReqType, value: bool) -> (r: Option<Value>)
        ensures
            (match r {
                Some(v) => set_req_data_type(set_type) == "boolean"@ && v.set_type == set_type
                    && v.value@ == (if value {
                    "1"@
                } else {
                    "0"@
                }),
                None => set_req_data_type(set_type) != "boolean"@,
            }),
    {
        match set_type {
            SetReqType::Status => {
                proof {
                    reveal_strlit("boolean");
                    reveal_strlit("number");
                    reveal_strlit("");
                }
                let s: &str = if value {
                    "1"
                } else {
                    "0"
                };
                Some(Value { set_type, value: s.to_owned() })
            },
            _ => {
                proof {
                    reveal_strlit("boolean");
                    reveal_strlit("number");
                    reveal_strlit("");
                    assert(("number"@).len() == 6);
                    assert(("boolean"@).len() == 7);
                    assert(("number"@) != ("boolean"@));
                }
                None
            },
        }
    }
}

/// A frame of the SET command family.
#[derive(Debug, Clone)]
pub struct SetMessage {
    pub node_id: u8,
    pub child_sensor_id: u8,
    pub ack: u8,
    pub value: Value,
}

/// The mathematical shape of a SET frame.
pub struct SetMessageView {
    pub node_id: u8,
    pub child_sensor_id: u8,
    pub ack: u8,
    pub value: ValueView,
}

impl View for SetMessage {
    type V = SetMessageView;

    open spec fn view(&self) -> SetMessageView {
        SetMessageView {
            node_id: self.node_id,
            child_sensor_id: self.child_sensor_id,
            ack: self.ack,
            value: self.value@,
        }
    }
}

/// What building a SET message from raw fields yields.
pub open spec fn set_build_spec(
    node_id: u8,
    child_sensor_id: u8,
    ack: u8,
    sub_type: u8,
    payload: Seq<char>,
) -> Result<SetMessageView, ParseError> {
    match set_req_of(sub_type as int) {
        Some(t) => Ok(
            SetMessageView {
                node_id,
                child_sensor_id,
                ack,
                value: ValueView { set_type: t, value: payload },
            },
        ),
        None => Err(ParseError::InvalidSubType),
    }
}

/// The line a SET message renders to: command byte 1.
pub open spec fn render_set(v: SetMessageView) -> Seq<char> {
    wire::render_fields(
        v.node_id,
        v.child_sensor_id,
        1,
        v.ack,
        set_req_code(v.value.set_type),
        v.value.value,
    )
}

impl SetMessage {
    /// Build a message of this family from the six parsed fields.
    pub fn build(
        node_id: u8,
        child_sensor_id: u8,
        ack: u8,
        sub_type: u8,
        payload: &str,
    ) -> (r: Result<SetMessage, ParseError>)
        ensures
            (match r {
                Ok(m) => set_build_spec(node_id, child_sensor_id, ack, sub_type, payload@)
                    == Ok::<SetMessageView, ParseError>(m@),
                Err(e) => set_build_spec(node_id, child_sensor_id, ack, sub_type, payload@)
                    == Err::<SetMessageView, ParseError>(e),
            }),
    {
        match SetReqType::from_u8(sub_type) {
            Some(t) => Ok(
                SetMessage {
                    node_id,
                    child_sensor_id,
                    ack,
                    value: Value { set_type: t, value: payload.to_owned() },
                },
            ),
            None => Err(ParseError::InvalidSubType),
        }
    }

    /// The wire line of this message, with its trailing newline.
    pub fn render(&self) -> (r: String)
        ensures
            r@ == render_set(self@),
    {
        wire::render_fields_line(
            self.node_id,
            self.child_sensor_id,
            1,
            self.ack,
            self.value.set_type.type_code(),
            self.value.value.as_str(),
        )
    }

    /// Whether this message addresses the given sensor.
    pub fn for_sensor(&self, sensor: &Sensor) -> (r: bool)
        ensures
            r == (self.node_id as int == sensor.node_id as int && self.child_sensor_id as int
                == sensor.child_sensor_id as int),
    {
        self.node_id as i32 == sensor.node_id && self.child_sensor_id as i32
            == sensor.child_sensor_id
    }
}

} // verus!
