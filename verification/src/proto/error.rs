//! The ways a received line can fail to parse as a frame.

use vstd::prelude::*;

verus! {

/// Why a line was rejected by the codec. The router forwards such lines
/// verbatim to the controller.
#[derive(Debug, Clone, Copy, PartialEq, Eq, Structural)]
pub enum ParseError {
    InvalidCommandMessage,
    InvalidNodeId,
    InvalidChildSensorId,
    InvalidCommand,
    InvalidACK,
    InvalidSubType,
    InvalidPayload,
}

} // verus!
