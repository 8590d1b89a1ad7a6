//! Commands that the core hands to the hardware adapter.
use vstd::prelude::*;

verus! {

/// Motor direction: downwards.
pub const DIRN_DOWN: u8 = 255;

/// Motor direction: standing still.
pub const DIRN_STOP: u8 = 0;

/// Motor direction: upwards.
pub const DIRN_UP: u8 = 1;

/// One command for the elevator hardware.
#[derive(PartialEq, Eq, Debug, Copy, Clone, Structural)]
pub enum HardwareCommand {
    DoorLight { on: bool },
    MotorDirection { dirn: u8 },
    CallButtonLight { floor: u8, call: u8, on: bool },
    StopLight { on: bool },
    FloorLight { floor: u8 },
}

/// The four bytes that tell the hardware to carry out `command`: the
/// command's number, then its arguments, then zeroes.
pub open spec fn command_bytes(command: HardwareCommand) -> Seq<u8> {
    match command {
        HardwareCommand::MotorDirection { dirn } => seq![1u8, dirn, 0u8, 0u8],
        HardwareCommand::CallButtonLight { floor, call, on } => seq![
            2u8,
            call,
            floor,
            if on { 1u8 } else { 0u8 },
        ],
        HardwareCommand::FloorLight { floor } => seq![3u8, floor, 0u8, 0u8],
        HardwareCommand::DoorLight { on } => seq![4u8, if on { 1u8 } else { 0u8 }, 0u8, 0u8],
        HardwareCommand::StopLight { on } => seq![5u8, if on { 1u8 } else { 0u8 }, 0u8, 0u8],
    }
}

fn flag(on: bool) -> (byte: u8)
    ensures
        byte == (if on { 1u8 } else { 0u8 }),
{
    if on { 1 } else { 0 }
}

impl HardwareCommand {
    /// Encodes the command for the link to the hardware.
    pub fn encode(&self) -> (bytes: [u8; 4])
        ensures
            bytes@ == command_bytes(*self),
    {
        let bytes: [u8; 4] = match *self {
            HardwareCommand::MotorDirection { dirn } => [1, dirn, 0, 0],
            HardwareCommand::CallButtonLight { floor, call, on } => [2, call, floor, flag(on)],
            HardwareCommand::FloorLight { floor } => [3, floor, 0, 0],
            HardwareCommand::DoorLight { on } => [4, flag(on), 0, 0],
            HardwareCommand::StopLight { on } => [5, flag(on), 0, 0],
        };
        assert(bytes@ =~= command_bytes(*self));
        bytes
    }
}

/// One question to the elevator hardware.
#[derive(PartialEq, Eq, Debug, Copy, Clone, Structural)]
pub enum HardwareQuery {
    CallButton { floor: u8, call: u8 },
    FloorSensor,
    StopButton,
    Obstruction,
}

/// The four bytes that put `query` to the hardware: the query's number, then
/// its arguments, then zeroes.
pub open spec fn query_bytes(query: HardwareQuery) -> Seq<u8> {
    match query {
        HardwareQuery::CallButton { floor, call } => seq![6u8, call, floor, 0u8],
        HardwareQuery::FloorSensor => seq![7u8, 0u8, 0u8, 0u8],
        HardwareQuery::StopButton => seq![8u8, 0u8, 0u8, 0u8],
        HardwareQuery::Obstruction => seq![9u8, 0u8, 0u8, 0u8],
    }
}

impl HardwareQuery {
    /// Encodes the query for the link to the hardware.
    pub fn encode(&self) -> (bytes: [u8; 4])
        ensures
            bytes@ == query_bytes(*self),
    {
        let bytes: [u8; 4] = match *self {
            HardwareQuery::CallButton { floor, call } => [6, call, floor, 0],
            HardwareQuery::FloorSensor => [7, 0, 0, 0],
            HardwareQuery::StopButton => [8, 0, 0, 0],
            HardwareQuery::Obstruction => [9, 0, 0, 0],
        };
        assert(bytes@ =~= query_bytes(*self));
        bytes
    }
}

/// The answer of the hardware to a yes-or-no query: yes unless the second
/// byte is zero.
pub fn reply_is_set(reply: &[u8; 4]) -> (set: bool)
    ensures
        set == (reply@[1] != 0),
{
    reply[1] != 0
}

/// The answer of the hardware to a floor sensor query: the floor in the
/// third byte if the second says that the cab is at a floor, nothing if the
/// cab is between floors.
pub fn reply_floor(reply: &[u8; 4]) -> (floor: Option<u8>)
    ensures
        floor == (if reply@[1] != 0 {
            Some(reply@[2])
        } else {
            None
        }),
{
    if reply[1] != 0 {
        Some(reply[2])
    } else {
        None
    }
}

} // verus!
