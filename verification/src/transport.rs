//! The transport capability interface: the register-addressed serial bus
//! the host provides. The engines only ever touch hardware through this
//! trait, so a host may back it with a real bus, and a test with a stub.
//!
//! The trait's contracts state only what the bus interface itself
//! guarantees: a read hands back the number of bytes asked for, and
//! reported positions are 12-bit encoder units. Nothing promises that an
//! operation succeeds; every engine states what holds whatever came back.

use vstd::prelude::*;
use crate::telemetry::RawTelemetry;

verus! {

/// Communication failure on the serial bus. The operation was aborted;
/// engine state is left unchanged unless a contract says otherwise.
#[derive(Clone, Copy, Debug, PartialEq, Eq, Structural)]
pub struct TransportError;

/// The persisted servo registers the engines touch.
#[derive(Clone, Copy, Debug, PartialEq, Eq, Structural)]
pub enum Register {
    /// Signed center-offset correction, 12-bit sign-magnitude.
    PositionCorrection,
    /// Lower travel limit in encoder units.
    MinAngleLimit,
    /// Upper travel limit in encoder units.
    MaxAngleLimit,
    /// Torque limit.
    TorqueLimit,
    /// EEPROM lock: 0 unlocks persisted memory for writing, 1 locks it.
    LockMark,
}

/// Torque switch setting of one servo.
#[derive(Clone, Copy, Debug, PartialEq, Eq, Structural)]
pub enum TorqueMode {
    Enabled,
    Disabled,
    Stiff,
}

/// Summary a single-servo info read returns.
#[derive(Clone, Copy, Debug, PartialEq, Eq, Structural)]
pub struct ServoInfo {
    /// Current raw position, in [0, 4095].
    pub current_location: u16,
    pub torque_switch: u8,
    pub torque_limit: u16,
}

/// The serial transport the host provides.
///
/// Raw positions are absolute 12-bit encoder units, so the interface
/// guarantees `current_location < 4096` and the same bound for every
/// position inside a continuous telemetry block.
pub trait Transport {
    /// Read `length` bytes starting at `register`.
    fn read(&mut self, servo_id: u8, register: Register, length: u8) -> (r: Result<
        Vec<u8>,
        TransportError,
    >)
        ensures
            r matches Ok(b) ==> b@.len() == length as nat,
    ;

    /// Write the bytes starting at `register`.
    fn write(&mut self, servo_id: u8, register: Register, data: &Vec<u8>) -> (r: Result<
        (),
        TransportError,
    >);

    /// Read one servo's info summary.
    fn read_info(&mut self, servo_id: u8) -> (r: Result<ServoInfo, TransportError>)
        ensures
            r matches Ok(info) ==> info.current_location < 4096,
    ;

    /// Read one continuous telemetry block for the whole chain.
    fn read_continuous(&mut self) -> (r: Result<RawTelemetry, TransportError>)
        ensures
            r matches Ok(t) ==> forall|i: int|
                0 <= i < t.servos@.len() ==> t.servos@[i].position < 4096,
    ;

    /// Read one servo's travel limits, (min, max).
    fn read_angle_limits(&mut self, servo_id: u8) -> (r: Result<(u16, u16), TransportError>);

    /// Liveness probe: does the servo answer at all?
    fn scan(&mut self, servo_id: u8) -> (r: Result<bool, TransportError>);

    /// Command a move to `position` over `time` at `speed`.
    fn move_servo(&mut self, servo_id: u8, position: i16, time: u16, speed: u16) -> (r: Result<
        (),
        TransportError,
    >);

    /// Switch the torque mode.
    fn set_torque_mode(&mut self, servo_id: u8, mode: TorqueMode) -> (r: Result<
        (),
        TransportError,
    >);

    /// Wait `ms` milliseconds: persisted memory needs a settle delay
    /// between unlock, write and read-back phases.
    fn settle(&mut self, ms: u32);
}

/// Torque mode currently in force, as the info read reports it: a zero
/// torque switch means torque is off.
pub fn current_torque_mode(torque_switch: u8) -> (m: TorqueMode)
    ensures
        m == (if torque_switch == 0 {
            TorqueMode::Disabled
        } else {
            TorqueMode::Enabled
        }),
{
    if torque_switch == 0 {
        TorqueMode::Disabled
    } else {
        TorqueMode::Enabled
    }
}

/// Torque mode a toggle switches to: the opposite of what the torque
/// switch currently reports.
pub fn next_torque_mode(torque_switch: u8) -> (m: TorqueMode)
    ensures
        m == (if torque_switch == 0 {
            TorqueMode::Enabled
        } else {
            TorqueMode::Disabled
        }),
{
    if torque_switch == 0 {
        TorqueMode::Enabled
    } else {
        TorqueMode::Disabled
    }
}

/// Torque switch value shown for a mode: enabled and stiff drive the
/// switch to 1, disabled to 0.
pub fn torque_display_value(mode: TorqueMode) -> (v: u8)
    ensures
        v == (match mode {
            TorqueMode::Enabled => 1u8,
            TorqueMode::Disabled => 0u8,
            TorqueMode::Stiff => 1u8,
        }),
{
    match mode {
        TorqueMode::Enabled => 1,
        TorqueMode::Disabled => 0,
        TorqueMode::Stiff => 1,
    }
}

/// Flip one servo's torque mode: read the switch, pick the opposite mode,
/// apply it. Returns the mode that was applied.
pub fn toggle_torque<T: Transport>(t: &mut T, servo_id: u8) -> (r: Result<
    TorqueMode,
    TransportError,
>)
    ensures
        r matches Ok(m) ==> m == TorqueMode::Enabled || m == TorqueMode::Disabled,
{
    let info = match t.read_info(servo_id) {
        Ok(info) => info,
        Err(e) => {
            return Err(e);
        },
    };
    let mode = next_torque_mode(info.torque_switch);
    match t.set_torque_mode(servo_id, mode) {
        Ok(()) => Ok(mode),
        Err(e) => Err(e),
    }
}

} // verus!
