//! Telemetry decoding: raw per-servo register blocks become typed records
//! with signed speed and load, plus the shared polling context that keeps
//! the latest snapshot and the poll-cycle counter.

use vstd::prelude::*;
use crate::codec::{decoded_speed, decoded_load, decode_speed, decode_load};

verus! {

/// One servo's raw register block as the transport hands it over: every
/// field still in its wire form.
#[derive(Clone, Copy, Debug, PartialEq, Eq, Structural)]
pub struct RawServoBlock {
    pub position: u16,
    pub speed: u16,
    pub load: u16,
    pub voltage: u8,
    pub temperature: u8,
    pub current: i16,
    pub status: u8,
    pub torque_switch: u8,
    pub torque_limit: u16,
    pub lock_mark: u8,
}

/// One continuous telemetry block for the whole chain.
pub struct RawTelemetry {
    pub servos: Vec<RawServoBlock>,
    pub task_run_count: u32,
}

/// One servo's decoded record: position in encoder units, speed and load
/// as signed values, voltage in tenths of a volt, the rest passed through.
#[derive(Clone, Copy, Debug, PartialEq, Eq, Structural)]
pub struct ServoRecord {
    pub position: u16,
    pub speed: i16,
    pub load: i16,
    pub voltage_tenths: u8,
    pub temperature: u8,
    pub current: i16,
    pub status: u8,
    pub torque_switch: u8,
    pub torque_limit: u16,
    pub lock_mark: u8,
}

/// One decoded snapshot of the whole chain, produced once per poll cycle.
pub struct TelemetrySnapshot {
    pub servos: Vec<ServoRecord>,
    pub task_run_count: u32,
}

/// The decoded record carries exactly the raw block's values: speed and
/// load decoded from their sign-magnitude forms, everything else unchanged.
pub open spec fn record_decodes(raw: RawServoBlock, rec: ServoRecord) -> bool {
    &&& rec.position == raw.position
    &&& rec.speed as int == decoded_speed(raw.speed)
    &&& rec.load as int == decoded_load(raw.load)
    &&& rec.voltage_tenths == raw.voltage
    &&& rec.temperature == raw.temperature
    &&& rec.current == raw.current
    &&& rec.status == raw.status
    &&& rec.torque_switch == raw.torque_switch
    &&& rec.torque_limit == raw.torque_limit
    &&& rec.lock_mark == raw.lock_mark
}

/// Decode one raw register block into a typed record.
pub fn decode_record(raw: &RawServoBlock) -> (rec: ServoRecord)
    ensures
        record_decodes(*raw, rec),
{
    ServoRecord {
        position: raw.position,
        speed: decode_speed(raw.speed),
        load: decode_load(raw.load),
        voltage_tenths: raw.voltage,
        temperature: raw.temperature,
        current: raw.current,
        status: raw.status,
        torque_switch: raw.torque_switch,
        torque_limit: raw.torque_limit,
        lock_mark: raw.lock_mark,
    }
}

/// Decode a whole raw telemetry block, record by record.
pub fn decode_snapshot(raw: &RawTelemetry) -> (snap: TelemetrySnapshot)
    ensures
        snap.servos@.len() == raw.servos@.len(),
        forall|i: int|
            0 <= i < raw.servos@.len() ==> record_decodes(raw.servos@[i], snap.servos@[i]),
        snap.task_run_count == raw.task_run_count,
{
    let mut servos: Vec<ServoRecord> = Vec::new();
    let n: usize = raw.servos.len();
    for k in 0..n
        invariant
            n == raw.servos@.len(),
            servos@.len() == k,
            forall|i: int| 0 <= i < k ==> record_decodes(raw.servos@[i], servos@[i]),
    {
        let rec = decode_record(&raw.servos[k]);
        servos.push(rec);
    }
    TelemetrySnapshot { servos, task_run_count: raw.task_run_count }
}

/// A non-zero status word marks a fault the operator display highlights.
pub fn status_faulted(status: u8) -> (r: bool)
    ensures
        r == (status != 0),
{
    status != 0
}

} // verus!
