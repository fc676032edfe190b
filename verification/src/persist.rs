//! Write-verify-retry persistence for EEPROM-backed registers.
//!
//! Persisted servo memory loses writes now and then, so a value is written,
//! read back and compared, up to three attempts in all. The memory is
//! unlocked first and re-locked before returning on every path, success or
//! failure, so it is never left writable.

use vstd::prelude::*;
use crate::codec::{u16_from_le, u16_to_le, encode_manual_offset, manual_offset_wire};
use crate::transport::{Register, Transport, TransportError};

verus! {

/// Why a persistence attempt gave up.
#[derive(Clone, Copy, Debug, PartialEq, Eq, Structural)]
pub enum PersistError {
    /// The bus itself failed; the sequence was aborted.
    Transport(TransportError),
    /// Three write attempts never read back the value written.
    VerificationFailed(Register),
}

/// Best-effort re-lock of persisted memory; a failure here is swallowed,
/// the sequence's own outcome is what is reported.
fn relock<T: Transport>(t: &mut T, servo_id: u8) {
    let lock: Vec<u8> = vec![1u8];
    let _ = t.write(servo_id, Register::LockMark, &lock);
}

/// Persist one 16-bit register value: unlock, then up to 3 attempts of
/// write, settle, read back and compare; re-lock before returning on every
/// path. Returns the number of attempts taken on success. Fails with
/// `VerificationFailed` only for the register asked for, and only after
/// all 3 attempts mismatched.
pub fn persist_register<T: Transport>(
    t: &mut T,
    servo_id: u8,
    register: Register,
    value: u16,
) -> (r: Result<u32, PersistError>)
    ensures
        r matches Ok(attempts) ==> 1 <= attempts <= 3,
        r matches Err(e) ==> (e matches PersistError::VerificationFailed(reg) ==> reg
            == register),
{
    let unlock: Vec<u8> = vec![0u8];
    if t.write(servo_id, Register::LockMark, &unlock).is_err() {
        relock(t, servo_id);
        return Err(PersistError::Transport(TransportError));
    }
    t.settle(20);
    let le: (u8, u8) = u16_to_le(value);
    let payload: Vec<u8> = vec![le.0, le.1];
    let mut attempt: u32 = 0;
    while attempt < 3
        invariant
            attempt <= 3,
        decreases 3 - attempt,
    {
        attempt = attempt + 1;
        if t.write(servo_id, register, &payload).is_err() {
            relock(t, servo_id);
            return Err(PersistError::Transport(TransportError));
        }
        t.settle(20);
        let back = match t.read(servo_id, register, 2) {
            Ok(b) => b,
            Err(_) => {
                relock(t, servo_id);
                return Err(PersistError::Transport(TransportError));
            },
        };
        let read_back: u16 = u16_from_le(back[0], back[1]);
        if read_back == value {
            relock(t, servo_id);
            return Ok(attempt);
        }
    }
    relock(t, servo_id);
    Err(PersistError::VerificationFailed(register))
}

/// Write an operator-supplied center offset: encode to sign-magnitude wire
/// form, then unlock, write, re-lock, with settle delays between phases.
/// Returns the wire value written. No read-back verification; this is the
/// direct settings path, not calibration persistence.
pub fn apply_manual_offset<T: Transport>(t: &mut T, servo_id: u8, offset: i16) -> (r: Result<
    u16,
    TransportError,
>)
    requires
        -0x7ff <= offset <= 0x7ff,
    ensures
        r matches Ok(wire) ==> wire as int == manual_offset_wire(offset as int),
{
    let wire: u16 = encode_manual_offset(offset);
    let unlock: Vec<u8> = vec![0u8];
    if let Err(e) = t.write(servo_id, Register::LockMark, &unlock) {
        return Err(e);
    }
    t.settle(10);
    let le: (u8, u8) = u16_to_le(wire);
    let payload: Vec<u8> = vec![le.0, le.1];
    if let Err(e) = t.write(servo_id, Register::PositionCorrection, &payload) {
        return Err(e);
    }
    t.settle(10);
    let lock: Vec<u8> = vec![1u8];
    if let Err(e) = t.write(servo_id, Register::LockMark, &lock) {
        return Err(e);
    }
    Ok(wire)
}

/// Write a torque limit: unlock, write, re-lock, with settle delays
/// between phases.
pub fn apply_torque_limit<T: Transport>(t: &mut T, servo_id: u8, torque: u16) -> (r: Result<
    (),
    TransportError,
>) {
    let unlock: Vec<u8> = vec![0u8];
    if let Err(e) = t.write(servo_id, Register::LockMark, &unlock) {
        return Err(e);
    }
    t.settle(10);
    let le: (u8, u8) = u16_to_le(torque);
    let payload: Vec<u8> = vec![le.0, le.1];
    if let Err(e) = t.write(servo_id, Register::TorqueLimit, &payload) {
        return Err(e);
    }
    t.settle(10);
    let lock: Vec<u8> = vec![1u8];
    if let Err(e) = t.write(servo_id, Register::LockMark, &lock) {
        return Err(e);
    }
    Ok(())
}

} // verus!
