//! Two-phase calibration: arm on a sampled raw position, then derive the
//! center offset and travel limits from a second live position, handling a
//! sweep that wraps across the position wheel's zero point, and persist the
//! three registers with write-verify-retry.

use vstd::prelude::*;
use crate::codec::{calibration_offset_wire, encode_calibration_offset};
use crate::persist::{persist_register, PersistError};
use crate::transport::{Register, Transport, TransportError};

verus! {

/// Where the position wheel wraps: one full revolution in encoder units.
pub const WHEEL_SPAN: u16 = 4096;

/// The wheel's physical center reference in encoder units.
pub const WHEEL_CENTER: u16 = 2048;

/// End position used for span math: a reading below the armed position
/// means the sweep crossed the wheel's zero point, so a full wheel span is
/// added. A calibration sweep is assumed never to exceed one revolution.
pub open spec fn effective_end(armed: int, end_raw: int) -> int {
    if end_raw < armed {
        end_raw + 4096
    } else {
        end_raw
    }
}

/// Travel covered by the sweep, in encoder units.
pub open spec fn cal_span(armed: int, end_raw: int) -> int {
    effective_end(armed, end_raw) - armed
}

/// Midpoint of the sweep (integer division truncates).
pub open spec fn cal_center(armed: int, end_raw: int) -> int {
    armed + cal_span(armed, end_raw) / 2
}

/// Signed center offset relative to the wheel's physical center.
pub open spec fn cal_offset(armed: int, end_raw: int) -> int {
    cal_center(armed, end_raw) - 2048
}

/// Everything one calibration derives.
#[derive(Clone, Copy, Debug, PartialEq, Eq, Structural)]
pub struct CalibrationOutcome {
    /// Center offset in 12-bit sign-magnitude wire form.
    pub wire_offset: u16,
    /// Lower travel limit in encoder units.
    pub min_angle: u16,
    /// Upper travel limit in encoder units.
    pub max_angle: u16,
    /// Travel covered by the sweep in encoder units.
    pub span: u16,
    /// Midpoint of the sweep in encoder units (may exceed one wheel turn
    /// when the sweep wrapped).
    pub center: u16,
}

/// The outcome a sweep from `armed` to `end_raw` must produce.
pub open spec fn calibration_outcome_spec(armed: int, end_raw: int) -> CalibrationOutcome
    recommends
        0 <= armed < 4096,
        0 <= end_raw < 4096,
{
    let span = cal_span(armed, end_raw);
    CalibrationOutcome {
        wire_offset: calibration_offset_wire(cal_offset(armed, end_raw)) as u16,
        min_angle: (2048 - span / 2) as u16,
        max_angle: (2048 + span / 2) as u16,
        span: span as u16,
        center: cal_center(armed, end_raw) as u16,
    }
}

/// Derive offset and travel limits from the armed position and the live
/// end position, both raw 12-bit readings.
pub fn compute_calibration(armed: u16, end_raw: u16) -> (o: CalibrationOutcome)
    requires
        armed < 4096,
        end_raw < 4096,
    ensures
        o == calibration_outcome_spec(armed as int, end_raw as int),
        o.min_angle <= 2048 <= o.max_angle,
        o.span < 4096,
{
    let end: u16 = if end_raw < armed {
        end_raw + WHEEL_SPAN
    } else {
        end_raw
    };
    let span: u16 = end - armed;
    let center: u16 = armed + span / 2;
    let offset: i16 = center as i16 - 2048;
    let wire_offset: u16 = encode_calibration_offset(offset);
    let min_angle: u16 = WHEEL_CENTER - span / 2;
    let max_angle: u16 = WHEEL_CENTER + span / 2;
    CalibrationOutcome { wire_offset, min_angle, max_angle, span, center }
}

/// Why a calibration operation gave up.
#[derive(Clone, Copy, Debug, PartialEq, Eq, Structural)]
pub enum CalibrationError {
    /// End requested with no armed session: user guidance, nothing changed.
    NotArmed,
    /// The bus failed; the session is left as it was.
    Transport(TransportError),
    /// Write-verify-retry exhausted its attempts on this register. Earlier
    /// registers of the same calibration may already be persisted; that
    /// partial-failure window is not rolled back.
    WriteFailed { register: Register, attempts: u32 },
}

/// The two-phase calibration session: idle, or armed with the servo and
/// the raw position sampled when calibration started.
pub struct CalibrationSession {
    pub armed: Option<(u8, u16)>,
}

/// An armed position is always a raw 12-bit reading.
pub open spec fn session_wf(s: CalibrationSession) -> bool {
    s.armed matches Some(a) ==> a.1 < 4096
}

impl CalibrationSession {
    /// Fresh idle session.
    pub fn new() -> (s: CalibrationSession)
        ensures
            s.armed is None,
            session_wf(s),
    {
        CalibrationSession { armed: None }
    }

    /// Arm a calibration: clear any prior correction by writing a zero
    /// offset (so the sample that follows is uncorrected), settle, then
    /// sample the servo's current raw position. On any transport failure
    /// the session stays as it was: there is no partial arm.
    pub fn start<T: Transport>(&mut self, t: &mut T, servo_id: u8) -> (r: Result<
        u16,
        CalibrationError,
    >)
        requires
            session_wf(*old(self)),
        ensures
            session_wf(*final(self)),
            r matches Ok(pos) ==> final(self).armed == Some((servo_id, pos)) && pos < 4096,
            r matches Err(e) ==> *final(self) == *old(self) && e matches CalibrationError::Transport(
                _,
            ),
    {
        let zero: Vec<u8> = vec![0u8, 0u8];
        if t.write(servo_id, Register::PositionCorrection, &zero).is_err() {
            return Err(CalibrationError::Transport(TransportError));
        }
        t.settle(20);
        match t.read_info(servo_id) {
            Ok(info) => {
                self.armed = Some((servo_id, info.current_location));
                Ok(info.current_location)
            },
            Err(e) => Err(CalibrationError::Transport(e)),
        }
    }

    /// Finish a calibration: requires an armed session, derives the
    /// outcome from the armed position and the live position (taken from
    /// the latest telemetry, not a fresh bus read), persists offset and
    /// both travel limits with write-verify-retry, and clears the session.
    /// On any failure the session is left as it was, so the operator can
    /// retry; registers persisted before the failing one stay written.
    pub fn end<T: Transport>(&mut self, t: &mut T, servo_id: u8, live_position: u16) -> (r: Result<
        CalibrationOutcome,
        CalibrationError,
    >)
        requires
            session_wf(*old(self)),
            live_position < 4096,
        ensures
            session_wf(*final(self)),
            old(self).armed is None ==> r == Err::<CalibrationOutcome, CalibrationError>(
                CalibrationError::NotArmed,
            ) && *final(self) == *old(self),
            old(self).armed matches Some(a) ==> {
                &&& r matches Ok(o) ==> o == calibration_outcome_spec(
                    a.1 as int,
                    live_position as int,
                ) && final(self).armed is None
                &&& r is Err ==> *final(self) == *old(self) && r != Err::<
                    CalibrationOutcome,
                    CalibrationError,
                >(CalibrationError::NotArmed)
            },
    {
        let armed_position: u16 = match self.armed {
            None => {
                return Err(CalibrationError::NotArmed);
            },
            Some((_, pos)) => pos,
        };
        let outcome = compute_calibration(armed_position, live_position);
        if let Err(e) = persist_register(
            t,
            servo_id,
            Register::PositionCorrection,
            outcome.wire_offset,
        ) {
            return Err(lift_persist_error(e));
        }
        if let Err(e) = persist_register(t, servo_id, Register::MinAngleLimit, outcome.min_angle) {
            return Err(lift_persist_error(e));
        }
        if let Err(e) = persist_register(t, servo_id, Register::MaxAngleLimit, outcome.max_angle) {
            return Err(lift_persist_error(e));
        }
        self.armed = None;
        Ok(outcome)
    }
}

/// A persistence failure surfaced as a calibration failure: verification
/// exhaustion names the register and the attempts spent on it.
fn lift_persist_error(e: PersistError) -> (r: CalibrationError)
    ensures
        e matches PersistError::Transport(t) ==> r == CalibrationError::Transport(t),
        e matches PersistError::VerificationFailed(reg) ==> r == (CalibrationError::WriteFailed {
            register: reg,
            attempts: 3,
        }),
{
    match e {
        PersistError::Transport(t) => CalibrationError::Transport(t),
        PersistError::VerificationFailed(reg) => CalibrationError::WriteFailed {
            register: reg,
            attempts: 3,
        },
    }
}

/// Travel range in hundredths of a degree: 4096 encoder units are one full
/// 360-degree turn. Derived for operator feedback, never persisted.
pub fn angle_range_centidegrees(min_angle: u16, max_angle: u16) -> (r: u32)
    requires
        min_angle <= max_angle,
    ensures
        r == (max_angle - min_angle) * 36000 / 4096,
{
    let d: u32 = (max_angle - min_angle) as u32;
    d * 36000 / 4096
}

} // verus!
