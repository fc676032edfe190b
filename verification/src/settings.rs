//! Operator-initiated servo settings: apply a settings request (torque
//! mode, optional move, optional manual offset, torque limit) step by
//! step, and summarize a servo's persisted limits for display.

use vstd::prelude::*;
use crate::calibration::angle_range_centidegrees;
use crate::codec::{i16_from_le, manual_offset_wire, word_of_le};
use crate::persist::{apply_manual_offset, apply_torque_limit};
use crate::transport::{Register, TorqueMode, Transport, TransportError};

verus! {

/// What the operator asked to change. Optional parts are skipped when
/// absent; a zero torque limit means "leave the limit alone".
pub struct SettingsRequest {
    pub torque_mode: TorqueMode,
    pub position: Option<i16>,
    pub speed: u16,
    pub offset: Option<i16>,
    pub torque_limit: u16,
}

/// The per-step outcomes of one settings application. Steps are
/// independent: a failed step is reported and the rest still run.
pub struct SettingsOutcome {
    pub torque_mode: Result<(), TransportError>,
    pub moved: Option<Result<(), TransportError>>,
    pub offset: Option<Result<u16, TransportError>>,
    pub torque_limit: Option<Result<(), TransportError>>,
}

/// Apply a settings request: set the torque mode, then move if a position
/// was given, write the manual offset if one was given, and write the
/// torque limit if it is positive. Every requested step runs whatever the
/// earlier steps returned, and each outcome is reported.
pub fn apply_settings<T: Transport>(t: &mut T, servo_id: u8, req: &SettingsRequest) -> (o:
    SettingsOutcome)
    requires
        req.offset matches Some(v) ==> -0x7ff <= v <= 0x7ff,
    ensures
        o.moved is Some <==> req.position is Some,
        o.offset is Some <==> req.offset is Some,
        o.torque_limit is Some <==> req.torque_limit > 0,
        req.offset matches Some(v) ==> (o.offset matches Some(res) ==> (res matches Ok(w) ==> w
            as int == manual_offset_wire(v as int))),
{
    let torque_mode = t.set_torque_mode(servo_id, req.torque_mode);
    let moved = match req.position {
        Some(pos) => Some(t.move_servo(servo_id, pos, 0, req.speed)),
        None => None,
    };
    let offset = match req.offset {
        Some(off) => Some(apply_manual_offset(t, servo_id, off)),
        None => None,
    };
    let torque_limit = if req.torque_limit > 0 {
        Some(apply_torque_limit(t, servo_id, req.torque_limit))
    } else {
        None
    };
    SettingsOutcome { torque_mode, moved, offset, torque_limit }
}

/// A servo's persisted limits as shown to the operator: the travel
/// bounds, the travel range in hundredths of a degree, and the stored
/// center offset decoded from its register bytes.
pub struct LimitsSummary {
    pub min_angle: u16,
    pub max_angle: u16,
    pub range_centidegrees: u32,
    pub offset_word: i16,
}

/// Read a servo's travel limits and stored offset for display. The range
/// is derived from the limits; the offset register's two bytes are read
/// back as one signed word.
pub fn read_limits_summary<T: Transport>(t: &mut T, servo_id: u8) -> (r: Result<
    LimitsSummary,
    TransportError,
>)
    ensures
        r matches Ok(s) ==> (s.min_angle <= s.max_angle ==> s.range_centidegrees == (s.max_angle
            - s.min_angle) * 36000 / 4096),
{
    let (min_angle, max_angle) = match t.read_angle_limits(servo_id) {
        Ok(limits) => limits,
        Err(e) => {
            return Err(e);
        },
    };
    let range_centidegrees: u32 = if min_angle <= max_angle {
        angle_range_centidegrees(min_angle, max_angle)
    } else {
        0
    };
    let bytes = match t.read(servo_id, Register::PositionCorrection, 2) {
        Ok(b) => b,
        Err(e) => {
            return Err(e);
        },
    };
    let offset_word: i16 = i16_from_le(bytes[0], bytes[1]);
    proof {
        assert(word_of_le(bytes@[0], bytes@[1]) >= 0);
    }
    Ok(LimitsSummary { min_angle, max_angle, range_centidegrees, offset_word })
}

} // verus!
