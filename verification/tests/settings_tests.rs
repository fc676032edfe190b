use servo_core::persist::{apply_manual_offset, apply_torque_limit};
use servo_core::settings::{apply_settings, read_limits_summary, SettingsRequest};
use servo_core::telemetry::RawTelemetry;
use servo_core::transport::{
    current_torque_mode, next_torque_mode, toggle_torque, torque_display_value, Register,
    ServoInfo, TorqueMode, Transport, TransportError,
};

/// Bus that records writes and set-torque calls and answers reads from a
/// small script.
struct SettingsBus {
    writes: Vec<(Register, Vec<u8>)>,
    modes: Vec<TorqueMode>,
    moves: Vec<(i16, u16, u16)>,
    torque_switch: u8,
    limits: (u16, u16),
    offset_bytes: (u8, u8),
}

impl SettingsBus {
    fn new() -> SettingsBus {
        SettingsBus {
            writes: Vec::new(),
            modes: Vec::new(),
            moves: Vec::new(),
            torque_switch: 0,
            limits: (1000, 3000),
            offset_bytes: (0x9c, 0xff),
        }
    }

    fn last_payload(&self, register: Register) -> Option<Vec<u8>> {
        self.writes
            .iter()
            .rev()
            .find(|w| w.0 == register)
            .map(|w| w.1.clone())
    }
}

impl Transport for SettingsBus {
    fn read(
        &mut self,
        _servo_id: u8,
        register: Register,
        length: u8,
    ) -> Result<Vec<u8>, TransportError> {
        if register == Register::PositionCorrection && length == 2 {
            return Ok(vec![self.offset_bytes.0, self.offset_bytes.1]);
        }
        Ok(vec![0; length as usize])
    }

    fn write(
        &mut self,
        _servo_id: u8,
        register: Register,
        data: &Vec<u8>,
    ) -> Result<(), TransportError> {
        self.writes.push((register, data.clone()));
        Ok(())
    }

    fn read_info(&mut self, _servo_id: u8) -> Result<ServoInfo, TransportError> {
        Ok(ServoInfo {
            current_location: 2048,
            torque_switch: self.torque_switch,
            torque_limit: 1000,
        })
    }

    fn read_continuous(&mut self) -> Result<RawTelemetry, TransportError> {
        Err(TransportError)
    }

    fn read_angle_limits(&mut self, _servo_id: u8) -> Result<(u16, u16), TransportError> {
        Ok(self.limits)
    }

    fn scan(&mut self, _servo_id: u8) -> Result<bool, TransportError> {
        Ok(true)
    }

    fn move_servo(
        &mut self,
        _servo_id: u8,
        position: i16,
        time: u16,
        speed: u16,
    ) -> Result<(), TransportError> {
        self.moves.push((position, time, speed));
        Ok(())
    }

    fn set_torque_mode(&mut self, _servo_id: u8, mode: TorqueMode) -> Result<(), TransportError> {
        self.modes.push(mode);
        Ok(())
    }

    fn settle(&mut self, _ms: u32) {}
}

#[test]
fn manual_offset_unlocks_writes_and_locks() {
    let mut bus = SettingsBus::new();
    let wire = apply_manual_offset(&mut bus, 1, -100).unwrap();
    assert_eq!(wire, 100 | 0x800);
    // 2148 = 0x0864, little-endian.
    assert_eq!(bus.writes.len(), 3);
    assert_eq!(bus.writes[0], (Register::LockMark, vec![0]));
    assert_eq!(bus.writes[1], (Register::PositionCorrection, vec![0x64, 0x08]));
    assert_eq!(bus.writes[2], (Register::LockMark, vec![1]));
}

#[test]
fn torque_limit_unlocks_writes_and_locks() {
    let mut bus = SettingsBus::new();
    apply_torque_limit(&mut bus, 1, 1000).unwrap();
    // 1000 = 0x03e8, little-endian.
    assert_eq!(bus.writes.len(), 3);
    assert_eq!(bus.writes[0], (Register::LockMark, vec![0]));
    assert_eq!(bus.writes[1], (Register::TorqueLimit, vec![0xe8, 0x03]));
    assert_eq!(bus.writes[2], (Register::LockMark, vec![1]));
}

#[test]
fn settings_apply_requested_steps_only() {
    let mut bus = SettingsBus::new();
    let req = SettingsRequest {
        torque_mode: TorqueMode::Enabled,
        position: None,
        speed: 500,
        offset: Some(-100),
        torque_limit: 0,
    };
    let o = apply_settings(&mut bus, 1, &req);
    assert!(o.torque_mode.is_ok());
    assert!(o.moved.is_none());
    assert_eq!(o.offset, Some(Ok(100 | 0x800)));
    assert!(o.torque_limit.is_none());
    assert_eq!(bus.modes, vec![TorqueMode::Enabled]);
    assert!(bus.moves.is_empty());
    assert_eq!(
        bus.last_payload(Register::PositionCorrection),
        Some(vec![0x64, 0x08])
    );
    assert_eq!(bus.last_payload(Register::TorqueLimit), None);
}

#[test]
fn settings_apply_move_and_limit() {
    let mut bus = SettingsBus::new();
    let req = SettingsRequest {
        torque_mode: TorqueMode::Disabled,
        position: Some(1234),
        speed: 400,
        offset: None,
        torque_limit: 800,
    };
    let o = apply_settings(&mut bus, 1, &req);
    assert!(o.moved.unwrap().is_ok());
    assert!(o.offset.is_none());
    assert!(o.torque_limit.unwrap().is_ok());
    assert_eq!(bus.moves, vec![(1234, 0, 400)]);
    assert_eq!(bus.last_payload(Register::TorqueLimit), Some(vec![0x20, 0x03]));
}

#[test]
fn limits_summary_reads_range_and_offset() {
    let mut bus = SettingsBus::new();
    let s = read_limits_summary(&mut bus, 1).unwrap();
    assert_eq!(s.min_angle, 1000);
    assert_eq!(s.max_angle, 3000);
    assert_eq!(s.range_centidegrees, 2000 * 36000 / 4096);
    assert_eq!(s.offset_word, -100);
}

#[test]
fn torque_mode_decisions() {
    assert_eq!(current_torque_mode(0), TorqueMode::Disabled);
    assert_eq!(current_torque_mode(1), TorqueMode::Enabled);
    assert_eq!(next_torque_mode(0), TorqueMode::Enabled);
    assert_eq!(next_torque_mode(1), TorqueMode::Disabled);
    assert_eq!(torque_display_value(TorqueMode::Enabled), 1);
    assert_eq!(torque_display_value(TorqueMode::Disabled), 0);
    assert_eq!(torque_display_value(TorqueMode::Stiff), 1);
}

#[test]
fn toggle_flips_reported_mode() {
    let mut bus = SettingsBus::new();
    bus.torque_switch = 0;
    assert_eq!(toggle_torque(&mut bus, 1), Ok(TorqueMode::Enabled));
    bus.torque_switch = 1;
    assert_eq!(toggle_torque(&mut bus, 1), Ok(TorqueMode::Disabled));
    assert_eq!(bus.modes, vec![TorqueMode::Enabled, TorqueMode::Disabled]);
}
