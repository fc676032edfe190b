use servo_core::poll::PollContext;
use servo_core::telemetry::{
    decode_record, decode_snapshot, status_faulted, RawServoBlock, RawTelemetry,
};
use servo_core::transport::{Register, ServoInfo, TorqueMode, Transport, TransportError};

fn raw_block(position: u16, speed: u16, load: u16) -> RawServoBlock {
    RawServoBlock {
        position,
        speed,
        load,
        voltage: 74,
        temperature: 36,
        current: -12,
        status: 0b00101,
        torque_switch: 1,
        torque_limit: 1000,
        lock_mark: 1,
    }
}

/// Bus that always answers telemetry reads with a fixed two-servo block,
/// or fails them when told to.
struct TelemetryBus {
    fail: bool,
}

impl Transport for TelemetryBus {
    fn read(
        &mut self,
        _servo_id: u8,
        _register: Register,
        length: u8,
    ) -> Result<Vec<u8>, TransportError> {
        Ok(vec![0; length as usize])
    }

    fn write(
        &mut self,
        _servo_id: u8,
        _register: Register,
        _data: &Vec<u8>,
    ) -> Result<(), TransportError> {
        Ok(())
    }

    fn read_info(&mut self, _servo_id: u8) -> Result<ServoInfo, TransportError> {
        Ok(ServoInfo { current_location: 0, torque_switch: 0, torque_limit: 0 })
    }

    fn read_continuous(&mut self) -> Result<RawTelemetry, TransportError> {
        if self.fail {
            return Err(TransportError);
        }
        Ok(RawTelemetry {
            servos: vec![raw_block(1500, 0x8005, 0x403), raw_block(2500, 7, 2)],
            task_run_count: 42,
        })
    }

    fn read_angle_limits(&mut self, _servo_id: u8) -> Result<(u16, u16), TransportError> {
        Ok((0, 0))
    }

    fn scan(&mut self, _servo_id: u8) -> Result<bool, TransportError> {
        Ok(true)
    }

    fn move_servo(
        &mut self,
        _servo_id: u8,
        _position: i16,
        _time: u16,
        _speed: u16,
    ) -> Result<(), TransportError> {
        Ok(())
    }

    fn set_torque_mode(&mut self, _servo_id: u8, _mode: TorqueMode) -> Result<(), TransportError> {
        Ok(())
    }

    fn settle(&mut self, _ms: u32) {}
}

#[test]
fn record_decodes_every_field() {
    let raw = raw_block(1500, 0x8005, 0x403);
    let rec = decode_record(&raw);
    assert_eq!(rec.position, 1500);
    assert_eq!(rec.speed, -5);
    assert_eq!(rec.load, -3);
    assert_eq!(rec.voltage_tenths, 74);
    assert_eq!(rec.temperature, 36);
    assert_eq!(rec.current, -12);
    assert_eq!(rec.status, 0b00101);
    assert_eq!(rec.torque_switch, 1);
    assert_eq!(rec.torque_limit, 1000);
    assert_eq!(rec.lock_mark, 1);
}

#[test]
fn snapshot_decodes_record_by_record() {
    let raw = RawTelemetry {
        servos: vec![raw_block(10, 3, 1), raw_block(20, 0x8001, 0x401)],
        task_run_count: 9,
    };
    let snap = decode_snapshot(&raw);
    assert_eq!(snap.servos.len(), 2);
    assert_eq!(snap.servos[0].position, 10);
    assert_eq!(snap.servos[0].speed, 3);
    assert_eq!(snap.servos[1].speed, -1);
    assert_eq!(snap.servos[1].load, -1);
    assert_eq!(snap.task_run_count, 9);
}

#[test]
fn status_fault_flag() {
    assert!(!status_faulted(0));
    assert!(status_faulted(1));
    assert!(status_faulted(0b10000));
}

#[test]
fn poll_keeps_latest_snapshot() {
    let mut bus = TelemetryBus { fail: false };
    let mut ctx = PollContext::new();
    assert!(ctx.latest_position(0).is_none());
    assert!(ctx.latest_positions().is_none());
    ctx.poll(&mut bus).unwrap();
    assert_eq!(ctx.cycle, 1);
    assert_eq!(ctx.latest_position(0), Some(1500));
    assert_eq!(ctx.latest_position(1), Some(2500));
    assert_eq!(ctx.latest_position(2), None);
    assert_eq!(ctx.latest_positions(), Some(vec![1500, 2500]));
}

#[test]
fn poll_failure_keeps_previous_snapshot() {
    let mut ctx = PollContext::new();
    let mut good = TelemetryBus { fail: false };
    ctx.poll(&mut good).unwrap();
    let mut bad = TelemetryBus { fail: true };
    assert!(ctx.poll(&mut bad).is_err());
    assert_eq!(ctx.cycle, 2);
    assert_eq!(ctx.latest_position(0), Some(1500));
}

#[test]
fn cycle_counter_wraps() {
    let mut bus = TelemetryBus { fail: false };
    let mut ctx = PollContext::new();
    ctx.cycle = 999;
    ctx.poll(&mut bus).unwrap();
    assert_eq!(ctx.cycle, 0);
}

#[test]
fn probe_cadence() {
    let mut ctx = PollContext::new();
    assert!(ctx.due_for_probe());
    ctx.cycle = 1;
    assert!(!ctx.due_for_probe());
    ctx.cycle = 50;
    assert!(ctx.due_for_probe());
    ctx.cycle = 51;
    assert!(!ctx.due_for_probe());
    ctx.cycle = 950;
    assert!(ctx.due_for_probe());
}

#[test]
fn probe_cadence_is_configurable() {
    let mut ctx = PollContext::new();
    ctx.cycle = 30;
    assert!(ctx.due_for_probe_every(10));
    assert!(ctx.due_for_probe_every(15));
    assert!(!ctx.due_for_probe_every(50));
    assert!(!ctx.due_for_probe_every(7));
}
