use servo_core::liveness::{
    interpret_probe, probe, refresh_all, row_highlight, LivenessTable, RowHighlight,
};
use servo_core::telemetry::RawTelemetry;
use servo_core::transport::{Register, ServoInfo, TorqueMode, Transport, TransportError};

/// Bus whose scans answer per servo id: id 2 reports dead, id 3 errors out,
/// everything else answers alive.
struct ScanBus {
    scans: Vec<u8>,
}

impl Transport for ScanBus {
    fn read(
        &mut self,
        _servo_id: u8,
        _register: Register,
        length: u8,
    ) -> Result<Vec<u8>, TransportError> {
        Ok(vec![0; length as usize])
    }

    fn write(
        &mut self,
        _servo_id: u8,
        _register: Register,
        _data: &Vec<u8>,
    ) -> Result<(), TransportError> {
        Ok(())
    }

    fn read_info(&mut self, _servo_id: u8) -> Result<ServoInfo, TransportError> {
        Ok(ServoInfo { current_location: 0, torque_switch: 0, torque_limit: 0 })
    }

    fn read_continuous(&mut self) -> Result<RawTelemetry, TransportError> {
        Err(TransportError)
    }

    fn read_angle_limits(&mut self, _servo_id: u8) -> Result<(u16, u16), TransportError> {
        Ok((0, 0))
    }

    fn scan(&mut self, servo_id: u8) -> Result<bool, TransportError> {
        self.scans.push(servo_id);
        match servo_id {
            2 => Ok(false),
            3 => Err(TransportError),
            _ => Ok(true),
        }
    }

    fn move_servo(
        &mut self,
        _servo_id: u8,
        _position: i16,
        _time: u16,
        _speed: u16,
    ) -> Result<(), TransportError> {
        Ok(())
    }

    fn set_torque_mode(&mut self, _servo_id: u8, _mode: TorqueMode) -> Result<(), TransportError> {
        Ok(())
    }

    fn settle(&mut self, _ms: u32) {}
}

#[test]
fn fresh_table_is_all_responsive() {
    let table = LivenessTable::new(16);
    assert_eq!(table.len(), 16);
    for i in 0..16 {
        assert!(!table.is_unresponsive(i));
    }
}

#[test]
fn record_flips_one_entry_only() {
    let mut table = LivenessTable::new(4);
    table.record(2, false);
    assert!(!table.is_unresponsive(0));
    assert!(!table.is_unresponsive(1));
    assert!(table.is_unresponsive(2));
    assert!(!table.is_unresponsive(3));
    table.record(2, true);
    assert!(!table.is_unresponsive(2));
}

#[test]
fn probe_errors_count_as_unresponsive() {
    assert!(interpret_probe(Ok(true)));
    assert!(!interpret_probe(Ok(false)));
    assert!(!interpret_probe(Err(TransportError)));
    let mut bus = ScanBus { scans: Vec::new() };
    assert!(probe(&mut bus, 1));
    assert!(!probe(&mut bus, 2));
    assert!(!probe(&mut bus, 3));
}

#[test]
fn refresh_probes_every_servo_by_one_based_id() {
    let mut bus = ScanBus { scans: Vec::new() };
    let mut table = LivenessTable::new(5);
    refresh_all(&mut bus, &mut table);
    assert_eq!(bus.scans, vec![1, 2, 3, 4, 5]);
    assert!(!table.is_unresponsive(0));
    assert!(table.is_unresponsive(1)); // id 2 said dead
    assert!(table.is_unresponsive(2)); // id 3 erred: swallowed into unresponsive
    assert!(!table.is_unresponsive(3));
    assert!(!table.is_unresponsive(4));
}

#[test]
fn row_highlight_orders_alert_first() {
    assert_eq!(row_highlight(true, true), RowHighlight::Alert);
    assert_eq!(row_highlight(true, false), RowHighlight::Alert);
    assert_eq!(row_highlight(false, true), RowHighlight::Selected);
    assert_eq!(row_highlight(false, false), RowHighlight::Normal);
}
