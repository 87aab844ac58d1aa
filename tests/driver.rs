use embedded_hal::i2c::ErrorKind;
use ft6336::{Error, Ft6336, History, I2cBus, Point, PointAction, PointsIter, PowerMode};

/// Bus double: records every transaction and answers reads from `response`.
struct MockBus {
    writes: Vec<(u8, Vec<u8>)>,
    reads: Vec<(u8, Vec<u8>, usize)>,
    response: Vec<u8>,
    fail_after: Option<usize>,
}

impl MockBus {
    fn new(response: Vec<u8>) -> MockBus {
        MockBus { writes: Vec::new(), reads: Vec::new(), response, fail_after: None }
    }

    fn failing_after(n: usize) -> MockBus {
        MockBus { writes: Vec::new(), reads: Vec::new(), response: Vec::new(), fail_after: Some(n) }
    }

    fn count(&self) -> usize {
        self.writes.len() + self.reads.len()
    }

    fn should_fail(&self) -> bool {
        match self.fail_after {
            Some(n) => self.count() >= n,
            None => false,
        }
    }
}

impl I2cBus for MockBus {
    // Only proofs read the history; compiled code never calls it.
    fn history(&self) -> History {
        unreachable!()
    }

    fn write(&mut self, address: u8, bytes: &[u8]) -> Result<(), ErrorKind> {
        let fail = self.should_fail();
        self.writes.push((address, bytes.to_vec()));
        if fail {
            Err(ErrorKind::Bus)
        } else {
            Ok(())
        }
    }

    fn write_read(&mut self, address: u8, bytes: &[u8], buffer: &mut [u8]) -> Result<(), ErrorKind> {
        let fail = self.should_fail();
        self.reads.push((address, bytes.to_vec(), buffer.len()));
        if fail {
            return Err(ErrorKind::ArbitrationLoss);
        }
        for (i, b) in buffer.iter_mut().enumerate() {
            *b = self.response.get(i).copied().unwrap_or(0);
        }
        Ok(())
    }
}

fn written(bus: &MockBus) -> Vec<(u8, Vec<u8>)> {
    bus.writes.clone()
}

fn block(count: u8, first: [u8; 6], second: [u8; 4]) -> [u8; 11] {
    let mut b = [0u8; 11];
    b[0] = count;
    b[1..7].copy_from_slice(&first);
    b[7..11].copy_from_slice(&second);
    b
}

fn record(action: u8, x: u16, y: u16, index: u8) -> [u8; 6] {
    [
        (action << 6) | ((x >> 8) as u8),
        (x & 0xFF) as u8,
        (index << 4) | ((y >> 8) as u8),
        (y & 0xFF) as u8,
        0,
        0,
    ]
}

#[test]
fn zero_count_yields_nothing() {
    let mut it = PointsIter::new(block(0, [0xFF; 6], [0xFF; 4]));
    assert_eq!(it.next(), None);
    assert_eq!(it.next(), None);
    assert!(PointsIter::new(block(0, [1, 2, 3, 4, 5, 6], [7, 8, 9, 10])).collect_points().is_empty());
}

#[test]
fn one_count_yields_first_record() {
    let b = block(1, record(1, 0x123, 0x456, 7), record(2, 9, 9, 9)[..4].try_into().unwrap());
    let mut it = PointsIter::new(b);
    assert_eq!(
        it.next(),
        Some(Point { index: 7, action: PointAction::LiftUp, x: 0x123, y: 0x456 })
    );
    assert_eq!(it.next(), None);
}

#[test]
fn two_count_yields_second_record_first() {
    let second: [u8; 4] = record(2, 4095, 0, 15)[..4].try_into().unwrap();
    let b = block(2, record(0, 10, 20, 1), second);
    let points = PointsIter::new(b).collect_points();
    assert_eq!(
        points,
        vec![
            Point { index: 15, action: PointAction::Contact, x: 4095, y: 0 },
            Point { index: 1, action: PointAction::PressDown, x: 10, y: 20 },
        ]
    );
}

#[test]
fn record_round_trip_examples() {
    for (action, expected) in [
        (0u8, PointAction::PressDown),
        (1, PointAction::LiftUp),
        (2, PointAction::Contact),
    ] {
        for &(x, y, index) in &[(0u16, 0u16, 0u8), (4095, 4095, 15), (0x800, 0x0FF, 8), (1, 4094, 3)] {
            let b = block(1, record(action, x, y, index), [0; 4]);
            let p = PointsIter::new(b).next();
            assert_eq!(p, Some(Point { index, action: expected, x, y }));
        }
    }
}

#[test]
fn unknown_action_code_is_no_action() {
    let b = block(1, record(3, 100, 200, 2), [0; 4]);
    let p = PointsIter::new(b).next().unwrap();
    assert_eq!(p.action, PointAction::NoAction);
    assert_eq!(p.x, 100);
    assert_eq!(p.y, 200);
    assert_eq!(PointAction::from_primitive(3), PointAction::NoAction);
    assert_eq!(PointAction::from_primitive(200), PointAction::NoAction);
    assert_eq!(PointAction::from_primitive(2), PointAction::Contact);
    assert_eq!(PointAction::Contact.to_primitive(), 2);
}

#[test]
fn oversized_count_is_capped() {
    let second: [u8; 4] = record(0, 5, 6, 2)[..4].try_into().unwrap();
    let b = block(0xFF, record(1, 1, 2, 1), second);
    let points = PointsIter::new(b).collect_points();
    assert_eq!(points.len(), 2);
    assert_eq!(points[0], Point { index: 2, action: PointAction::PressDown, x: 5, y: 6 });
    assert_eq!(points[1], Point { index: 1, action: PointAction::LiftUp, x: 1, y: 2 });
}

#[test]
fn scan_rate_is_clamped() {
    let mut dev = Ft6336::new(MockBus::new(Vec::new()));
    assert_eq!(dev.set_scan_rate(0), Ok(()));
    assert_eq!(dev.set_scan_rate(255), Ok(()));
    assert_eq!(dev.set_scan_rate(10), Ok(()));
    assert_eq!(dev.set_monitor_scan_rate(3), Ok(()));
    assert_eq!(dev.set_monitor_scan_rate(21), Ok(()));
    assert_eq!(dev.set_monitor_scan_rate(4), Ok(()));
    let bus = dev.destroy();
    assert_eq!(
        written(&bus),
        vec![
            (0x38, vec![0x88, 4]),
            (0x38, vec![0x88, 20]),
            (0x38, vec![0x88, 10]),
            (0x38, vec![0x89, 4]),
            (0x38, vec![0x89, 20]),
            (0x38, vec![0x89, 4]),
        ]
    );
}

#[test]
fn monitor_delay_is_capped() {
    let mut dev = Ft6336::new(MockBus::new(Vec::new()));
    assert_eq!(dev.set_auto_monitor_mode_delay(200), Ok(()));
    assert_eq!(dev.set_auto_monitor_mode_delay(30), Ok(()));
    assert_eq!(dev.set_auto_monitor_mode_delay(100), Ok(()));
    let bus = dev.destroy();
    assert_eq!(
        written(&bus),
        vec![(0x38, vec![0x87, 100]), (0x38, vec![0x87, 30]), (0x38, vec![0x87, 100])]
    );
}

#[test]
fn flag_setters_write_fixed_bytes() {
    let mut dev = Ft6336::new(MockBus::new(Vec::new()));
    dev.init().unwrap();
    dev.set_use_freqency_hopping(true).unwrap();
    dev.set_use_freqency_hopping(false).unwrap();
    dev.set_auto_monitor_mode(true).unwrap();
    dev.set_auto_monitor_mode(false).unwrap();
    dev.interrupt_by_pulse().unwrap();
    dev.interrupt_by_state().unwrap();
    dev.set_power_mode(PowerMode::Hibernate).unwrap();
    dev.set_power_mode(PowerMode::Monitor).unwrap();
    let bus = dev.destroy();
    let regs: Vec<Vec<u8>> = written(&bus).into_iter().map(|(_, b)| b).collect();
    assert_eq!(
        regs,
        vec![
            vec![0x00, 0x00],
            vec![0x8B, 0x01],
            vec![0x8B, 0x00],
            vec![0x86, 0x01],
            vec![0x86, 0x00],
            vec![0xA4, 0x01],
            vec![0xA4, 0x00],
            vec![0xA5, 3],
            vec![0xA5, 1],
        ]
    );
}

#[test]
fn applib_version_swaps_bytes() {
    let mut dev = Ft6336::new(MockBus::new(vec![0xAB, 0xCD]));
    assert_eq!(dev.applib_version(), Ok((0xCD, 0xAB)));
    let bus = dev.destroy();
    assert_eq!(bus.reads, vec![(0x38, vec![0xA1], 2)]);
}

#[test]
fn power_mode_bytes() {
    assert_eq!(PowerMode::from_primitive(0), PowerMode::Active);
    assert_eq!(PowerMode::from_primitive(5), PowerMode::Active);
    assert_eq!(PowerMode::from_primitive(1), PowerMode::Monitor);
    assert_eq!(PowerMode::from_primitive(2), PowerMode::Standby);
    assert_eq!(PowerMode::from_primitive(3), PowerMode::Hibernate);
    assert_eq!(PowerMode::Standby.to_primitive(), 2);
}

#[test]
fn single_register_reads() {
    let mut dev = Ft6336::new(MockBus::new(vec![0x42]));
    assert_eq!(dev.firmware_version(), Ok(0x42));
    assert_eq!(dev.vender_id(), Ok(0x42));
    assert_eq!(dev.release_code(), Ok(0x42));
    assert_eq!(dev.touch_count(), Ok(0x42));
    let bus = dev.destroy();
    let regs: Vec<u8> = bus.reads.iter().map(|(_, w, _)| w[0]).collect();
    assert_eq!(regs, vec![0xA6, 0xA8, 0xAF, 0x02]);
}

#[test]
fn chip_code_reads_three_registers() {
    let mut dev = Ft6336::new(MockBus::new(vec![0x02]));
    assert_eq!(dev.chip_code(), Ok((0x02, 0x02, 0x02)));
    let bus = dev.destroy();
    let regs: Vec<u8> = bus.reads.iter().map(|(_, w, _)| w[0]).collect();
    assert_eq!(regs, vec![0xA0, 0x9F, 0xA3]);
}

#[test]
fn chip_code_stops_at_first_failure() {
    let mut dev = Ft6336::new(MockBus::failing_after(1));
    assert_eq!(dev.chip_code(), Err(Error::I2cError(ErrorKind::ArbitrationLoss)));
    let bus = dev.destroy();
    assert_eq!(bus.reads.len(), 2);
}

#[test]
fn write_failure_is_reported() {
    let mut dev = Ft6336::new(MockBus::failing_after(0));
    assert_eq!(dev.set_scan_rate(10), Err(Error::I2cError(ErrorKind::Bus)));
    assert_eq!(dev.touch_count(), Err(Error::I2cError(ErrorKind::ArbitrationLoss)));
}

#[test]
fn touch_reads_use_report_register() {
    let raw: Vec<u8> = vec![1, 0x81, 0x23, 0x54, 0x56, 0, 0, 0, 0, 0, 0, 0xEE, 0xFF];
    let mut dev = Ft6336::new(MockBus::new(raw.clone()));
    let all = dev.touches_raw().unwrap();
    assert_eq!(all.to_vec(), raw);
    let points = dev.touch_points_iter().unwrap().collect_points();
    assert_eq!(points, vec![Point { index: 5, action: PointAction::Contact, x: 0x123, y: 0x456 }]);
    let bus = dev.destroy();
    assert_eq!(bus.reads, vec![(0x38, vec![0x02], 13), (0x38, vec![0x02], 11)]);
}
