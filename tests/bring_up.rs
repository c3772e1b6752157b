use embassy_bme280_sensor::bme280_rp::{Action, BME280Sensor, Event};
use embassy_bme280_sensor::configuration::{Configuration, Filter, Oversampling, StandbyDuration};
use embassy_bme280_sensor::{BME280Error, Measurement};

fn datasheet_first_block() -> Vec<u8> {
    let words: [i32; 12] = [
        27504, 26435, -1000, 36477, -10685, 3024, 2855, 140, -7, 15500, -14600, 6000,
    ];
    let mut first = Vec::new();
    for w in words {
        let u = w as u16;
        first.push((u & 0xff) as u8);
        first.push((u >> 8) as u8);
    }
    first.push(0);
    first.push(75);
    first
}

fn datasheet_second_block() -> Vec<u8> {
    vec![0x6a, 0x01, 0x00, 0x13, 0x29, 0x03, 0x1e]
}

fn configuration() -> Configuration {
    Configuration::default()
        .with_standby_time(StandbyDuration::Millis1000)
        .with_temperature_oversampling(Oversampling::Oversample1)
        .with_pressure_oversampling(Oversampling::Oversample1)
        .with_humidity_oversampling(Oversampling::Oversample1)
        .with_filter(Filter::Off)
}

/// Plays the device: answers each action from a status script, counting the
/// actions of each kind, until the bring-up ends.
struct Run {
    writes: Vec<(u8, u8)>,
    delays: Vec<u64>,
    status_reads: usize,
    end: Action,
}

fn run(sensor: &mut BME280Sensor, chip_id: u8, busy_polls: usize) -> Run {
    let mut writes = Vec::new();
    let mut delays = Vec::new();
    let mut status_reads = 0;
    let mut action = sensor.begin_setup(configuration());
    loop {
        let event = match action {
            Action::Read { register, len } => {
                let data = match register {
                    0xD0 => vec![chip_id],
                    0xF3 => {
                        status_reads += 1;
                        if status_reads <= busy_polls {
                            vec![0b1000]
                        } else {
                            vec![0]
                        }
                    }
                    0x88 => datasheet_first_block(),
                    0xE1 => datasheet_second_block(),
                    _ => panic!("unexpected read"),
                };
                assert_eq!(data.len(), len);
                Event::Data(data)
            }
            Action::Write { register, value } => {
                writes.push((register, value));
                Event::Written
            }
            Action::Delay { millis } => {
                delays.push(millis);
                Event::Elapsed
            }
            Action::Done | Action::Failed(_) => break,
        };
        action = sensor.advance(event);
    }
    Run { writes, delays, status_reads, end: action }
}

#[test]
fn expected_identity_proceeds_to_poll() {
    let mut sensor = BME280Sensor::new(0x76);
    let first = sensor.begin_setup(configuration());
    assert_eq!(first, Action::Read { register: 0xD0, len: 1 });
    let next = sensor.advance(Event::Data(vec![0x60]));
    assert_eq!(next, Action::Write { register: 0xE0, value: 0x86 });
    assert_eq!(sensor.advance(Event::Written), Action::Delay { millis: 10 });
    assert_eq!(sensor.advance(Event::Elapsed), Action::Read { register: 0xF3, len: 1 });
}

#[test]
fn wrong_identity_fails_before_any_write() {
    let mut sensor = BME280Sensor::new(0x76);
    let r = run(&mut sensor, 0x00, 0);
    assert_eq!(r.end, Action::Failed(BME280Error::InvalidChipId(0x00)));
    assert!(r.writes.is_empty());
    assert!(r.delays.is_empty());
    assert!(!sensor.is_ready());
    assert_eq!(sensor.advance(Event::Written), Action::Failed(BME280Error::InvalidData));
}

#[test]
fn three_busy_polls_then_ready() {
    let mut sensor = BME280Sensor::new(0x76);
    let r = run(&mut sensor, 0x60, 3);
    assert_eq!(r.end, Action::Done);
    assert_eq!(r.status_reads, 4);
    let poll_delays = r.delays.iter().filter(|d| **d == 10).count();
    // one settle delay after the reset, then one per busy poll
    assert_eq!(poll_delays, 1 + 3);
    assert_eq!(r.delays, vec![10, 10, 10, 10, 100]);
    assert!(sensor.is_ready());
}

#[test]
fn status_never_clears_times_out() {
    let mut sensor = BME280Sensor::new(0x76);
    let r = run(&mut sensor, 0x60, usize::MAX);
    assert_eq!(r.end, Action::Failed(BME280Error::Timeout));
    assert_eq!(r.status_reads, 101);
    assert_eq!(r.delays.len(), 1 + 100);
    assert!(!sensor.is_ready());
    // the sensor can be brought up again afterwards
    let r = run(&mut sensor, 0x60, 0);
    assert_eq!(r.end, Action::Done);
}

#[test]
fn configuration_registers_written_in_order() {
    let mut sensor = BME280Sensor::new(0x76);
    let r = run(&mut sensor, 0x60, 0);
    assert_eq!(r.end, Action::Done);
    assert_eq!(
        r.writes,
        vec![(0xE0, 0x86), (0xF4, 0x00), (0xF2, 0b001), (0xF5, 0b101_000_0_0), (0xF4, 0b001_001_00)]
    );
}

#[test]
fn bus_error_aborts_bring_up() {
    let mut sensor = BME280Sensor::new(0x76);
    sensor.begin_setup(configuration());
    assert_eq!(sensor.advance(Event::Data(vec![0x60])), Action::Write { register: 0xE0, value: 0x86 });
    assert_eq!(sensor.advance(Event::BusError), Action::Failed(BME280Error::I2CError));
    assert!(!sensor.is_ready());
}

#[test]
fn bus_error_during_poll_is_reported() {
    let mut sensor = BME280Sensor::new(0x76);
    sensor.begin_setup(configuration());
    sensor.advance(Event::Data(vec![0x60]));
    sensor.advance(Event::Written);
    assert_eq!(sensor.advance(Event::Elapsed), Action::Read { register: 0xF3, len: 1 });
    assert_eq!(sensor.advance(Event::BusError), Action::Failed(BME280Error::I2CError));
}

#[test]
fn short_read_is_invalid_data() {
    let mut sensor = BME280Sensor::new(0x76);
    sensor.begin_setup(configuration());
    assert_eq!(sensor.advance(Event::Data(vec![])), Action::Failed(BME280Error::InvalidData));
}

#[test]
fn read_before_bring_up_is_not_calibrated() {
    let sensor = BME280Sensor::new(0x76);
    let burst = [0x65, 0x5a, 0xc0, 0x7e, 0xed, 0x00, 0x75, 0x30];
    assert_eq!(sensor.read(&burst), Err(BME280Error::NotCalibrated));
    assert_eq!(sensor.address(), 0x76);
}

#[test]
fn read_after_bring_up_compensates() {
    let mut sensor = BME280Sensor::new(0x77);
    let r = run(&mut sensor, 0x60, 1);
    assert_eq!(r.end, Action::Done);
    let burst = [0x65, 0x5a, 0xc0, 0x7e, 0xed, 0x00, 0x75, 0x30];
    assert_eq!(
        sensor.read(&burst),
        Ok(Measurement { temperature: 2508, humidity: 56317, pressure: 25767233 })
    );
}
