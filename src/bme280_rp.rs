use vstd::prelude::*;

use crate::calibration::{
    centi_celsius, compensated_humidity, compensated_pressure, decoded, fine_temperature,
    CalibrationRegisters, FIRST_BLOCK_LEN, SECOND_BLOCK_LEN,
};
use crate::configuration::{register_bytes, Configuration, SensorMode};
use crate::{
    raw_sample_of, BME280Error, Measurement, RawSample, BME280_CHIP_ID, BME280_REGISTER_CHIPID,
    BME280_REGISTER_CONFIG, BME280_REGISTER_CONTROL, BME280_REGISTER_CONTROLHUMID,
    BME280_REGISTER_DIG_FIRST_START, BME280_REGISTER_DIG_SECOND_START, BME280_REGISTER_SOFTRESET,
    BME280_REGISTER_STATUS, BME280_SOFT_RESET_COMMAND, BME280_STATUS_IM_UPDATE,
};

verus! {

/// Time the device needs after a soft reset.
pub const RESET_SETTLE_MS: u64 = 10;

/// Interval between two reads of the status register.
pub const POLL_INTERVAL_MS: u32 = 10;

/// Bound on the total wait for the coefficients to be ready.
pub const POLL_TIMEOUT_MS: u32 = 1000;

/// Time the device needs after it has been configured.
pub const CONFIGURE_SETTLE_MS: u64 = 100;

/// Where the bring-up of a sensor stands. Every phase but `Idle` and `Ready`
/// waits for the outcome of the action it asked for.
#[derive(Clone, Copy, Debug, PartialEq, Eq, Structural)]
pub enum Phase {
    /// No bring-up has completed; none is under way.
    Idle,
    ChipId,
    Reset,
    ResetSettle,
    /// Reading the status register, after `waited_ms` of polling delays.
    Status { waited_ms: u32 },
    /// Waiting before the next status read.
    PollWait { waited_ms: u32 },
    FirstBlock,
    SecondBlock,
    WriteSleep,
    WriteHumidity,
    WriteConfig,
    WriteMeasurement,
    FinalSettle,
    /// Bring-up completed: measurements can be compensated.
    Ready,
}

/// What the bring-up asks of the bus or the clock next.
#[derive(Clone, Copy, Debug, PartialEq, Eq, Structural)]
pub enum Action {
    /// Write the register address, then read `len` bytes from it.
    Read { register: u8, len: usize },
    /// Write `value` to `register`.
    Write { register: u8, value: u8 },
    /// Wait for `millis` milliseconds.
    Delay { millis: u64 },
    /// Bring-up completed.
    Done,
    /// Bring-up stopped with this error.
    Failed(BME280Error),
}

/// The outcome of the last action.
#[derive(Debug)]
pub enum Event {
    /// The bytes a read returned.
    Data(Vec<u8>),
    /// A write completed.
    Written,
    /// A delay elapsed.
    Elapsed,
    /// The bus reported a failure.
    BusError,
}

/// The state of a sensor, as the contracts see it.
pub struct SensorView {
    pub address: u8,
    pub calibration: Option<CalibrationRegisters>,
    pub phase: Phase,
    pub configuration: Configuration,
    pub first_block: Seq<u8>,
}

impl SensorView {
    pub open spec fn wf(self) -> bool {
        &&& (self.phase matches Phase::Status { waited_ms } ==> waited_ms <= POLL_TIMEOUT_MS
            && waited_ms % POLL_INTERVAL_MS == 0)
        &&& (self.phase matches Phase::PollWait { waited_ms } ==> waited_ms < POLL_TIMEOUT_MS
            && waited_ms % POLL_INTERVAL_MS == 0)
        &&& (self.phase is SecondBlock ==> self.first_block.len() == FIRST_BLOCK_LEN)
        &&& (configured(self.phase) ==> self.calibration is Some)
    }
}

/// Whether the coefficients have been read in this phase.
pub open spec fn configured(p: Phase) -> bool {
    ||| p is WriteSleep
    ||| p is WriteHumidity
    ||| p is WriteConfig
    ||| p is WriteMeasurement
    ||| p is FinalSettle
    ||| p is Ready
}

/// Whether the phase waits for the outcome of an action.
pub open spec fn awaits_event(p: Phase) -> bool {
    !(p is Idle || p is Ready)
}

/// Whether the event carries exactly `len` bytes.
pub open spec fn carries(e: Event, len: nat) -> bool {
    e is Data && e->0@.len() == len
}

/// Whether a status byte says that the coefficients are still being copied.
pub open spec fn calibration_busy(status: u8) -> bool {
    status & BME280_STATUS_IM_UPDATE != 0
}

/// Bring-up stops: the coefficients are forgotten and the sensor is idle,
/// ready for a new bring-up.
pub open spec fn failed(s: SensorView, err: BME280Error) -> (SensorView, Action) {
    (SensorView { calibration: None, phase: Phase::Idle, ..s }, Action::Failed(err))
}

pub open spec fn goto(s: SensorView, phase: Phase, a: Action) -> (SensorView, Action) {
    (SensorView { phase, ..s }, a)
}

/// One step of the bring-up: from the state and the outcome of the last
/// action, the next state and the next action.
pub open spec fn step(s: SensorView, e: Event) -> (SensorView, Action) {
    if !awaits_event(s.phase) {
        (s, Action::Failed(BME280Error::InvalidData))
    } else if e is BusError {
        failed(s, BME280Error::I2CError)
    } else {
        match s.phase {
            Phase::ChipId => if carries(e, 1) {
                let id = e->0@[0];
                if id == BME280_CHIP_ID {
                    goto(
                        s,
                        Phase::Reset,
                        Action::Write {
                            register: BME280_REGISTER_SOFTRESET,
                            value: BME280_SOFT_RESET_COMMAND,
                        },
                    )
                } else {
                    failed(s, BME280Error::InvalidChipId(id))
                }
            } else {
                failed(s, BME280Error::InvalidData)
            },
            Phase::Reset => if e is Written {
                goto(s, Phase::ResetSettle, Action::Delay { millis: RESET_SETTLE_MS })
            } else {
                failed(s, BME280Error::InvalidData)
            },
            Phase::ResetSettle => if e is Elapsed {
                goto(
                    s,
                    Phase::Status { waited_ms: 0 },
                    Action::Read { register: BME280_REGISTER_STATUS, len: 1 },
                )
            } else {
                failed(s, BME280Error::InvalidData)
            },
            Phase::Status { waited_ms } => if carries(e, 1) {
                if !calibration_busy(e->0@[0]) {
                    goto(
                        s,
                        Phase::FirstBlock,
                        Action::Read {
                            register: BME280_REGISTER_DIG_FIRST_START,
                            len: FIRST_BLOCK_LEN,
                        },
                    )
                } else if waited_ms >= POLL_TIMEOUT_MS {
                    failed(s, BME280Error::Timeout)
                } else {
                    goto(
                        s,
                        Phase::PollWait { waited_ms },
                        Action::Delay { millis: POLL_INTERVAL_MS as u64 },
                    )
                }
            } else {
                failed(s, BME280Error::InvalidData)
            },
            Phase::PollWait { waited_ms } => if e is Elapsed {
                goto(
                    s,
                    Phase::Status { waited_ms: (waited_ms + POLL_INTERVAL_MS) as u32 },
                    Action::Read { register: BME280_REGISTER_STATUS, len: 1 },
                )
            } else {
                failed(s, BME280Error::InvalidData)
            },
            Phase::FirstBlock => if carries(e, FIRST_BLOCK_LEN as nat) {
                (
                    SensorView { phase: Phase::SecondBlock, first_block: e->0@, ..s },
                    Action::Read {
                        register: BME280_REGISTER_DIG_SECOND_START,
                        len: SECOND_BLOCK_LEN,
                    },
                )
            } else {
                failed(s, BME280Error::InvalidData)
            },
            Phase::SecondBlock => if carries(e, SECOND_BLOCK_LEN as nat) {
                (
                    SensorView {
                        phase: Phase::WriteSleep,
                        calibration: Some(decoded(s.first_block, e->0@)),
                        ..s
                    },
                    Action::Write { register: BME280_REGISTER_CONTROL, value: SensorMode::Sleep.code() },
                )
            } else {
                failed(s, BME280Error::InvalidData)
            },
            Phase::WriteSleep => if e is Written {
                goto(
                    s,
                    Phase::WriteHumidity,
                    Action::Write {
                        register: BME280_REGISTER_CONTROLHUMID,
                        value: register_bytes(s.configuration).2,
                    },
                )
            } else {
                failed(s, BME280Error::InvalidData)
            },
            Phase::WriteHumidity => if e is Written {
                goto(
                    s,
                    Phase::WriteConfig,
                    Action::Write {
                        register: BME280_REGISTER_CONFIG,
                        value: register_bytes(s.configuration).0,
                    },
                )
            } else {
                failed(s, BME280Error::InvalidData)
            },
            Phase::WriteConfig => if e is Written {
                goto(
                    s,
                    Phase::WriteMeasurement,
                    Action::Write {
                        register: BME280_REGISTER_CONTROL,
                        value: register_bytes(s.configuration).1,
                    },
                )
            } else {
                failed(s, BME280Error::InvalidData)
            },
            Phase::WriteMeasurement => if e is Written {
                goto(s, Phase::FinalSettle, Action::Delay { millis: CONFIGURE_SETTLE_MS })
            } else {
                failed(s, BME280Error::InvalidData)
            },
            Phase::FinalSettle => if e is Elapsed {
                goto(s, Phase::Ready, Action::Done)
            } else {
                failed(s, BME280Error::InvalidData)
            },
            _ => (s, Action::Failed(BME280Error::InvalidData)),
        }
    }
}

/// At the identity check, the expected identity byte leads on to the soft
/// reset; any other byte ends the bring-up with `InvalidChipId` of that byte,
/// after which no event leads to a register write.
pub proof fn lemma_identity_check(s: SensorView, id: Event, later: Event)
    requires
        s.phase == Phase::ChipId,
        carries(id, 1),
    ensures
        id->0@[0] == BME280_CHIP_ID ==> step(s, id).1 == (Action::Write {
            register: BME280_REGISTER_SOFTRESET,
            value: BME280_SOFT_RESET_COMMAND,
        }),
        id->0@[0] != BME280_CHIP_ID ==> step(s, id).1 == Action::Failed(
            BME280Error::InvalidChipId(id->0@[0]),
        ) && step(step(s, id).0, later) == (step(s, id).0, Action::Failed(BME280Error::InvalidData)),
{
}

/// Once the coefficients are read, the bring-up writes `ctrl_meas` with sleep
/// mode, then `ctrl_hum`, then `config`, then `ctrl_meas` with the configured
/// mode, waits, and completes with the decoded coefficients kept.
pub proof fn lemma_configuration_write_order(s: SensorView, second: Event)
    requires
        s.phase == Phase::SecondBlock,
        carries(second, SECOND_BLOCK_LEN as nat),
    ensures
        ({
            let s1 = step(s, second);
            let s2 = step(s1.0, Event::Written);
            let s3 = step(s2.0, Event::Written);
            let s4 = step(s3.0, Event::Written);
            let s5 = step(s4.0, Event::Written);
            let s6 = step(s5.0, Event::Elapsed);
            &&& s1.1 == (Action::Write { register: BME280_REGISTER_CONTROL, value: 0 })
            &&& s2.1 == (Action::Write {
                register: BME280_REGISTER_CONTROLHUMID,
                value: register_bytes(s.configuration).2,
            })
            &&& s3.1 == (Action::Write {
                register: BME280_REGISTER_CONFIG,
                value: register_bytes(s.configuration).0,
            })
            &&& s4.1 == (Action::Write {
                register: BME280_REGISTER_CONTROL,
                value: register_bytes(s.configuration).1,
            })
            &&& s5.1 == (Action::Delay { millis: CONFIGURE_SETTLE_MS })
            &&& s6.1 == Action::Done
            &&& s6.0.phase == Phase::Ready
            &&& s6.0.calibration == Some(decoded(s.first_block, second->0@))
        }),
{
}

/// Largest number of status polls that wait before the bring-up times out.
pub open spec fn max_busy_polls() -> nat {
    (POLL_TIMEOUT_MS / POLL_INTERVAL_MS) as nat
}

/// The state after `n` rounds of the poll loop in which the status register
/// reports the coefficients as still being copied: each round is a status read
/// that returns `busy`, then the delay.
pub open spec fn busy_polls(s: SensorView, busy: Event, n: nat) -> SensorView
    decreases n,
{
    if n == 0 {
        s
    } else {
        step(step(busy_polls(s, busy, (n - 1) as nat), busy).0, Event::Elapsed).0
    }
}

/// Each of the first `max_busy_polls()` busy status reads asks for one poll
/// delay and nothing else changes; after `n` of them the poll loop has waited
/// `n` intervals.
pub proof fn lemma_busy_polls(s: SensorView, busy: Event, n: nat)
    requires
        s.phase == (Phase::Status { waited_ms: 0 }),
        carries(busy, 1),
        calibration_busy(busy->0@[0]),
        n <= max_busy_polls(),
    ensures
        busy_polls(s, busy, n) == (SensorView {
            phase: Phase::Status { waited_ms: (n * POLL_INTERVAL_MS) as u32 },
            ..s
        }),
        n < max_busy_polls() ==> step(busy_polls(s, busy, n), busy) == goto(
            busy_polls(s, busy, n),
            Phase::PollWait { waited_ms: (n * POLL_INTERVAL_MS) as u32 },
            Action::Delay { millis: POLL_INTERVAL_MS as u64 },
        ),
    decreases n,
{
    if n > 0 {
        lemma_busy_polls(s, busy, (n - 1) as nat);
    }
}

/// Once the status register reports the coefficients ready, after `k` busy
/// reads and so after exactly `k` poll delays, the bring-up goes on to read the
/// first block of coefficients.
pub proof fn lemma_ready_after_busy_polls(s: SensorView, busy: Event, clear: Event, k: nat)
    requires
        s.phase == (Phase::Status { waited_ms: 0 }),
        carries(busy, 1),
        calibration_busy(busy->0@[0]),
        carries(clear, 1),
        !calibration_busy(clear->0@[0]),
        k <= max_busy_polls(),
    ensures
        step(busy_polls(s, busy, k), clear) == goto(
            s,
            Phase::FirstBlock,
            Action::Read { register: BME280_REGISTER_DIG_FIRST_START, len: FIRST_BLOCK_LEN },
        ),
{
    lemma_busy_polls(s, busy, k);
}

/// A status register that never reports the coefficients ready ends the
/// bring-up with `Timeout` at the read that follows `max_busy_polls()` delays;
/// the sensor is then idle, without coefficients.
pub proof fn lemma_busy_status_times_out(s: SensorView, busy: Event)
    requires
        s.phase == (Phase::Status { waited_ms: 0 }),
        carries(busy, 1),
        calibration_busy(busy->0@[0]),
    ensures
        step(busy_polls(s, busy, max_busy_polls()), busy) == failed(s, BME280Error::Timeout),
        failed(s, BME280Error::Timeout).0.phase == Phase::Idle,
        failed(s, BME280Error::Timeout).0.calibration is None,
{
    lemma_busy_polls(s, busy, max_busy_polls());
}

/// The compensated measurement of a raw burst under given coefficients.
pub open spec fn measurement_of(c: CalibrationRegisters, burst: Seq<u8>) -> Measurement {
    let raw = raw_sample_of(burst);
    let t_fine = fine_temperature(c, raw.temperature as i32);
    Measurement {
        temperature: centi_celsius(t_fine),
        humidity: compensated_humidity(c, raw.humidity, t_fine),
        pressure: compensated_pressure(c, raw.pressure, t_fine),
    }
}

/// A sensor on the bus, with its bring-up state and, once it is up, its
/// coefficients.
pub struct BME280Sensor {
    address: u8,
    calibration_registers: Option<CalibrationRegisters>,
    phase: Phase,
    configuration: Configuration,
    first_block: Vec<u8>,
}

impl View for BME280Sensor {
    type V = SensorView;

    closed spec fn view(&self) -> SensorView {
        SensorView {
            address: self.address,
            calibration: self.calibration_registers,
            phase: self.phase,
            configuration: self.configuration,
            first_block: self.first_block@,
        }
    }
}

fn fail(s: &mut BME280Sensor, err: BME280Error) -> (a: Action)
    ensures
        (final(s)@, a) == failed(old(s)@, err),
        final(s)@.wf(),
{
    s.calibration_registers = None;
    s.phase = Phase::Idle;
    Action::Failed(err)
}

impl BME280Sensor {
    /// A sensor at the given bus address, not brought up.
    pub fn new(address: u8) -> (r: Self)
        ensures
            r@.address == address,
            r@.calibration is None,
            r@.phase == Phase::Idle,
            r@.wf(),
    {
        BME280Sensor {
            address,
            calibration_registers: None,
            phase: Phase::Idle,
            configuration: Configuration {
                standby_duration: crate::configuration::StandbyDuration::Millis0_5,
                filter: crate::configuration::Filter::Off,
                spi3w: false,
                temperature_oversampling: crate::configuration::Oversampling::Skip,
                pressure_oversampling: crate::configuration::Oversampling::Skip,
                humidity_oversampling: crate::configuration::Oversampling::Skip,
                sensor_mode: SensorMode::Sleep,
            },
            first_block: Vec::new(),
        }
    }

    /// The bus address of the sensor.
    pub fn address(&self) -> (r: u8)
        ensures
            r == self@.address,
    {
        self.address
    }

    /// Whether bring-up has completed.
    pub fn is_ready(&self) -> (r: bool)
        ensures
            r == (self@.phase is Ready),
    {
        match self.phase {
            Phase::Ready => true,
            _ => false,
        }
    }

    /// Starts a bring-up that will apply `configuration`, forgetting any
    /// earlier coefficients; the first action reads the identity register.
    pub fn begin_setup(&mut self, configuration: Configuration) -> (a: Action)
        ensures
            final(self)@ == (SensorView {
                phase: Phase::ChipId,
                calibration: None,
                configuration,
                ..old(self)@
            }),
            a == (Action::Read { register: BME280_REGISTER_CHIPID, len: 1 }),
            final(self)@.wf(),
    {
        self.calibration_registers = None;
        self.phase = Phase::ChipId;
        self.configuration = configuration;
        Action::Read { register: BME280_REGISTER_CHIPID, len: 1 }
    }

    /// Advances the bring-up by the outcome of the last action.
    pub fn advance(&mut self, event: Event) -> (a: Action)
        requires
            old(self)@.wf(),
        ensures
            (final(self)@, a) == step(old(self)@, event),
            final(self)@.wf(),
    {
        match self.phase {
            Phase::Idle | Phase::Ready => {
                return Action::Failed(BME280Error::InvalidData);
            },
            _ => {},
        }
        match event {
            Event::BusError => fail(self, BME280Error::I2CError),
            Event::Written => match self.phase {
                Phase::Reset => {
                    self.phase = Phase::ResetSettle;
                    Action::Delay { millis: RESET_SETTLE_MS }
                },
                Phase::WriteSleep => {
                    self.phase = Phase::WriteHumidity;
                    let (_, _, ctrl_hum) = self.configuration.to_low_level_configuration();
                    Action::Write { register: BME280_REGISTER_CONTROLHUMID, value: ctrl_hum.0 }
                },
                Phase::WriteHumidity => {
                    self.phase = Phase::WriteConfig;
                    let (config, _, _) = self.configuration.to_low_level_configuration();
                    Action::Write { register: BME280_REGISTER_CONFIG, value: config.0 }
                },
                Phase::WriteConfig => {
                    self.phase = Phase::WriteMeasurement;
                    let (_, ctrl_meas, _) = self.configuration.to_low_level_configuration();
                    Action::Write { register: BME280_REGISTER_CONTROL, value: ctrl_meas.0 }
                },
                Phase::WriteMeasurement => {
                    self.phase = Phase::FinalSettle;
                    Action::Delay { millis: CONFIGURE_SETTLE_MS }
                },
                _ => fail(self, BME280Error::InvalidData),
            },
            Event::Elapsed => match self.phase {
                Phase::ResetSettle => {
                    self.phase = Phase::Status { waited_ms: 0 };
                    Action::Read { register: BME280_REGISTER_STATUS, len: 1 }
                },
                Phase::PollWait { waited_ms } => {
                    assert(waited_ms + 10 <= 1000 && (waited_ms + 10) as int % 10 == 0)
                        by (nonlinear_arith)
                        requires
                            waited_ms < 1000,
                            waited_ms as int % 10 == 0,
                    ;
                    self.phase = Phase::Status { waited_ms: waited_ms + POLL_INTERVAL_MS };
                    Action::Read { register: BME280_REGISTER_STATUS, len: 1 }
                },
                Phase::FinalSettle => {
                    self.phase = Phase::Ready;
                    Action::Done
                },
                _ => fail(self, BME280Error::InvalidData),
            },
            Event::Data(d) => match self.phase {
                Phase::ChipId => {
                    if d.len() != 1 {
                        fail(self, BME280Error::InvalidData)
                    } else if d[0] == BME280_CHIP_ID {
                        self.phase = Phase::Reset;
                        Action::Write {
                            register: BME280_REGISTER_SOFTRESET,
                            value: BME280_SOFT_RESET_COMMAND,
                        }
                    } else {
                        fail(self, BME280Error::InvalidChipId(d[0]))
                    }
                },
                Phase::Status { waited_ms } => {
                    if d.len() != 1 {
                        fail(self, BME280Error::InvalidData)
                    } else if d[0] & BME280_STATUS_IM_UPDATE == 0 {
                        self.phase = Phase::FirstBlock;
                        Action::Read {
                            register: BME280_REGISTER_DIG_FIRST_START,
                            len: FIRST_BLOCK_LEN,
                        }
                    } else if waited_ms >= POLL_TIMEOUT_MS {
                        fail(self, BME280Error::Timeout)
                    } else {
                        self.phase = Phase::PollWait { waited_ms };
                        Action::Delay { millis: POLL_INTERVAL_MS as u64 }
                    }
                },
                Phase::FirstBlock => {
                    if d.len() != FIRST_BLOCK_LEN {
                        fail(self, BME280Error::InvalidData)
                    } else {
                        self.phase = Phase::SecondBlock;
                        self.first_block = d;
                        Action::Read {
                            register: BME280_REGISTER_DIG_SECOND_START,
                            len: SECOND_BLOCK_LEN,
                        }
                    }
                },
                Phase::SecondBlock => {
                    if d.len() != SECOND_BLOCK_LEN {
                        fail(self, BME280Error::InvalidData)
                    } else {
                        let c = CalibrationRegisters::from_blocks(
                            self.first_block.as_slice(),
                            d.as_slice(),
                        );
                        self.calibration_registers = Some(c);
                        self.phase = Phase::WriteSleep;
                        Action::Write {
                            register: BME280_REGISTER_CONTROL,
                            value: SensorMode::Sleep.to_value(),
                        }
                    }
                },
                _ => fail(self, BME280Error::InvalidData),
            },
        }
    }

    /// Compensates one measurement burst, once bring-up has completed.
    pub fn read(&self, burst: &[u8; 8]) -> (r: Result<Measurement, BME280Error>)
        ensures
            self@.phase is Ready && self@.calibration is Some ==> r == Ok::<
                Measurement,
                BME280Error,
            >(measurement_of(self@.calibration->0, burst@)),
            !(self@.phase is Ready && self@.calibration is Some) ==> r == Err::<
                Measurement,
                BME280Error,
            >(BME280Error::NotCalibrated),
    {
        match (self.phase, self.calibration_registers) {
            (Phase::Ready, Some(c)) => {
                let raw = RawSample::from_burst(burst);
                let t_fine = c.compensate_temperature(raw.temperature as i32);
                Ok(
                    Measurement {
                        temperature: (t_fine.wrapping_mul(5).wrapping_add(128)) >> 8u32,
                        humidity: c.compensate_humidity(raw.humidity, t_fine),
                        pressure: c.compensate_pressure(raw.pressure, t_fine),
                    },
                )
            },
            _ => Err(BME280Error::NotCalibrated),
        }
    }
}

} // verus!
