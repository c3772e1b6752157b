use vstd::prelude::*;

verus! {

/// Idle time between two measurements in normal mode.
#[derive(Clone, Copy, Debug, PartialEq, Eq, Structural)]
pub enum StandbyDuration {
    Millis0_5,
    Millis10,
    Millis20,
    Millis62_5,
    Millis125,
    Millis250,
    Millis500,
    Millis1000,
}

impl StandbyDuration {
    /// Register code; the device's table is not in declaration order.
    pub open spec fn code(self) -> u8 {
        match self {
            StandbyDuration::Millis0_5 => 0b000,
            StandbyDuration::Millis10 => 0b110,
            StandbyDuration::Millis20 => 0b111,
            StandbyDuration::Millis62_5 => 0b001,
            StandbyDuration::Millis125 => 0b010,
            StandbyDuration::Millis250 => 0b011,
            StandbyDuration::Millis500 => 0b100,
            StandbyDuration::Millis1000 => 0b101,
        }
    }

    pub fn to_value(self) -> (r: u8)
        ensures
            r == self.code(),
            r < 8,
    {
        match self {
            StandbyDuration::Millis0_5 => 0b000,
            StandbyDuration::Millis10 => 0b110,
            StandbyDuration::Millis20 => 0b111,
            StandbyDuration::Millis62_5 => 0b001,
            StandbyDuration::Millis125 => 0b010,
            StandbyDuration::Millis250 => 0b011,
            StandbyDuration::Millis500 => 0b100,
            StandbyDuration::Millis1000 => 0b101,
        }
    }
}

impl Default for StandbyDuration {
    fn default() -> (r: Self)
        ensures
            r == StandbyDuration::Millis0_5,
    {
        StandbyDuration::Millis0_5
    }
}

/// Oversampling setting of one measured channel.
#[derive(Clone, Copy, Debug, PartialEq, Eq, Structural)]
pub enum Oversampling {
    /// Skip the measurement altogether
    Skip,
    /// Take a single sample
    Oversample1,
    /// Take two samples
    Oversample2,
    /// Take four samples
    Oversample4,
    /// Take eight samples
    Oversample8,
    /// Take sixteen samples
    Oversample16,
}

impl Oversampling {
    /// Register code: the position in the list, from skip (0) to sixteen (5).
    pub open spec fn code(self) -> u8 {
        match self {
            Oversampling::Skip => 0b000,
            Oversampling::Oversample1 => 0b001,
            Oversampling::Oversample2 => 0b010,
            Oversampling::Oversample4 => 0b011,
            Oversampling::Oversample8 => 0b100,
            Oversampling::Oversample16 => 0b101,
        }
    }

    pub fn to_value(self) -> (r: u8)
        ensures
            r == self.code(),
            r < 8,
    {
        match self {
            Oversampling::Skip => 0b000,
            Oversampling::Oversample1 => 0b001,
            Oversampling::Oversample2 => 0b010,
            Oversampling::Oversample4 => 0b011,
            Oversampling::Oversample8 => 0b100,
            Oversampling::Oversample16 => 0b101,
        }
    }
}

impl Default for Oversampling {
    fn default() -> (r: Self)
        ensures
            r == Oversampling::Skip,
    {
        Oversampling::Skip
    }
}

/// Power mode of the sensor.
#[derive(Clone, Copy, Debug, PartialEq, Eq, Structural)]
pub enum SensorMode {
    Sleep,
    Forced,
    Normal,
}

impl SensorMode {
    pub open spec fn code(self) -> u8 {
        match self {
            SensorMode::Sleep => 0b00,
            SensorMode::Forced => 0b01,
            SensorMode::Normal => 0b11,
        }
    }

    pub fn to_value(self) -> (r: u8)
        ensures
            r == self.code(),
            r < 4,
    {
        match self {
            SensorMode::Sleep => 0b00,
            SensorMode::Forced => 0b01,
            SensorMode::Normal => 0b11,
        }
    }
}

impl Default for SensorMode {
    fn default() -> (r: Self)
        ensures
            r == SensorMode::Sleep,
    {
        SensorMode::Sleep
    }
}

/// Coefficient of the infinite impulse response filter.
#[derive(Clone, Copy, Debug, PartialEq, Eq, Structural)]
pub enum Filter {
    Off,
    FilterX2,
    FilterX4,
    FilterX8,
    FilterX16,
}

impl Filter {
    pub open spec fn code(self) -> u8 {
        match self {
            Filter::Off => 0b000,
            Filter::FilterX2 => 0b001,
            Filter::FilterX4 => 0b010,
            Filter::FilterX8 => 0b011,
            Filter::FilterX16 => 0b100,
        }
    }

    pub fn to_value(self) -> (r: u8)
        ensures
            r == self.code(),
            r < 8,
    {
        match self {
            Filter::Off => 0b000,
            Filter::FilterX2 => 0b001,
            Filter::FilterX4 => 0b010,
            Filter::FilterX8 => 0b011,
            Filter::FilterX16 => 0b100,
        }
    }
}

impl Default for Filter {
    fn default() -> (r: Self)
        ensures
            r == Filter::Off,
    {
        Filter::Off
    }
}

/// The `config` register: standby code in bits 7..5, filter code in bits 4..2,
/// the 3-wire SPI flag in bit 0.
pub open spec fn config_bits(standby: u8, filter: u8, spi3w: bool) -> u8 {
    ((standby & 0b111) << 5u8) | ((filter & 0b111) << 2u8) | (if spi3w {
        1u8
    } else {
        0u8
    })
}

/// The `ctrl_meas` register: temperature oversampling in bits 7..5, pressure
/// oversampling in bits 4..2, mode in bits 1..0.
pub open spec fn ctrl_meas_bits(temperature: u8, pressure: u8, mode: u8) -> u8 {
    ((temperature & 0b111) << 5u8) | ((pressure & 0b111) << 2u8) | (mode & 0b11)
}

/// The `ctrl_hum` register: humidity oversampling in bits 2..0.
pub open spec fn ctrl_hum_bits(humidity: u8) -> u8 {
    humidity & 0b111
}

/// Value of the `config` register.
#[derive(Clone, Copy, Debug, PartialEq, Eq, Structural)]
pub struct Config(pub u8);

impl Config {
    pub fn new(standby_duration: StandbyDuration, filter: Filter, spi3w: bool) -> (r: Self)
        ensures
            r.0 == config_bits(standby_duration.code(), filter.code(), spi3w),
    {
        let standby_duration = standby_duration.to_value() & 0b111;
        let filter = filter.to_value() & 0b111;
        let spi3w: u8 = if spi3w {
            1
        } else {
            0
        };
        Config((standby_duration << 5u8) | (filter << 2u8) | spi3w)
    }
}

/// Value of the `ctrl_hum` register.
#[derive(Clone, Copy, Debug, PartialEq, Eq, Structural)]
pub struct ControlHumidity(pub u8);

impl ControlHumidity {
    pub fn new(humidity_oversampling: Oversampling) -> (r: Self)
        ensures
            r.0 == ctrl_hum_bits(humidity_oversampling.code()),
    {
        ControlHumidity(humidity_oversampling.to_value() & 0b111)
    }
}

/// Value of the `ctrl_meas` register.
#[derive(Clone, Copy, Debug, PartialEq, Eq, Structural)]
pub struct ControlMeasurement(pub u8);

impl ControlMeasurement {
    pub fn new(
        temperature_oversampling: Oversampling,
        pressure_oversampling: Oversampling,
        sensor_mode: SensorMode,
    ) -> (r: Self)
        ensures
            r.0 == ctrl_meas_bits(
                temperature_oversampling.code(),
                pressure_oversampling.code(),
                sensor_mode.code(),
            ),
    {
        let temperature = temperature_oversampling.to_value() & 0b111;
        let pressure = pressure_oversampling.to_value() & 0b111;
        let mode = sensor_mode.to_value() & 0b11;
        ControlMeasurement((temperature << 5u8) | (pressure << 2u8) | mode)
    }
}

/// Sampling configuration of the sensor.
#[derive(Clone, Copy, Debug, PartialEq, Eq, Structural)]
pub struct Configuration {
    pub standby_duration: StandbyDuration,
    pub filter: Filter,
    pub spi3w: bool,
    pub temperature_oversampling: Oversampling,
    pub pressure_oversampling: Oversampling,
    pub humidity_oversampling: Oversampling,
    pub sensor_mode: SensorMode,
}

impl Default for Configuration {
    /// Every channel skipped, filter off, sleep mode.
    fn default() -> (r: Self)
        ensures
            r == (Configuration {
                standby_duration: StandbyDuration::Millis0_5,
                filter: Filter::Off,
                spi3w: false,
                temperature_oversampling: Oversampling::Skip,
                pressure_oversampling: Oversampling::Skip,
                humidity_oversampling: Oversampling::Skip,
                sensor_mode: SensorMode::Sleep,
            }),
    {
        Configuration {
            standby_duration: StandbyDuration::Millis0_5,
            filter: Filter::Off,
            spi3w: false,
            temperature_oversampling: Oversampling::Skip,
            pressure_oversampling: Oversampling::Skip,
            humidity_oversampling: Oversampling::Skip,
            sensor_mode: SensorMode::Sleep,
        }
    }
}

/// The three register values a configuration stands for, in the order
/// `config`, `ctrl_meas`, `ctrl_hum`.
pub open spec fn register_bytes(c: Configuration) -> (u8, u8, u8) {
    (
        config_bits(c.standby_duration.code(), c.filter.code(), c.spi3w),
        ctrl_meas_bits(
            c.temperature_oversampling.code(),
            c.pressure_oversampling.code(),
            c.sensor_mode.code(),
        ),
        ctrl_hum_bits(c.humidity_oversampling.code()),
    )
}

/// Each register byte holds its fields and nothing else: every field can be
/// read back from its bits, the unused bit 1 of `config` and the bits above
/// bit 2 of `ctrl_hum` are clear.
pub proof fn lemma_register_fields(c: Configuration)
    ensures
        register_bytes(c).0 >> 5u8 == c.standby_duration.code(),
        (register_bytes(c).0 >> 2u8) & 0b111 == c.filter.code(),
        register_bytes(c).0 & 0b10 == 0,
        (register_bytes(c).0 & 1 == 1) == c.spi3w,
        register_bytes(c).1 >> 5u8 == c.temperature_oversampling.code(),
        (register_bytes(c).1 >> 2u8) & 0b111 == c.pressure_oversampling.code(),
        register_bytes(c).1 & 0b11 == c.sensor_mode.code(),
        register_bytes(c).2 >> 3u8 == 0,
        register_bytes(c).2 == c.humidity_oversampling.code(),
{
    let s = c.standby_duration.code();
    let f = c.filter.code();
    let t = c.temperature_oversampling.code();
    let p = c.pressure_oversampling.code();
    let m = c.sensor_mode.code();
    let h = c.humidity_oversampling.code();
    let w: u8 = if c.spi3w {
        1
    } else {
        0
    };
    assert(s < 8 && f < 8 && w < 2 ==> {
        let b = ((s & 0b111) << 5u8) | ((f & 0b111) << 2u8) | w;
        b >> 5u8 == s && (b >> 2u8) & 0b111 == f && b & 0b10 == 0 && b & 1 == w
    }) by (bit_vector);
    assert(t < 8 && p < 8 && m < 4 ==> {
        let b = ((t & 0b111) << 5u8) | ((p & 0b111) << 2u8) | (m & 0b11);
        b >> 5u8 == t && (b >> 2u8) & 0b111 == p && b & 0b11 == m
    }) by (bit_vector);
    assert(h < 8 ==> (h & 0b111) >> 3u8 == 0 && h & 0b111 == h) by (bit_vector);
}

impl Configuration {
    /// The register values of this configuration.
    pub fn to_low_level_configuration(&self) -> (r: (Config, ControlMeasurement, ControlHumidity))
        ensures
            (r.0.0, r.1.0, r.2.0) == register_bytes(*self),
    {
        (
            Config::new(self.standby_duration, self.filter, self.spi3w),
            ControlMeasurement::new(
                self.temperature_oversampling,
                self.pressure_oversampling,
                self.sensor_mode,
            ),
            ControlHumidity::new(self.humidity_oversampling),
        )
    }

    /// Set the standby time
    pub fn with_standby_time(self, standby_duration: StandbyDuration) -> (r: Self)
        ensures
            r == (Configuration { standby_duration, ..self }),
    {
        Configuration { standby_duration, ..self }
    }

    /// Set the filter
    pub fn with_filter(self, filter: Filter) -> (r: Self)
        ensures
            r == (Configuration { filter, ..self }),
    {
        Configuration { filter, ..self }
    }

    /// Set the SPI3w option
    pub fn with_spi3w(self, spi3w: bool) -> (r: Self)
        ensures
            r == (Configuration { spi3w, ..self }),
    {
        Configuration { spi3w, ..self }
    }

    /// Set the oversampling factor for temperature
    pub fn with_temperature_oversampling(self, temperature_oversampling: Oversampling) -> (r: Self)
        ensures
            r == (Configuration { temperature_oversampling, ..self }),
    {
        Configuration { temperature_oversampling, ..self }
    }

    /// Set the oversampling factor for pressure
    pub fn with_pressure_oversampling(self, pressure_oversampling: Oversampling) -> (r: Self)
        ensures
            r == (Configuration { pressure_oversampling, ..self }),
    {
        Configuration { pressure_oversampling, ..self }
    }

    /// Set the oversampling factor for humidity
    pub fn with_humidity_oversampling(self, humidity_oversampling: Oversampling) -> (r: Self)
        ensures
            r == (Configuration { humidity_oversampling, ..self }),
    {
        Configuration { humidity_oversampling, ..self }
    }

    /// Set the sensor mode
    pub fn with_sensor_mode(self, sensor_mode: SensorMode) -> (r: Self)
        ensures
            r == (Configuration { sensor_mode, ..self }),
    {
        Configuration { sensor_mode, ..self }
    }

    /// Set the standby time (same as `with_standby_time`)
    pub fn with_standby_duration(self, standby_duration: StandbyDuration) -> (r: Self)
        ensures
            r == (Configuration { standby_duration, ..self }),
    {
        Configuration { standby_duration, ..self }
    }

    /// Check if chip is in forced mode
    pub fn is_forced(&self) -> (r: bool)
        ensures
            r == (self.sensor_mode == SensorMode::Forced),
    {
        self.sensor_mode == SensorMode::Forced
    }
}

} // verus!
