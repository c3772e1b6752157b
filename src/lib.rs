use vstd::prelude::*;

pub mod bme280_rp;
pub mod calibration;
pub mod configuration;

verus! {

/// Value the identity register of the device holds.
pub const BME280_CHIP_ID: u8 = 0x60;

/// Command that the soft-reset register takes.
pub const BME280_SOFT_RESET_COMMAND: u8 = 0x86;

pub const BME280_REGISTER_CHIPID: u8 = 0xD0;

pub const BME280_REGISTER_SOFTRESET: u8 = 0xE0;

pub const BME280_REGISTER_STATUS: u8 = 0xF3;

/// Bit of the status register set while the coefficients are being copied.
pub const BME280_STATUS_IM_UPDATE: u8 = 0b1000;

/// First register of the first block of coefficients.
pub const BME280_REGISTER_DIG_FIRST_START: u8 = 0x88;

/// First register of the second block of coefficients.
pub const BME280_REGISTER_DIG_SECOND_START: u8 = 0xE1;

pub const BME280_REGISTER_CONTROLHUMID: u8 = 0xF2;

pub const BME280_REGISTER_CONTROL: u8 = 0xF4;

pub const BME280_REGISTER_CONFIG: u8 = 0xF5;

/// First register of the measurement burst (pressure, temperature, humidity).
pub const BME280_REGISTER_DATA_START: u8 = 0xF7;

pub const BME280_REGISTER_DATA_LENGTH: usize = 8;

/// What can go wrong while talking to the sensor.
#[derive(Clone, Copy, Debug, PartialEq, Eq, Structural)]
pub enum BME280Error {
    NoData,
    ChecksumError,
    InvalidData,
    I2CError,
    InvalidChipId(u8),
    Timeout,
    NotCalibrated,
}

/// The three raw readings of one measurement burst.
#[derive(Clone, Copy, Debug, PartialEq, Eq, Structural)]
pub struct RawSample {
    /// 20-bit pressure reading
    pub pressure: u32,
    /// 20-bit temperature reading
    pub temperature: u32,
    /// 16-bit humidity reading
    pub humidity: u16,
}

/// The raw readings a burst holds: two 20-bit values, each from a most
/// significant byte, a middle byte and the high nibble of a third byte, then a
/// big-endian 16-bit value.
pub open spec fn raw_sample_of(b: Seq<u8>) -> RawSample {
    RawSample {
        pressure: (b[0] * 4096 + b[1] * 16 + b[2] / 16) as u32,
        temperature: (b[3] * 4096 + b[4] * 16 + b[5] / 16) as u32,
        humidity: (b[6] * 256 + b[7]) as u16,
    }
}

fn twenty_bits(msb: u8, lsb: u8, xlsb: u8) -> (r: u32)
    ensures
        r == msb * 4096 + lsb * 16 + xlsb / 16,
        r < 0x10_0000,
{
    let m = msb as u32;
    let l = lsb as u32;
    let x = xlsb as u32;
    assert(m < 256 && l < 256 && x < 256 ==> (m << 12u32) | (l << 4u32) | (x >> 4u32) == m * 4096
        + l * 16 + x / 16) by (bit_vector);
    assert(m < 256 && l < 256 && x < 256 ==> m * 4096 + l * 16 + x / 16 < 0x10_0000)
        by (bit_vector);
    (m << 12u32) | (l << 4u32) | (x >> 4u32)
}

impl RawSample {
    /// Splits a measurement burst into its three readings.
    pub fn from_burst(data: &[u8; 8]) -> (r: Self)
        ensures
            r == raw_sample_of(data@),
            r.pressure < 0x10_0000,
            r.temperature < 0x10_0000,
    {
        let m = data[6] as u16;
        let l = data[7] as u16;
        assert(m < 256 && l < 256 ==> (m << 8u16) | l == m * 256 + l) by (bit_vector);
        RawSample {
            pressure: twenty_bits(data[0], data[1], data[2]),
            temperature: twenty_bits(data[3], data[4], data[5]),
            humidity: (m << 8u16) | l,
        }
    }
}

/// One compensated measurement, in fixed point.
#[derive(Clone, Copy, Debug, PartialEq, Eq, Structural)]
pub struct Measurement {
    /// Temperature in hundredths of a degree Celsius
    pub temperature: i32,
    /// Relative humidity in 1/1024 %RH
    pub humidity: u32,
    /// Pressure in 1/256 Pa
    pub pressure: u32,
}

} // verus!
