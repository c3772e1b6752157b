use vstd::prelude::*;

verus! {

/// The per-device trimming coefficients, as programmed by the manufacturer.
#[derive(Clone, Copy, Debug, PartialEq, Eq, Structural)]
pub struct CalibrationRegisters {
    pub dig_t1: u16,
    pub dig_t2: i16,
    pub dig_t3: i16,
    pub dig_p1: u16,
    pub dig_p2: i16,
    pub dig_p3: i16,
    pub dig_p4: i16,
    pub dig_p5: i16,
    pub dig_p6: i16,
    pub dig_p7: i16,
    pub dig_p8: i16,
    pub dig_p9: i16,
    pub dig_h1: u8,
    pub dig_h2: i16,
    pub dig_h3: u8,
    pub dig_h4: i16,
    pub dig_h5: i16,
    pub dig_h6: i8,
}

/// Length of the first block of coefficient registers (0x88 to 0xA1).
pub const FIRST_BLOCK_LEN: usize = 26;

/// Length of the second block of coefficient registers (0xE1 to 0xE7).
pub const SECOND_BLOCK_LEN: usize = 7;

/// The unsigned little-endian 16-bit value of two bytes.
pub open spec fn le_u16(lo: u8, hi: u8) -> int {
    lo + 256 * hi
}

/// A 16-bit pattern read as two's complement.
pub open spec fn signed16(x: int) -> int {
    if x >= 0x8000 {
        x - 0x1_0000
    } else {
        x
    }
}

/// An 8-bit pattern read as two's complement.
pub open spec fn signed8(x: int) -> int {
    if x >= 0x80 {
        x - 0x100
    } else {
        x
    }
}

/// The coefficient record that two register blocks encode. Offsets are
/// relative to the start of each block. `dig_h4` and `dig_h5` are the 12-bit
/// patterns packed into bytes 3 to 5 of the second block, kept without sign
/// extension.
pub open spec fn decoded(first: Seq<u8>, second: Seq<u8>) -> CalibrationRegisters {
    CalibrationRegisters {
        dig_t1: le_u16(first[0], first[1]) as u16,
        dig_t2: signed16(le_u16(first[2], first[3])) as i16,
        dig_t3: signed16(le_u16(first[4], first[5])) as i16,
        dig_p1: le_u16(first[6], first[7]) as u16,
        dig_p2: signed16(le_u16(first[8], first[9])) as i16,
        dig_p3: signed16(le_u16(first[10], first[11])) as i16,
        dig_p4: signed16(le_u16(first[12], first[13])) as i16,
        dig_p5: signed16(le_u16(first[14], first[15])) as i16,
        dig_p6: signed16(le_u16(first[16], first[17])) as i16,
        dig_p7: signed16(le_u16(first[18], first[19])) as i16,
        dig_p8: signed16(le_u16(first[20], first[21])) as i16,
        dig_p9: signed16(le_u16(first[22], first[23])) as i16,
        dig_h1: first[25],
        dig_h2: signed16(le_u16(second[0], second[1])) as i16,
        dig_h3: second[2],
        dig_h4: (16 * second[3] + second[4] % 16) as i16,
        dig_h5: (second[4] / 16 + 16 * second[5]) as i16,
        dig_h6: signed8(second[6] as int) as i8,
    }
}

/// Decoding is deterministic: equal register blocks give equal coefficient
/// records.
pub proof fn lemma_decode_deterministic(f1: Seq<u8>, s1: Seq<u8>, f2: Seq<u8>, s2: Seq<u8>)
    requires
        f1 == f2,
        s1 == s2,
    ensures
        decoded(f1, s1) == decoded(f2, s2),
{
}

/// The two packed humidity fields are 12-bit patterns that together keep every
/// bit of the three bytes they share, so those bytes can be read back from
/// them; all-zero bytes give zero fields, all-ones bytes give 0xFFF in both.
pub proof fn lemma_packed_fields_round_trip(first: Seq<u8>, second: Seq<u8>)
    requires
        first.len() == FIRST_BLOCK_LEN,
        second.len() == SECOND_BLOCK_LEN,
    ensures
        0 <= decoded(first, second).dig_h4 < 4096,
        0 <= decoded(first, second).dig_h5 < 4096,
        second[3] == decoded(first, second).dig_h4 / 16,
        second[4] == 16 * (decoded(first, second).dig_h5 % 16) + decoded(first, second).dig_h4
            % 16,
        second[5] == decoded(first, second).dig_h5 / 16,
        second[3] == 0 && second[4] == 0 && second[5] == 0 ==> decoded(first, second).dig_h4 == 0
            && decoded(first, second).dig_h5 == 0,
        second[3] == 0xFF && second[4] == 0xFF && second[5] == 0xFF ==> decoded(
            first,
            second,
        ).dig_h4 == 0xFFF && decoded(first, second).dig_h5 == 0xFFF,
{
    let a = second[3] as int;
    let b = second[4] as int;
    let c = second[5] as int;
    assert(0 <= 16 * a + b % 16 < 4096) by (nonlinear_arith)
        requires 0 <= a < 256, 0 <= b < 256;
    assert(0 <= b / 16 + 16 * c < 4096) by (nonlinear_arith)
        requires 0 <= b < 256, 0 <= c < 256;
    assert((16 * a + b % 16) / 16 == a && (16 * a + b % 16) % 16 == b % 16) by (nonlinear_arith)
        requires 0 <= a < 256, 0 <= b < 256;
    assert((b / 16 + 16 * c) / 16 == c && (b / 16 + 16 * c) % 16 == b / 16) by (nonlinear_arith)
        requires 0 <= b < 256, 0 <= c < 256;
    assert(b == 16 * (b / 16) + b % 16) by (nonlinear_arith);
}

fn u16_le(lo: u8, hi: u8) -> (r: u16)
    ensures
        r == le_u16(lo, hi),
{
    let l = lo as u16;
    let h = hi as u16;
    assert(l < 256 && h < 256 ==> l | (h << 8u16) == l + h * 256) by (bit_vector);
    l | (h << 8u16)
}

fn i16_le(lo: u8, hi: u8) -> (r: i16)
    ensures
        r == signed16(le_u16(lo, hi)),
{
    let u = u16_le(lo, hi);
    assert(u >= 0x8000 ==> (u as i16) == u - 0x1_0000) by (bit_vector);
    assert(u < 0x8000 ==> (u as i16) == u) by (bit_vector);
    u as i16
}

/// Offset of the fine temperature used by the humidity formula.
pub const HUMIDITY_T_FINE_OFFSET: i32 = 76_800;

/// Upper clamp bound of the humidity accumulator, before the final scale-down.
pub const HUMIDITY_ACCUMULATOR_MAX: i32 = 419_430_400;

/// Largest compensated humidity: 100 %RH in units of 1/1024 %RH.
pub const HUMIDITY_MAX: u32 = 102_400;

/// Offset of the fine temperature used by the pressure formula.
pub const PRESSURE_T_FINE_OFFSET: i64 = 128_000;

/// Fine temperature: the two-term polynomial in the raw temperature, with all
/// 32-bit intermediates in two's complement and arithmetic right shifts.
pub open spec fn fine_temperature(c: CalibrationRegisters, adc_t: i32) -> i32 {
    let t1 = c.dig_t1 as i32;
    let t2 = c.dig_t2 as i32;
    let t3 = c.dig_t3 as i32;
    let d1 = ((adc_t >> 3u32) - 2 * t1) as i32;
    let var1 = d1.wrapping_mul(t2) >> 11u32;
    let d2 = ((adc_t >> 4u32) - t1) as i32;
    let var2 = ((d2.wrapping_mul(d2) >> 12u32).wrapping_mul(t3)) >> 14u32;
    var1.wrapping_add(var2)
}

/// Temperature in hundredths of a degree Celsius, from the fine temperature.
pub open spec fn centi_celsius(t_fine: i32) -> i32 {
    (t_fine.wrapping_mul(5).wrapping_add(128)) >> 8u32
}

/// Humidity accumulator before clamping.
pub open spec fn humidity_accumulator(c: CalibrationRegisters, adc_h: u16, t_fine: i32) -> i32 {
    let h = adc_h as i32;
    let x = t_fine.wrapping_sub(HUMIDITY_T_FINE_OFFSET);
    let lead = ((h << 14u32).wrapping_sub((c.dig_h4 as i32).wrapping_shl(20)).wrapping_sub(
        (c.dig_h5 as i32).wrapping_mul(x),
    ).wrapping_add(16_384)) >> 15u32;
    let inner = ((x.wrapping_mul(c.dig_h6 as i32) >> 10u32).wrapping_mul(
        (x.wrapping_mul(c.dig_h3 as i32) >> 11u32).wrapping_add(32_768),
    )) >> 10u32;
    let scale = (inner.wrapping_add(2_097_152).wrapping_mul(c.dig_h2 as i32).wrapping_add(8192))
        >> 14u32;
    let v = lead.wrapping_mul(scale);
    let sq = ((v >> 15u32).wrapping_mul(v >> 15u32)) >> 7u32;
    v.wrapping_sub(sq.wrapping_mul(c.dig_h1 as i32) >> 4u32)
}

/// `v` clamped to `[0, HUMIDITY_ACCUMULATOR_MAX]`.
pub open spec fn clamp_humidity(v: i32) -> i32 {
    if v < 0 {
        0
    } else if v > HUMIDITY_ACCUMULATOR_MAX {
        HUMIDITY_ACCUMULATOR_MAX
    } else {
        v
    }
}

/// Relative humidity in units of 1/1024 %RH.
pub open spec fn compensated_humidity(c: CalibrationRegisters, adc_h: u16, t_fine: i32) -> u32 {
    (clamp_humidity(humidity_accumulator(c, adc_h, t_fine)) >> 12u32) as u32
}

/// The second-order term of the pressure formula (`var2` before the division).
pub open spec fn pressure_offset_term(c: CalibrationRegisters, t_fine: i32) -> i64 {
    let v1 = (t_fine as i64 - PRESSURE_T_FINE_OFFSET) as i64;
    let a = v1.wrapping_mul(v1).wrapping_mul(c.dig_p6 as i64);
    let b = a.wrapping_add(v1.wrapping_mul(c.dig_p5 as i64).wrapping_shl(17));
    b.wrapping_add((c.dig_p4 as i64).wrapping_shl(35))
}

/// The denominator of the pressure formula (`var1` before the division).
pub open spec fn pressure_denominator(c: CalibrationRegisters, t_fine: i32) -> i64 {
    let v1 = (t_fine as i64 - PRESSURE_T_FINE_OFFSET) as i64;
    let a = (v1.wrapping_mul(v1).wrapping_mul(c.dig_p3 as i64) >> 8u32).wrapping_add(
        v1.wrapping_mul(c.dig_p2 as i64).wrapping_shl(12),
    );
    ((0x8000_0000_0000i64).wrapping_add(a).wrapping_mul(c.dig_p1 as i64)) >> 33u32
}

/// Quotient of `n` by a non-zero `d`, rounded toward zero; the one quotient that
/// does not fit (`i64::MIN / -1`) wraps to `i64::MIN`.
pub open spec fn quotient(n: i64, d: i64) -> i64 {
    match n.checked_div(d) {
        Some(q) => q,
        None => i64::MIN,
    }
}

/// Pressure in units of 1/256 Pa; zero when the denominator is zero.
pub open spec fn compensated_pressure(c: CalibrationRegisters, adc_p: u32, t_fine: i32) -> u32 {
    let den = pressure_denominator(c, t_fine);
    if den == 0 {
        0
    } else {
        let base = (1_048_576 - adc_p as i64) as i64;
        let num = base.wrapping_shl(31).wrapping_sub(pressure_offset_term(c, t_fine)).wrapping_mul(
            3125,
        );
        let p = quotient(num, den);
        let v1 = ((c.dig_p9 as i64).wrapping_mul(p >> 13u32).wrapping_mul(p >> 13u32)) >> 25u32;
        let v2 = (c.dig_p8 as i64).wrapping_mul(p) >> 19u32;
        let v5 = (p.wrapping_add(v1).wrapping_add(v2) >> 8u32).wrapping_add(
            (c.dig_p7 as i64) << 4u32,
        );
        v5 as u32
    }
}

impl CalibrationRegisters {
    /// Decodes the coefficients from the two register blocks, each indexed
    /// from its own start.
    pub fn from_blocks(first: &[u8], second: &[u8]) -> (r: Self)
        requires
            first@.len() == FIRST_BLOCK_LEN,
            second@.len() == SECOND_BLOCK_LEN,
        ensures
            r == decoded(first@, second@),
    {
        let a = second[3] as i16;
        let b = second[4] as i16;
        let c = second[5] as i16;
        assert(0 <= a < 256 && 0 <= b < 256 ==> (a << 4u16) | (b & 0xf) == 16 * a + b % 16)
            by (bit_vector);
        assert(0 <= b < 256 && 0 <= c < 256 ==> ((b & 0xf0) >> 4u16) | (c << 4u16) == b / 16 + 16
            * c) by (bit_vector);
        let h6 = second[6];
        assert(h6 >= 0x80 ==> (h6 as i8) == h6 - 0x100) by (bit_vector);
        assert(h6 < 0x80 ==> (h6 as i8) == h6) by (bit_vector);
        CalibrationRegisters {
            dig_t1: u16_le(first[0], first[1]),
            dig_t2: i16_le(first[2], first[3]),
            dig_t3: i16_le(first[4], first[5]),
            dig_p1: u16_le(first[6], first[7]),
            dig_p2: i16_le(first[8], first[9]),
            dig_p3: i16_le(first[10], first[11]),
            dig_p4: i16_le(first[12], first[13]),
            dig_p5: i16_le(first[14], first[15]),
            dig_p6: i16_le(first[16], first[17]),
            dig_p7: i16_le(first[18], first[19]),
            dig_p8: i16_le(first[20], first[21]),
            dig_p9: i16_le(first[22], first[23]),
            dig_h1: first[25],
            dig_h2: i16_le(second[0], second[1]),
            dig_h3: second[2],
            dig_h4: (a << 4u16) | (b & 0xf),
            dig_h5: ((b & 0xf0) >> 4u16) | (c << 4u16),
            dig_h6: h6 as i8,
        }
    }

    /// Fine temperature from a raw temperature reading.
    pub fn compensate_temperature(&self, adc_t: i32) -> (r: i32)
        ensures
            r == fine_temperature(*self, adc_t),
    {
        let t1 = self.dig_t1 as i32;
        let t2 = self.dig_t2 as i32;
        let t3 = self.dig_t3 as i32;
        assert(-0x1000_0000 <= adc_t >> 3u32 < 0x1000_0000) by (bit_vector);
        assert(-0x0800_0000 <= adc_t >> 4u32 < 0x0800_0000) by (bit_vector);
        let d1: i32 = (adc_t >> 3u32) - 2 * t1;
        let var1: i32 = d1.wrapping_mul(t2) >> 11u32;
        let d2: i32 = (adc_t >> 4u32) - t1;
        let var2: i32 = ((d2.wrapping_mul(d2) >> 12u32).wrapping_mul(t3)) >> 14u32;
        var1.wrapping_add(var2)
    }

    /// Relative humidity, in units of 1/1024 %RH, from a raw humidity reading
    /// and the fine temperature; always within 0 to 100 %RH.
    pub fn compensate_humidity(&self, adc_h: u16, t_fine: i32) -> (r: u32)
        ensures
            r == compensated_humidity(*self, adc_h, t_fine),
            r <= HUMIDITY_MAX,
    {
        let h = adc_h as i32;
        let x: i32 = t_fine.wrapping_sub(HUMIDITY_T_FINE_OFFSET);
        let lead: i32 = ((h << 14u32).wrapping_sub((self.dig_h4 as i32).wrapping_shl(20)).wrapping_sub(
            (self.dig_h5 as i32).wrapping_mul(x),
        ).wrapping_add(16_384)) >> 15u32;
        let inner: i32 = ((x.wrapping_mul(self.dig_h6 as i32) >> 10u32).wrapping_mul(
            (x.wrapping_mul(self.dig_h3 as i32) >> 11u32).wrapping_add(32_768),
        )) >> 10u32;
        let scale: i32 = (inner.wrapping_add(2_097_152).wrapping_mul(self.dig_h2 as i32).wrapping_add(
            8192,
        )) >> 14u32;
        let v: i32 = lead.wrapping_mul(scale);
        let sq: i32 = ((v >> 15u32).wrapping_mul(v >> 15u32)) >> 7u32;
        let v: i32 = v.wrapping_sub(sq.wrapping_mul(self.dig_h1 as i32) >> 4u32);
        let v: i32 = if v < 0 {
            0
        } else if v > HUMIDITY_ACCUMULATOR_MAX {
            HUMIDITY_ACCUMULATOR_MAX
        } else {
            v
        };
        assert(0 <= v <= 419_430_400 ==> 0 <= v >> 12u32 <= 102_400) by (bit_vector);
        (v >> 12u32) as u32
    }

    /// Pressure, in units of 1/256 Pa, from a raw pressure reading and the fine
    /// temperature; zero, with no division, when the denominator is zero.
    pub fn compensate_pressure(&self, adc_p: u32, t_fine: i32) -> (r: u32)
        ensures
            r == compensated_pressure(*self, adc_p, t_fine),
            pressure_denominator(*self, t_fine) == 0 ==> r == 0,
    {
        let v1: i64 = t_fine as i64 - PRESSURE_T_FINE_OFFSET;
        let var2: i64 = v1.wrapping_mul(v1).wrapping_mul(self.dig_p6 as i64);
        let var2: i64 = var2.wrapping_add(v1.wrapping_mul(self.dig_p5 as i64).wrapping_shl(17));
        let var2: i64 = var2.wrapping_add((self.dig_p4 as i64).wrapping_shl(35));
        let a: i64 = (v1.wrapping_mul(v1).wrapping_mul(self.dig_p3 as i64) >> 8u32).wrapping_add(
            v1.wrapping_mul(self.dig_p2 as i64).wrapping_shl(12),
        );
        let den: i64 = ((0x8000_0000_0000i64).wrapping_add(a).wrapping_mul(self.dig_p1 as i64))
            >> 33u32;
        assert(var2 == pressure_offset_term(*self, t_fine));
        assert(den == pressure_denominator(*self, t_fine));
        if den == 0 {
            0
        } else {
            let base: i64 = 1_048_576 - adc_p as i64;
            let num: i64 = base.wrapping_shl(31).wrapping_sub(var2).wrapping_mul(3125);
            let p: i64 = match num.checked_div(den) {
                Some(q) => q,
                None => i64::MIN,
            };
            let var1: i64 = ((self.dig_p9 as i64).wrapping_mul(p >> 13u32).wrapping_mul(p >> 13u32))
                >> 25u32;
            let var2: i64 = (self.dig_p8 as i64).wrapping_mul(p) >> 19u32;
            let p7 = self.dig_p7 as i64;
            assert(-0x8_0000 <= p7 << 4u32 < 0x8_0000) by (bit_vector)
                requires -0x8000 <= p7 < 0x8000;
            let var5: i64 = (p.wrapping_add(var1).wrapping_add(var2) >> 8u32).wrapping_add(p7 << 4u32);
            var5 as u32
        }
    }
}

} // verus!
