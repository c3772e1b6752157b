use embassy_bme280_sensor::calibration::{CalibrationRegisters, HUMIDITY_MAX};

fn datasheet_coefficients() -> CalibrationRegisters {
    CalibrationRegisters {
        dig_t1: 27504,
        dig_t2: 26435,
        dig_t3: -1000,
        dig_p1: 36477,
        dig_p2: -10685,
        dig_p3: 3024,
        dig_p4: 2855,
        dig_p5: 140,
        dig_p6: -7,
        dig_p7: 15500,
        dig_p8: -14600,
        dig_p9: 6000,
        dig_h1: 75,
        dig_h2: 362,
        dig_h3: 0,
        dig_h4: 313,
        dig_h5: 50,
        dig_h6: 30,
    }
}

fn second_coefficients() -> CalibrationRegisters {
    CalibrationRegisters {
        dig_t1: 28485,
        dig_t2: 26735,
        dig_t3: 50,
        dig_p1: 37614,
        dig_p2: -10570,
        dig_p3: 3024,
        dig_p4: 7004,
        dig_p5: -66,
        dig_p6: -7,
        dig_p7: 9900,
        dig_p8: -10230,
        dig_p9: 4285,
        dig_h1: 75,
        dig_h2: 370,
        dig_h3: 0,
        dig_h4: 305,
        dig_h5: 50,
        dig_h6: 30,
    }
}

#[test]
fn temperature_matches_datasheet_vector() {
    let c = datasheet_coefficients();
    assert_eq!(c.compensate_temperature(519888), 128422);
}

#[test]
fn pressure_matches_reference_vector() {
    let c = datasheet_coefficients();
    assert_eq!(c.compensate_pressure(415148, 128422), 25767233);
}

#[test]
fn humidity_matches_reference_vector() {
    let c = datasheet_coefficients();
    assert_eq!(c.compensate_humidity(30000, 128422), 56317);
}

#[test]
fn second_coefficient_set_vectors() {
    let c = second_coefficients();
    let t_fine = c.compensate_temperature(532000);
    assert_eq!(t_fine, 124422);
    assert_eq!(c.compensate_pressure(330000, t_fine), 25749495);
    assert_eq!(c.compensate_humidity(28000, t_fine), 48868);
}

#[test]
fn negative_fine_temperature_vectors() {
    let c = second_coefficients();
    let t_fine = c.compensate_temperature(400000);
    assert_eq!(t_fine, -90979);
    assert_eq!(c.compensate_pressure(330000, t_fine), 24022438);
    assert_eq!(c.compensate_humidity(60000, t_fine), 102400);
    let t_fine = c.compensate_temperature(0);
    assert_eq!(t_fine, -743094);
    assert_eq!(c.compensate_pressure(0, t_fine), 29892321);
    assert_eq!(c.compensate_humidity(0, t_fine), 0);
}

#[test]
fn humidity_is_clamped_at_both_ends() {
    let c = datasheet_coefficients();
    assert_eq!(c.compensate_humidity(0, 128422), 0);
    assert_eq!(c.compensate_humidity(65535, 128422), HUMIDITY_MAX);
}

#[test]
fn humidity_stays_in_range_for_extreme_inputs() {
    let mut c = datasheet_coefficients();
    let extremes_i16 = [i16::MIN, -1, 0, 1, i16::MAX];
    let t_fines = [i32::MIN, -1_000_000, 0, 76_800, 1_000_000, i32::MAX];
    let raws = [0u16, 1, 30000, 65535];
    for h2 in extremes_i16 {
        for h4 in extremes_i16 {
            for h6 in [i8::MIN, 0, i8::MAX] {
                c.dig_h2 = h2;
                c.dig_h4 = h4;
                c.dig_h5 = h4;
                c.dig_h6 = h6;
                c.dig_h1 = 255;
                c.dig_h3 = 255;
                for t in t_fines {
                    for r in raws {
                        assert!(c.compensate_humidity(r, t) <= 102_400);
                    }
                }
            }
        }
    }
}

#[test]
fn pressure_is_zero_when_denominator_is_zero() {
    let mut c = datasheet_coefficients();
    c.dig_p1 = 0;
    assert_eq!(c.compensate_pressure(415148, 128422), 0);
    assert_eq!(c.compensate_pressure(0, i32::MIN), 0);
    assert_eq!(c.compensate_pressure(u32::MAX, i32::MAX), 0);
}

#[test]
fn extreme_inputs_do_not_panic() {
    let mut c = datasheet_coefficients();
    c.dig_t2 = i16::MIN;
    c.dig_t3 = i16::MAX;
    c.dig_p6 = i16::MIN;
    c.dig_p9 = i16::MAX;
    for t in [0, 1 << 20, i32::MAX, i32::MIN] {
        let _ = c.compensate_temperature(t);
    }
    for p in [0u32, 1 << 20, u32::MAX] {
        for t in [i32::MIN, 0, i32::MAX] {
            let _ = c.compensate_pressure(p, t);
        }
    }
}
