use embassy_bme280_sensor::configuration::{
    Configuration, Filter, Oversampling, SensorMode, StandbyDuration,
};

const STANDBY: [StandbyDuration; 8] = [
    StandbyDuration::Millis0_5,
    StandbyDuration::Millis10,
    StandbyDuration::Millis20,
    StandbyDuration::Millis62_5,
    StandbyDuration::Millis125,
    StandbyDuration::Millis250,
    StandbyDuration::Millis500,
    StandbyDuration::Millis1000,
];

const FILTERS: [Filter; 5] = [
    Filter::Off,
    Filter::FilterX2,
    Filter::FilterX4,
    Filter::FilterX8,
    Filter::FilterX16,
];

const OVERSAMPLING: [Oversampling; 6] = [
    Oversampling::Skip,
    Oversampling::Oversample1,
    Oversampling::Oversample2,
    Oversampling::Oversample4,
    Oversampling::Oversample8,
    Oversampling::Oversample16,
];

const MODES: [SensorMode; 3] = [SensorMode::Sleep, SensorMode::Forced, SensorMode::Normal];

#[test]
fn standby_codes_follow_the_device_table() {
    let codes: Vec<u8> = STANDBY.iter().map(|s| s.to_value()).collect();
    assert_eq!(codes, vec![0b000, 0b110, 0b111, 0b001, 0b010, 0b011, 0b100, 0b101]);
    assert_eq!(StandbyDuration::Millis10.to_value(), 0b110);
}

#[test]
fn oversampling_codes_are_sequential() {
    for (i, o) in OVERSAMPLING.iter().enumerate() {
        assert_eq!(o.to_value() as usize, i);
    }
}

#[test]
fn mode_and_filter_codes() {
    assert_eq!(SensorMode::Sleep.to_value(), 0b00);
    assert_eq!(SensorMode::Forced.to_value(), 0b01);
    assert_eq!(SensorMode::Normal.to_value(), 0b11);
    for (i, f) in FILTERS.iter().enumerate() {
        assert_eq!(f.to_value() as usize, i);
    }
}

#[test]
fn default_is_all_skip_and_sleep() {
    let c = Configuration::default();
    let (config, ctrl_meas, ctrl_hum) = c.to_low_level_configuration();
    assert_eq!(config.0, 0);
    assert_eq!(ctrl_meas.0, 0);
    assert_eq!(ctrl_hum.0, 0);
    assert!(!c.is_forced());
}

#[test]
fn every_combination_packs_its_fields_only() {
    for s in STANDBY {
        for f in FILTERS {
            for spi3w in [false, true] {
                for t in OVERSAMPLING {
                    for p in OVERSAMPLING {
                        for m in MODES {
                            let h = t;
                            let c = Configuration::default()
                                .with_standby_duration(s)
                                .with_filter(f)
                                .with_spi3w(spi3w)
                                .with_temperature_oversampling(t)
                                .with_pressure_oversampling(p)
                                .with_humidity_oversampling(h)
                                .with_sensor_mode(m);
                            let (config, ctrl_meas, ctrl_hum) = c.to_low_level_configuration();
                            assert_eq!(config.0 >> 5, s.to_value());
                            assert_eq!((config.0 >> 2) & 0b111, f.to_value());
                            assert_eq!(config.0 & 0b10, 0);
                            assert_eq!(config.0 & 1 == 1, spi3w);
                            assert_eq!(ctrl_meas.0 >> 5, t.to_value());
                            assert_eq!((ctrl_meas.0 >> 2) & 0b111, p.to_value());
                            assert_eq!(ctrl_meas.0 & 0b11, m.to_value());
                            assert_eq!(ctrl_hum.0, h.to_value());
                            assert_eq!(ctrl_hum.0 >> 3, 0);
                        }
                    }
                }
            }
        }
    }
}

#[test]
fn example_configuration_bytes() {
    let c = Configuration::default()
        .with_standby_time(StandbyDuration::Millis1000)
        .with_temperature_oversampling(Oversampling::Oversample1)
        .with_pressure_oversampling(Oversampling::Oversample16)
        .with_humidity_oversampling(Oversampling::Oversample2)
        .with_filter(Filter::FilterX4)
        .with_sensor_mode(SensorMode::Normal);
    let (config, ctrl_meas, ctrl_hum) = c.to_low_level_configuration();
    assert_eq!(config.0, 0b101_010_0_0);
    assert_eq!(ctrl_meas.0, 0b001_101_11);
    assert_eq!(ctrl_hum.0, 0b010);
}

#[test]
fn builders_set_one_field_each() {
    let c = Configuration::default().with_sensor_mode(SensorMode::Forced);
    assert!(c.is_forced());
    assert_eq!(c.standby_duration, StandbyDuration::Millis0_5);
    let d = c.with_standby_time(StandbyDuration::Millis20);
    assert_eq!(d.standby_duration, StandbyDuration::Millis20);
    assert_eq!(d.sensor_mode, SensorMode::Forced);
    let e = d.with_spi3w(true);
    assert!(e.spi3w);
    assert_eq!(e.filter, Filter::Off);
}
