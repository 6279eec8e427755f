use pipecalc::Pipe;

#[test]
fn test_pipe_defaults() {
    let p = Pipe::new();
    assert_eq!(p.stopped, false);
    assert_eq!(p.frequency_millihertz, 0);
    assert_eq!(p.intonation_number_milli, 2000);
    assert_eq!(p.radius_micrometers, 0);
    assert_eq!(p.mouth_ratio_milli, 250);
    assert_eq!(p.cutup_ratio_milli, 0);
    assert_eq!(p.air_temperature_millicelsius, 20_000);
    assert_eq!(p.air_density_grams_per_cubic_meter, 0);
    assert_eq!(p.wind_pressure_millipascals, 0);
}

#[test]
fn test_pipe_builder_chain() {
    let p = Pipe::new()
        .set_frequency(523_251)
        .set_stopped(false)
        .set_intonation_number(2000)
        .set_mouth_ratio(250)
        .set_cutup_ratio(300)
        .set_radius(16_261)
        .set_air_temperature(20_000)
        .set_air_density(1200)
        .set_wind_pressure(588_399);

    assert_eq!(p.frequency_millihertz, 523_251);
    assert_eq!(p.stopped, false);
    assert_eq!(p.intonation_number_milli, 2000);
    assert_eq!(p.mouth_ratio_milli, 250);
    assert_eq!(p.cutup_ratio_milli, 300);
    assert_eq!(p.radius_micrometers, 16_261);
    assert_eq!(p.air_temperature_millicelsius, 20_000);
    assert_eq!(p.air_density_grams_per_cubic_meter, 1200);
    assert_eq!(p.wind_pressure_millipascals, 588_399);
}

#[test]
fn test_pipe_setter_keeps_other_fields() {
    let base = Pipe::new().set_frequency(440_000).set_radius(50_000);
    let warm = base.set_air_temperature(25_000);

    assert_eq!(warm.air_temperature_millicelsius, 25_000);
    assert_eq!(warm.frequency_millihertz, base.frequency_millihertz);
    assert_eq!(warm.radius_micrometers, base.radius_micrometers);
    assert_eq!(warm.stopped, base.stopped);
    assert_eq!(warm.intonation_number_milli, base.intonation_number_milli);
    assert_eq!(warm.mouth_ratio_milli, base.mouth_ratio_milli);
    assert_eq!(warm.cutup_ratio_milli, base.cutup_ratio_milli);
    assert_eq!(
        warm.air_density_grams_per_cubic_meter,
        base.air_density_grams_per_cubic_meter
    );
    assert_eq!(warm.wind_pressure_millipascals, base.wind_pressure_millipascals);

    let stopped = base.set_stopped(true);
    assert_eq!(stopped.stopped, true);
    assert_eq!(stopped.frequency_millihertz, base.frequency_millihertz);
}
