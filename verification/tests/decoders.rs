use elm327::decoder::decode_air_status;
use elm327::decoder::decode_auxiliary_input_status;
use elm327::decoder::decode_available_pids;
use elm327::decoder::decode_celsius;
use elm327::decoder::decode_egr_error;
use elm327::decoder::decode_fuel_rail_gauge_pressure;
use elm327::decoder::decode_fuel_rail_pressure;
use elm327::decoder::decode_fuel_system;
use elm327::decoder::decode_fuel_trim;
use elm327::decoder::decode_km;
use elm327::decoder::decode_maf;
use elm327::decoder::decode_obd_standard;
use elm327::decoder::decode_oxygen_sensor;
use elm327::decoder::decode_oxygen_sensor_lambda;
use elm327::decoder::decode_percent;
use elm327::decoder::decode_rpm;
use elm327::decoder::decode_seconds;
use elm327::decoder::decode_timing_advance;
use elm327::decoder::AirStatus;
use elm327::decoder::FuelSystem;
use elm327::decoder::ObdStandard;
use elm327::decoder::State;
use elm327::ratio::Ratio;

fn as_f64(r: Ratio) -> f64 {
    r.num as f64 / r.den as f64
}

#[test]
fn celsius_matches_formula_for_all_bytes() {
    for b in 0..=255u8 {
        assert_eq!(decode_celsius(b), b as i16 - 40);
    }
    assert_eq!(decode_celsius(0), -40);
    assert_eq!(decode_celsius(255), 215);
}

#[test]
fn percent_matches_formula_for_all_bytes() {
    for b in 0..=255u8 {
        let r = decode_percent(b);
        assert_eq!(r.num, 100 * b as i32);
        assert_eq!(r.den, 255);
        assert!((as_f64(r) - b as f64 / 2.55).abs() < 1e-9);
    }
    assert!((as_f64(decode_percent(255)) - 100.0).abs() < 1e-9);
    assert_eq!(as_f64(decode_percent(0)), 0.0);
}

#[test]
fn timing_advance_matches_formula_for_all_bytes() {
    for b in 0..=255u8 {
        let r = decode_timing_advance(b);
        assert_eq!(r.num, b as i32 - 128);
        assert_eq!(r.den, 2);
        assert!((as_f64(r) - (b as f64 / 2.0 - 64.0)).abs() < 1e-9);
    }
    assert_eq!(as_f64(decode_timing_advance(0)), -64.0);
    assert_eq!(as_f64(decode_timing_advance(255)), 63.5);
}

#[test]
fn obd_standard_assigned_codes() {
    assert_eq!(decode_obd_standard(1), ObdStandard::Obd2CARB);
    assert_eq!(decode_obd_standard(0), ObdStandard::Unknown);
    assert_eq!(decode_obd_standard(14), ObdStandard::Reserved);
    assert_eq!(decode_obd_standard(255), ObdStandard::NotAvailableForAssignment);
}

#[test]
fn obd_standard_gaps_and_edges() {
    assert_eq!(decode_obd_standard(13), ObdStandard::JobdAndEobdAndObd2);
    assert_eq!(decode_obd_standard(16), ObdStandard::Reserved);
    assert_eq!(decode_obd_standard(17), ObdStandard::Emd);
    assert_eq!(decode_obd_standard(22), ObdStandard::Reserved);
    assert_eq!(decode_obd_standard(27), ObdStandard::Reserved);
    assert_eq!(decode_obd_standard(33), ObdStandard::HdEobd6);
    assert_eq!(decode_obd_standard(34), ObdStandard::Reserved);
    assert_eq!(decode_obd_standard(250), ObdStandard::Reserved);
    assert_eq!(decode_obd_standard(251), ObdStandard::NotAvailableForAssignment);
}

#[test]
fn available_pids_reference_mask() {
    let pids = decode_available_pids(0xBE1FA813, 0);
    assert_eq!(
        pids,
        vec![1, 3, 4, 5, 6, 7, 12, 13, 14, 15, 16, 17, 19, 21, 28, 31, 32]
    );
}

#[test]
fn available_pids_second_block_offsets_by_32() {
    let pids = decode_available_pids(0xBE1FA813, 1);
    let expected: Vec<u8> = vec![1, 3, 4, 5, 6, 7, 12, 13, 14, 15, 16, 17, 19, 21, 28, 31, 32]
        .into_iter()
        .map(|p: u8| p + 32)
        .collect();
    assert_eq!(pids, expected);
}

#[test]
fn available_pids_empty_and_full_masks() {
    assert_eq!(decode_available_pids(0, 0), Vec::<u8>::new());
    let all = decode_available_pids(0xFFFF_FFFF, 0);
    let expected: Vec<u8> = (1..=32).collect();
    assert_eq!(all, expected);
}

#[test]
fn decode_repeatable_on_same_input() {
    assert_eq!(decode_celsius(0x7b), decode_celsius(0x7b));
    assert_eq!(decode_percent(0x42), decode_percent(0x42));
    assert_eq!(decode_available_pids(0xBE1FA813, 0), decode_available_pids(0xBE1FA813, 0));
    assert_eq!(decode_obd_standard(6), decode_obd_standard(6));
    assert_eq!(decode_rpm(0x1AF8), decode_rpm(0x1AF8));
    assert_eq!(decode_oxygen_sensor_lambda(0x1234_5678), decode_oxygen_sensor_lambda(0x1234_5678));
}

#[test]
fn fuel_system_low_byte_first() {
    let (first, second) = decode_fuel_system(0x0102);
    assert_eq!(first, FuelSystem::ClosedLoopOxygenFeedback);
    assert_eq!(second, FuelSystem::OpenLoopInsufficientTemperature);
}

#[test]
fn fuel_system_codes() {
    assert_eq!(decode_fuel_system(0x0000).0, FuelSystem::MotorOff);
    assert_eq!(decode_fuel_system(0x0004).0, FuelSystem::OpenLoopLoadOrDecelFuelCut);
    assert_eq!(decode_fuel_system(0x0008).0, FuelSystem::OpenLoopSystemFailure);
    assert_eq!(decode_fuel_system(0x0010).0, FuelSystem::ClosedLoopFaultFeedback);
    assert_eq!(decode_fuel_system(0x0003).0, FuelSystem::Unknown);
}

#[test]
fn air_status_codes() {
    assert_eq!(decode_air_status(0x01), AirStatus::Upstream);
    assert_eq!(decode_air_status(0x02), AirStatus::Downstream);
    assert_eq!(decode_air_status(0x04), AirStatus::FromOutsideAtmosphereOrOff);
    assert_eq!(decode_air_status(0x08), AirStatus::PumpCommandedForDiagnostics);
    assert_eq!(decode_air_status(0x03), AirStatus::Unknown);
    assert_eq!(decode_air_status(0x00), AirStatus::Unknown);
}

#[test]
fn auxiliary_input_top_bit() {
    assert_eq!(decode_auxiliary_input_status(0x80), State::On);
    assert_eq!(decode_auxiliary_input_status(0xFF), State::On);
    assert_eq!(decode_auxiliary_input_status(0x7F), State::Off);
    assert_eq!(decode_auxiliary_input_status(0x00), State::Off);
}

#[test]
fn rpm_quarters_the_word() {
    let r = decode_rpm(0x1AF8);
    assert_eq!(r.num, 6904);
    assert_eq!(r.den, 4);
    assert_eq!(as_f64(r), 1726.0);
    assert_eq!(as_f64(decode_rpm(0)), 0.0);
    assert_eq!(as_f64(decode_rpm(0xFFFF)), 16383.75);
}

#[test]
fn maf_uses_the_same_formula_as_rpm() {
    let r = decode_maf(0x0320);
    assert_eq!(r.num, 0x0320);
    assert_eq!(r.den, 4);
    assert_eq!(as_f64(r), 200.0);
}

#[test]
fn fuel_trim_formula() {
    assert_eq!(as_f64(decode_fuel_trim(0)), -100.0);
    assert_eq!(as_f64(decode_fuel_trim(128)), 0.0);
    let top = decode_fuel_trim(255);
    assert_eq!(top.num, 12700);
    assert_eq!(top.den, 128);
    assert!((as_f64(top) - 99.21875).abs() < 1e-12);
}

#[test]
fn egr_error_matches_fuel_trim_formula() {
    for b in [0u8, 64, 128, 200, 255] {
        assert_eq!(decode_egr_error(b), decode_fuel_trim(b));
    }
}

#[test]
fn oxygen_sensor_voltage_and_trim() {
    let (voltage, trim) = decode_oxygen_sensor(0xC8FF);
    assert_eq!(as_f64(voltage), 1.0);
    assert_eq!(as_f64(trim), 0.0);
    let (v2, t2) = decode_oxygen_sensor(0x0000);
    assert_eq!(as_f64(v2), 0.0);
    assert_eq!(as_f64(t2), -100.0);
    let (v3, t3) = decode_oxygen_sensor(0xFF80);
    assert_eq!(as_f64(v3), 1.275);
    assert_eq!(as_f64(t3), 0.0);
}

#[test]
fn oxygen_sensor_lambda_formula() {
    let (ratio, voltage) = decode_oxygen_sensor_lambda(0x8000_0000);
    assert_eq!(as_f64(ratio), 1.0);
    assert_eq!(as_f64(voltage), 0.0);
    let (r2, v2) = decode_oxygen_sensor_lambda(0x0000_2000);
    assert_eq!(as_f64(r2), 0.0);
    assert_eq!(as_f64(v2), 1.0);
}

#[test]
fn seconds_and_km_pass_the_word_through() {
    assert_eq!(decode_seconds(0), 0);
    assert_eq!(decode_seconds(65535), 65535);
    assert_eq!(decode_seconds(1234), 1234);
    assert_eq!(decode_km(0), 0);
    assert_eq!(decode_km(65535), 65535);
    assert_eq!(decode_km(4321), 4321);
}

#[test]
fn fuel_rail_pressures() {
    let r = decode_fuel_rail_pressure(1000);
    assert_eq!(r.num, 79000);
    assert_eq!(r.den, 1000);
    assert_eq!(as_f64(r), 79.0);
    assert!((as_f64(decode_fuel_rail_pressure(0xFFFF)) - 5177.265).abs() < 1e-9);
    assert_eq!(decode_fuel_rail_gauge_pressure(0), 0);
    assert_eq!(decode_fuel_rail_gauge_pressure(0xFFFF), 655350);
    assert_eq!(decode_fuel_rail_gauge_pressure(100), 1000);
}
