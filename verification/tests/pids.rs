use elm327::pids::AuxiliaryInputStatus;
use elm327::pids::AvailablePids20;
use elm327::pids::AvailablePids40;
use elm327::pids::EngineCoolantTemperature;
use elm327::pids::EngineLoad;
use elm327::pids::EngineSpeed;
use elm327::pids::FreezeDTC;
use elm327::pids::FuelPressure;
use elm327::pids::FuelSystemStatus;
use elm327::pids::FuelTankLevelInput;
use elm327::pids::LongTermFuelTrim1;
use elm327::pids::LongTermFuelTrim2;
use elm327::pids::MAFSensor;
use elm327::pids::ObdStandardForThisVehicle;
use elm327::pids::OxygenSensor1;
use elm327::pids::OxygenSensorLambda1;
use elm327::pids::Pid;
use elm327::pids::ResultSize;
use elm327::pids::ThrottlePosition;
use elm327::pids::TimingAdvance;
use elm327::pids::VehicleSpeed;
use elm327::decoder::FuelSystem;
use elm327::decoder::ObdStandard;
use elm327::decoder::State;
use elm327::ratio::Ratio;

fn as_f64(r: Ratio) -> f64 {
    r.num as f64 / r.den as f64
}

#[test]
fn engine_speed_descriptor_metadata() {
    let p = EngineSpeed::new();
    assert_eq!(p.mode_number(), 0x01);
    assert_eq!(p.pid_number(), 0x0c);
    assert_eq!(p.result_size(), ResultSize::Value(2));
    assert_eq!(p.unit(), Some("rpm"));
    assert_eq!(p.min(), Some(Ratio { num: 0, den: 1 }));
    assert_eq!(p.max(), Some(Ratio { num: 65535, den: 4 }));
    assert_eq!(as_f64(p.interpret_result(0x1AF8)), 1726.0);
}

#[test]
fn available_pids_descriptors_unpack_blocks() {
    let first = AvailablePids20::new();
    assert_eq!(first.pid_number(), 0x00);
    assert_eq!(first.result_size(), ResultSize::Value(4));
    assert_eq!(first.min(), None);
    assert_eq!(first.max(), None);
    assert_eq!(
        first.interpret_result(0xBE1FA813),
        vec![1, 3, 4, 5, 6, 7, 12, 13, 14, 15, 16, 17, 19, 21, 28, 31, 32]
    );
    let second = AvailablePids40::new();
    assert_eq!(second.pid_number(), 0x20);
    assert_eq!(second.interpret_result(0x8000_0000), vec![33]);
}

#[test]
fn coolant_temperature_descriptor_bounds_attained() {
    let p = EngineCoolantTemperature::new();
    assert_eq!(p.pid_number(), 0x05);
    assert_eq!(p.result_size(), ResultSize::Value(1));
    assert_eq!(p.unit(), Some("\u{b0}C"));
    assert_eq!(p.min(), Some(-40));
    assert_eq!(p.max(), Some(215));
    assert_eq!(p.interpret_result(0), -40);
    assert_eq!(p.interpret_result(255), 215);
}

#[test]
fn engine_load_descriptor_bounds_attained() {
    let p = EngineLoad::new();
    assert_eq!(p.pid_number(), 0x04);
    assert_eq!(p.unit(), Some("%"));
    assert_eq!(as_f64(p.interpret_result(0)), as_f64(p.min().unwrap()));
    assert!((as_f64(p.interpret_result(255)) - as_f64(p.max().unwrap())).abs() < 1e-9);
}

#[test]
fn throttle_position_decodes_percent() {
    let p = ThrottlePosition::new();
    assert_eq!(p.pid_number(), 0x11);
    assert!((as_f64(p.interpret_result(51)) - 20.0).abs() < 1e-9);
}

#[test]
fn timing_advance_descriptor_bounds_attained() {
    let p = TimingAdvance::new();
    assert_eq!(p.pid_number(), 0x0e);
    assert_eq!(as_f64(p.interpret_result(0)), as_f64(p.min().unwrap()));
    assert_eq!(as_f64(p.interpret_result(255)), as_f64(p.max().unwrap()));
}

#[test]
fn vehicle_speed_is_the_raw_byte() {
    let p = VehicleSpeed::new();
    assert_eq!(p.pid_number(), 0x0d);
    assert_eq!(p.unit(), Some("km/h"));
    assert_eq!(p.interpret_result(0), p.min().unwrap());
    assert_eq!(p.interpret_result(255), p.max().unwrap());
    assert_eq!(p.interpret_result(88), 88);
}

#[test]
fn fuel_pressure_triples_the_byte() {
    let p = FuelPressure::new();
    assert_eq!(p.pid_number(), 0x0a);
    assert_eq!(p.interpret_result(0), 0);
    assert_eq!(p.interpret_result(255), 765);
    assert_eq!(p.max(), Some(765));
}

#[test]
fn maf_sensor_declared_range_differs_from_formula() {
    let p = MAFSensor::new();
    assert_eq!(p.pid_number(), 0x10);
    assert_eq!(p.max(), Some(Ratio { num: 65535, den: 100 }));
    assert_eq!(as_f64(p.interpret_result(800)), 200.0);
}

#[test]
fn fuel_system_status_descriptor() {
    let p = FuelSystemStatus::new();
    assert_eq!(p.pid_number(), 0x03);
    assert_eq!(p.result_size(), ResultSize::Value(2));
    let (first, second) = p.interpret_result(0x0102);
    assert_eq!(first, FuelSystem::ClosedLoopOxygenFeedback);
    assert_eq!(second, FuelSystem::OpenLoopInsufficientTemperature);
}

#[test]
fn freeze_dtc_yields_nothing() {
    let p = FreezeDTC::new();
    assert_eq!(p.pid_number(), 0x02);
    assert_eq!(p.min(), None);
    assert_eq!(p.max(), None);
    p.interpret_result(0xABCD);
}

#[test]
fn oxygen_sensor_descriptor() {
    let p = OxygenSensor1::new();
    assert_eq!(p.pid_number(), 0x14);
    assert_eq!(p.unit(), Some("(volts, %)"));
    let (voltage, trim) = p.interpret_result(0xC8FF);
    assert_eq!(as_f64(voltage), 1.0);
    assert_eq!(as_f64(trim), 0.0);
}

#[test]
fn oxygen_sensor_lambda_descriptor() {
    let p = OxygenSensorLambda1::new();
    assert_eq!(p.pid_number(), 0x24);
    assert_eq!(p.result_size(), ResultSize::Value(4));
    let (ratio, voltage) = p.interpret_result(0x8000_2000);
    assert_eq!(as_f64(ratio), 1.0);
    assert_eq!(as_f64(voltage), 1.0);
}

#[test]
fn obd_standard_descriptor_has_no_bounds() {
    let p = ObdStandardForThisVehicle::new();
    assert_eq!(p.pid_number(), 0x1c);
    assert_eq!(p.min(), None);
    assert_eq!(p.max(), None);
    assert_eq!(p.interpret_result(1), ObdStandard::Obd2CARB);
    assert_eq!(p.interpret_result(0), ObdStandard::Unknown);
}

#[test]
fn auxiliary_input_descriptor() {
    let p = AuxiliaryInputStatus::new();
    assert_eq!(p.pid_number(), 0x1e);
    assert_eq!(p.interpret_result(0x80), State::On);
    assert_eq!(p.interpret_result(0x00), State::Off);
}

#[test]
fn summary_combines_mode_pid_and_result_size() {
    assert_eq!(
        EngineSpeed::new().to_string(),
        "Pid(mode=1, pid=12, result_size=Value(2))"
    );
    assert_eq!(
        AvailablePids20::new().to_string(),
        "Pid(mode=1, pid=0, result_size=Value(4))"
    );
    assert_eq!(
        FuelTankLevelInput::new().to_string(),
        "Pid(mode=1, pid=47, result_size=Value(1))"
    );
}

#[test]
fn long_term_trim_descriptors_share_a_pid_number() {
    // Long-term fuel trim for bank 2 is declared under PID 0x07, which
    // bank 1 already occupies; the typed descriptors carry both
    // declarations, and the registry resolves the collision.
    assert_eq!(LongTermFuelTrim1::new().pid_number(), 0x07);
    assert_eq!(LongTermFuelTrim2::new().pid_number(), 0x07);
}
