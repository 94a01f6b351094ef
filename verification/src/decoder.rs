//! Decode formulas for OBD-II responses.
//!
//! Each function is a pure, total mapping from a fixed-width unsigned integer
//! (the raw response, assembled big-endian from the wire) to an engineering
//! value. Fractional quantities come back as exact [`Ratio`] values.

use vstd::prelude::*;

use crate::ratio::Ratio;

verus! {

/// Fuel-system status, selected by a sparse one-hot code; anything outside
/// the defined set decodes to the explicit `Unknown` fallback.
#[derive(Debug, Clone, Copy, PartialEq, Eq, Structural)]
pub enum FuelSystem {
    MotorOff,
    OpenLoopInsufficientTemperature,
    ClosedLoopOxygenFeedback,
    OpenLoopLoadOrDecelFuelCut,
    OpenLoopSystemFailure,
    ClosedLoopFaultFeedback,
    Unknown,
}

/// Commanded secondary air status, selected by single-bit flags.
#[derive(Debug, Clone, Copy, PartialEq, Eq, Structural)]
pub enum AirStatus {
    Upstream,
    Downstream,
    FromOutsideAtmosphereOrOff,
    PumpCommandedForDiagnostics,
    Unknown,
}

/// OBD compliance standard, keyed by byte values 1..=33 (with gaps); the
/// unassigned codes decode to `Reserved` or `NotAvailableForAssignment`,
/// and 0 to `Unknown`.
#[derive(Debug, Clone, Copy, PartialEq, Eq, Structural)]
pub enum ObdStandard {
    Obd2CARB,
    ObdEPA,
    Obd1and2,
    Obd1,
    NotObdCompliant,
    Eobd,
    EobdAndObd2,
    EobdAndObd,
    EobdAndObd2AndObd,
    Jobd,
    JobdAndObd2,
    JobdAndEobd,
    JobdAndEobdAndObd2,
    Emd,
    EmdPlus,
    HdObdC,
    HdObd,
    WwhObd,
    HdEobd1,
    HdEobd1N,
    HdEobd2,
    HdEobd2N,
    ObdBr1,
    ObdBr2,
    Kobd,
    Iobd1,
    Iobd2,
    HdEobd6,
    NotAvailableForAssignment,
    Reserved,
    Unknown,
}

/// A binary input state, selected by the top bit of a byte.
#[derive(Debug, Clone, Copy, PartialEq, Eq, Structural)]
pub enum State {
    On,
    Off,
    Unknown,
}

// ---------------------------------------------------------------------------
// Rational decode formulas, as spec-level functions of the raw input.
// ---------------------------------------------------------------------------

/// `b / 2.55` percent, exactly `100*b / 255`.
pub open spec fn percent_ratio(b: u8) -> Ratio {
    Ratio { num: (100 * b) as i32, den: 255 }
}

/// `b / 1.28 - 100` percent, exactly `(100*b - 12800) / 128`.
pub open spec fn fuel_trim_ratio(b: u8) -> Ratio {
    Ratio { num: (100 * b - 12800) as i32, den: 128 }
}

/// `b / 2 - 64` degrees, exactly `(b - 128) / 2`.
pub open spec fn timing_advance_ratio(b: u8) -> Ratio {
    Ratio { num: (b - 128) as i32, den: 2 }
}

/// `w / 4` rpm.
pub open spec fn rpm_ratio(w: u16) -> Ratio {
    Ratio { num: w as i32, den: 4 }
}

/// `w / 4` grams per second (the same formula as engine speed).
pub open spec fn maf_ratio(w: u16) -> Ratio {
    Ratio { num: w as i32, den: 4 }
}

/// `0.079 * w` kPa, exactly `79*w / 1000`.
pub open spec fn fuel_rail_pressure_ratio(w: u16) -> Ratio {
    Ratio { num: (79 * w) as i32, den: 1000 }
}

/// Oxygen-sensor voltage from the high byte: `a / 200` volts.
pub open spec fn o2_voltage_ratio(a: u8) -> Ratio {
    Ratio { num: a as i32, den: 200 }
}

/// Oxygen-sensor short-term fuel trim from the low byte:
/// `100*b / 128 - 100` percent when the sensor is used (`b != 255`), else 0.
pub open spec fn o2_trim_ratio(b: u8) -> Ratio {
    if b != 255 {
        Ratio { num: (100 * b - 12800) as i32, den: 128 }
    } else {
        Ratio { num: 0, den: 1 }
    }
}

/// Air-fuel equivalence ratio from bytes A and B: `(2/65536) * (256*a + b)`.
pub open spec fn lambda_ratio(a: u8, b: u8) -> Ratio {
    Ratio { num: (2 * (256 * a + b)) as i32, den: 65536 }
}

/// Oxygen-sensor voltage from bytes C and D: `(8/65536) * (256*c + d)`.
pub open spec fn lambda_voltage_ratio(c: u8, d: u8) -> Ratio {
    Ratio { num: (8 * (256 * c + d)) as i32, den: 65536 }
}

// ---------------------------------------------------------------------------
// Enumeration decode tables, as spec-level functions of the raw byte.
// ---------------------------------------------------------------------------

/// The fuel-system status encoded by one byte of the two-byte response.
pub open spec fn fuel_system_from_byte(b: u8) -> FuelSystem {
    if b == 0 {
        FuelSystem::MotorOff
    } else if b == 1 {
        FuelSystem::OpenLoopInsufficientTemperature
    } else if b == 2 {
        FuelSystem::ClosedLoopOxygenFeedback
    } else if b == 4 {
        FuelSystem::OpenLoopLoadOrDecelFuelCut
    } else if b == 8 {
        FuelSystem::OpenLoopSystemFailure
    } else if b == 16 {
        FuelSystem::ClosedLoopFaultFeedback
    } else {
        FuelSystem::Unknown
    }
}

/// The secondary-air status encoded by a single-bit flag byte.
pub open spec fn air_status_from_byte(b: u8) -> AirStatus {
    if b == 0x01 {
        AirStatus::Upstream
    } else if b == 0x02 {
        AirStatus::Downstream
    } else if b == 0x04 {
        AirStatus::FromOutsideAtmosphereOrOff
    } else if b == 0x08 {
        AirStatus::PumpCommandedForDiagnostics
    } else {
        AirStatus::Unknown
    }
}

/// The OBD compliance standard assigned to a byte value.
pub open spec fn obd_standard_from_byte(b: u8) -> ObdStandard {
    if b == 0 {
        ObdStandard::Unknown
    } else if b == 1 {
        ObdStandard::Obd2CARB
    } else if b == 2 {
        ObdStandard::ObdEPA
    } else if b == 3 {
        ObdStandard::Obd1and2
    } else if b == 4 {
        ObdStandard::Obd1
    } else if b == 5 {
        ObdStandard::NotObdCompliant
    } else if b == 6 {
        ObdStandard::Eobd
    } else if b == 7 {
        ObdStandard::EobdAndObd2
    } else if b == 8 {
        ObdStandard::EobdAndObd
    } else if b == 9 {
        ObdStandard::EobdAndObd2AndObd
    } else if b == 10 {
        ObdStandard::Jobd
    } else if b == 11 {
        ObdStandard::JobdAndObd2
    } else if b == 12 {
        ObdStandard::JobdAndEobd
    } else if b == 13 {
        ObdStandard::JobdAndEobdAndObd2
    } else if b == 17 {
        ObdStandard::Emd
    } else if b == 18 {
        ObdStandard::EmdPlus
    } else if b == 19 {
        ObdStandard::HdObdC
    } else if b == 20 {
        ObdStandard::HdObd
    } else if b == 21 {
        ObdStandard::WwhObd
    } else if b == 23 {
        ObdStandard::HdEobd1
    } else if b == 24 {
        ObdStandard::HdEobd1N
    } else if b == 25 {
        ObdStandard::HdEobd2
    } else if b == 26 {
        ObdStandard::HdEobd2N
    } else if b == 28 {
        ObdStandard::ObdBr1
    } else if b == 29 {
        ObdStandard::ObdBr2
    } else if b == 30 {
        ObdStandard::Kobd
    } else if b == 31 {
        ObdStandard::Iobd1
    } else if b == 32 {
        ObdStandard::Iobd2
    } else if b == 33 {
        ObdStandard::HdEobd6
    } else if b >= 251 {
        ObdStandard::NotAvailableForAssignment
    } else {
        ObdStandard::Reserved
    }
}

// ---------------------------------------------------------------------------
// The supported-PIDs bitmap.
// ---------------------------------------------------------------------------

/// Bit `31 - offset` of the mask (counting from the least significant bit),
/// i.e. the bit that signals support for PID `offset + 1` within the block.
pub open spec fn supported_pid_bit(input: u32, offset: u32) -> bool {
    (0x8000_0000u32 >> offset) & input != 0
}

/// The PID numbers announced by mask bits at positions `offset..32`,
/// in ascending order.
pub open spec fn supported_pids_from(input: u32, block_base: u8, offset: u32) -> Seq<u8>
    decreases 32 - offset,
{
    if offset >= 32 {
        Seq::empty()
    } else {
        let rest = supported_pids_from(input, block_base, (offset + 1) as u32);
        if supported_pid_bit(input, offset) {
            seq![(offset + 1 + 32 * block_base) as u8] + rest
        } else {
            rest
        }
    }
}

/// The ascending list of PID numbers announced by a 32-bit support mask.
/// Bit 31 (most significant) stands for PID `32*block_base + 1`, bit 0 for
/// PID `32*block_base + 32`.
pub open spec fn supported_pids(input: u32, block_base: u8) -> Seq<u8> {
    supported_pids_from(input, block_base, 0)
}

// ---------------------------------------------------------------------------
// Executable decode functions.
// ---------------------------------------------------------------------------

/// Temperature in degrees celsius: `b - 40`.
pub fn decode_celsius(encoded: u8) -> (r: i16)
    ensures
        r == encoded - 40,
{
    encoded as i16 - 40
}

/// Unpacks a 32-bit supported-PIDs mask into the ascending list of PID
/// numbers it announces. `block_base` is the 32-PID block the mask covers
/// (0 for PIDs 0x01..=0x20, 1 for 0x21..=0x40, and so on); it is bounded so
/// that every announced PID number fits in a byte.
pub fn decode_available_pids(input: u32, pid_offset: u8) -> (r: Vec<u8>)
    requires
        pid_offset <= 6,
    ensures
        r@ == supported_pids(input, pid_offset),
{
    let base: u32 = 0x8000_0000;
    let mut available_pids: Vec<u8> = Vec::new();
    let mut offset: u32 = 0;
    while offset < 32
        invariant
            offset <= 32,
            pid_offset <= 6,
            base == 0x8000_0000u32,
            supported_pids(input, pid_offset) == available_pids@ + supported_pids_from(
                input,
                pid_offset,
                offset,
            ),
        decreases 32 - offset,
    {
        let ghost prev = available_pids@;
        let ghost head = seq![(offset + 1 + 32 * pid_offset) as u8];
        let ghost tail = supported_pids_from(input, pid_offset, (offset + 1) as u32);
        if (base >> offset) & input != 0 {
            let pid: u32 = offset + 1 + 32 * (pid_offset as u32);
            available_pids.push(pid as u8);
            proof {
                assert(supported_pids_from(input, pid_offset, offset) == head + tail);
                assert(prev + (head + tail) =~= (prev + head) + tail);
                assert(available_pids@ =~= prev + head);
            }
        } else {
            proof {
                assert(supported_pids_from(input, pid_offset, offset) == tail);
            }
        }
        offset = offset + 1;
    }
    proof {
        assert(available_pids@ + supported_pids_from(input, pid_offset, 32) =~= available_pids@);
    }
    available_pids
}

/// Decodes the two fuel-system status bytes; the low byte of the assembled
/// word comes first, the high byte second.
pub fn decode_fuel_system(input: u16) -> (r: (FuelSystem, FuelSystem))
    ensures
        r.0 == fuel_system_from_byte((input & 0xff) as u8),
        r.1 == fuel_system_from_byte((input >> 8) as u8),
{
    (interpret_one_byte_fuel((input & 0xff) as u8), interpret_one_byte_fuel((input >> 8) as u8))
}

/// The fuel-system status named by one byte; codes outside the defined
/// one-hot set decode to the explicit `Unknown` fallback.
fn interpret_one_byte_fuel(b: u8) -> (r: FuelSystem)
    ensures
        r == fuel_system_from_byte(b),
{
    match b {
        0 => FuelSystem::MotorOff,
        1 => FuelSystem::OpenLoopInsufficientTemperature,
        2 => FuelSystem::ClosedLoopOxygenFeedback,
        4 => FuelSystem::OpenLoopLoadOrDecelFuelCut,
        8 => FuelSystem::OpenLoopSystemFailure,
        16 => FuelSystem::ClosedLoopFaultFeedback,
        _ => FuelSystem::Unknown,
    }
}

/// Ignition timing advance: `b / 2 - 64` degrees before top dead center.
pub fn decode_timing_advance(input: u8) -> (r: Ratio)
    ensures
        r == timing_advance_ratio(input),
        r.wf(),
{
    Ratio { num: input as i32 - 128, den: 2 }
}

/// Engine speed: `w / 4` rpm.
pub fn decode_rpm(input: u16) -> (r: Ratio)
    ensures
        r == rpm_ratio(input),
        r.wf(),
{
    Ratio { num: input as i32, den: 4 }
}

/// Mass air flow: `w / 4` grams per second.
pub fn decode_maf(input: u16) -> (r: Ratio)
    ensures
        r == maf_ratio(input),
        r.wf(),
{
    Ratio { num: input as i32, den: 4 }
}

/// Percent-style reading: `b / 2.55`, spanning 0..=100.
pub fn decode_percent(input: u8) -> (r: Ratio)
    ensures
        r == percent_ratio(input),
        r.wf(),
{
    Ratio { num: 100 * input as i32, den: 255 }
}

/// Fuel trim: `b / 1.28 - 100` percent.
pub fn decode_fuel_trim(input: u8) -> (r: Ratio)
    ensures
        r == fuel_trim_ratio(input),
        r.wf(),
{
    Ratio { num: 100 * input as i32 - 12800, den: 128 }
}

/// Commanded secondary air status from a single-bit flag byte.
pub fn decode_air_status(input: u8) -> (r: AirStatus)
    ensures
        r == air_status_from_byte(input),
{
    match input {
        0x01 => AirStatus::Upstream,
        0x02 => AirStatus::Downstream,
        0x04 => AirStatus::FromOutsideAtmosphereOrOff,
        0x08 => AirStatus::PumpCommandedForDiagnostics,
        _ => AirStatus::Unknown,
    }
}

/// Oxygen sensor reading: voltage `a / 200` from the high byte and
/// short-term fuel trim `100*b / 128 - 100` from the low byte (0 when the
/// sensor is not used in trim calculation, signalled by `b == 255`).
pub fn decode_oxygen_sensor(input: u16) -> (r: (Ratio, Ratio))
    ensures
        r.0 == o2_voltage_ratio((input >> 8) as u8),
        r.1 == o2_trim_ratio((input & 0xff) as u8),
        r.0.wf() && r.1.wf(),
{
    let a: u8 = (input >> 8) as u8;
    let b: u8 = (input & 0xff) as u8;
    let voltage = Ratio { num: a as i32, den: 200 };
    let trim = if b != 255 {
        Ratio { num: 100 * b as i32 - 12800, den: 128 }
    } else {
        Ratio { num: 0, den: 1 }
    };
    (voltage, trim)
}

/// The OBD compliance standard this vehicle reports.
pub fn decode_obd_standard(input: u8) -> (r: ObdStandard)
    ensures
        r == obd_standard_from_byte(input),
{
    match input {
        1 => ObdStandard::Obd2CARB,
        2 => ObdStandard::ObdEPA,
        3 => ObdStandard::Obd1and2,
        4 => ObdStandard::Obd1,
        5 => ObdStandard::NotObdCompliant,
        6 => ObdStandard::Eobd,
        7 => ObdStandard::EobdAndObd2,
        8 => ObdStandard::EobdAndObd,
        9 => ObdStandard::EobdAndObd2AndObd,
        10 => ObdStandard::Jobd,
        11 => ObdStandard::JobdAndObd2,
        12 => ObdStandard::JobdAndEobd,
        13 => ObdStandard::JobdAndEobdAndObd2,
        17 => ObdStandard::Emd,
        18 => ObdStandard::EmdPlus,
        19 => ObdStandard::HdObdC,
        20 => ObdStandard::HdObd,
        21 => ObdStandard::WwhObd,
        23 => ObdStandard::HdEobd1,
        24 => ObdStandard::HdEobd1N,
        25 => ObdStandard::HdEobd2,
        26 => ObdStandard::HdEobd2N,
        28 => ObdStandard::ObdBr1,
        29 => ObdStandard::ObdBr2,
        30 => ObdStandard::Kobd,
        31 => ObdStandard::Iobd1,
        32 => ObdStandard::Iobd2,
        33 => ObdStandard::HdEobd6,
        14..=16 | 22 | 27 | 34..=250 => ObdStandard::Reserved,
        251..=255 => ObdStandard::NotAvailableForAssignment,
        0 => ObdStandard::Unknown,
    }
}

/// Auxiliary input status: the top bit of the byte selects on or off.
pub fn decode_auxiliary_input_status(input: u8) -> (r: State)
    ensures
        r == (if input >= 128 {
            State::On
        } else {
            State::Off
        }),
{
    proof {
        assert(input >> 7 == 0 <==> input < 128) by (bit_vector);
        assert(input >> 7 <= 1) by (bit_vector);
    }
    match input >> 7 {
        0 => State::Off,
        1 => State::On,
        _ => State::Unknown,
    }
}

/// Run time since engine start, in seconds: the word itself.
pub fn decode_seconds(input: u16) -> (r: u16)
    ensures
        r == input,
{
    input
}

/// Distance in kilometers: the word itself.
pub fn decode_km(input: u16) -> (r: u16)
    ensures
        r == input,
{
    input
}

/// Fuel rail pressure relative to manifold vacuum: `0.079 * w` kPa.
pub fn decode_fuel_rail_pressure(input: u16) -> (r: Ratio)
    ensures
        r == fuel_rail_pressure_ratio(input),
        r.wf(),
{
    let num: u32 = 79 * input as u32;
    Ratio { num: num as i32, den: 1000 }
}

/// Fuel rail gauge pressure: `10 * w` kPa.
pub fn decode_fuel_rail_gauge_pressure(input: u16) -> (r: u32)
    ensures
        r == 10 * input,
{
    10 * input as u32
}

/// Wide-range oxygen sensor reading: air-fuel equivalence ratio
/// `(2/65536) * (256*a + b)` and voltage `(8/65536) * (256*c + d)`.
pub fn decode_oxygen_sensor_lambda(input: u32) -> (r: (Ratio, Ratio))
    ensures
        r.0 == lambda_ratio((input >> 24) as u8, ((input >> 16) & 0xff) as u8),
        r.1 == lambda_voltage_ratio(((input >> 8) & 0xff) as u8, (input & 0xff) as u8),
        r.0.wf() && r.1.wf(),
{
    let a: u32 = input >> 24;
    let b: u32 = (input >> 16) & 0xff;
    let c: u32 = (input >> 8) & 0xff;
    let d: u32 = input & 0xff;
    proof {
        assert(input >> 24 < 256 && (input >> 16) & 0xff < 256 && (input >> 8) & 0xff < 256
            && input & 0xff < 256) by (bit_vector);
    }
    let ratio = Ratio { num: (2 * (256 * a + b)) as i32, den: 65536 };
    let voltage = Ratio { num: (8 * (256 * c + d)) as i32, den: 65536 };
    (ratio, voltage)
}

/// Exhaust-gas-recirculation error: `b / 1.28 - 100` percent.
pub fn decode_egr_error(input: u8) -> (r: Ratio)
    ensures
        r == fuel_trim_ratio(input),
        r.wf(),
{
    Ratio { num: 100 * input as i32 - 12800, den: 128 }
}

// ---------------------------------------------------------------------------
// Laws.
// ---------------------------------------------------------------------------

/// Decoding is deterministic. Every decode function in this module fixes its
/// result as a function of the raw input alone (`r == f(input)` for a spec
/// function `f`), so any two results obtained for the same input are equal.
pub proof fn lemma_decode_deterministic<A, B>(f: spec_fn(A) -> B, input: A, r1: B, r2: B)
    requires
        r1 == f(input),
        r2 == f(input),
    ensures
        r1 == r2,
{
}

/// Every PID number announced for mask bits `offset..32` lies between
/// `32*block_base + offset + 1` and `32*block_base + 32`.
proof fn lemma_supported_pids_from_bounds(input: u32, block_base: u8, offset: u32)
    requires
        block_base <= 6,
        offset <= 32,
    ensures
        forall|k: int|
            0 <= k < supported_pids_from(input, block_base, offset).len()
                ==> 32 * block_base + offset + 1
                <= #[trigger] supported_pids_from(input, block_base, offset)[k]
                <= 32 * block_base + 32,
    decreases 32 - offset,
{
    if offset < 32 {
        lemma_supported_pids_from_bounds(input, block_base, (offset + 1) as u32);
        let rest = supported_pids_from(input, block_base, (offset + 1) as u32);
        if supported_pid_bit(input, offset) {
            let whole = supported_pids_from(input, block_base, offset);
            assert(whole == seq![(offset + 1 + 32 * block_base) as u8] + rest);
            assert forall|k: int| 0 <= k < whole.len() implies 32 * block_base + offset + 1
                <= #[trigger] whole[k] <= 32 * block_base + 32 by {
                if k > 0 {
                    assert(whole[k] == rest[k - 1]);
                }
            }
        }
    }
}

/// The supported-PIDs list is strictly ascending (for mask bits
/// `offset..32`).
proof fn lemma_supported_pids_from_ascending(input: u32, block_base: u8, offset: u32)
    requires
        block_base <= 6,
        offset <= 32,
    ensures
        forall|i: int, j: int|
            0 <= i < j < supported_pids_from(input, block_base, offset).len()
                ==> #[trigger] supported_pids_from(input, block_base, offset)[i]
                < #[trigger] supported_pids_from(input, block_base, offset)[j],
    decreases 32 - offset,
{
    if offset < 32 {
        lemma_supported_pids_from_ascending(input, block_base, (offset + 1) as u32);
        lemma_supported_pids_from_bounds(input, block_base, (offset + 1) as u32);
        let rest = supported_pids_from(input, block_base, (offset + 1) as u32);
        if supported_pid_bit(input, offset) {
            let whole = supported_pids_from(input, block_base, offset);
            assert(whole == seq![(offset + 1 + 32 * block_base) as u8] + rest);
            assert forall|i: int, j: int| 0 <= i < j < whole.len() implies #[trigger] whole[i]
                < #[trigger] whole[j] by {
                assert(whole[j] == rest[j - 1]);
                if i > 0 {
                    assert(whole[i] == rest[i - 1]);
                }
            }
        }
    }
}

/// The list produced from a supported-PIDs mask is strictly ascending.
pub proof fn lemma_supported_pids_ascending(input: u32, block_base: u8)
    requires
        block_base <= 6,
    ensures
        forall|i: int, j: int|
            0 <= i < j < supported_pids(input, block_base).len()
                ==> #[trigger] supported_pids(input, block_base)[i]
                < #[trigger] supported_pids(input, block_base)[j],
{
    lemma_supported_pids_from_ascending(input, block_base, 0);
}

} // verus!
