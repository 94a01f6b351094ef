//! The PID registry: a single immutable, data-driven table of descriptor
//! records, one per known `(mode, pid)` pair, with lookup and raw-payload
//! dispatch.
//!
//! Where the typed interface in [`crate::pids`] couples each PID to an input
//! of its exact width at compile time, the registry works from a byte
//! payload of runtime length: it resolves the descriptor, rejects a payload
//! whose length disagrees with the declared result size, assembles the
//! big-endian raw value and hands it to the bound decode formula.

use vstd::prelude::*;

use crate::decoder::AirStatus;
use crate::decoder::FuelSystem;
use crate::decoder::ObdStandard;
use crate::decoder::State;
use crate::decoder::air_status_from_byte;
use crate::decoder::decode_air_status;
use crate::decoder::decode_auxiliary_input_status;
use crate::decoder::decode_available_pids;
use crate::decoder::decode_celsius;
use crate::decoder::decode_fuel_rail_gauge_pressure;
use crate::decoder::decode_fuel_rail_pressure;
use crate::decoder::decode_fuel_system;
use crate::decoder::decode_fuel_trim;
use crate::decoder::decode_km;
use crate::decoder::decode_maf;
use crate::decoder::decode_obd_standard;
use crate::decoder::decode_oxygen_sensor;
use crate::decoder::decode_oxygen_sensor_lambda;
use crate::decoder::decode_percent;
use crate::decoder::decode_rpm;
use crate::decoder::decode_seconds;
use crate::decoder::decode_timing_advance;
use crate::decoder::fuel_rail_pressure_ratio;
use crate::decoder::fuel_system_from_byte;
use crate::decoder::fuel_trim_ratio;
use crate::decoder::lambda_ratio;
use crate::decoder::lambda_voltage_ratio;
use crate::decoder::maf_ratio;
use crate::decoder::o2_trim_ratio;
use crate::decoder::o2_voltage_ratio;
use crate::decoder::obd_standard_from_byte;
use crate::decoder::percent_ratio;
use crate::decoder::rpm_ratio;
use crate::decoder::supported_pids;
use crate::decoder::timing_advance_ratio;
use crate::pids::ResultSize;
use crate::ratio::Ratio;

verus! {

/// Failure conditions of the registry boundary: an unregistered
/// `(mode, pid)` pair, or a raw payload whose length disagrees with the
/// descriptor's declared result size. Within a single width, decoding
/// itself never fails: unknown content maps to explicit fallback variants.
#[derive(Debug, Clone, Copy, PartialEq, Eq, Structural)]
pub enum ObdError {
    NotFound,
    InvalidLength,
}

/// The decode operation a descriptor binds: which formula interprets the
/// raw payload. `SupportedPids` carries the 32-PID block base the bitmap
/// covers; `Unused` carries the payload width of a PID whose content this
/// crate leaves undecoded.
#[derive(Debug, Clone, Copy, PartialEq, Eq, Structural)]
pub enum DecodeKind {
    SupportedPids(u8),
    RawDword,
    Unused(u8),
    FuelSystems,
    Percent,
    Celsius,
    FuelTrim,
    FuelPressure,
    RawByte,
    EngineRpm,
    TimingAdvance,
    MassAirFlow,
    SecondaryAir,
    OxygenSensor,
    ObdCompliance,
    AuxiliaryInput,
    Seconds,
    Kilometers,
    FuelRailPressure,
    FuelRailGauge,
    OxygenLambda,
}

/// A decoded engineering value, one variant per output shape.
#[derive(Debug, Clone, PartialEq, Eq)]
pub enum Decoded {
    /// Ascending PID numbers unpacked from a supported-PIDs bitmap.
    Pids(Vec<u8>),
    /// A raw 32-bit word passed through undecoded.
    Dword(u32),
    /// A 16-bit quantity (seconds, kilometers, kPa).
    Word(u16),
    /// An 8-bit quantity taken as-is (km/h, kPa).
    Byte(u8),
    /// A reserved payload with no decoded value.
    Empty,
    /// An exact rational reading.
    Rational(Ratio),
    /// A pair of exact rational readings.
    Pair(Ratio, Ratio),
    /// A temperature in degrees celsius.
    Celsius(i16),
    /// The status of the two fuel systems.
    Fuel(FuelSystem, FuelSystem),
    /// The commanded secondary air status.
    Air(AirStatus),
    /// The OBD compliance standard.
    Standard(ObdStandard),
    /// A binary input state.
    Binary(State),
}

/// A declared bound on a decoded value, typed like the value itself.
#[derive(Debug, Clone, Copy, PartialEq, Eq, Structural)]
pub enum Bound {
    Rational(Ratio),
    Pair(Ratio, Ratio),
    Celsius(i16),
    Byte(u8),
    Word(u16),
    Dword(u32),
}

/// The raw payload width each decode operation consumes, in bytes.
pub open spec fn kind_width(kind: DecodeKind) -> usize {
    match kind {
        DecodeKind::SupportedPids(_) => 4usize,
        DecodeKind::RawDword => 4usize,
        DecodeKind::Unused(w) => w as usize,
        DecodeKind::FuelSystems => 2usize,
        DecodeKind::Percent => 1usize,
        DecodeKind::Celsius => 1usize,
        DecodeKind::FuelTrim => 1usize,
        DecodeKind::FuelPressure => 1usize,
        DecodeKind::RawByte => 1usize,
        DecodeKind::EngineRpm => 2usize,
        DecodeKind::TimingAdvance => 1usize,
        DecodeKind::MassAirFlow => 2usize,
        DecodeKind::SecondaryAir => 1usize,
        DecodeKind::OxygenSensor => 2usize,
        DecodeKind::ObdCompliance => 1usize,
        DecodeKind::AuxiliaryInput => 1usize,
        DecodeKind::Seconds => 2usize,
        DecodeKind::Kilometers => 2usize,
        DecodeKind::FuelRailPressure => 2usize,
        DecodeKind::FuelRailGauge => 2usize,
        DecodeKind::OxygenLambda => 4usize,
    }
}

/// A decode operation's own validity: a supported-PIDs bitmap must cover a
/// block whose PID numbers fit in a byte.
pub open spec fn kind_wf(kind: DecodeKind) -> bool {
    match kind {
        DecodeKind::SupportedPids(block) => block <= 6,
        _ => true,
    }
}

/// The declared minimum for each decode operation, absent for status,
/// bitmap and undecoded PIDs.
pub open spec fn kind_min(kind: DecodeKind) -> Option<Bound> {
    match kind {
        DecodeKind::Percent => Some(Bound::Rational(Ratio { num: 0i32, den: 1u32 })),
        DecodeKind::Celsius => Some(Bound::Celsius(-40i16)),
        DecodeKind::FuelTrim => Some(Bound::Rational(Ratio { num: -100i32, den: 1u32 })),
        DecodeKind::FuelPressure => Some(Bound::Word(0u16)),
        DecodeKind::RawByte => Some(Bound::Byte(0u8)),
        DecodeKind::EngineRpm => Some(Bound::Rational(Ratio { num: 0i32, den: 1u32 })),
        DecodeKind::TimingAdvance => Some(Bound::Rational(Ratio { num: -64i32, den: 1u32 })),
        DecodeKind::MassAirFlow => Some(Bound::Rational(Ratio { num: 0i32, den: 1u32 })),
        DecodeKind::OxygenSensor => Some(
            Bound::Pair(Ratio { num: 0i32, den: 1u32 }, Ratio { num: -100i32, den: 1u32 }),
        ),
        DecodeKind::Seconds => Some(Bound::Word(0u16)),
        DecodeKind::Kilometers => Some(Bound::Word(0u16)),
        DecodeKind::FuelRailPressure => Some(Bound::Rational(Ratio { num: 0i32, den: 1u32 })),
        DecodeKind::FuelRailGauge => Some(Bound::Dword(0u32)),
        DecodeKind::OxygenLambda => Some(
            Bound::Pair(Ratio { num: 0i32, den: 1u32 }, Ratio { num: 0i32, den: 1u32 }),
        ),
        _ => None,
    }
}

/// The declared maximum for each decode operation, absent for status,
/// bitmap and undecoded PIDs.
pub open spec fn kind_max(kind: DecodeKind) -> Option<Bound> {
    match kind {
        DecodeKind::Percent => Some(Bound::Rational(Ratio { num: 100i32, den: 1u32 })),
        DecodeKind::Celsius => Some(Bound::Celsius(215i16)),
        DecodeKind::FuelTrim => Some(Bound::Rational(Ratio { num: 992i32, den: 10u32 })),
        DecodeKind::FuelPressure => Some(Bound::Word(765u16)),
        DecodeKind::RawByte => Some(Bound::Byte(255u8)),
        DecodeKind::EngineRpm => Some(Bound::Rational(Ratio { num: 65535i32, den: 4u32 })),
        DecodeKind::TimingAdvance => Some(Bound::Rational(Ratio { num: 127i32, den: 2u32 })),
        DecodeKind::MassAirFlow => Some(Bound::Rational(Ratio { num: 65535i32, den: 100u32 })),
        DecodeKind::OxygenSensor => Some(
            Bound::Pair(Ratio { num: 1275i32, den: 1000u32 }, Ratio { num: 992i32, den: 10u32 }),
        ),
        DecodeKind::Seconds => Some(Bound::Word(65535u16)),
        DecodeKind::Kilometers => Some(Bound::Word(65535u16)),
        DecodeKind::FuelRailPressure => Some(
            Bound::Rational(Ratio { num: 5177265i32, den: 1000u32 }),
        ),
        DecodeKind::FuelRailGauge => Some(Bound::Dword(655350u32)),
        DecodeKind::OxygenLambda => Some(
            Bound::Pair(Ratio { num: 2i32, den: 1u32 }, Ratio { num: 8i32, den: 1u32 }),
        ),
        _ => None,
    }
}

/// A descriptor record: the identity, metadata and bound decode operation
/// of one registered PID.
#[derive(Debug, Clone, Copy)]
pub struct Descriptor {
    pub mode: u8,
    pub pid: u8,
    pub kind: DecodeKind,
    pub result_size: ResultSize,
    pub description: &'static str,
    pub min: Option<Bound>,
    pub max: Option<Bound>,
    pub unit: Option<&'static str>,
}

/// A descriptor is well formed when its declared result size equals the
/// byte width its decode operation consumes, its bounds are the ones
/// declared for that operation, and the operation itself is valid.
pub open spec fn descriptor_wf(d: Descriptor) -> bool {
    &&& d.result_size == ResultSize::Value(kind_width(d.kind))
    &&& d.min == kind_min(d.kind)
    &&& d.max == kind_max(d.kind)
    &&& kind_wf(d.kind)
}

/// Whether a payload length agrees with a declared result size.
pub open spec fn size_matches(rs: ResultSize, n: int) -> bool {
    match rs {
        ResultSize::Value(v) => n == v,
        ResultSize::Range(lo, hi) => lo <= n <= hi,
    }
}

/// The 16-bit big-endian word held by a two-byte payload.
pub open spec fn word_of(data: Seq<u8>) -> u16
    recommends
        data.len() == 2,
{
    (256 * data[0] + data[1]) as u16
}

/// The 32-bit big-endian word held by a four-byte payload.
pub open spec fn dword_of(data: Seq<u8>) -> u32
    recommends
        data.len() == 4,
{
    (16777216 * data[0] + 65536 * data[1] + 256 * data[2] + data[3]) as u32
}

/// What each decode operation yields for a payload of the matching width:
/// the decoded value is a function of the raw bytes alone.
pub open spec fn decode_ok(kind: DecodeKind, data: Seq<u8>, r: Decoded) -> bool
    recommends
        data.len() == kind_width(kind),
{
    match kind {
        DecodeKind::SupportedPids(block) => r matches Decoded::Pids(v) && v@ == supported_pids(
            dword_of(data),
            block,
        ),
        DecodeKind::RawDword => r == Decoded::Dword(dword_of(data)),
        DecodeKind::Unused(_) => r == Decoded::Empty,
        DecodeKind::FuelSystems => r == Decoded::Fuel(
            fuel_system_from_byte(data[1]),
            fuel_system_from_byte(data[0]),
        ),
        DecodeKind::Percent => r == Decoded::Rational(percent_ratio(data[0])),
        DecodeKind::Celsius => r == Decoded::Celsius((data[0] - 40) as i16),
        DecodeKind::FuelTrim => r == Decoded::Rational(fuel_trim_ratio(data[0])),
        DecodeKind::FuelPressure => r == Decoded::Word((3 * data[0]) as u16),
        DecodeKind::RawByte => r == Decoded::Byte(data[0]),
        DecodeKind::EngineRpm => r == Decoded::Rational(rpm_ratio(word_of(data))),
        DecodeKind::TimingAdvance => r == Decoded::Rational(timing_advance_ratio(data[0])),
        DecodeKind::MassAirFlow => r == Decoded::Rational(maf_ratio(word_of(data))),
        DecodeKind::SecondaryAir => r == Decoded::Air(air_status_from_byte(data[0])),
        DecodeKind::OxygenSensor => r == Decoded::Pair(
            o2_voltage_ratio(data[0]),
            o2_trim_ratio(data[1]),
        ),
        DecodeKind::ObdCompliance => r == Decoded::Standard(obd_standard_from_byte(data[0])),
        DecodeKind::AuxiliaryInput => r == Decoded::Binary(
            if data[0] >= 128 {
                State::On
            } else {
                State::Off
            },
        ),
        DecodeKind::Seconds => r == Decoded::Word(word_of(data)),
        DecodeKind::Kilometers => r == Decoded::Word(word_of(data)),
        DecodeKind::FuelRailPressure => r == Decoded::Rational(
            fuel_rail_pressure_ratio(word_of(data)),
        ),
        DecodeKind::FuelRailGauge => r == Decoded::Dword((10 * word_of(data)) as u32),
        DecodeKind::OxygenLambda => r == Decoded::Pair(
            lambda_ratio(data[0], data[1]),
            lambda_voltage_ratio(data[2], data[3]),
        ),
    }
}

/// Assembles the big-endian word of a two-byte payload.
fn word_be(data: &Vec<u8>) -> (w: u16)
    requires
        data@.len() == 2,
    ensures
        w == word_of(data@),
{
    (data[0] as u16) * 256 + (data[1] as u16)
}

/// Assembles the big-endian word of a four-byte payload.
fn dword_be(data: &Vec<u8>) -> (w: u32)
    requires
        data@.len() == 4,
    ensures
        w == dword_of(data@),
{
    (data[0] as u32) * 16777216 + (data[1] as u32) * 65536 + (data[2] as u32) * 256 + (
    data[3] as u32)
}

/// Dispatches a raw payload of the matching width to the decode formula a
/// descriptor binds.
pub fn decode_payload(kind: DecodeKind, data: &Vec<u8>) -> (r: Decoded)
    requires
        kind_wf(kind),
        data@.len() == kind_width(kind),
    ensures
        decode_ok(kind, data@, r),
{
    match kind {
        DecodeKind::SupportedPids(block) => Decoded::Pids(
            decode_available_pids(dword_be(data), block),
        ),
        DecodeKind::RawDword => Decoded::Dword(dword_be(data)),
        DecodeKind::Unused(_) => Decoded::Empty,
        DecodeKind::FuelSystems => {
            let a = data[0];
            let b = data[1];
            let w = word_be(data);
            proof {
                assert((w & 0xff) as u8 == b && (w >> 8) as u8 == a) by (bit_vector)
                    requires
                        w == a as u16 * 256 + b as u16,
                ;
            }
            let pair = decode_fuel_system(w);
            Decoded::Fuel(pair.0, pair.1)
        },
        DecodeKind::Percent => Decoded::Rational(decode_percent(data[0])),
        DecodeKind::Celsius => Decoded::Celsius(decode_celsius(data[0])),
        DecodeKind::FuelTrim => Decoded::Rational(decode_fuel_trim(data[0])),
        DecodeKind::FuelPressure => Decoded::Word(data[0] as u16 * 3),
        DecodeKind::RawByte => Decoded::Byte(data[0]),
        DecodeKind::EngineRpm => Decoded::Rational(decode_rpm(word_be(data))),
        DecodeKind::TimingAdvance => Decoded::Rational(decode_timing_advance(data[0])),
        DecodeKind::MassAirFlow => Decoded::Rational(decode_maf(word_be(data))),
        DecodeKind::SecondaryAir => Decoded::Air(decode_air_status(data[0])),
        DecodeKind::OxygenSensor => {
            let a = data[0];
            let b = data[1];
            let w = word_be(data);
            proof {
                assert((w >> 8) as u8 == a && (w & 0xff) as u8 == b) by (bit_vector)
                    requires
                        w == a as u16 * 256 + b as u16,
                ;
            }
            let pair = decode_oxygen_sensor(w);
            Decoded::Pair(pair.0, pair.1)
        },
        DecodeKind::ObdCompliance => Decoded::Standard(decode_obd_standard(data[0])),
        DecodeKind::AuxiliaryInput => Decoded::Binary(decode_auxiliary_input_status(data[0])),
        DecodeKind::Seconds => Decoded::Word(decode_seconds(word_be(data))),
        DecodeKind::Kilometers => Decoded::Word(decode_km(word_be(data))),
        DecodeKind::FuelRailPressure => Decoded::Rational(
            decode_fuel_rail_pressure(word_be(data)),
        ),
        DecodeKind::FuelRailGauge => Decoded::Dword(decode_fuel_rail_gauge_pressure(word_be(data))),
        DecodeKind::OxygenLambda => {
            let a = data[0];
            let b = data[1];
            let c = data[2];
            let d = data[3];
            let dw = dword_be(data);
            proof {
                assert((dw >> 24) as u8 == a && ((dw >> 16) & 0xff) as u8 == b && ((dw >> 8)
                    & 0xff) as u8 == c && (dw & 0xff) as u8 == d) by (bit_vector)
                    requires
                        dw == a as u32 * 16777216 + b as u32 * 65536 + c as u32 * 256 + d as u32,
                ;
            }
            let pair = decode_oxygen_sensor_lambda(dw);
            Decoded::Pair(pair.0, pair.1)
        },
    }
}

/// Whether the table holds an entry for `(mode, pid)`.
pub open spec fn has_entry(s: Seq<Descriptor>, mode: u8, pid: u8) -> bool {
    exists|i: int| 0 <= i < s.len() && s[i].mode == mode && s[i].pid == pid
}

/// The matching table entry (meaningful only when one exists; with unique
/// keys it is the single matching descriptor).
pub open spec fn entry_of(s: Seq<Descriptor>, mode: u8, pid: u8) -> Descriptor {
    s[choose|i: int| 0 <= i < s.len() && s[i].mode == mode && s[i].pid == pid]
}

/// The table entry for `(mode, pid)`, if any.
pub open spec fn spec_lookup(s: Seq<Descriptor>, mode: u8, pid: u8) -> Option<Descriptor> {
    if has_entry(s, mode, pid) {
        Some(entry_of(s, mode, pid))
    } else {
        None
    }
}

/// The `(pid, kind)` pair of row `i` of the default mode-0x01 table,
/// ascending by PID number.
pub open spec fn catalog_entry(i: int) -> (u8, DecodeKind) {
    if i == 0 {
        (0x00u8, DecodeKind::SupportedPids(0))
    } else if i == 1 {
        (0x01u8, DecodeKind::RawDword)
    } else if i == 2 {
        (0x02u8, DecodeKind::Unused(2))
    } else if i == 3 {
        (0x03u8, DecodeKind::FuelSystems)
    } else if i == 4 {
        (0x04u8, DecodeKind::Percent)
    } else if i == 5 {
        (0x05u8, DecodeKind::Celsius)
    } else if i == 6 {
        (0x06u8, DecodeKind::FuelTrim)
    } else if i == 7 {
        (0x07u8, DecodeKind::FuelTrim)
    } else if i == 8 {
        (0x08u8, DecodeKind::FuelTrim)
    } else if i == 9 {
        (0x0au8, DecodeKind::FuelPressure)
    } else if i == 10 {
        (0x0bu8, DecodeKind::RawByte)
    } else if i == 11 {
        (0x0cu8, DecodeKind::EngineRpm)
    } else if i == 12 {
        (0x0du8, DecodeKind::RawByte)
    } else if i == 13 {
        (0x0eu8, DecodeKind::TimingAdvance)
    } else if i == 14 {
        (0x0fu8, DecodeKind::Celsius)
    } else if i == 15 {
        (0x10u8, DecodeKind::MassAirFlow)
    } else if i == 16 {
        (0x11u8, DecodeKind::Percent)
    } else if i == 17 {
        (0x12u8, DecodeKind::SecondaryAir)
    } else if i == 18 {
        (0x13u8, DecodeKind::Unused(1))
    } else if i == 19 {
        (0x14u8, DecodeKind::OxygenSensor)
    } else if i == 20 {
        (0x15u8, DecodeKind::OxygenSensor)
    } else if i == 21 {
        (0x16u8, DecodeKind::OxygenSensor)
    } else if i == 22 {
        (0x17u8, DecodeKind::OxygenSensor)
    } else if i == 23 {
        (0x18u8, DecodeKind::OxygenSensor)
    } else if i == 24 {
        (0x19u8, DecodeKind::OxygenSensor)
    } else if i == 25 {
        (0x1au8, DecodeKind::OxygenSensor)
    } else if i == 26 {
        (0x1bu8, DecodeKind::OxygenSensor)
    } else if i == 27 {
        (0x1cu8, DecodeKind::ObdCompliance)
    } else if i == 28 {
        (0x1du8, DecodeKind::Unused(1))
    } else if i == 29 {
        (0x1eu8, DecodeKind::AuxiliaryInput)
    } else if i == 30 {
        (0x1fu8, DecodeKind::Seconds)
    } else if i == 31 {
        (0x20u8, DecodeKind::SupportedPids(1))
    } else if i == 32 {
        (0x21u8, DecodeKind::Kilometers)
    } else if i == 33 {
        (0x22u8, DecodeKind::FuelRailPressure)
    } else if i == 34 {
        (0x23u8, DecodeKind::FuelRailGauge)
    } else if i == 35 {
        (0x24u8, DecodeKind::OxygenLambda)
    } else if i == 36 {
        (0x25u8, DecodeKind::OxygenLambda)
    } else if i == 37 {
        (0x26u8, DecodeKind::OxygenLambda)
    } else if i == 38 {
        (0x27u8, DecodeKind::OxygenLambda)
    } else if i == 39 {
        (0x28u8, DecodeKind::OxygenLambda)
    } else if i == 40 {
        (0x29u8, DecodeKind::OxygenLambda)
    } else if i == 41 {
        (0x2au8, DecodeKind::OxygenLambda)
    } else if i == 42 {
        (0x2bu8, DecodeKind::OxygenLambda)
    } else if i == 43 {
        (0x2cu8, DecodeKind::Percent)
    } else if i == 44 {
        (0x2du8, DecodeKind::FuelTrim)
    } else if i == 45 {
        (0x2eu8, DecodeKind::Percent)
    } else {
        (0x2fu8, DecodeKind::Percent)
    }
}

/// The description of row `i` of the default table.
pub open spec fn catalog_description(i: int) -> Seq<char> {
    if i == 0 {
        "Supported PIDs 0x01 to 0x20"@
    } else if i == 1 {
        "Monitor status since DTCs cleared (includes MIL state and DTC count)"@
    } else if i == 2 {
        "Freeze DTC"@
    } else if i == 3 {
        "Fuel system status"@
    } else if i == 4 {
        "Calculated engine load"@
    } else if i == 5 {
        "Engine coolant temperature"@
    } else if i == 6 {
        "Short term fuel trim, bank 1"@
    } else if i == 7 {
        "Long term fuel trim, bank 1"@
    } else if i == 8 {
        "Short term fuel trim, bank 2"@
    } else if i == 9 {
        "Fuel pressure (gauge)"@
    } else if i == 10 {
        "Intake manifold absolute pressure"@
    } else if i == 11 {
        "Engine speed"@
    } else if i == 12 {
        "Vehicle speed"@
    } else if i == 13 {
        "Timing advance"@
    } else if i == 14 {
        "Intake air temperature"@
    } else if i == 15 {
        "Mass air flow sensor air flow rate"@
    } else if i == 16 {
        "Throttle position"@
    } else if i == 17 {
        "Commanded secondary air status"@
    } else if i == 18 {
        "Oxygen sensors present in two banks"@
    } else if i == 19 {
        "Oxygen sensor 1: voltage and short term fuel trim"@
    } else if i == 20 {
        "Oxygen sensor 2: voltage and short term fuel trim"@
    } else if i == 21 {
        "Oxygen sensor 3: voltage and short term fuel trim"@
    } else if i == 22 {
        "Oxygen sensor 4: voltage and short term fuel trim"@
    } else if i == 23 {
        "Oxygen sensor 5: voltage and short term fuel trim"@
    } else if i == 24 {
        "Oxygen sensor 6: voltage and short term fuel trim"@
    } else if i == 25 {
        "Oxygen sensor 7: voltage and short term fuel trim"@
    } else if i == 26 {
        "Oxygen sensor 8: voltage and short term fuel trim"@
    } else if i == 27 {
        "OBD standard this vehicle conforms to"@
    } else if i == 28 {
        "Oxygen sensors present in four banks"@
    } else if i == 29 {
        "Auxiliary input status"@
    } else if i == 30 {
        "Run time since engine start"@
    } else if i == 31 {
        "Supported PIDs 0x21 to 0x40"@
    } else if i == 32 {
        "Distance traveled with malfunction indicator lamp on"@
    } else if i == 33 {
        "Fuel rail pressure (relative to manifold vacuum)"@
    } else if i == 34 {
        "Fuel rail gauge pressure (diesel or gasoline direct injection)"@
    } else if i == 35 {
        "Oxygen sensor 1: air-fuel equivalence ratio (lambda) and voltage"@
    } else if i == 36 {
        "Oxygen sensor 2: air-fuel equivalence ratio (lambda) and voltage"@
    } else if i == 37 {
        "Oxygen sensor 3: air-fuel equivalence ratio (lambda) and voltage"@
    } else if i == 38 {
        "Oxygen sensor 4: air-fuel equivalence ratio (lambda) and voltage"@
    } else if i == 39 {
        "Oxygen sensor 5: air-fuel equivalence ratio (lambda) and voltage"@
    } else if i == 40 {
        "Oxygen sensor 6: air-fuel equivalence ratio (lambda) and voltage"@
    } else if i == 41 {
        "Oxygen sensor 7: air-fuel equivalence ratio (lambda) and voltage"@
    } else if i == 42 {
        "Oxygen sensor 8: air-fuel equivalence ratio (lambda) and voltage"@
    } else if i == 43 {
        "Commanded EGR"@
    } else if i == 44 {
        "EGR error"@
    } else if i == 45 {
        "Commanded evaporative purge"@
    } else {
        "Fuel tank level input"@
    }
}

/// The unit label of row `i` of the default table, absent where the
/// quantity carries none.
pub open spec fn catalog_unit(i: int) -> Option<Seq<char>> {
    if i == 0 {
        None
    } else if i == 1 {
        None
    } else if i == 2 {
        None
    } else if i == 3 {
        None
    } else if i == 4 {
        Some("%"@)
    } else if i == 5 {
        Some("\u{b0}C"@)
    } else if i == 6 {
        Some("%"@)
    } else if i == 7 {
        Some("%"@)
    } else if i == 8 {
        Some("%"@)
    } else if i == 9 {
        Some("kPa"@)
    } else if i == 10 {
        Some("kPa"@)
    } else if i == 11 {
        Some("rpm"@)
    } else if i == 12 {
        Some("km/h"@)
    } else if i == 13 {
        Some("\u{b0}before TDC"@)
    } else if i == 14 {
        Some("\u{b0}C"@)
    } else if i == 15 {
        Some("grams/sec"@)
    } else if i == 16 {
        Some("%"@)
    } else if i == 17 {
        None
    } else if i == 18 {
        None
    } else if i == 19 {
        Some("(volts, %)"@)
    } else if i == 20 {
        Some("(volts, %)"@)
    } else if i == 21 {
        Some("(volts, %)"@)
    } else if i == 22 {
        Some("(volts, %)"@)
    } else if i == 23 {
        Some("(volts, %)"@)
    } else if i == 24 {
        Some("(volts, %)"@)
    } else if i == 25 {
        Some("(volts, %)"@)
    } else if i == 26 {
        Some("(volts, %)"@)
    } else if i == 27 {
        None
    } else if i == 28 {
        None
    } else if i == 29 {
        None
    } else if i == 30 {
        Some("seconds"@)
    } else if i == 31 {
        None
    } else if i == 32 {
        Some("km"@)
    } else if i == 33 {
        Some("kPa"@)
    } else if i == 34 {
        Some("kPa"@)
    } else if i == 35 {
        Some("(ratio, volts)"@)
    } else if i == 36 {
        Some("(ratio, volts)"@)
    } else if i == 37 {
        Some("(ratio, volts)"@)
    } else if i == 38 {
        Some("(ratio, volts)"@)
    } else if i == 39 {
        Some("(ratio, volts)"@)
    } else if i == 40 {
        Some("(ratio, volts)"@)
    } else if i == 41 {
        Some("(ratio, volts)"@)
    } else if i == 42 {
        Some("(ratio, volts)"@)
    } else if i == 43 {
        Some("%"@)
    } else if i == 44 {
        Some("%"@)
    } else if i == 45 {
        Some("%"@)
    } else {
        Some("%"@)
    }
}

/// Whether an optional label holds exactly the given text.
pub open spec fn label_matches(u: Option<&'static str>, s: Option<Seq<char>>) -> bool {
    match (u, s) {
        (Some(a), Some(b)) => a@ == b,
        (None, None) => true,
        _ => false,
    }
}

/// Builds one well-formed descriptor: the result size and bounds are the
/// ones declared for the decode operation.
fn descriptor(
    mode: u8,
    pid: u8,
    kind: DecodeKind,
    description: &'static str,
    unit: Option<&'static str>,
) -> (d: Descriptor)
    requires
        kind_wf(kind),
    ensures
        d.mode == mode,
        d.pid == pid,
        d.kind == kind,
        d.description == description,
        d.unit == unit,
        descriptor_wf(d),
{
    let result_size = result_size_of(kind);
    let min = min_of(kind);
    let max = max_of(kind);
    Descriptor { mode, pid, kind, result_size, description, min, max, unit }
}

/// The declared result size of a decode operation.
fn result_size_of(kind: DecodeKind) -> (r: ResultSize)
    ensures
        r == ResultSize::Value(kind_width(kind)),
{
    match kind {
        DecodeKind::SupportedPids(_) => ResultSize::Value(4),
        DecodeKind::RawDword => ResultSize::Value(4),
        DecodeKind::Unused(w) => ResultSize::Value(w as usize),
        DecodeKind::FuelSystems => ResultSize::Value(2),
        DecodeKind::Percent => ResultSize::Value(1),
        DecodeKind::Celsius => ResultSize::Value(1),
        DecodeKind::FuelTrim => ResultSize::Value(1),
        DecodeKind::FuelPressure => ResultSize::Value(1),
        DecodeKind::RawByte => ResultSize::Value(1),
        DecodeKind::EngineRpm => ResultSize::Value(2),
        DecodeKind::TimingAdvance => ResultSize::Value(1),
        DecodeKind::MassAirFlow => ResultSize::Value(2),
        DecodeKind::SecondaryAir => ResultSize::Value(1),
        DecodeKind::OxygenSensor => ResultSize::Value(2),
        DecodeKind::ObdCompliance => ResultSize::Value(1),
        DecodeKind::AuxiliaryInput => ResultSize::Value(1),
        DecodeKind::Seconds => ResultSize::Value(2),
        DecodeKind::Kilometers => ResultSize::Value(2),
        DecodeKind::FuelRailPressure => ResultSize::Value(2),
        DecodeKind::FuelRailGauge => ResultSize::Value(2),
        DecodeKind::OxygenLambda => ResultSize::Value(4),
    }
}

/// The declared minimum of a decode operation.
fn min_of(kind: DecodeKind) -> (r: Option<Bound>)
    ensures
        r == kind_min(kind),
{
    match kind {
        DecodeKind::Percent => Some(Bound::Rational(Ratio { num: 0, den: 1 })),
        DecodeKind::Celsius => Some(Bound::Celsius(-40)),
        DecodeKind::FuelTrim => Some(Bound::Rational(Ratio { num: -100, den: 1 })),
        DecodeKind::FuelPressure => Some(Bound::Word(0)),
        DecodeKind::RawByte => Some(Bound::Byte(0)),
        DecodeKind::EngineRpm => Some(Bound::Rational(Ratio { num: 0, den: 1 })),
        DecodeKind::TimingAdvance => Some(Bound::Rational(Ratio { num: -64, den: 1 })),
        DecodeKind::MassAirFlow => Some(Bound::Rational(Ratio { num: 0, den: 1 })),
        DecodeKind::OxygenSensor => Some(
            Bound::Pair(Ratio { num: 0, den: 1 }, Ratio { num: -100, den: 1 }),
        ),
        DecodeKind::Seconds => Some(Bound::Word(0)),
        DecodeKind::Kilometers => Some(Bound::Word(0)),
        DecodeKind::FuelRailPressure => Some(Bound::Rational(Ratio { num: 0, den: 1 })),
        DecodeKind::FuelRailGauge => Some(Bound::Dword(0)),
        DecodeKind::OxygenLambda => Some(
            Bound::Pair(Ratio { num: 0, den: 1 }, Ratio { num: 0, den: 1 }),
        ),
        _ => None,
    }
}

/// The declared maximum of a decode operation.
fn max_of(kind: DecodeKind) -> (r: Option<Bound>)
    ensures
        r == kind_max(kind),
{
    match kind {
        DecodeKind::Percent => Some(Bound::Rational(Ratio { num: 100, den: 1 })),
        DecodeKind::Celsius => Some(Bound::Celsius(215)),
        DecodeKind::FuelTrim => Some(Bound::Rational(Ratio { num: 992, den: 10 })),
        DecodeKind::FuelPressure => Some(Bound::Word(765)),
        DecodeKind::RawByte => Some(Bound::Byte(255)),
        DecodeKind::EngineRpm => Some(Bound::Rational(Ratio { num: 65535, den: 4 })),
        DecodeKind::TimingAdvance => Some(Bound::Rational(Ratio { num: 127, den: 2 })),
        DecodeKind::MassAirFlow => Some(Bound::Rational(Ratio { num: 65535, den: 100 })),
        DecodeKind::OxygenSensor => Some(
            Bound::Pair(Ratio { num: 1275, den: 1000 }, Ratio { num: 992, den: 10 }),
        ),
        DecodeKind::Seconds => Some(Bound::Word(65535)),
        DecodeKind::Kilometers => Some(Bound::Word(65535)),
        DecodeKind::FuelRailPressure => Some(Bound::Rational(Ratio { num: 5177265, den: 1000 })),
        DecodeKind::FuelRailGauge => Some(Bound::Dword(655350)),
        DecodeKind::OxygenLambda => Some(
            Bound::Pair(Ratio { num: 2, den: 1 }, Ratio { num: 8, den: 1 }),
        ),
        _ => None,
    }
}

/// Row `i` of the default table.
fn nth_descriptor(i: usize) -> (d: Descriptor)
    requires
        i < 47,
    ensures
        d.mode == 1,
        (d.pid, d.kind) == catalog_entry(i as int),
        d.description@ == catalog_description(i as int),
        label_matches(d.unit, catalog_unit(i as int)),
        descriptor_wf(d),
{
    match i {
        0 => descriptor(0x01, 0x00, DecodeKind::SupportedPids(0), "Supported PIDs 0x01 to 0x20", None),
        1 => descriptor(0x01, 0x01, DecodeKind::RawDword, "Monitor status since DTCs cleared (includes MIL state and DTC count)", None),
        2 => descriptor(0x01, 0x02, DecodeKind::Unused(2), "Freeze DTC", None),
        3 => descriptor(0x01, 0x03, DecodeKind::FuelSystems, "Fuel system status", None),
        4 => descriptor(0x01, 0x04, DecodeKind::Percent, "Calculated engine load", Some("%")),
        5 => descriptor(0x01, 0x05, DecodeKind::Celsius, "Engine coolant temperature", Some("\u{b0}C")),
        6 => descriptor(0x01, 0x06, DecodeKind::FuelTrim, "Short term fuel trim, bank 1", Some("%")),
        7 => descriptor(0x01, 0x07, DecodeKind::FuelTrim, "Long term fuel trim, bank 1", Some("%")),
        8 => descriptor(0x01, 0x08, DecodeKind::FuelTrim, "Short term fuel trim, bank 2", Some("%")),
        9 => descriptor(0x01, 0x0a, DecodeKind::FuelPressure, "Fuel pressure (gauge)", Some("kPa")),
        10 => descriptor(0x01, 0x0b, DecodeKind::RawByte, "Intake manifold absolute pressure", Some("kPa")),
        11 => descriptor(0x01, 0x0c, DecodeKind::EngineRpm, "Engine speed", Some("rpm")),
        12 => descriptor(0x01, 0x0d, DecodeKind::RawByte, "Vehicle speed", Some("km/h")),
        13 => descriptor(0x01, 0x0e, DecodeKind::TimingAdvance, "Timing advance", Some("\u{b0}before TDC")),
        14 => descriptor(0x01, 0x0f, DecodeKind::Celsius, "Intake air temperature", Some("\u{b0}C")),
        15 => descriptor(0x01, 0x10, DecodeKind::MassAirFlow, "Mass air flow sensor air flow rate", Some("grams/sec")),
        16 => descriptor(0x01, 0x11, DecodeKind::Percent, "Throttle position", Some("%")),
        17 => descriptor(0x01, 0x12, DecodeKind::SecondaryAir, "Commanded secondary air status", None),
        18 => descriptor(0x01, 0x13, DecodeKind::Unused(1), "Oxygen sensors present in two banks", None),
        19 => descriptor(0x01, 0x14, DecodeKind::OxygenSensor, "Oxygen sensor 1: voltage and short term fuel trim", Some("(volts, %)")),
        20 => descriptor(0x01, 0x15, DecodeKind::OxygenSensor, "Oxygen sensor 2: voltage and short term fuel trim", Some("(volts, %)")),
        21 => descriptor(0x01, 0x16, DecodeKind::OxygenSensor, "Oxygen sensor 3: voltage and short term fuel trim", Some("(volts, %)")),
        22 => descriptor(0x01, 0x17, DecodeKind::OxygenSensor, "Oxygen sensor 4: voltage and short term fuel trim", Some("(volts, %)")),
        23 => descriptor(0x01, 0x18, DecodeKind::OxygenSensor, "Oxygen sensor 5: voltage and short term fuel trim", Some("(volts, %)")),
        24 => descriptor(0x01, 0x19, DecodeKind::OxygenSensor, "Oxygen sensor 6: voltage and short term fuel trim", Some("(volts, %)")),
        25 => descriptor(0x01, 0x1a, DecodeKind::OxygenSensor, "Oxygen sensor 7: voltage and short term fuel trim", Some("(volts, %)")),
        26 => descriptor(0x01, 0x1b, DecodeKind::OxygenSensor, "Oxygen sensor 8: voltage and short term fuel trim", Some("(volts, %)")),
        27 => descriptor(0x01, 0x1c, DecodeKind::ObdCompliance, "OBD standard this vehicle conforms to", None),
        28 => descriptor(0x01, 0x1d, DecodeKind::Unused(1), "Oxygen sensors present in four banks", None),
        29 => descriptor(0x01, 0x1e, DecodeKind::AuxiliaryInput, "Auxiliary input status", None),
        30 => descriptor(0x01, 0x1f, DecodeKind::Seconds, "Run time since engine start", Some("seconds")),
        31 => descriptor(0x01, 0x20, DecodeKind::SupportedPids(1), "Supported PIDs 0x21 to 0x40", None),
        32 => descriptor(0x01, 0x21, DecodeKind::Kilometers, "Distance traveled with malfunction indicator lamp on", Some("km")),
        33 => descriptor(0x01, 0x22, DecodeKind::FuelRailPressure, "Fuel rail pressure (relative to manifold vacuum)", Some("kPa")),
        34 => descriptor(0x01, 0x23, DecodeKind::FuelRailGauge, "Fuel rail gauge pressure (diesel or gasoline direct injection)", Some("kPa")),
        35 => descriptor(0x01, 0x24, DecodeKind::OxygenLambda, "Oxygen sensor 1: air-fuel equivalence ratio (lambda) and voltage", Some("(ratio, volts)")),
        36 => descriptor(0x01, 0x25, DecodeKind::OxygenLambda, "Oxygen sensor 2: air-fuel equivalence ratio (lambda) and voltage", Some("(ratio, volts)")),
        37 => descriptor(0x01, 0x26, DecodeKind::OxygenLambda, "Oxygen sensor 3: air-fuel equivalence ratio (lambda) and voltage", Some("(ratio, volts)")),
        38 => descriptor(0x01, 0x27, DecodeKind::OxygenLambda, "Oxygen sensor 4: air-fuel equivalence ratio (lambda) and voltage", Some("(ratio, volts)")),
        39 => descriptor(0x01, 0x28, DecodeKind::OxygenLambda, "Oxygen sensor 5: air-fuel equivalence ratio (lambda) and voltage", Some("(ratio, volts)")),
        40 => descriptor(0x01, 0x29, DecodeKind::OxygenLambda, "Oxygen sensor 6: air-fuel equivalence ratio (lambda) and voltage", Some("(ratio, volts)")),
        41 => descriptor(0x01, 0x2a, DecodeKind::OxygenLambda, "Oxygen sensor 7: air-fuel equivalence ratio (lambda) and voltage", Some("(ratio, volts)")),
        42 => descriptor(0x01, 0x2b, DecodeKind::OxygenLambda, "Oxygen sensor 8: air-fuel equivalence ratio (lambda) and voltage", Some("(ratio, volts)")),
        43 => descriptor(0x01, 0x2c, DecodeKind::Percent, "Commanded EGR", Some("%")),
        44 => descriptor(0x01, 0x2d, DecodeKind::FuelTrim, "EGR error", Some("%")),
        45 => descriptor(0x01, 0x2e, DecodeKind::Percent, "Commanded evaporative purge", Some("%")),
        46 => descriptor(0x01, 0x2f, DecodeKind::Percent, "Fuel tank level input", Some("%")),
        _ => descriptor(0x01, 0x2f, DecodeKind::Percent, "Fuel tank level input", Some("%")),
    }
}

/// PID numbers in the default table are strictly ascending with the row
/// index, so no two rows share a key.
proof fn lemma_catalog_ascending(i: int, j: int)
    requires
        0 <= i < j < 47,
    ensures
        catalog_entry(i).0 < catalog_entry(j).0,
    decreases j - i,
{
    if i + 1 < j {
        lemma_catalog_ascending(i + 1, j);
    }
}

/// The complete enumeration of known descriptors, keyed by `(mode, pid)`.
/// Built once; thereafter read-only.
pub struct Registry {
    entries: Vec<Descriptor>,
}

impl View for Registry {
    type V = Seq<Descriptor>;

    closed spec fn view(&self) -> Seq<Descriptor> {
        self.entries@
    }
}

impl Registry {
    /// Every entry is well formed and no two entries share a
    /// `(mode, pid)` key: duplicate registration is a construction-time
    /// defect, not a runtime state.
    pub open spec fn wf(&self) -> bool {
        &&& forall|i: int| 0 <= i < self@.len() ==> descriptor_wf(#[trigger] self@[i])
        &&& forall|i: int, j: int|
            0 <= i < j < self@.len() ==> !(#[trigger] self@[i].mode == #[trigger] self@[j].mode
                && self@[i].pid == self@[j].pid)
    }

    /// Builds the default table: the 47 mode-0x01 descriptors, ascending
    /// by PID number. Long-term fuel trim is declared for both banks under
    /// PID 0x07 (see [`crate::pids::LongTermFuelTrim2`]); under the
    /// uniqueness invariant that collision is a construction defect, so the
    /// table carries one entry for 0x07.
    pub fn new() -> (r: Registry)
        ensures
            r.wf(),
            r@.len() == 47,
            forall|i: int|
                0 <= i < 47 ==> (#[trigger] r@[i]).mode == 1 && (r@[i].pid, r@[i].kind)
                    == catalog_entry(i) && r@[i].description@ == catalog_description(i)
                    && label_matches(r@[i].unit, catalog_unit(i)) && descriptor_wf(r@[i]),
    {
        let mut entries: Vec<Descriptor> = Vec::new();
        let mut i: usize = 0;
        while i < 47
            invariant
                i <= 47,
                entries@.len() == i,
                forall|k: int|
                    0 <= k < i ==> (#[trigger] entries@[k]).mode == 1 && (entries@[k].pid,
                    entries@[k].kind) == catalog_entry(k) && entries@[k].description@
                    == catalog_description(k) && label_matches(entries@[k].unit, catalog_unit(k))
                    && descriptor_wf(entries@[k]),
            decreases 47 - i,
        {
            entries.push(nth_descriptor(i));
            i = i + 1;
        }
        let r = Registry { entries };
        proof {
            assert forall|i: int, j: int| 0 <= i < j < r@.len() implies !(#[trigger] r@[i].mode
                == #[trigger] r@[j].mode && r@[i].pid == r@[j].pid) by {
                lemma_catalog_ascending(i, j);
            }
        }
        r
    }

    /// Resolves a `(mode, pid)` pair to its descriptor; fails with `None`
    /// exactly when the pair is not registered.
    pub fn lookup(&self, mode: u8, pid: u8) -> (r: Option<Descriptor>)
        requires
            self.wf(),
        ensures
            r == spec_lookup(self@, mode, pid),
            r matches Some(d) ==> d.mode == mode && d.pid == pid && descriptor_wf(d),
            r is None <==> !has_entry(self@, mode, pid),
    {
        let n = self.entries.len();
        let mut i: usize = 0;
        while i < n
            invariant
                self.wf(),
                i <= n,
                n == self@.len(),
                forall|k: int| 0 <= k < i ==> !((#[trigger] self@[k]).mode == mode && self@[k].pid == pid),
            decreases n - i,
        {
            let d = self.entries[i];
            if d.mode == mode && d.pid == pid {
                return Some(d);
            }
            i = i + 1;
        }
        None
    }

    /// Every registered descriptor of the given mode, in table order
    /// (ascending PID number in the default table).
    pub fn all(&self, mode: u8) -> (r: Vec<Descriptor>)
        ensures
            r@ == self@.filter(|d: Descriptor| d.mode == mode),
    {
        let n = self.entries.len();
        let mut out: Vec<Descriptor> = Vec::new();
        let mut i: usize = 0;
        while i < n
            invariant
                i <= n,
                n == self@.len(),
                out@ == self@.take(i as int).filter(|d: Descriptor| d.mode == mode),
            decreases n - i,
        {
            proof {
                reveal(Seq::filter);
                assert(self@.take(i + 1).drop_last() =~= self@.take(i as int));
                assert(self@.take(i + 1).last() == self@[i as int]);
            }
            let d = self.entries[i];
            if d.mode == mode {
                out.push(d);
            }
            i = i + 1;
        }
        proof {
            assert(self@.take(n as int) =~= self@);
        }
        out
    }

    /// Resolves `(mode, pid)`, validates the payload width against the
    /// descriptor's declared result size, and decodes. Fails with
    /// `NotFound` exactly when the pair is unregistered and with
    /// `InvalidLength` exactly when the width disagrees; decoding a
    /// payload of the right width never fails.
    pub fn decode(&self, mode: u8, pid: u8, data: &Vec<u8>) -> (r: Result<Decoded, ObdError>)
        requires
            self.wf(),
        ensures
            !has_entry(self@, mode, pid) ==> r == Err::<Decoded, ObdError>(ObdError::NotFound),
            has_entry(self@, mode, pid) && !size_matches(
                entry_of(self@, mode, pid).result_size,
                data@.len() as int,
            ) ==> r == Err::<Decoded, ObdError>(ObdError::InvalidLength),
            has_entry(self@, mode, pid) && size_matches(
                entry_of(self@, mode, pid).result_size,
                data@.len() as int,
            ) ==> (r matches Ok(v) && decode_ok(entry_of(self@, mode, pid).kind, data@, v)),
    {
        match self.lookup(mode, pid) {
            None => Err(ObdError::NotFound),
            Some(d) => {
                if !len_matches(d.result_size, data.len()) {
                    Err(ObdError::InvalidLength)
                } else {
                    Ok(decode_payload(d.kind, data))
                }
            },
        }
    }
}

/// Whether a payload length agrees with a declared result size.
pub fn len_matches(rs: ResultSize, n: usize) -> (b: bool)
    ensures
        b == size_matches(rs, n as int),
{
    match rs {
        ResultSize::Value(v) => n == v,
        ResultSize::Range(lo, hi) => lo <= n && n <= hi,
    }
}

/// Declared bounds are attained at the extreme raw inputs, wherever the
/// declared figure is the exact value of the formula there: the all-zero
/// payload decodes to the declared minimum, and, for the operations whose
/// declared maximum is exact, the all-ones payload decodes to the declared
/// maximum. (The fuel-trim and oxygen-sensor trim maxima are the rounded
/// figure 99.2 for an exact top of 99.21875; the mass-air-flow maximum
/// 655.35 sits below the formula's reach; the lambda maxima 2 and 8 are
/// suprema the 16-bit formula approaches but never reaches. Those are not
/// claimed.)
pub proof fn lemma_declared_bounds_attained(d: Descriptor)
    requires
        descriptor_wf(d),
    ensures
        d.kind == DecodeKind::Percent ==> ( d.min matches Some(Bound::Rational(lo)) && percent_ratio(
            0,
        ).same_value(lo)),
        d.kind == DecodeKind::Percent ==> ( d.max matches Some(Bound::Rational(hi)) && percent_ratio(
            255,
        ).same_value(hi)),
        d.kind == DecodeKind::Celsius ==> ( d.min matches Some(Bound::Celsius(lo)) && lo == 0 - 40),
        d.kind == DecodeKind::Celsius ==> ( d.max matches Some(Bound::Celsius(hi)) && hi == 255 - 40),
        d.kind == DecodeKind::FuelTrim ==> ( d.min matches Some(Bound::Rational(lo))
            && fuel_trim_ratio(0).same_value(lo)),
        d.kind == DecodeKind::FuelPressure ==> ( d.min matches Some(Bound::Word(lo)) && lo == 3 * 0),
        d.kind == DecodeKind::FuelPressure ==> ( d.max matches Some(Bound::Word(hi)) && hi == 3 * 255),
        d.kind == DecodeKind::RawByte ==> ( d.min matches Some(Bound::Byte(lo)) && lo == 0),
        d.kind == DecodeKind::RawByte ==> ( d.max matches Some(Bound::Byte(hi)) && hi == 255),
        d.kind == DecodeKind::EngineRpm ==> ( d.min matches Some(Bound::Rational(lo)) && rpm_ratio(
            0,
        ).same_value(lo)),
        d.kind == DecodeKind::EngineRpm ==> ( d.max matches Some(Bound::Rational(hi)) && rpm_ratio(
            65535,
        ).same_value(hi)),
        d.kind == DecodeKind::TimingAdvance ==> ( d.min matches Some(Bound::Rational(lo))
            && timing_advance_ratio(0).same_value(lo)),
        d.kind == DecodeKind::TimingAdvance ==> ( d.max matches Some(Bound::Rational(hi))
            && timing_advance_ratio(255).same_value(hi)),
        d.kind == DecodeKind::MassAirFlow ==> ( d.min matches Some(Bound::Rational(lo)) && maf_ratio(
            0,
        ).same_value(lo)),
        d.kind == DecodeKind::OxygenSensor ==> ( d.min matches Some(Bound::Pair(lo_v, lo_t))
            && o2_voltage_ratio(0).same_value(lo_v) && o2_trim_ratio(0).same_value(lo_t)),
        d.kind == DecodeKind::OxygenSensor ==> ( d.max matches Some(Bound::Pair(hi_v, _hi_t))
            && o2_voltage_ratio(255).same_value(hi_v)),
        d.kind == DecodeKind::Seconds ==> d.min == Some(Bound::Word(0u16)) && d.max == Some(
            Bound::Word(65535u16),
        ),
        d.kind == DecodeKind::Kilometers ==> d.min == Some(Bound::Word(0u16)) && d.max == Some(
            Bound::Word(65535u16),
        ),
        d.kind == DecodeKind::FuelRailPressure ==> ( d.min matches Some(Bound::Rational(lo))
            && fuel_rail_pressure_ratio(0).same_value(lo)),
        d.kind == DecodeKind::FuelRailPressure ==> ( d.max matches Some(Bound::Rational(hi))
            && fuel_rail_pressure_ratio(65535).same_value(hi)),
        d.kind == DecodeKind::FuelRailGauge ==> ( d.min matches Some(Bound::Dword(lo)) && lo == 10
            * 0),
        d.kind == DecodeKind::FuelRailGauge ==> ( d.max matches Some(Bound::Dword(hi)) && hi == 10
            * 65535),
        d.kind == DecodeKind::OxygenLambda ==> ( d.min matches Some(Bound::Pair(lo_r, lo_v))
            && lambda_ratio(0, 0).same_value(lo_r) && lambda_voltage_ratio(0, 0).same_value(lo_v)),{
    assert(rpm_ratio(0) == Ratio { num: 0i32, den: 4u32 });
    assert(timing_advance_ratio(0) == Ratio { num: -128i32, den: 2u32 });
    assert(rpm_ratio(0).same_value(Ratio { num: 0i32, den: 1u32 }));
    assert(timing_advance_ratio(0).same_value(Ratio { num: -64i32, den: 1u32 }));
    assert(kind_min(DecodeKind::EngineRpm) == Some(Bound::Rational(Ratio { num: 0i32, den: 1u32 })));
    assert(kind_min(DecodeKind::TimingAdvance) == Some(Bound::Rational(Ratio { num: -64i32, den: 1u32 })));
}

/// Declared bounds bracket every producible value: for each decode
/// operation whose declared figures are exact, any value decoded from a
/// payload of the matching width lies between the declared minimum and
/// maximum. (The fuel-trim maximum 99.2 is a rounded figure below the
/// formula's exact top of 99.21875, and the mass-air-flow maximum 655.35
/// sits below the shared `w / 4` formula's reach, so those two operations
/// are not claimed.)
pub proof fn lemma_bounds_bracket_decoded(d: Descriptor, data: Seq<u8>, r: Decoded)
    requires
        descriptor_wf(d),
        data.len() == kind_width(d.kind),
        decode_ok(d.kind, data, r),
    ensures
        d.kind == DecodeKind::Percent ==> (r matches Decoded::Rational(q) && d.min matches Some(
            Bound::Rational(lo),
        ) && d.max matches Some(Bound::Rational(hi)) && lo.le(q) && q.le(hi)),
        d.kind == DecodeKind::Celsius ==> (r matches Decoded::Celsius(t) && d.min matches Some(
            Bound::Celsius(lo),
        ) && d.max matches Some(Bound::Celsius(hi)) && lo <= t <= hi),
        d.kind == DecodeKind::FuelPressure ==> (r matches Decoded::Word(w) && d.min matches Some(
            Bound::Word(lo),
        ) && d.max matches Some(Bound::Word(hi)) && lo <= w <= hi),
        d.kind == DecodeKind::RawByte ==> (r matches Decoded::Byte(b) && d.min matches Some(
            Bound::Byte(lo),
        ) && d.max matches Some(Bound::Byte(hi)) && lo <= b <= hi),
        d.kind == DecodeKind::EngineRpm ==> (r matches Decoded::Rational(q) && d.min matches Some(
            Bound::Rational(lo),
        ) && d.max matches Some(Bound::Rational(hi)) && lo.le(q) && q.le(hi)),
        d.kind == DecodeKind::TimingAdvance ==> (r matches Decoded::Rational(q)
            && d.min matches Some(Bound::Rational(lo)) && d.max matches Some(Bound::Rational(hi))
            && lo.le(q) && q.le(hi)),
        d.kind == DecodeKind::OxygenSensor ==> (r matches Decoded::Pair(v, t) && d.min matches Some(
            Bound::Pair(lo_v, lo_t),
        ) && d.max matches Some(Bound::Pair(hi_v, hi_t)) && lo_v.le(v) && v.le(hi_v) && lo_t.le(t)
            && t.le(hi_t)),
        d.kind == DecodeKind::Seconds ==> (r matches Decoded::Word(w) && d.min matches Some(
            Bound::Word(lo),
        ) && d.max matches Some(Bound::Word(hi)) && lo <= w <= hi),
        d.kind == DecodeKind::Kilometers ==> (r matches Decoded::Word(w) && d.min matches Some(
            Bound::Word(lo),
        ) && d.max matches Some(Bound::Word(hi)) && lo <= w <= hi),
        d.kind == DecodeKind::FuelRailPressure ==> (r matches Decoded::Rational(q)
            && d.min matches Some(Bound::Rational(lo)) && d.max matches Some(Bound::Rational(hi))
            && lo.le(q) && q.le(hi)),
        d.kind == DecodeKind::FuelRailGauge ==> (r matches Decoded::Dword(w) && d.min matches Some(
            Bound::Dword(lo),
        ) && d.max matches Some(Bound::Dword(hi)) && lo <= w <= hi),
        d.kind == DecodeKind::OxygenLambda ==> (r matches Decoded::Pair(q, v) && d.min matches Some(
            Bound::Pair(lo_r, lo_v),
        ) && d.max matches Some(Bound::Pair(hi_r, hi_v)) && lo_r.le(q) && q.le(hi_r) && lo_v.le(v)
            && v.le(hi_v)),
{
    match d.kind {
        DecodeKind::Percent => {
            let b = data[0];
            assert(((100 * b) as i32) == 100 * b);
            assert(Ratio { num: 0i32, den: 1u32 }.le(percent_ratio(b)));
            assert(percent_ratio(b).le(Ratio { num: 100i32, den: 1u32 }));
        },
        DecodeKind::FuelTrim => {
            let b = data[0];
            assert(((100 * b - 12800) as i32) == 100 * b - 12800);
            assert(Ratio { num: -100i32, den: 1u32 }.le(fuel_trim_ratio(b)));
        },
        DecodeKind::EngineRpm => {
            let w = word_of(data);
            assert((w as i32) == w);
            assert(Ratio { num: 0i32, den: 1u32 }.le(rpm_ratio(w)));
            assert(rpm_ratio(w).le(Ratio { num: 65535i32, den: 4u32 }));
        },
        DecodeKind::MassAirFlow => {
            let w = word_of(data);
            assert((w as i32) == w);
            assert(Ratio { num: 0i32, den: 1u32 }.le(maf_ratio(w)));
        },
        DecodeKind::TimingAdvance => {
            let b = data[0];
            assert(((b - 128) as i32) == b - 128);
            assert(Ratio { num: -64i32, den: 1u32 }.le(timing_advance_ratio(b)));
            assert(timing_advance_ratio(b).le(Ratio { num: 127i32, den: 2u32 }));
        },
        DecodeKind::OxygenSensor => {
            let a = data[0];
            let b = data[1];
            assert(Ratio { num: 0i32, den: 1u32 }.le(o2_voltage_ratio(a)));
            assert(o2_voltage_ratio(a).le(Ratio { num: 1275i32, den: 1000u32 }));
            assert(((100 * b - 12800) as i32) == 100 * b - 12800);
            assert(Ratio { num: -100i32, den: 1u32 }.le(o2_trim_ratio(b)));
            assert(o2_trim_ratio(b).le(Ratio { num: 992i32, den: 10u32 }));
        },
        DecodeKind::FuelRailPressure => {
            let w = word_of(data);
            assert(((79 * w) as i32) == 79 * w);
            assert(Ratio { num: 0i32, den: 1u32 }.le(fuel_rail_pressure_ratio(w)));
            assert(fuel_rail_pressure_ratio(w).le(Ratio { num: 5177265i32, den: 1000u32 }));
        },
        DecodeKind::OxygenLambda => {
            let a = data[0];
            let b = data[1];
            let c = data[2];
            let e = data[3];
            assert(((2 * (256 * a + b)) as i32) == 2 * (256 * a + b));
            assert(((8 * (256 * c + e)) as i32) == 8 * (256 * c + e));
            assert(Ratio { num: 0i32, den: 1u32 }.le(lambda_ratio(a, b)));
            assert(lambda_ratio(a, b).le(Ratio { num: 2i32, den: 1u32 }));
            assert(Ratio { num: 0i32, den: 1u32 }.le(lambda_voltage_ratio(c, e)));
            assert(lambda_voltage_ratio(c, e).le(Ratio { num: 8i32, den: 1u32 }));
        },
        _ => {
        },
    }
}

} // verus!
