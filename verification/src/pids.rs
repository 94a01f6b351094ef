//! Per-PID descriptors.
//!
//! One concrete type per known PID of mode 0x01, each implementing the
//! [`Pid`] capability trait: identity, expected response width, bounds and
//! unit metadata, and the bound decode operation. The raw input of
//! `interpret_result` is typed to the exact response width, so a payload of
//! the wrong width cannot reach a decode formula through this interface.

use vstd::prelude::*;

use crate::decoder::AirStatus;
use crate::decoder::FuelSystem;
use crate::decoder::ObdStandard;
use crate::decoder::State;
use crate::decoder::decode_air_status;
use crate::decoder::decode_auxiliary_input_status;
use crate::decoder::decode_available_pids;
use crate::decoder::decode_celsius;
use crate::decoder::decode_egr_error;
use crate::decoder::decode_fuel_rail_gauge_pressure;
use crate::decoder::decode_fuel_rail_pressure;
use crate::decoder::decode_fuel_system;
use crate::decoder::decode_fuel_trim;
use crate::decoder::decode_km;
use crate::decoder::decode_maf;
use crate::decoder::decode_obd_standard;
use crate::decoder::decode_oxygen_sensor;
use crate::decoder::decode_oxygen_sensor_lambda;
use crate::decoder::decode_percent;
use crate::decoder::decode_rpm;
use crate::decoder::decode_seconds;
use crate::decoder::decode_timing_advance;
use crate::decoder::fuel_system_from_byte;
use crate::decoder::air_status_from_byte;
use crate::decoder::obd_standard_from_byte;
use crate::decoder::fuel_trim_ratio;
use crate::decoder::lambda_ratio;
use crate::decoder::lambda_voltage_ratio;
use crate::decoder::maf_ratio;
use crate::decoder::o2_trim_ratio;
use crate::decoder::o2_voltage_ratio;
use crate::decoder::percent_ratio;
use crate::decoder::fuel_rail_pressure_ratio;
use crate::decoder::rpm_ratio;
use crate::decoder::supported_pids;
use crate::decoder::timing_advance_ratio;
use crate::ratio::Ratio;

verus! {

/// The expected width of a raw response: an exact byte count or a range.
#[derive(Debug, Clone, Copy, PartialEq, Eq, Structural)]
pub enum ResultSize {
    Range(usize, usize),
    Value(usize),
}

/// The decimal digit `d` as a character.
pub open spec fn digit_char(d: nat) -> char {
    if d == 0 {
        '0'
    } else if d == 1 {
        '1'
    } else if d == 2 {
        '2'
    } else if d == 3 {
        '3'
    } else if d == 4 {
        '4'
    } else if d == 5 {
        '5'
    } else if d == 6 {
        '6'
    } else if d == 7 {
        '7'
    } else if d == 8 {
        '8'
    } else {
        '9'
    }
}

/// The decimal rendering of `v`, most significant digit first.
pub open spec fn dec_chars(v: nat) -> Seq<char>
    decreases v,
{
    if v < 10 {
        seq![digit_char(v)]
    } else {
        dec_chars(v / 10) + seq![digit_char(v % 10)]
    }
}

/// The rendering of a result size, as `Debug` formats it.
pub open spec fn result_size_chars(rs: ResultSize) -> Seq<char> {
    match rs {
        ResultSize::Value(v) => "Value("@ + dec_chars(v as nat) + ")"@,
        ResultSize::Range(lo, hi) => "Range("@ + dec_chars(lo as nat) + ", "@ + dec_chars(
            hi as nat,
        ) + ")"@,
    }
}

/// The textual summary of a descriptor: its mode, PID and result size.
pub open spec fn summary_chars(mode: u8, pid: u8, rs: ResultSize) -> Seq<char> {
    "Pid(mode="@ + dec_chars(mode as nat) + ", pid="@ + dec_chars(pid as nat) + ", result_size="@
        + result_size_chars(rs) + ")"@
}

/// The capability set every PID descriptor offers: identity within the
/// registry, the expected raw response width, human-readable metadata,
/// declared bounds on the decoded value (absent for status and bitmap
/// PIDs), and the decode operation itself. `Input` is the raw value typed
/// to the exact response width; `Output` is the decoded engineering value.
///
/// The three spec functions name the identity and width each implementation
/// declares, so that the getters and the default summary can promise them.
pub trait Pid {
    type Input;

    type Output;

    spec fn spec_mode(&self) -> u8;

    spec fn spec_pid(&self) -> u8;

    spec fn spec_result_size(&self) -> ResultSize;

    fn mode_number(&self) -> (r: u8)
        ensures
            r == self.spec_mode(),
    ;

    fn pid_number(&self) -> (r: u8)
        ensures
            r == self.spec_pid(),
    ;

    fn result_size(&self) -> (r: ResultSize)
        ensures
            r == self.spec_result_size(),
    ;

    fn description(&self) -> &'static str;

    fn max(&self) -> Option<Self::Output>;

    fn min(&self) -> Option<Self::Output>;

    fn unit(&self) -> Option<&'static str>;

    fn interpret_result(&self, input: Self::Input) -> Self::Output;

    /// A textual summary combining mode, PID and result size, for
    /// diagnostics and logging.
    fn to_string(&self) -> (out: String)
        ensures
            out@ == summary_chars(self.spec_mode(), self.spec_pid(), self.spec_result_size()),
    {
        let mut out = String::new();
        out.append("Pid(mode=");
        push_decimal(&mut out, self.mode_number() as u64);
        out.append(", pid=");
        push_decimal(&mut out, self.pid_number() as u64);
        out.append(", result_size=");
        match self.result_size() {
            ResultSize::Value(v) => {
                out.append("Value(");
                push_decimal(&mut out, v as u64);
                out.append(")");
            },
            ResultSize::Range(lo, hi) => {
                out.append("Range(");
                push_decimal(&mut out, lo as u64);
                out.append(", ");
                push_decimal(&mut out, hi as u64);
                out.append(")");
            },
        }
        out.append(")");
        proof {
            assert(out@ =~= summary_chars(
                self.spec_mode(),
                self.spec_pid(),
                self.spec_result_size(),
            ));
        }
        out
    }
}

/// The decimal digit `d` as text.
fn digit_str(d: u64) -> (r: &'static str)
    requires
        d < 10,
    ensures
        r@ == seq![digit_char(d as nat)],
{
    proof {
        reveal_strlit("0");
        reveal_strlit("1");
        reveal_strlit("2");
        reveal_strlit("3");
        reveal_strlit("4");
        reveal_strlit("5");
        reveal_strlit("6");
        reveal_strlit("7");
        reveal_strlit("8");
        reveal_strlit("9");
    }
    let r: &'static str = match d {
        0 => "0",
        1 => "1",
        2 => "2",
        3 => "3",
        4 => "4",
        5 => "5",
        6 => "6",
        7 => "7",
        8 => "8",
        _ => "9",
    };
    proof {
        assert(r@ =~= seq![digit_char(d as nat)]);
    }
    r
}

/// The concatenation of the texts in `ds`, last first: the digits of a
/// number collected least significant first, read back out in print order.
spec fn chars_of(ds: Seq<&'static str>) -> Seq<char>
    decreases ds.len(),
{
    if ds.len() == 0 {
        Seq::empty()
    } else {
        ds.last()@ + chars_of(ds.drop_last())
    }
}

/// Appends the decimal rendering of `v` to `out`.
fn push_decimal(out: &mut String, v: u64)
    ensures
        final(out)@ == old(out)@ + dec_chars(v as nat),
{
    if v == 0 {
        proof {
            reveal_strlit("0");
            assert("0"@ =~= dec_chars(0));
        }
        out.append("0");
        return ;
    }
    let mut digits: Vec<&'static str> = Vec::new();
    let mut rest: u64 = v;
    proof {
        assert(dec_chars(v as nat) + chars_of(digits@) =~= dec_chars(v as nat));
    }
    while rest > 0
        invariant
            rest > 0 ==> dec_chars(v as nat) == dec_chars(rest as nat) + chars_of(digits@),
            rest == 0 ==> dec_chars(v as nat) == chars_of(digits@),
        decreases rest,
    {
        let ghost old_digits = digits@;
        let s = digit_str(rest % 10);
        digits.push(s);
        proof {
            assert(digits@.drop_last() =~= old_digits);
            assert(chars_of(digits@) == s@ + chars_of(old_digits));
            if rest >= 10 {
                assert(dec_chars(rest as nat) + chars_of(old_digits) =~= dec_chars(
                    (rest / 10) as nat,
                ) + (seq![digit_char((rest % 10) as nat)] + chars_of(old_digits)));
                assert(s@ + chars_of(old_digits) =~= seq![digit_char((rest % 10) as nat)]
                    + chars_of(old_digits));
            } else {
                assert(dec_chars(rest as nat) =~= seq![digit_char((rest % 10) as nat)]);
                assert(s@ + chars_of(old_digits) =~= dec_chars(rest as nat) + chars_of(old_digits));
            }
        }
        rest = rest / 10;
    }
    let ghost base = out@;
    let mut i: usize = digits.len();
    proof {
        assert(digits@.take(i as int) =~= digits@);
    }
    while i > 0
        invariant
            i <= digits@.len(),
            out@ + chars_of(digits@.take(i as int)) == base + chars_of(digits@),
        decreases i,
    {
        i = i - 1;
        proof {
            assert(digits@.take(i + 1).drop_last() =~= digits@.take(i as int));
            assert(digits@.take(i + 1).last() == digits@[i as int]);
            assert(chars_of(digits@.take(i + 1)) == digits@[i as int]@ + chars_of(
                digits@.take(i as int),
            ));
        }
        let ghost out_before = out@;
        out.append(digits[i]);
        proof {
            assert(out_before + (digits@[i as int]@ + chars_of(digits@.take(i as int))) =~= (
            out_before + digits@[i as int]@) + chars_of(digits@.take(i as int)));
        }
    }
    proof {
        assert(chars_of(digits@.take(0)) =~= Seq::<char>::empty());
        assert(out@ + Seq::<char>::empty() =~= out@);
        assert(out@ =~= base + dec_chars(v as nat));
    }
}

/// Mode 0x01, PID 0x00: supported PIDs 0x01 to 0x20;
/// `interpret_result` yields the bitmap of PIDs supported in the first block.
pub struct AvailablePids20;

impl AvailablePids20 {
    pub fn new() -> Self {
        AvailablePids20
    }
}

impl Pid for AvailablePids20 {
    type Input = u32;

    type Output = Vec<u8>;

    open spec fn spec_mode(&self) -> u8 {
        0x01
    }

    open spec fn spec_pid(&self) -> u8 {
        0x00
    }

    open spec fn spec_result_size(&self) -> ResultSize {
        ResultSize::Value(4)
    }

    fn mode_number(&self) -> (r: u8)
        ensures
            r == 0x01,
    {
        0x01
    }

    fn pid_number(&self) -> (r: u8)
        ensures
            r == 0x00,
    {
        0x00
    }

    fn result_size(&self) -> (r: ResultSize)
        ensures
            r == ResultSize::Value(4),
    {
        ResultSize::Value(0x04)
    }

    fn description(&self) -> (r: &'static str)
        ensures
            r@ == "Supported PIDs 0x01 to 0x20"@,
    {
        "Supported PIDs 0x01 to 0x20"
    }

    fn max(&self) -> (r: Option<Vec<u8>>)
        ensures
            r is None,
    {
        None
    }

    fn min(&self) -> (r: Option<Vec<u8>>)
        ensures
            r is None,
    {
        None
    }

    fn unit(&self) -> (r: Option<&'static str>)
        ensures
            r is None,
    {
        None
    }

    fn interpret_result(&self, input: u32) -> (r: Vec<u8>)
        ensures
            r@ == supported_pids(input, 0),
    {
        decode_available_pids(input, 0)
    }
}

/// Mode 0x01, PID 0x01: monitor status since DTCs cleared (includes MIL state and DTC count);
/// `interpret_result` yields the raw monitor-status word, passed through undecoded.
pub struct StatusSinceDTC;

impl StatusSinceDTC {
    pub fn new() -> Self {
        StatusSinceDTC
    }
}

impl Pid for StatusSinceDTC {
    type Input = u32;

    type Output = u32;

    open spec fn spec_mode(&self) -> u8 {
        0x01
    }

    open spec fn spec_pid(&self) -> u8 {
        0x01
    }

    open spec fn spec_result_size(&self) -> ResultSize {
        ResultSize::Value(4)
    }

    fn mode_number(&self) -> (r: u8)
        ensures
            r == 0x01,
    {
        0x01
    }

    fn pid_number(&self) -> (r: u8)
        ensures
            r == 0x01,
    {
        0x01
    }

    fn result_size(&self) -> (r: ResultSize)
        ensures
            r == ResultSize::Value(4),
    {
        ResultSize::Value(0x04)
    }

    fn description(&self) -> (r: &'static str)
        ensures
            r@ == "Monitor status since DTCs cleared (includes MIL state and DTC count)"@,
    {
        "Monitor status since DTCs cleared (includes MIL state and DTC count)"
    }

    fn max(&self) -> (r: Option<u32>)
        ensures
            r is None,
    {
        None
    }

    fn min(&self) -> (r: Option<u32>)
        ensures
            r is None,
    {
        None
    }

    fn unit(&self) -> (r: Option<&'static str>)
        ensures
            r is None,
    {
        None
    }

    fn interpret_result(&self, input: u32) -> (r: u32)
        ensures
            r == input,
    {
        input
    }
}

/// Mode 0x01, PID 0x02: freeze DTC;
/// `interpret_result` yields a reserved payload with no decoded value.
pub struct FreezeDTC;

impl FreezeDTC {
    pub fn new() -> Self {
        FreezeDTC
    }
}

impl Pid for FreezeDTC {
    type Input = u16;

    type Output = ();

    open spec fn spec_mode(&self) -> u8 {
        0x01
    }

    open spec fn spec_pid(&self) -> u8 {
        0x02
    }

    open spec fn spec_result_size(&self) -> ResultSize {
        ResultSize::Value(2)
    }

    fn mode_number(&self) -> (r: u8)
        ensures
            r == 0x01,
    {
        0x01
    }

    fn pid_number(&self) -> (r: u8)
        ensures
            r == 0x02,
    {
        0x02
    }

    fn result_size(&self) -> (r: ResultSize)
        ensures
            r == ResultSize::Value(2),
    {
        ResultSize::Value(0x02)
    }

    fn description(&self) -> (r: &'static str)
        ensures
            r@ == "Freeze DTC"@,
    {
        "Freeze DTC"
    }

    fn max(&self) -> (r: Option<()>)
        ensures
            r is None,
    {
        None
    }

    fn min(&self) -> (r: Option<()>)
        ensures
            r is None,
    {
        None
    }

    fn unit(&self) -> (r: Option<&'static str>)
        ensures
            r is None,
    {
        None
    }

    fn interpret_result(&self, _input: u16) -> () {
    }
}

/// Mode 0x01, PID 0x03: fuel system status;
/// `interpret_result` yields the status of the two fuel systems.
pub struct FuelSystemStatus;

impl FuelSystemStatus {
    pub fn new() -> Self {
        FuelSystemStatus
    }
}

impl Pid for FuelSystemStatus {
    type Input = u16;

    type Output = (FuelSystem, FuelSystem);

    open spec fn spec_mode(&self) -> u8 {
        0x01
    }

    open spec fn spec_pid(&self) -> u8 {
        0x03
    }

    open spec fn spec_result_size(&self) -> ResultSize {
        ResultSize::Value(2)
    }

    fn mode_number(&self) -> (r: u8)
        ensures
            r == 0x01,
    {
        0x01
    }

    fn pid_number(&self) -> (r: u8)
        ensures
            r == 0x03,
    {
        0x03
    }

    fn result_size(&self) -> (r: ResultSize)
        ensures
            r == ResultSize::Value(2),
    {
        ResultSize::Value(0x02)
    }

    fn description(&self) -> (r: &'static str)
        ensures
            r@ == "Fuel system status"@,
    {
        "Fuel system status"
    }

    fn max(&self) -> (r: Option<(FuelSystem, FuelSystem)>)
        ensures
            r is None,
    {
        None
    }

    fn min(&self) -> (r: Option<(FuelSystem, FuelSystem)>)
        ensures
            r is None,
    {
        None
    }

    fn unit(&self) -> (r: Option<&'static str>)
        ensures
            r is None,
    {
        None
    }

    fn interpret_result(&self, input: u16) -> (r: (FuelSystem, FuelSystem))
        ensures
            r.0 == fuel_system_from_byte((input & 0xff) as u8),
            r.1 == fuel_system_from_byte((input >> 8) as u8),
    {
        decode_fuel_system(input)
    }
}

/// Mode 0x01, PID 0x04: calculated engine load;
/// `interpret_result` yields engine load as a percentage.
pub struct EngineLoad;

impl EngineLoad {
    pub fn new() -> Self {
        EngineLoad
    }
}

impl Pid for EngineLoad {
    type Input = u8;

    type Output = Ratio;

    open spec fn spec_mode(&self) -> u8 {
        0x01
    }

    open spec fn spec_pid(&self) -> u8 {
        0x04
    }

    open spec fn spec_result_size(&self) -> ResultSize {
        ResultSize::Value(1)
    }

    fn mode_number(&self) -> (r: u8)
        ensures
            r == 0x01,
    {
        0x01
    }

    fn pid_number(&self) -> (r: u8)
        ensures
            r == 0x04,
    {
        0x04
    }

    fn result_size(&self) -> (r: ResultSize)
        ensures
            r == ResultSize::Value(1),
    {
        ResultSize::Value(0x01)
    }

    fn description(&self) -> (r: &'static str)
        ensures
            r@ == "Calculated engine load"@,
    {
        "Calculated engine load"
    }

    fn max(&self) -> (r: Option<Ratio>)
        ensures
            r == Some(Ratio { num: 100i32, den: 1u32 }),
    {
        Some(Ratio { num: 100i32, den: 1u32 })
    }

    fn min(&self) -> (r: Option<Ratio>)
        ensures
            r == Some(Ratio { num: 0i32, den: 1u32 }),
    {
        Some(Ratio { num: 0i32, den: 1u32 })
    }

    fn unit(&self) -> (r: Option<&'static str>)
        ensures
            r matches Some(u) && u@ == "%"@,
    {
        Some("%")
    }

    fn interpret_result(&self, input: u8) -> (r: Ratio)
        ensures
            r == percent_ratio(input),
    {
        decode_percent(input)
    }
}

/// Mode 0x01, PID 0x05: engine coolant temperature;
/// `interpret_result` yields coolant temperature in degrees celsius.
pub struct EngineCoolantTemperature;

impl EngineCoolantTemperature {
    pub fn new() -> Self {
        EngineCoolantTemperature
    }
}

impl Pid for EngineCoolantTemperature {
    type Input = u8;

    type Output = i16;

    open spec fn spec_mode(&self) -> u8 {
        0x01
    }

    open spec fn spec_pid(&self) -> u8 {
        0x05
    }

    open spec fn spec_result_size(&self) -> ResultSize {
        ResultSize::Value(1)
    }

    fn mode_number(&self) -> (r: u8)
        ensures
            r == 0x01,
    {
        0x01
    }

    fn pid_number(&self) -> (r: u8)
        ensures
            r == 0x05,
    {
        0x05
    }

    fn result_size(&self) -> (r: ResultSize)
        ensures
            r == ResultSize::Value(1),
    {
        ResultSize::Value(0x01)
    }

    fn description(&self) -> (r: &'static str)
        ensures
            r@ == "Engine coolant temperature"@,
    {
        "Engine coolant temperature"
    }

    fn max(&self) -> (r: Option<i16>)
        ensures
            r == Some(215i16),
    {
        Some(215i16)
    }

    fn min(&self) -> (r: Option<i16>)
        ensures
            r == Some(-40i16),
    {
        Some(-40i16)
    }

    fn unit(&self) -> (r: Option<&'static str>)
        ensures
            r matches Some(u) && u@ == "\u{b0}C"@,
    {
        Some("\u{b0}C")
    }

    fn interpret_result(&self, input: u8) -> (r: i16)
        ensures
            r == input - 40,
    {
        decode_celsius(input)
    }
}

/// Mode 0x01, PID 0x06: short term fuel trim, bank 1;
/// `interpret_result` yields a fuel-trim percentage.
pub struct ShortTermFuelTrim1;

impl ShortTermFuelTrim1 {
    pub fn new() -> Self {
        ShortTermFuelTrim1
    }
}

impl Pid for ShortTermFuelTrim1 {
    type Input = u8;

    type Output = Ratio;

    open spec fn spec_mode(&self) -> u8 {
        0x01
    }

    open spec fn spec_pid(&self) -> u8 {
        0x06
    }

    open spec fn spec_result_size(&self) -> ResultSize {
        ResultSize::Value(1)
    }

    fn mode_number(&self) -> (r: u8)
        ensures
            r == 0x01,
    {
        0x01
    }

    fn pid_number(&self) -> (r: u8)
        ensures
            r == 0x06,
    {
        0x06
    }

    fn result_size(&self) -> (r: ResultSize)
        ensures
            r == ResultSize::Value(1),
    {
        ResultSize::Value(0x01)
    }

    fn description(&self) -> (r: &'static str)
        ensures
            r@ == "Short term fuel trim, bank 1"@,
    {
        "Short term fuel trim, bank 1"
    }

    fn max(&self) -> (r: Option<Ratio>)
        ensures
            r == Some(Ratio { num: 992i32, den: 10u32 }),
    {
        Some(Ratio { num: 992i32, den: 10u32 })
    }

    fn min(&self) -> (r: Option<Ratio>)
        ensures
            r == Some(Ratio { num: -100i32, den: 1u32 }),
    {
        Some(Ratio { num: -100i32, den: 1u32 })
    }

    fn unit(&self) -> (r: Option<&'static str>)
        ensures
            r matches Some(u) && u@ == "%"@,
    {
        Some("%")
    }

    fn interpret_result(&self, input: u8) -> (r: Ratio)
        ensures
            r == fuel_trim_ratio(input),
    {
        decode_fuel_trim(input)
    }
}

/// Mode 0x01, PID 0x07: long term fuel trim, bank 1;
/// `interpret_result` yields a fuel-trim percentage.
pub struct LongTermFuelTrim1;

impl LongTermFuelTrim1 {
    pub fn new() -> Self {
        LongTermFuelTrim1
    }
}

impl Pid for LongTermFuelTrim1 {
    type Input = u8;

    type Output = Ratio;

    open spec fn spec_mode(&self) -> u8 {
        0x01
    }

    open spec fn spec_pid(&self) -> u8 {
        0x07
    }

    open spec fn spec_result_size(&self) -> ResultSize {
        ResultSize::Value(1)
    }

    fn mode_number(&self) -> (r: u8)
        ensures
            r == 0x01,
    {
        0x01
    }

    fn pid_number(&self) -> (r: u8)
        ensures
            r == 0x07,
    {
        0x07
    }

    fn result_size(&self) -> (r: ResultSize)
        ensures
            r == ResultSize::Value(1),
    {
        ResultSize::Value(0x01)
    }

    fn description(&self) -> (r: &'static str)
        ensures
            r@ == "Long term fuel trim, bank 1"@,
    {
        "Long term fuel trim, bank 1"
    }

    fn max(&self) -> (r: Option<Ratio>)
        ensures
            r == Some(Ratio { num: 992i32, den: 10u32 }),
    {
        Some(Ratio { num: 992i32, den: 10u32 })
    }

    fn min(&self) -> (r: Option<Ratio>)
        ensures
            r == Some(Ratio { num: -100i32, den: 1u32 }),
    {
        Some(Ratio { num: -100i32, den: 1u32 })
    }

    fn unit(&self) -> (r: Option<&'static str>)
        ensures
            r matches Some(u) && u@ == "%"@,
    {
        Some("%")
    }

    fn interpret_result(&self, input: u8) -> (r: Ratio)
        ensures
            r == fuel_trim_ratio(input),
    {
        decode_fuel_trim(input)
    }
}

/// Mode 0x01, PID 0x08: short term fuel trim, bank 2;
/// `interpret_result` yields a fuel-trim percentage.
pub struct ShortTermFuelTrim2;

impl ShortTermFuelTrim2 {
    pub fn new() -> Self {
        ShortTermFuelTrim2
    }
}

impl Pid for ShortTermFuelTrim2 {
    type Input = u8;

    type Output = Ratio;

    open spec fn spec_mode(&self) -> u8 {
        0x01
    }

    open spec fn spec_pid(&self) -> u8 {
        0x08
    }

    open spec fn spec_result_size(&self) -> ResultSize {
        ResultSize::Value(1)
    }

    fn mode_number(&self) -> (r: u8)
        ensures
            r == 0x01,
    {
        0x01
    }

    fn pid_number(&self) -> (r: u8)
        ensures
            r == 0x08,
    {
        0x08
    }

    fn result_size(&self) -> (r: ResultSize)
        ensures
            r == ResultSize::Value(1),
    {
        ResultSize::Value(0x01)
    }

    fn description(&self) -> (r: &'static str)
        ensures
            r@ == "Short term fuel trim, bank 2"@,
    {
        "Short term fuel trim, bank 2"
    }

    fn max(&self) -> (r: Option<Ratio>)
        ensures
            r == Some(Ratio { num: 992i32, den: 10u32 }),
    {
        Some(Ratio { num: 992i32, den: 10u32 })
    }

    fn min(&self) -> (r: Option<Ratio>)
        ensures
            r == Some(Ratio { num: -100i32, den: 1u32 }),
    {
        Some(Ratio { num: -100i32, den: 1u32 })
    }

    fn unit(&self) -> (r: Option<&'static str>)
        ensures
            r matches Some(u) && u@ == "%"@,
    {
        Some("%")
    }

    fn interpret_result(&self, input: u8) -> (r: Ratio)
        ensures
            r == fuel_trim_ratio(input),
    {
        decode_fuel_trim(input)
    }
}

/// Mode 0x01, PID 0x07: long term fuel trim, bank 2;
/// `interpret_result` yields a fuel-trim percentage.
///
/// This descriptor declares PID 0x07, the same number as
/// [`LongTermFuelTrim1`]; the registry's uniqueness invariant therefore
/// keeps only one of the two in the default table.
pub struct LongTermFuelTrim2;

impl LongTermFuelTrim2 {
    pub fn new() -> Self {
        LongTermFuelTrim2
    }
}

impl Pid for LongTermFuelTrim2 {
    type Input = u8;

    type Output = Ratio;

    open spec fn spec_mode(&self) -> u8 {
        0x01
    }

    open spec fn spec_pid(&self) -> u8 {
        0x07
    }

    open spec fn spec_result_size(&self) -> ResultSize {
        ResultSize::Value(1)
    }

    fn mode_number(&self) -> (r: u8)
        ensures
            r == 0x01,
    {
        0x01
    }

    fn pid_number(&self) -> (r: u8)
        ensures
            r == 0x07,
    {
        0x07
    }

    fn result_size(&self) -> (r: ResultSize)
        ensures
            r == ResultSize::Value(1),
    {
        ResultSize::Value(0x01)
    }

    fn description(&self) -> (r: &'static str)
        ensures
            r@ == "Long term fuel trim, bank 2"@,
    {
        "Long term fuel trim, bank 2"
    }

    fn max(&self) -> (r: Option<Ratio>)
        ensures
            r == Some(Ratio { num: 992i32, den: 10u32 }),
    {
        Some(Ratio { num: 992i32, den: 10u32 })
    }

    fn min(&self) -> (r: Option<Ratio>)
        ensures
            r == Some(Ratio { num: -100i32, den: 1u32 }),
    {
        Some(Ratio { num: -100i32, den: 1u32 })
    }

    fn unit(&self) -> (r: Option<&'static str>)
        ensures
            r matches Some(u) && u@ == "%"@,
    {
        Some("%")
    }

    fn interpret_result(&self, input: u8) -> (r: Ratio)
        ensures
            r == fuel_trim_ratio(input),
    {
        decode_fuel_trim(input)
    }
}

/// Mode 0x01, PID 0x0a: fuel pressure (gauge);
/// `interpret_result` yields fuel pressure in kPa.
pub struct FuelPressure;

impl FuelPressure {
    pub fn new() -> Self {
        FuelPressure
    }
}

impl Pid for FuelPressure {
    type Input = u8;

    type Output = u16;

    open spec fn spec_mode(&self) -> u8 {
        0x01
    }

    open spec fn spec_pid(&self) -> u8 {
        0x0a
    }

    open spec fn spec_result_size(&self) -> ResultSize {
        ResultSize::Value(1)
    }

    fn mode_number(&self) -> (r: u8)
        ensures
            r == 0x01,
    {
        0x01
    }

    fn pid_number(&self) -> (r: u8)
        ensures
            r == 0x0a,
    {
        0x0a
    }

    fn result_size(&self) -> (r: ResultSize)
        ensures
            r == ResultSize::Value(1),
    {
        ResultSize::Value(0x01)
    }

    fn description(&self) -> (r: &'static str)
        ensures
            r@ == "Fuel pressure (gauge)"@,
    {
        "Fuel pressure (gauge)"
    }

    fn max(&self) -> (r: Option<u16>)
        ensures
            r == Some(765u16),
    {
        Some(765u16)
    }

    fn min(&self) -> (r: Option<u16>)
        ensures
            r == Some(0u16),
    {
        Some(0u16)
    }

    fn unit(&self) -> (r: Option<&'static str>)
        ensures
            r matches Some(u) && u@ == "kPa"@,
    {
        Some("kPa")
    }

    fn interpret_result(&self, input: u8) -> (r: u16)
        ensures
            r == 3 * input,
    {
        input as u16 * 3
    }
}

/// Mode 0x01, PID 0x0b: intake manifold absolute pressure;
/// `interpret_result` yields manifold pressure in kPa, the byte itself.
pub struct IntakeManifoldAbsolutePressure;

impl IntakeManifoldAbsolutePressure {
    pub fn new() -> Self {
        IntakeManifoldAbsolutePressure
    }
}

impl Pid for IntakeManifoldAbsolutePressure {
    type Input = u8;

    type Output = u8;

    open spec fn spec_mode(&self) -> u8 {
        0x01
    }

    open spec fn spec_pid(&self) -> u8 {
        0x0b
    }

    open spec fn spec_result_size(&self) -> ResultSize {
        ResultSize::Value(1)
    }

    fn mode_number(&self) -> (r: u8)
        ensures
            r == 0x01,
    {
        0x01
    }

    fn pid_number(&self) -> (r: u8)
        ensures
            r == 0x0b,
    {
        0x0b
    }

    fn result_size(&self) -> (r: ResultSize)
        ensures
            r == ResultSize::Value(1),
    {
        ResultSize::Value(0x01)
    }

    fn description(&self) -> (r: &'static str)
        ensures
            r@ == "Intake manifold absolute pressure"@,
    {
        "Intake manifold absolute pressure"
    }

    fn max(&self) -> (r: Option<u8>)
        ensures
            r == Some(255u8),
    {
        Some(255u8)
    }

    fn min(&self) -> (r: Option<u8>)
        ensures
            r == Some(0u8),
    {
        Some(0u8)
    }

    fn unit(&self) -> (r: Option<&'static str>)
        ensures
            r matches Some(u) && u@ == "kPa"@,
    {
        Some("kPa")
    }

    fn interpret_result(&self, input: u8) -> (r: u8)
        ensures
            r == input,
    {
        input
    }
}

/// Mode 0x01, PID 0x0c: engine speed;
/// `interpret_result` yields engine speed in rpm.
pub struct EngineSpeed;

impl EngineSpeed {
    pub fn new() -> Self {
        EngineSpeed
    }
}

impl Pid for EngineSpeed {
    type Input = u16;

    type Output = Ratio;

    open spec fn spec_mode(&self) -> u8 {
        0x01
    }

    open spec fn spec_pid(&self) -> u8 {
        0x0c
    }

    open spec fn spec_result_size(&self) -> ResultSize {
        ResultSize::Value(2)
    }

    fn mode_number(&self) -> (r: u8)
        ensures
            r == 0x01,
    {
        0x01
    }

    fn pid_number(&self) -> (r: u8)
        ensures
            r == 0x0c,
    {
        0x0c
    }

    fn result_size(&self) -> (r: ResultSize)
        ensures
            r == ResultSize::Value(2),
    {
        ResultSize::Value(0x02)
    }

    fn description(&self) -> (r: &'static str)
        ensures
            r@ == "Engine speed"@,
    {
        "Engine speed"
    }

    fn max(&self) -> (r: Option<Ratio>)
        ensures
            r == Some(Ratio { num: 65535i32, den: 4u32 }),
    {
        Some(Ratio { num: 65535i32, den: 4u32 })
    }

    fn min(&self) -> (r: Option<Ratio>)
        ensures
            r == Some(Ratio { num: 0i32, den: 1u32 }),
    {
        Some(Ratio { num: 0i32, den: 1u32 })
    }

    fn unit(&self) -> (r: Option<&'static str>)
        ensures
            r matches Some(u) && u@ == "rpm"@,
    {
        Some("rpm")
    }

    fn interpret_result(&self, input: u16) -> (r: Ratio)
        ensures
            r == rpm_ratio(input),
    {
        decode_rpm(input)
    }
}

/// Mode 0x01, PID 0x0d: vehicle speed;
/// `interpret_result` yields vehicle speed in km/h, the byte itself.
pub struct VehicleSpeed;

impl VehicleSpeed {
    pub fn new() -> Self {
        VehicleSpeed
    }
}

impl Pid for VehicleSpeed {
    type Input = u8;

    type Output = u8;

    open spec fn spec_mode(&self) -> u8 {
        0x01
    }

    open spec fn spec_pid(&self) -> u8 {
        0x0d
    }

    open spec fn spec_result_size(&self) -> ResultSize {
        ResultSize::Value(1)
    }

    fn mode_number(&self) -> (r: u8)
        ensures
            r == 0x01,
    {
        0x01
    }

    fn pid_number(&self) -> (r: u8)
        ensures
            r == 0x0d,
    {
        0x0d
    }

    fn result_size(&self) -> (r: ResultSize)
        ensures
            r == ResultSize::Value(1),
    {
        ResultSize::Value(0x01)
    }

    fn description(&self) -> (r: &'static str)
        ensures
            r@ == "Vehicle speed"@,
    {
        "Vehicle speed"
    }

    fn max(&self) -> (r: Option<u8>)
        ensures
            r == Some(255u8),
    {
        Some(255u8)
    }

    fn min(&self) -> (r: Option<u8>)
        ensures
            r == Some(0u8),
    {
        Some(0u8)
    }

    fn unit(&self) -> (r: Option<&'static str>)
        ensures
            r matches Some(u) && u@ == "km/h"@,
    {
        Some("km/h")
    }

    fn interpret_result(&self, input: u8) -> (r: u8)
        ensures
            r == input,
    {
        input
    }
}

/// Mode 0x01, PID 0x0e: timing advance;
/// `interpret_result` yields ignition timing advance in degrees before top dead center.
pub struct TimingAdvance;

impl TimingAdvance {
    pub fn new() -> Self {
        TimingAdvance
    }
}

impl Pid for TimingAdvance {
    type Input = u8;

    type Output = Ratio;

    open spec fn spec_mode(&self) -> u8 {
        0x01
    }

    open spec fn spec_pid(&self) -> u8 {
        0x0e
    }

    open spec fn spec_result_size(&self) -> ResultSize {
        ResultSize::Value(1)
    }

    fn mode_number(&self) -> (r: u8)
        ensures
            r == 0x01,
    {
        0x01
    }

    fn pid_number(&self) -> (r: u8)
        ensures
            r == 0x0e,
    {
        0x0e
    }

    fn result_size(&self) -> (r: ResultSize)
        ensures
            r == ResultSize::Value(1),
    {
        ResultSize::Value(0x01)
    }

    fn description(&self) -> (r: &'static str)
        ensures
            r@ == "Timing advance"@,
    {
        "Timing advance"
    }

    fn max(&self) -> (r: Option<Ratio>)
        ensures
            r == Some(Ratio { num: 127i32, den: 2u32 }),
    {
        Some(Ratio { num: 127i32, den: 2u32 })
    }

    fn min(&self) -> (r: Option<Ratio>)
        ensures
            r == Some(Ratio { num: -64i32, den: 1u32 }),
    {
        Some(Ratio { num: -64i32, den: 1u32 })
    }

    fn unit(&self) -> (r: Option<&'static str>)
        ensures
            r matches Some(u) && u@ == "\u{b0}before TDC"@,
    {
        Some("\u{b0}before TDC")
    }

    fn interpret_result(&self, input: u8) -> (r: Ratio)
        ensures
            r == timing_advance_ratio(input),
    {
        decode_timing_advance(input)
    }
}

/// Mode 0x01, PID 0x0f: intake air temperature;
/// `interpret_result` yields intake air temperature in degrees celsius.
pub struct IntakeAirTemperature;

impl IntakeAirTemperature {
    pub fn new() -> Self {
        IntakeAirTemperature
    }
}

impl Pid for IntakeAirTemperature {
    type Input = u8;

    type Output = i16;

    open spec fn spec_mode(&self) -> u8 {
        0x01
    }

    open spec fn spec_pid(&self) -> u8 {
        0x0f
    }

    open spec fn spec_result_size(&self) -> ResultSize {
        ResultSize::Value(1)
    }

    fn mode_number(&self) -> (r: u8)
        ensures
            r == 0x01,
    {
        0x01
    }

    fn pid_number(&self) -> (r: u8)
        ensures
            r == 0x0f,
    {
        0x0f
    }

    fn result_size(&self) -> (r: ResultSize)
        ensures
            r == ResultSize::Value(1),
    {
        ResultSize::Value(0x01)
    }

    fn description(&self) -> (r: &'static str)
        ensures
            r@ == "Intake air temperature"@,
    {
        "Intake air temperature"
    }

    fn max(&self) -> (r: Option<i16>)
        ensures
            r == Some(215i16),
    {
        Some(215i16)
    }

    fn min(&self) -> (r: Option<i16>)
        ensures
            r == Some(-40i16),
    {
        Some(-40i16)
    }

    fn unit(&self) -> (r: Option<&'static str>)
        ensures
            r matches Some(u) && u@ == "\u{b0}C"@,
    {
        Some("\u{b0}C")
    }

    fn interpret_result(&self, input: u8) -> (r: i16)
        ensures
            r == input - 40,
    {
        decode_celsius(input)
    }
}

/// Mode 0x01, PID 0x10: mass air flow sensor air flow rate;
/// `interpret_result` yields mass air flow in grams per second.
pub struct MAFSensor;

impl MAFSensor {
    pub fn new() -> Self {
        MAFSensor
    }
}

impl Pid for MAFSensor {
    type Input = u16;

    type Output = Ratio;

    open spec fn spec_mode(&self) -> u8 {
        0x01
    }

    open spec fn spec_pid(&self) -> u8 {
        0x10
    }

    open spec fn spec_result_size(&self) -> ResultSize {
        ResultSize::Value(2)
    }

    fn mode_number(&self) -> (r: u8)
        ensures
            r == 0x01,
    {
        0x01
    }

    fn pid_number(&self) -> (r: u8)
        ensures
            r == 0x10,
    {
        0x10
    }

    fn result_size(&self) -> (r: ResultSize)
        ensures
            r == ResultSize::Value(2),
    {
        ResultSize::Value(0x02)
    }

    fn description(&self) -> (r: &'static str)
        ensures
            r@ == "Mass air flow sensor air flow rate"@,
    {
        "Mass air flow sensor air flow rate"
    }

    fn max(&self) -> (r: Option<Ratio>)
        ensures
            r == Some(Ratio { num: 65535i32, den: 100u32 }),
    {
        Some(Ratio { num: 65535i32, den: 100u32 })
    }

    fn min(&self) -> (r: Option<Ratio>)
        ensures
            r == Some(Ratio { num: 0i32, den: 1u32 }),
    {
        Some(Ratio { num: 0i32, den: 1u32 })
    }

    fn unit(&self) -> (r: Option<&'static str>)
        ensures
            r matches Some(u) && u@ == "grams/sec"@,
    {
        Some("grams/sec")
    }

    fn interpret_result(&self, input: u16) -> (r: Ratio)
        ensures
            r == maf_ratio(input),
    {
        decode_maf(input)
    }
}

/// Mode 0x01, PID 0x11: throttle position;
/// `interpret_result` yields throttle position as a percentage.
pub struct ThrottlePosition;

impl ThrottlePosition {
    pub fn new() -> Self {
        ThrottlePosition
    }
}

impl Pid for ThrottlePosition {
    type Input = u8;

    type Output = Ratio;

    open spec fn spec_mode(&self) -> u8 {
        0x01
    }

    open spec fn spec_pid(&self) -> u8 {
        0x11
    }

    open spec fn spec_result_size(&self) -> ResultSize {
        ResultSize::Value(1)
    }

    fn mode_number(&self) -> (r: u8)
        ensures
            r == 0x01,
    {
        0x01
    }

    fn pid_number(&self) -> (r: u8)
        ensures
            r == 0x11,
    {
        0x11
    }

    fn result_size(&self) -> (r: ResultSize)
        ensures
            r == ResultSize::Value(1),
    {
        ResultSize::Value(0x01)
    }

    fn description(&self) -> (r: &'static str)
        ensures
            r@ == "Throttle position"@,
    {
        "Throttle position"
    }

    fn max(&self) -> (r: Option<Ratio>)
        ensures
            r == Some(Ratio { num: 100i32, den: 1u32 }),
    {
        Some(Ratio { num: 100i32, den: 1u32 })
    }

    fn min(&self) -> (r: Option<Ratio>)
        ensures
            r == Some(Ratio { num: 0i32, den: 1u32 }),
    {
        Some(Ratio { num: 0i32, den: 1u32 })
    }

    fn unit(&self) -> (r: Option<&'static str>)
        ensures
            r matches Some(u) && u@ == "%"@,
    {
        Some("%")
    }

    fn interpret_result(&self, input: u8) -> (r: Ratio)
        ensures
            r == percent_ratio(input),
    {
        decode_percent(input)
    }
}

/// Mode 0x01, PID 0x12: commanded secondary air status;
/// `interpret_result` yields the commanded secondary air status.
pub struct CommendedSecondaryAirStatus;

impl CommendedSecondaryAirStatus {
    pub fn new() -> Self {
        CommendedSecondaryAirStatus
    }
}

impl Pid for CommendedSecondaryAirStatus {
    type Input = u8;

    type Output = AirStatus;

    open spec fn spec_mode(&self) -> u8 {
        0x01
    }

    open spec fn spec_pid(&self) -> u8 {
        0x12
    }

    open spec fn spec_result_size(&self) -> ResultSize {
        ResultSize::Value(1)
    }

    fn mode_number(&self) -> (r: u8)
        ensures
            r == 0x01,
    {
        0x01
    }

    fn pid_number(&self) -> (r: u8)
        ensures
            r == 0x12,
    {
        0x12
    }

    fn result_size(&self) -> (r: ResultSize)
        ensures
            r == ResultSize::Value(1),
    {
        ResultSize::Value(0x01)
    }

    fn description(&self) -> (r: &'static str)
        ensures
            r@ == "Commanded secondary air status"@,
    {
        "Commanded secondary air status"
    }

    fn max(&self) -> (r: Option<AirStatus>)
        ensures
            r is None,
    {
        None
    }

    fn min(&self) -> (r: Option<AirStatus>)
        ensures
            r is None,
    {
        None
    }

    fn unit(&self) -> (r: Option<&'static str>)
        ensures
            r is None,
    {
        None
    }

    fn interpret_result(&self, input: u8) -> (r: AirStatus)
        ensures
            r == air_status_from_byte(input),
    {
        decode_air_status(input)
    }
}

/// Mode 0x01, PID 0x13: oxygen sensors present in two banks;
/// `interpret_result` yields a presence bitmap this crate does not decode.
pub struct OxygenSensorPresent;

impl OxygenSensorPresent {
    pub fn new() -> Self {
        OxygenSensorPresent
    }
}

impl Pid for OxygenSensorPresent {
    type Input = u8;

    type Output = ();

    open spec fn spec_mode(&self) -> u8 {
        0x01
    }

    open spec fn spec_pid(&self) -> u8 {
        0x13
    }

    open spec fn spec_result_size(&self) -> ResultSize {
        ResultSize::Value(1)
    }

    fn mode_number(&self) -> (r: u8)
        ensures
            r == 0x01,
    {
        0x01
    }

    fn pid_number(&self) -> (r: u8)
        ensures
            r == 0x13,
    {
        0x13
    }

    fn result_size(&self) -> (r: ResultSize)
        ensures
            r == ResultSize::Value(1),
    {
        ResultSize::Value(0x01)
    }

    fn description(&self) -> (r: &'static str)
        ensures
            r@ == "Oxygen sensors present in two banks"@,
    {
        "Oxygen sensors present in two banks"
    }

    fn max(&self) -> (r: Option<()>)
        ensures
            r is None,
    {
        None
    }

    fn min(&self) -> (r: Option<()>)
        ensures
            r is None,
    {
        None
    }

    fn unit(&self) -> (r: Option<&'static str>)
        ensures
            r is None,
    {
        None
    }

    fn interpret_result(&self, _input: u8) -> () {
    }
}

/// Mode 0x01, PID 0x14: oxygen sensor 1: voltage and short term fuel trim;
/// `interpret_result` yields sensor voltage and short-term fuel trim.
pub struct OxygenSensor1;

impl OxygenSensor1 {
    pub fn new() -> Self {
        OxygenSensor1
    }
}

impl Pid for OxygenSensor1 {
    type Input = u16;

    type Output = (Ratio, Ratio);

    open spec fn spec_mode(&self) -> u8 {
        0x01
    }

    open spec fn spec_pid(&self) -> u8 {
        0x14
    }

    open spec fn spec_result_size(&self) -> ResultSize {
        ResultSize::Value(2)
    }

    fn mode_number(&self) -> (r: u8)
        ensures
            r == 0x01,
    {
        0x01
    }

    fn pid_number(&self) -> (r: u8)
        ensures
            r == 0x14,
    {
        0x14
    }

    fn result_size(&self) -> (r: ResultSize)
        ensures
            r == ResultSize::Value(2),
    {
        ResultSize::Value(0x02)
    }

    fn description(&self) -> (r: &'static str)
        ensures
            r@ == "Oxygen sensor 1: voltage and short term fuel trim"@,
    {
        "Oxygen sensor 1: voltage and short term fuel trim"
    }

    fn max(&self) -> (r: Option<(Ratio, Ratio)>)
        ensures
            r == Some((Ratio { num: 1275i32, den: 1000u32 }, Ratio { num: 992i32, den: 10u32 })),
    {
        Some((Ratio { num: 1275i32, den: 1000u32 }, Ratio { num: 992i32, den: 10u32 }))
    }

    fn min(&self) -> (r: Option<(Ratio, Ratio)>)
        ensures
            r == Some((Ratio { num: 0i32, den: 1u32 }, Ratio { num: -100i32, den: 1u32 })),
    {
        Some((Ratio { num: 0i32, den: 1u32 }, Ratio { num: -100i32, den: 1u32 }))
    }

    fn unit(&self) -> (r: Option<&'static str>)
        ensures
            r matches Some(u) && u@ == "(volts, %)"@,
    {
        Some("(volts, %)")
    }

    fn interpret_result(&self, input: u16) -> (r: (Ratio, Ratio))
        ensures
            r.0 == o2_voltage_ratio((input >> 8) as u8),
            r.1 == o2_trim_ratio((input & 0xff) as u8),
    {
        decode_oxygen_sensor(input)
    }
}

/// Mode 0x01, PID 0x15: oxygen sensor 2: voltage and short term fuel trim;
/// `interpret_result` yields sensor voltage and short-term fuel trim.
pub struct OxygenSensor2;

impl OxygenSensor2 {
    pub fn new() -> Self {
        OxygenSensor2
    }
}

impl Pid for OxygenSensor2 {
    type Input = u16;

    type Output = (Ratio, Ratio);

    open spec fn spec_mode(&self) -> u8 {
        0x01
    }

    open spec fn spec_pid(&self) -> u8 {
        0x15
    }

    open spec fn spec_result_size(&self) -> ResultSize {
        ResultSize::Value(2)
    }

    fn mode_number(&self) -> (r: u8)
        ensures
            r == 0x01,
    {
        0x01
    }

    fn pid_number(&self) -> (r: u8)
        ensures
            r == 0x15,
    {
        0x15
    }

    fn result_size(&self) -> (r: ResultSize)
        ensures
            r == ResultSize::Value(2),
    {
        ResultSize::Value(0x02)
    }

    fn description(&self) -> (r: &'static str)
        ensures
            r@ == "Oxygen sensor 2: voltage and short term fuel trim"@,
    {
        "Oxygen sensor 2: voltage and short term fuel trim"
    }

    fn max(&self) -> (r: Option<(Ratio, Ratio)>)
        ensures
            r == Some((Ratio { num: 1275i32, den: 1000u32 }, Ratio { num: 992i32, den: 10u32 })),
    {
        Some((Ratio { num: 1275i32, den: 1000u32 }, Ratio { num: 992i32, den: 10u32 }))
    }

    fn min(&self) -> (r: Option<(Ratio, Ratio)>)
        ensures
            r == Some((Ratio { num: 0i32, den: 1u32 }, Ratio { num: -100i32, den: 1u32 })),
    {
        Some((Ratio { num: 0i32, den: 1u32 }, Ratio { num: -100i32, den: 1u32 }))
    }

    fn unit(&self) -> (r: Option<&'static str>)
        ensures
            r matches Some(u) && u@ == "(volts, %)"@,
    {
        Some("(volts, %)")
    }

    fn interpret_result(&self, input: u16) -> (r: (Ratio, Ratio))
        ensures
            r.0 == o2_voltage_ratio((input >> 8) as u8),
            r.1 == o2_trim_ratio((input & 0xff) as u8),
    {
        decode_oxygen_sensor(input)
    }
}

/// Mode 0x01, PID 0x16: oxygen sensor 3: voltage and short term fuel trim;
/// `interpret_result` yields sensor voltage and short-term fuel trim.
pub struct OxygenSensor3;

impl OxygenSensor3 {
    pub fn new() -> Self {
        OxygenSensor3
    }
}

impl Pid for OxygenSensor3 {
    type Input = u16;

    type Output = (Ratio, Ratio);

    open spec fn spec_mode(&self) -> u8 {
        0x01
    }

    open spec fn spec_pid(&self) -> u8 {
        0x16
    }

    open spec fn spec_result_size(&self) -> ResultSize {
        ResultSize::Value(2)
    }

    fn mode_number(&self) -> (r: u8)
        ensures
            r == 0x01,
    {
        0x01
    }

    fn pid_number(&self) -> (r: u8)
        ensures
            r == 0x16,
    {
        0x16
    }

    fn result_size(&self) -> (r: ResultSize)
        ensures
            r == ResultSize::Value(2),
    {
        ResultSize::Value(0x02)
    }

    fn description(&self) -> (r: &'static str)
        ensures
            r@ == "Oxygen sensor 3: voltage and short term fuel trim"@,
    {
        "Oxygen sensor 3: voltage and short term fuel trim"
    }

    fn max(&self) -> (r: Option<(Ratio, Ratio)>)
        ensures
            r == Some((Ratio { num: 1275i32, den: 1000u32 }, Ratio { num: 992i32, den: 10u32 })),
    {
        Some((Ratio { num: 1275i32, den: 1000u32 }, Ratio { num: 992i32, den: 10u32 }))
    }

    fn min(&self) -> (r: Option<(Ratio, Ratio)>)
        ensures
            r == Some((Ratio { num: 0i32, den: 1u32 }, Ratio { num: -100i32, den: 1u32 })),
    {
        Some((Ratio { num: 0i32, den: 1u32 }, Ratio { num: -100i32, den: 1u32 }))
    }

    fn unit(&self) -> (r: Option<&'static str>)
        ensures
            r matches Some(u) && u@ == "(volts, %)"@,
    {
        Some("(volts, %)")
    }

    fn interpret_result(&self, input: u16) -> (r: (Ratio, Ratio))
        ensures
            r.0 == o2_voltage_ratio((input >> 8) as u8),
            r.1 == o2_trim_ratio((input & 0xff) as u8),
    {
        decode_oxygen_sensor(input)
    }
}

/// Mode 0x01, PID 0x17: oxygen sensor 4: voltage and short term fuel trim;
/// `interpret_result` yields sensor voltage and short-term fuel trim.
pub struct OxygenSensor4;

impl OxygenSensor4 {
    pub fn new() -> Self {
        OxygenSensor4
    }
}

impl Pid for OxygenSensor4 {
    type Input = u16;

    type Output = (Ratio, Ratio);

    open spec fn spec_mode(&self) -> u8 {
        0x01
    }

    open spec fn spec_pid(&self) -> u8 {
        0x17
    }

    open spec fn spec_result_size(&self) -> ResultSize {
        ResultSize::Value(2)
    }

    fn mode_number(&self) -> (r: u8)
        ensures
            r == 0x01,
    {
        0x01
    }

    fn pid_number(&self) -> (r: u8)
        ensures
            r == 0x17,
    {
        0x17
    }

    fn result_size(&self) -> (r: ResultSize)
        ensures
            r == ResultSize::Value(2),
    {
        ResultSize::Value(0x02)
    }

    fn description(&self) -> (r: &'static str)
        ensures
            r@ == "Oxygen sensor 4: voltage and short term fuel trim"@,
    {
        "Oxygen sensor 4: voltage and short term fuel trim"
    }

    fn max(&self) -> (r: Option<(Ratio, Ratio)>)
        ensures
            r == Some((Ratio { num: 1275i32, den: 1000u32 }, Ratio { num: 992i32, den: 10u32 })),
    {
        Some((Ratio { num: 1275i32, den: 1000u32 }, Ratio { num: 992i32, den: 10u32 }))
    }

    fn min(&self) -> (r: Option<(Ratio, Ratio)>)
        ensures
            r == Some((Ratio { num: 0i32, den: 1u32 }, Ratio { num: -100i32, den: 1u32 })),
    {
        Some((Ratio { num: 0i32, den: 1u32 }, Ratio { num: -100i32, den: 1u32 }))
    }

    fn unit(&self) -> (r: Option<&'static str>)
        ensures
            r matches Some(u) && u@ == "(volts, %)"@,
    {
        Some("(volts, %)")
    }

    fn interpret_result(&self, input: u16) -> (r: (Ratio, Ratio))
        ensures
            r.0 == o2_voltage_ratio((input >> 8) as u8),
            r.1 == o2_trim_ratio((input & 0xff) as u8),
    {
        decode_oxygen_sensor(input)
    }
}

/// Mode 0x01, PID 0x18: oxygen sensor 5: voltage and short term fuel trim;
/// `interpret_result` yields sensor voltage and short-term fuel trim.
pub struct OxygenSensor5;

impl OxygenSensor5 {
    pub fn new() -> Self {
        OxygenSensor5
    }
}

impl Pid for OxygenSensor5 {
    type Input = u16;

    type Output = (Ratio, Ratio);

    open spec fn spec_mode(&self) -> u8 {
        0x01
    }

    open spec fn spec_pid(&self) -> u8 {
        0x18
    }

    open spec fn spec_result_size(&self) -> ResultSize {
        ResultSize::Value(2)
    }

    fn mode_number(&self) -> (r: u8)
        ensures
            r == 0x01,
    {
        0x01
    }

    fn pid_number(&self) -> (r: u8)
        ensures
            r == 0x18,
    {
        0x18
    }

    fn result_size(&self) -> (r: ResultSize)
        ensures
            r == ResultSize::Value(2),
    {
        ResultSize::Value(0x02)
    }

    fn description(&self) -> (r: &'static str)
        ensures
            r@ == "Oxygen sensor 5: voltage and short term fuel trim"@,
    {
        "Oxygen sensor 5: voltage and short term fuel trim"
    }

    fn max(&self) -> (r: Option<(Ratio, Ratio)>)
        ensures
            r == Some((Ratio { num: 1275i32, den: 1000u32 }, Ratio { num: 992i32, den: 10u32 })),
    {
        Some((Ratio { num: 1275i32, den: 1000u32 }, Ratio { num: 992i32, den: 10u32 }))
    }

    fn min(&self) -> (r: Option<(Ratio, Ratio)>)
        ensures
            r == Some((Ratio { num: 0i32, den: 1u32 }, Ratio { num: -100i32, den: 1u32 })),
    {
        Some((Ratio { num: 0i32, den: 1u32 }, Ratio { num: -100i32, den: 1u32 }))
    }

    fn unit(&self) -> (r: Option<&'static str>)
        ensures
            r matches Some(u) && u@ == "(volts, %)"@,
    {
        Some("(volts, %)")
    }

    fn interpret_result(&self, input: u16) -> (r: (Ratio, Ratio))
        ensures
            r.0 == o2_voltage_ratio((input >> 8) as u8),
            r.1 == o2_trim_ratio((input & 0xff) as u8),
    {
        decode_oxygen_sensor(input)
    }
}

/// Mode 0x01, PID 0x19: oxygen sensor 6: voltage and short term fuel trim;
/// `interpret_result` yields sensor voltage and short-term fuel trim.
pub struct OxygenSensor6;

impl OxygenSensor6 {
    pub fn new() -> Self {
        OxygenSensor6
    }
}

impl Pid for OxygenSensor6 {
    type Input = u16;

    type Output = (Ratio, Ratio);

    open spec fn spec_mode(&self) -> u8 {
        0x01
    }

    open spec fn spec_pid(&self) -> u8 {
        0x19
    }

    open spec fn spec_result_size(&self) -> ResultSize {
        ResultSize::Value(2)
    }

    fn mode_number(&self) -> (r: u8)
        ensures
            r == 0x01,
    {
        0x01
    }

    fn pid_number(&self) -> (r: u8)
        ensures
            r == 0x19,
    {
        0x19
    }

    fn result_size(&self) -> (r: ResultSize)
        ensures
            r == ResultSize::Value(2),
    {
        ResultSize::Value(0x02)
    }

    fn description(&self) -> (r: &'static str)
        ensures
            r@ == "Oxygen sensor 6: voltage and short term fuel trim"@,
    {
        "Oxygen sensor 6: voltage and short term fuel trim"
    }

    fn max(&self) -> (r: Option<(Ratio, Ratio)>)
        ensures
            r == Some((Ratio { num: 1275i32, den: 1000u32 }, Ratio { num: 992i32, den: 10u32 })),
    {
        Some((Ratio { num: 1275i32, den: 1000u32 }, Ratio { num: 992i32, den: 10u32 }))
    }

    fn min(&self) -> (r: Option<(Ratio, Ratio)>)
        ensures
            r == Some((Ratio { num: 0i32, den: 1u32 }, Ratio { num: -100i32, den: 1u32 })),
    {
        Some((Ratio { num: 0i32, den: 1u32 }, Ratio { num: -100i32, den: 1u32 }))
    }

    fn unit(&self) -> (r: Option<&'static str>)
        ensures
            r matches Some(u) && u@ == "(volts, %)"@,
    {
        Some("(volts, %)")
    }

    fn interpret_result(&self, input: u16) -> (r: (Ratio, Ratio))
        ensures
            r.0 == o2_voltage_ratio((input >> 8) as u8),
            r.1 == o2_trim_ratio((input & 0xff) as u8),
    {
        decode_oxygen_sensor(input)
    }
}

/// Mode 0x01, PID 0x1a: oxygen sensor 7: voltage and short term fuel trim;
/// `interpret_result` yields sensor voltage and short-term fuel trim.
pub struct OxygenSensor7;

impl OxygenSensor7 {
    pub fn new() -> Self {
        OxygenSensor7
    }
}

impl Pid for OxygenSensor7 {
    type Input = u16;

    type Output = (Ratio, Ratio);

    open spec fn spec_mode(&self) -> u8 {
        0x01
    }

    open spec fn spec_pid(&self) -> u8 {
        0x1a
    }

    open spec fn spec_result_size(&self) -> ResultSize {
        ResultSize::Value(2)
    }

    fn mode_number(&self) -> (r: u8)
        ensures
            r == 0x01,
    {
        0x01
    }

    fn pid_number(&self) -> (r: u8)
        ensures
            r == 0x1a,
    {
        0x1a
    }

    fn result_size(&self) -> (r: ResultSize)
        ensures
            r == ResultSize::Value(2),
    {
        ResultSize::Value(0x02)
    }

    fn description(&self) -> (r: &'static str)
        ensures
            r@ == "Oxygen sensor 7: voltage and short term fuel trim"@,
    {
        "Oxygen sensor 7: voltage and short term fuel trim"
    }

    fn max(&self) -> (r: Option<(Ratio, Ratio)>)
        ensures
            r == Some((Ratio { num: 1275i32, den: 1000u32 }, Ratio { num: 992i32, den: 10u32 })),
    {
        Some((Ratio { num: 1275i32, den: 1000u32 }, Ratio { num: 992i32, den: 10u32 }))
    }

    fn min(&self) -> (r: Option<(Ratio, Ratio)>)
        ensures
            r == Some((Ratio { num: 0i32, den: 1u32 }, Ratio { num: -100i32, den: 1u32 })),
    {
        Some((Ratio { num: 0i32, den: 1u32 }, Ratio { num: -100i32, den: 1u32 }))
    }

    fn unit(&self) -> (r: Option<&'static str>)
        ensures
            r matches Some(u) && u@ == "(volts, %)"@,
    {
        Some("(volts, %)")
    }

    fn interpret_result(&self, input: u16) -> (r: (Ratio, Ratio))
        ensures
            r.0 == o2_voltage_ratio((input >> 8) as u8),
            r.1 == o2_trim_ratio((input & 0xff) as u8),
    {
        decode_oxygen_sensor(input)
    }
}

/// Mode 0x01, PID 0x1b: oxygen sensor 8: voltage and short term fuel trim;
/// `interpret_result` yields sensor voltage and short-term fuel trim.
pub struct OxygenSensor8;

impl OxygenSensor8 {
    pub fn new() -> Self {
        OxygenSensor8
    }
}

impl Pid for OxygenSensor8 {
    type Input = u16;

    type Output = (Ratio, Ratio);

    open spec fn spec_mode(&self) -> u8 {
        0x01
    }

    open spec fn spec_pid(&self) -> u8 {
        0x1b
    }

    open spec fn spec_result_size(&self) -> ResultSize {
        ResultSize::Value(2)
    }

    fn mode_number(&self) -> (r: u8)
        ensures
            r == 0x01,
    {
        0x01
    }

    fn pid_number(&self) -> (r: u8)
        ensures
            r == 0x1b,
    {
        0x1b
    }

    fn result_size(&self) -> (r: ResultSize)
        ensures
            r == ResultSize::Value(2),
    {
        ResultSize::Value(0x02)
    }

    fn description(&self) -> (r: &'static str)
        ensures
            r@ == "Oxygen sensor 8: voltage and short term fuel trim"@,
    {
        "Oxygen sensor 8: voltage and short term fuel trim"
    }

    fn max(&self) -> (r: Option<(Ratio, Ratio)>)
        ensures
            r == Some((Ratio { num: 1275i32, den: 1000u32 }, Ratio { num: 992i32, den: 10u32 })),
    {
        Some((Ratio { num: 1275i32, den: 1000u32 }, Ratio { num: 992i32, den: 10u32 }))
    }

    fn min(&self) -> (r: Option<(Ratio, Ratio)>)
        ensures
            r == Some((Ratio { num: 0i32, den: 1u32 }, Ratio { num: -100i32, den: 1u32 })),
    {
        Some((Ratio { num: 0i32, den: 1u32 }, Ratio { num: -100i32, den: 1u32 }))
    }

    fn unit(&self) -> (r: Option<&'static str>)
        ensures
            r matches Some(u) && u@ == "(volts, %)"@,
    {
        Some("(volts, %)")
    }

    fn interpret_result(&self, input: u16) -> (r: (Ratio, Ratio))
        ensures
            r.0 == o2_voltage_ratio((input >> 8) as u8),
            r.1 == o2_trim_ratio((input & 0xff) as u8),
    {
        decode_oxygen_sensor(input)
    }
}

/// Mode 0x01, PID 0x1c: OBD standard this vehicle conforms to;
/// `interpret_result` yields the OBD compliance standard, an enumeration without bounds.
pub struct ObdStandardForThisVehicle;

impl ObdStandardForThisVehicle {
    pub fn new() -> Self {
        ObdStandardForThisVehicle
    }
}

impl Pid for ObdStandardForThisVehicle {
    type Input = u8;

    type Output = ObdStandard;

    open spec fn spec_mode(&self) -> u8 {
        0x01
    }

    open spec fn spec_pid(&self) -> u8 {
        0x1c
    }

    open spec fn spec_result_size(&self) -> ResultSize {
        ResultSize::Value(1)
    }

    fn mode_number(&self) -> (r: u8)
        ensures
            r == 0x01,
    {
        0x01
    }

    fn pid_number(&self) -> (r: u8)
        ensures
            r == 0x1c,
    {
        0x1c
    }

    fn result_size(&self) -> (r: ResultSize)
        ensures
            r == ResultSize::Value(1),
    {
        ResultSize::Value(0x01)
    }

    fn description(&self) -> (r: &'static str)
        ensures
            r@ == "OBD standard this vehicle conforms to"@,
    {
        "OBD standard this vehicle conforms to"
    }

    fn max(&self) -> (r: Option<ObdStandard>)
        ensures
            r is None,
    {
        None
    }

    fn min(&self) -> (r: Option<ObdStandard>)
        ensures
            r is None,
    {
        None
    }

    fn unit(&self) -> (r: Option<&'static str>)
        ensures
            r is None,
    {
        None
    }

    fn interpret_result(&self, input: u8) -> (r: ObdStandard)
        ensures
            r == obd_standard_from_byte(input),
    {
        decode_obd_standard(input)
    }
}

/// Mode 0x01, PID 0x1d: oxygen sensors present in four banks;
/// `interpret_result` yields a presence bitmap this crate does not decode.
pub struct OxygenSensorPresent4Banks;

impl OxygenSensorPresent4Banks {
    pub fn new() -> Self {
        OxygenSensorPresent4Banks
    }
}

impl Pid for OxygenSensorPresent4Banks {
    type Input = u8;

    type Output = ();

    open spec fn spec_mode(&self) -> u8 {
        0x01
    }

    open spec fn spec_pid(&self) -> u8 {
        0x1d
    }

    open spec fn spec_result_size(&self) -> ResultSize {
        ResultSize::Value(1)
    }

    fn mode_number(&self) -> (r: u8)
        ensures
            r == 0x01,
    {
        0x01
    }

    fn pid_number(&self) -> (r: u8)
        ensures
            r == 0x1d,
    {
        0x1d
    }

    fn result_size(&self) -> (r: ResultSize)
        ensures
            r == ResultSize::Value(1),
    {
        ResultSize::Value(0x01)
    }

    fn description(&self) -> (r: &'static str)
        ensures
            r@ == "Oxygen sensors present in four banks"@,
    {
        "Oxygen sensors present in four banks"
    }

    fn max(&self) -> (r: Option<()>)
        ensures
            r is None,
    {
        None
    }

    fn min(&self) -> (r: Option<()>)
        ensures
            r is None,
    {
        None
    }

    fn unit(&self) -> (r: Option<&'static str>)
        ensures
            r is None,
    {
        None
    }

    fn interpret_result(&self, _input: u8) -> () {
    }
}

/// Mode 0x01, PID 0x1e: auxiliary input status;
/// `interpret_result` yields whether the auxiliary input (power take off) is active.
pub struct AuxiliaryInputStatus;

impl AuxiliaryInputStatus {
    pub fn new() -> Self {
        AuxiliaryInputStatus
    }
}

impl Pid for AuxiliaryInputStatus {
    type Input = u8;

    type Output = State;

    open spec fn spec_mode(&self) -> u8 {
        0x01
    }

    open spec fn spec_pid(&self) -> u8 {
        0x1e
    }

    open spec fn spec_result_size(&self) -> ResultSize {
        ResultSize::Value(1)
    }

    fn mode_number(&self) -> (r: u8)
        ensures
            r == 0x01,
    {
        0x01
    }

    fn pid_number(&self) -> (r: u8)
        ensures
            r == 0x1e,
    {
        0x1e
    }

    fn result_size(&self) -> (r: ResultSize)
        ensures
            r == ResultSize::Value(1),
    {
        ResultSize::Value(0x01)
    }

    fn description(&self) -> (r: &'static str)
        ensures
            r@ == "Auxiliary input status"@,
    {
        "Auxiliary input status"
    }

    fn max(&self) -> (r: Option<State>)
        ensures
            r is None,
    {
        None
    }

    fn min(&self) -> (r: Option<State>)
        ensures
            r is None,
    {
        None
    }

    fn unit(&self) -> (r: Option<&'static str>)
        ensures
            r is None,
    {
        None
    }

    fn interpret_result(&self, input: u8) -> (r: State)
        ensures
            r == (if input >= 128 { State::On } else { State::Off }),
    {
        decode_auxiliary_input_status(input)
    }
}

/// Mode 0x01, PID 0x1f: run time since engine start;
/// `interpret_result` yields run time in seconds.
pub struct RunTimeSinceStart;

impl RunTimeSinceStart {
    pub fn new() -> Self {
        RunTimeSinceStart
    }
}

impl Pid for RunTimeSinceStart {
    type Input = u16;

    type Output = u16;

    open spec fn spec_mode(&self) -> u8 {
        0x01
    }

    open spec fn spec_pid(&self) -> u8 {
        0x1f
    }

    open spec fn spec_result_size(&self) -> ResultSize {
        ResultSize::Value(2)
    }

    fn mode_number(&self) -> (r: u8)
        ensures
            r == 0x01,
    {
        0x01
    }

    fn pid_number(&self) -> (r: u8)
        ensures
            r == 0x1f,
    {
        0x1f
    }

    fn result_size(&self) -> (r: ResultSize)
        ensures
            r == ResultSize::Value(2),
    {
        ResultSize::Value(0x02)
    }

    fn description(&self) -> (r: &'static str)
        ensures
            r@ == "Run time since engine start"@,
    {
        "Run time since engine start"
    }

    fn max(&self) -> (r: Option<u16>)
        ensures
            r == Some(65535u16),
    {
        Some(65535u16)
    }

    fn min(&self) -> (r: Option<u16>)
        ensures
            r == Some(0u16),
    {
        Some(0u16)
    }

    fn unit(&self) -> (r: Option<&'static str>)
        ensures
            r matches Some(u) && u@ == "seconds"@,
    {
        Some("seconds")
    }

    fn interpret_result(&self, input: u16) -> (r: u16)
        ensures
            r == input,
    {
        decode_seconds(input)
    }
}

/// Mode 0x01, PID 0x20: supported PIDs 0x21 to 0x40;
/// `interpret_result` yields the bitmap of PIDs supported in the second block.
pub struct AvailablePids40;

impl AvailablePids40 {
    pub fn new() -> Self {
        AvailablePids40
    }
}

impl Pid for AvailablePids40 {
    type Input = u32;

    type Output = Vec<u8>;

    open spec fn spec_mode(&self) -> u8 {
        0x01
    }

    open spec fn spec_pid(&self) -> u8 {
        0x20
    }

    open spec fn spec_result_size(&self) -> ResultSize {
        ResultSize::Value(4)
    }

    fn mode_number(&self) -> (r: u8)
        ensures
            r == 0x01,
    {
        0x01
    }

    fn pid_number(&self) -> (r: u8)
        ensures
            r == 0x20,
    {
        0x20
    }

    fn result_size(&self) -> (r: ResultSize)
        ensures
            r == ResultSize::Value(4),
    {
        ResultSize::Value(0x04)
    }

    fn description(&self) -> (r: &'static str)
        ensures
            r@ == "Supported PIDs 0x21 to 0x40"@,
    {
        "Supported PIDs 0x21 to 0x40"
    }

    fn max(&self) -> (r: Option<Vec<u8>>)
        ensures
            r is None,
    {
        None
    }

    fn min(&self) -> (r: Option<Vec<u8>>)
        ensures
            r is None,
    {
        None
    }

    fn unit(&self) -> (r: Option<&'static str>)
        ensures
            r is None,
    {
        None
    }

    fn interpret_result(&self, input: u32) -> (r: Vec<u8>)
        ensures
            r@ == supported_pids(input, 1),
    {
        decode_available_pids(input, 1)
    }
}

/// Mode 0x01, PID 0x21: distance traveled with malfunction indicator lamp on;
/// `interpret_result` yields distance in kilometers.
pub struct DistanceWithMIL;

impl DistanceWithMIL {
    pub fn new() -> Self {
        DistanceWithMIL
    }
}

impl Pid for DistanceWithMIL {
    type Input = u16;

    type Output = u16;

    open spec fn spec_mode(&self) -> u8 {
        0x01
    }

    open spec fn spec_pid(&self) -> u8 {
        0x21
    }

    open spec fn spec_result_size(&self) -> ResultSize {
        ResultSize::Value(2)
    }

    fn mode_number(&self) -> (r: u8)
        ensures
            r == 0x01,
    {
        0x01
    }

    fn pid_number(&self) -> (r: u8)
        ensures
            r == 0x21,
    {
        0x21
    }

    fn result_size(&self) -> (r: ResultSize)
        ensures
            r == ResultSize::Value(2),
    {
        ResultSize::Value(0x02)
    }

    fn description(&self) -> (r: &'static str)
        ensures
            r@ == "Distance traveled with malfunction indicator lamp on"@,
    {
        "Distance traveled with malfunction indicator lamp on"
    }

    fn max(&self) -> (r: Option<u16>)
        ensures
            r == Some(65535u16),
    {
        Some(65535u16)
    }

    fn min(&self) -> (r: Option<u16>)
        ensures
            r == Some(0u16),
    {
        Some(0u16)
    }

    fn unit(&self) -> (r: Option<&'static str>)
        ensures
            r matches Some(u) && u@ == "km"@,
    {
        Some("km")
    }

    fn interpret_result(&self, input: u16) -> (r: u16)
        ensures
            r == input,
    {
        decode_km(input)
    }
}

/// Mode 0x01, PID 0x22: fuel rail pressure (relative to manifold vacuum);
/// `interpret_result` yields fuel rail pressure in kPa.
pub struct FuelRailPressure;

impl FuelRailPressure {
    pub fn new() -> Self {
        FuelRailPressure
    }
}

impl Pid for FuelRailPressure {
    type Input = u16;

    type Output = Ratio;

    open spec fn spec_mode(&self) -> u8 {
        0x01
    }

    open spec fn spec_pid(&self) -> u8 {
        0x22
    }

    open spec fn spec_result_size(&self) -> ResultSize {
        ResultSize::Value(2)
    }

    fn mode_number(&self) -> (r: u8)
        ensures
            r == 0x01,
    {
        0x01
    }

    fn pid_number(&self) -> (r: u8)
        ensures
            r == 0x22,
    {
        0x22
    }

    fn result_size(&self) -> (r: ResultSize)
        ensures
            r == ResultSize::Value(2),
    {
        ResultSize::Value(0x02)
    }

    fn description(&self) -> (r: &'static str)
        ensures
            r@ == "Fuel rail pressure (relative to manifold vacuum)"@,
    {
        "Fuel rail pressure (relative to manifold vacuum)"
    }

    fn max(&self) -> (r: Option<Ratio>)
        ensures
            r == Some(Ratio { num: 5177265i32, den: 1000u32 }),
    {
        Some(Ratio { num: 5177265i32, den: 1000u32 })
    }

    fn min(&self) -> (r: Option<Ratio>)
        ensures
            r == Some(Ratio { num: 0i32, den: 1u32 }),
    {
        Some(Ratio { num: 0i32, den: 1u32 })
    }

    fn unit(&self) -> (r: Option<&'static str>)
        ensures
            r matches Some(u) && u@ == "kPa"@,
    {
        Some("kPa")
    }

    fn interpret_result(&self, input: u16) -> (r: Ratio)
        ensures
            r == fuel_rail_pressure_ratio(input),
    {
        decode_fuel_rail_pressure(input)
    }
}

/// Mode 0x01, PID 0x23: fuel rail gauge pressure (diesel or gasoline direct injection);
/// `interpret_result` yields fuel rail gauge pressure in kPa.
pub struct FuelRailGaugePressure;

impl FuelRailGaugePressure {
    pub fn new() -> Self {
        FuelRailGaugePressure
    }
}

impl Pid for FuelRailGaugePressure {
    type Input = u16;

    type Output = u32;

    open spec fn spec_mode(&self) -> u8 {
        0x01
    }

    open spec fn spec_pid(&self) -> u8 {
        0x23
    }

    open spec fn spec_result_size(&self) -> ResultSize {
        ResultSize::Value(2)
    }

    fn mode_number(&self) -> (r: u8)
        ensures
            r == 0x01,
    {
        0x01
    }

    fn pid_number(&self) -> (r: u8)
        ensures
            r == 0x23,
    {
        0x23
    }

    fn result_size(&self) -> (r: ResultSize)
        ensures
            r == ResultSize::Value(2),
    {
        ResultSize::Value(0x02)
    }

    fn description(&self) -> (r: &'static str)
        ensures
            r@ == "Fuel rail gauge pressure (diesel or gasoline direct injection)"@,
    {
        "Fuel rail gauge pressure (diesel or gasoline direct injection)"
    }

    fn max(&self) -> (r: Option<u32>)
        ensures
            r == Some(655350u32),
    {
        Some(655350u32)
    }

    fn min(&self) -> (r: Option<u32>)
        ensures
            r == Some(0u32),
    {
        Some(0u32)
    }

    fn unit(&self) -> (r: Option<&'static str>)
        ensures
            r matches Some(u) && u@ == "kPa"@,
    {
        Some("kPa")
    }

    fn interpret_result(&self, input: u16) -> (r: u32)
        ensures
            r == 10 * input,
    {
        decode_fuel_rail_gauge_pressure(input)
    }
}

/// Mode 0x01, PID 0x24: oxygen sensor 1: air-fuel equivalence ratio (lambda) and voltage;
/// `interpret_result` yields air-fuel equivalence ratio and sensor voltage.
pub struct OxygenSensorLambda1;

impl OxygenSensorLambda1 {
    pub fn new() -> Self {
        OxygenSensorLambda1
    }
}

impl Pid for OxygenSensorLambda1 {
    type Input = u32;

    type Output = (Ratio, Ratio);

    open spec fn spec_mode(&self) -> u8 {
        0x01
    }

    open spec fn spec_pid(&self) -> u8 {
        0x24
    }

    open spec fn spec_result_size(&self) -> ResultSize {
        ResultSize::Value(4)
    }

    fn mode_number(&self) -> (r: u8)
        ensures
            r == 0x01,
    {
        0x01
    }

    fn pid_number(&self) -> (r: u8)
        ensures
            r == 0x24,
    {
        0x24
    }

    fn result_size(&self) -> (r: ResultSize)
        ensures
            r == ResultSize::Value(4),
    {
        ResultSize::Value(0x04)
    }

    fn description(&self) -> (r: &'static str)
        ensures
            r@ == "Oxygen sensor 1: air-fuel equivalence ratio (lambda) and voltage"@,
    {
        "Oxygen sensor 1: air-fuel equivalence ratio (lambda) and voltage"
    }

    fn max(&self) -> (r: Option<(Ratio, Ratio)>)
        ensures
            r == Some((Ratio { num: 2i32, den: 1u32 }, Ratio { num: 8i32, den: 1u32 })),
    {
        Some((Ratio { num: 2i32, den: 1u32 }, Ratio { num: 8i32, den: 1u32 }))
    }

    fn min(&self) -> (r: Option<(Ratio, Ratio)>)
        ensures
            r == Some((Ratio { num: 0i32, den: 1u32 }, Ratio { num: 0i32, den: 1u32 })),
    {
        Some((Ratio { num: 0i32, den: 1u32 }, Ratio { num: 0i32, den: 1u32 }))
    }

    fn unit(&self) -> (r: Option<&'static str>)
        ensures
            r matches Some(u) && u@ == "(ratio, volts)"@,
    {
        Some("(ratio, volts)")
    }

    fn interpret_result(&self, input: u32) -> (r: (Ratio, Ratio))
        ensures
            r.0 == lambda_ratio((input >> 24) as u8, ((input >> 16) & 0xff) as u8),
            r.1 == lambda_voltage_ratio(((input >> 8) & 0xff) as u8, (input & 0xff) as u8),
    {
        decode_oxygen_sensor_lambda(input)
    }
}

/// Mode 0x01, PID 0x25: oxygen sensor 2: air-fuel equivalence ratio (lambda) and voltage;
/// `interpret_result` yields air-fuel equivalence ratio and sensor voltage.
pub struct OxygenSensorLambda2;

impl OxygenSensorLambda2 {
    pub fn new() -> Self {
        OxygenSensorLambda2
    }
}

impl Pid for OxygenSensorLambda2 {
    type Input = u32;

    type Output = (Ratio, Ratio);

    open spec fn spec_mode(&self) -> u8 {
        0x01
    }

    open spec fn spec_pid(&self) -> u8 {
        0x25
    }

    open spec fn spec_result_size(&self) -> ResultSize {
        ResultSize::Value(4)
    }

    fn mode_number(&self) -> (r: u8)
        ensures
            r == 0x01,
    {
        0x01
    }

    fn pid_number(&self) -> (r: u8)
        ensures
            r == 0x25,
    {
        0x25
    }

    fn result_size(&self) -> (r: ResultSize)
        ensures
            r == ResultSize::Value(4),
    {
        ResultSize::Value(0x04)
    }

    fn description(&self) -> (r: &'static str)
        ensures
            r@ == "Oxygen sensor 2: air-fuel equivalence ratio (lambda) and voltage"@,
    {
        "Oxygen sensor 2: air-fuel equivalence ratio (lambda) and voltage"
    }

    fn max(&self) -> (r: Option<(Ratio, Ratio)>)
        ensures
            r == Some((Ratio { num: 2i32, den: 1u32 }, Ratio { num: 8i32, den: 1u32 })),
    {
        Some((Ratio { num: 2i32, den: 1u32 }, Ratio { num: 8i32, den: 1u32 }))
    }

    fn min(&self) -> (r: Option<(Ratio, Ratio)>)
        ensures
            r == Some((Ratio { num: 0i32, den: 1u32 }, Ratio { num: 0i32, den: 1u32 })),
    {
        Some((Ratio { num: 0i32, den: 1u32 }, Ratio { num: 0i32, den: 1u32 }))
    }

    fn unit(&self) -> (r: Option<&'static str>)
        ensures
            r matches Some(u) && u@ == "(ratio, volts)"@,
    {
        Some("(ratio, volts)")
    }

    fn interpret_result(&self, input: u32) -> (r: (Ratio, Ratio))
        ensures
            r.0 == lambda_ratio((input >> 24) as u8, ((input >> 16) & 0xff) as u8),
            r.1 == lambda_voltage_ratio(((input >> 8) & 0xff) as u8, (input & 0xff) as u8),
    {
        decode_oxygen_sensor_lambda(input)
    }
}

/// Mode 0x01, PID 0x26: oxygen sensor 3: air-fuel equivalence ratio (lambda) and voltage;
/// `interpret_result` yields air-fuel equivalence ratio and sensor voltage.
pub struct OxygenSensorLambda3;

impl OxygenSensorLambda3 {
    pub fn new() -> Self {
        OxygenSensorLambda3
    }
}

impl Pid for OxygenSensorLambda3 {
    type Input = u32;

    type Output = (Ratio, Ratio);

    open spec fn spec_mode(&self) -> u8 {
        0x01
    }

    open spec fn spec_pid(&self) -> u8 {
        0x26
    }

    open spec fn spec_result_size(&self) -> ResultSize {
        ResultSize::Value(4)
    }

    fn mode_number(&self) -> (r: u8)
        ensures
            r == 0x01,
    {
        0x01
    }

    fn pid_number(&self) -> (r: u8)
        ensures
            r == 0x26,
    {
        0x26
    }

    fn result_size(&self) -> (r: ResultSize)
        ensures
            r == ResultSize::Value(4),
    {
        ResultSize::Value(0x04)
    }

    fn description(&self) -> (r: &'static str)
        ensures
            r@ == "Oxygen sensor 3: air-fuel equivalence ratio (lambda) and voltage"@,
    {
        "Oxygen sensor 3: air-fuel equivalence ratio (lambda) and voltage"
    }

    fn max(&self) -> (r: Option<(Ratio, Ratio)>)
        ensures
            r == Some((Ratio { num: 2i32, den: 1u32 }, Ratio { num: 8i32, den: 1u32 })),
    {
        Some((Ratio { num: 2i32, den: 1u32 }, Ratio { num: 8i32, den: 1u32 }))
    }

    fn min(&self) -> (r: Option<(Ratio, Ratio)>)
        ensures
            r == Some((Ratio { num: 0i32, den: 1u32 }, Ratio { num: 0i32, den: 1u32 })),
    {
        Some((Ratio { num: 0i32, den: 1u32 }, Ratio { num: 0i32, den: 1u32 }))
    }

    fn unit(&self) -> (r: Option<&'static str>)
        ensures
            r matches Some(u) && u@ == "(ratio, volts)"@,
    {
        Some("(ratio, volts)")
    }

    fn interpret_result(&self, input: u32) -> (r: (Ratio, Ratio))
        ensures
            r.0 == lambda_ratio((input >> 24) as u8, ((input >> 16) & 0xff) as u8),
            r.1 == lambda_voltage_ratio(((input >> 8) & 0xff) as u8, (input & 0xff) as u8),
    {
        decode_oxygen_sensor_lambda(input)
    }
}

/// Mode 0x01, PID 0x27: oxygen sensor 4: air-fuel equivalence ratio (lambda) and voltage;
/// `interpret_result` yields air-fuel equivalence ratio and sensor voltage.
pub struct OxygenSensorLambda4;

impl OxygenSensorLambda4 {
    pub fn new() -> Self {
        OxygenSensorLambda4
    }
}

impl Pid for OxygenSensorLambda4 {
    type Input = u32;

    type Output = (Ratio, Ratio);

    open spec fn spec_mode(&self) -> u8 {
        0x01
    }

    open spec fn spec_pid(&self) -> u8 {
        0x27
    }

    open spec fn spec_result_size(&self) -> ResultSize {
        ResultSize::Value(4)
    }

    fn mode_number(&self) -> (r: u8)
        ensures
            r == 0x01,
    {
        0x01
    }

    fn pid_number(&self) -> (r: u8)
        ensures
            r == 0x27,
    {
        0x27
    }

    fn result_size(&self) -> (r: ResultSize)
        ensures
            r == ResultSize::Value(4),
    {
        ResultSize::Value(0x04)
    }

    fn description(&self) -> (r: &'static str)
        ensures
            r@ == "Oxygen sensor 4: air-fuel equivalence ratio (lambda) and voltage"@,
    {
        "Oxygen sensor 4: air-fuel equivalence ratio (lambda) and voltage"
    }

    fn max(&self) -> (r: Option<(Ratio, Ratio)>)
        ensures
            r == Some((Ratio { num: 2i32, den: 1u32 }, Ratio { num: 8i32, den: 1u32 })),
    {
        Some((Ratio { num: 2i32, den: 1u32 }, Ratio { num: 8i32, den: 1u32 }))
    }

    fn min(&self) -> (r: Option<(Ratio, Ratio)>)
        ensures
            r == Some((Ratio { num: 0i32, den: 1u32 }, Ratio { num: 0i32, den: 1u32 })),
    {
        Some((Ratio { num: 0i32, den: 1u32 }, Ratio { num: 0i32, den: 1u32 }))
    }

    fn unit(&self) -> (r: Option<&'static str>)
        ensures
            r matches Some(u) && u@ == "(ratio, volts)"@,
    {
        Some("(ratio, volts)")
    }

    fn interpret_result(&self, input: u32) -> (r: (Ratio, Ratio))
        ensures
            r.0 == lambda_ratio((input >> 24) as u8, ((input >> 16) & 0xff) as u8),
            r.1 == lambda_voltage_ratio(((input >> 8) & 0xff) as u8, (input & 0xff) as u8),
    {
        decode_oxygen_sensor_lambda(input)
    }
}

/// Mode 0x01, PID 0x28: oxygen sensor 5: air-fuel equivalence ratio (lambda) and voltage;
/// `interpret_result` yields air-fuel equivalence ratio and sensor voltage.
pub struct OxygenSensorLambda5;

impl OxygenSensorLambda5 {
    pub fn new() -> Self {
        OxygenSensorLambda5
    }
}

impl Pid for OxygenSensorLambda5 {
    type Input = u32;

    type Output = (Ratio, Ratio);

    open spec fn spec_mode(&self) -> u8 {
        0x01
    }

    open spec fn spec_pid(&self) -> u8 {
        0x28
    }

    open spec fn spec_result_size(&self) -> ResultSize {
        ResultSize::Value(4)
    }

    fn mode_number(&self) -> (r: u8)
        ensures
            r == 0x01,
    {
        0x01
    }

    fn pid_number(&self) -> (r: u8)
        ensures
            r == 0x28,
    {
        0x28
    }

    fn result_size(&self) -> (r: ResultSize)
        ensures
            r == ResultSize::Value(4),
    {
        ResultSize::Value(0x04)
    }

    fn description(&self) -> (r: &'static str)
        ensures
            r@ == "Oxygen sensor 5: air-fuel equivalence ratio (lambda) and voltage"@,
    {
        "Oxygen sensor 5: air-fuel equivalence ratio (lambda) and voltage"
    }

    fn max(&self) -> (r: Option<(Ratio, Ratio)>)
        ensures
            r == Some((Ratio { num: 2i32, den: 1u32 }, Ratio { num: 8i32, den: 1u32 })),
    {
        Some((Ratio { num: 2i32, den: 1u32 }, Ratio { num: 8i32, den: 1u32 }))
    }

    fn min(&self) -> (r: Option<(Ratio, Ratio)>)
        ensures
            r == Some((Ratio { num: 0i32, den: 1u32 }, Ratio { num: 0i32, den: 1u32 })),
    {
        Some((Ratio { num: 0i32, den: 1u32 }, Ratio { num: 0i32, den: 1u32 }))
    }

    fn unit(&self) -> (r: Option<&'static str>)
        ensures
            r matches Some(u) && u@ == "(ratio, volts)"@,
    {
        Some("(ratio, volts)")
    }

    fn interpret_result(&self, input: u32) -> (r: (Ratio, Ratio))
        ensures
            r.0 == lambda_ratio((input >> 24) as u8, ((input >> 16) & 0xff) as u8),
            r.1 == lambda_voltage_ratio(((input >> 8) & 0xff) as u8, (input & 0xff) as u8),
    {
        decode_oxygen_sensor_lambda(input)
    }
}

/// Mode 0x01, PID 0x29: oxygen sensor 6: air-fuel equivalence ratio (lambda) and voltage;
/// `interpret_result` yields air-fuel equivalence ratio and sensor voltage.
pub struct OxygenSensorLambda6;

impl OxygenSensorLambda6 {
    pub fn new() -> Self {
        OxygenSensorLambda6
    }
}

impl Pid for OxygenSensorLambda6 {
    type Input = u32;

    type Output = (Ratio, Ratio);

    open spec fn spec_mode(&self) -> u8 {
        0x01
    }

    open spec fn spec_pid(&self) -> u8 {
        0x29
    }

    open spec fn spec_result_size(&self) -> ResultSize {
        ResultSize::Value(4)
    }

    fn mode_number(&self) -> (r: u8)
        ensures
            r == 0x01,
    {
        0x01
    }

    fn pid_number(&self) -> (r: u8)
        ensures
            r == 0x29,
    {
        0x29
    }

    fn result_size(&self) -> (r: ResultSize)
        ensures
            r == ResultSize::Value(4),
    {
        ResultSize::Value(0x04)
    }

    fn description(&self) -> (r: &'static str)
        ensures
            r@ == "Oxygen sensor 6: air-fuel equivalence ratio (lambda) and voltage"@,
    {
        "Oxygen sensor 6: air-fuel equivalence ratio (lambda) and voltage"
    }

    fn max(&self) -> (r: Option<(Ratio, Ratio)>)
        ensures
            r == Some((Ratio { num: 2i32, den: 1u32 }, Ratio { num: 8i32, den: 1u32 })),
    {
        Some((Ratio { num: 2i32, den: 1u32 }, Ratio { num: 8i32, den: 1u32 }))
    }

    fn min(&self) -> (r: Option<(Ratio, Ratio)>)
        ensures
            r == Some((Ratio { num: 0i32, den: 1u32 }, Ratio { num: 0i32, den: 1u32 })),
    {
        Some((Ratio { num: 0i32, den: 1u32 }, Ratio { num: 0i32, den: 1u32 }))
    }

    fn unit(&self) -> (r: Option<&'static str>)
        ensures
            r matches Some(u) && u@ == "(ratio, volts)"@,
    {
        Some("(ratio, volts)")
    }

    fn interpret_result(&self, input: u32) -> (r: (Ratio, Ratio))
        ensures
            r.0 == lambda_ratio((input >> 24) as u8, ((input >> 16) & 0xff) as u8),
            r.1 == lambda_voltage_ratio(((input >> 8) & 0xff) as u8, (input & 0xff) as u8),
    {
        decode_oxygen_sensor_lambda(input)
    }
}

/// Mode 0x01, PID 0x2a: oxygen sensor 7: air-fuel equivalence ratio (lambda) and voltage;
/// `interpret_result` yields air-fuel equivalence ratio and sensor voltage.
pub struct OxygenSensorLambda7;

impl OxygenSensorLambda7 {
    pub fn new() -> Self {
        OxygenSensorLambda7
    }
}

impl Pid for OxygenSensorLambda7 {
    type Input = u32;

    type Output = (Ratio, Ratio);

    open spec fn spec_mode(&self) -> u8 {
        0x01
    }

    open spec fn spec_pid(&self) -> u8 {
        0x2a
    }

    open spec fn spec_result_size(&self) -> ResultSize {
        ResultSize::Value(4)
    }

    fn mode_number(&self) -> (r: u8)
        ensures
            r == 0x01,
    {
        0x01
    }

    fn pid_number(&self) -> (r: u8)
        ensures
            r == 0x2a,
    {
        0x2a
    }

    fn result_size(&self) -> (r: ResultSize)
        ensures
            r == ResultSize::Value(4),
    {
        ResultSize::Value(0x04)
    }

    fn description(&self) -> (r: &'static str)
        ensures
            r@ == "Oxygen sensor 7: air-fuel equivalence ratio (lambda) and voltage"@,
    {
        "Oxygen sensor 7: air-fuel equivalence ratio (lambda) and voltage"
    }

    fn max(&self) -> (r: Option<(Ratio, Ratio)>)
        ensures
            r == Some((Ratio { num: 2i32, den: 1u32 }, Ratio { num: 8i32, den: 1u32 })),
    {
        Some((Ratio { num: 2i32, den: 1u32 }, Ratio { num: 8i32, den: 1u32 }))
    }

    fn min(&self) -> (r: Option<(Ratio, Ratio)>)
        ensures
            r == Some((Ratio { num: 0i32, den: 1u32 }, Ratio { num: 0i32, den: 1u32 })),
    {
        Some((Ratio { num: 0i32, den: 1u32 }, Ratio { num: 0i32, den: 1u32 }))
    }

    fn unit(&self) -> (r: Option<&'static str>)
        ensures
            r matches Some(u) && u@ == "(ratio, volts)"@,
    {
        Some("(ratio, volts)")
    }

    fn interpret_result(&self, input: u32) -> (r: (Ratio, Ratio))
        ensures
            r.0 == lambda_ratio((input >> 24) as u8, ((input >> 16) & 0xff) as u8),
            r.1 == lambda_voltage_ratio(((input >> 8) & 0xff) as u8, (input & 0xff) as u8),
    {
        decode_oxygen_sensor_lambda(input)
    }
}

/// Mode 0x01, PID 0x2b: oxygen sensor 8: air-fuel equivalence ratio (lambda) and voltage;
/// `interpret_result` yields air-fuel equivalence ratio and sensor voltage.
pub struct OxygenSensorLambda8;

impl OxygenSensorLambda8 {
    pub fn new() -> Self {
        OxygenSensorLambda8
    }
}

impl Pid for OxygenSensorLambda8 {
    type Input = u32;

    type Output = (Ratio, Ratio);

    open spec fn spec_mode(&self) -> u8 {
        0x01
    }

    open spec fn spec_pid(&self) -> u8 {
        0x2b
    }

    open spec fn spec_result_size(&self) -> ResultSize {
        ResultSize::Value(4)
    }

    fn mode_number(&self) -> (r: u8)
        ensures
            r == 0x01,
    {
        0x01
    }

    fn pid_number(&self) -> (r: u8)
        ensures
            r == 0x2b,
    {
        0x2b
    }

    fn result_size(&self) -> (r: ResultSize)
        ensures
            r == ResultSize::Value(4),
    {
        ResultSize::Value(0x04)
    }

    fn description(&self) -> (r: &'static str)
        ensures
            r@ == "Oxygen sensor 8: air-fuel equivalence ratio (lambda) and voltage"@,
    {
        "Oxygen sensor 8: air-fuel equivalence ratio (lambda) and voltage"
    }

    fn max(&self) -> (r: Option<(Ratio, Ratio)>)
        ensures
            r == Some((Ratio { num: 2i32, den: 1u32 }, Ratio { num: 8i32, den: 1u32 })),
    {
        Some((Ratio { num: 2i32, den: 1u32 }, Ratio { num: 8i32, den: 1u32 }))
    }

    fn min(&self) -> (r: Option<(Ratio, Ratio)>)
        ensures
            r == Some((Ratio { num: 0i32, den: 1u32 }, Ratio { num: 0i32, den: 1u32 })),
    {
        Some((Ratio { num: 0i32, den: 1u32 }, Ratio { num: 0i32, den: 1u32 }))
    }

    fn unit(&self) -> (r: Option<&'static str>)
        ensures
            r matches Some(u) && u@ == "(ratio, volts)"@,
    {
        Some("(ratio, volts)")
    }

    fn interpret_result(&self, input: u32) -> (r: (Ratio, Ratio))
        ensures
            r.0 == lambda_ratio((input >> 24) as u8, ((input >> 16) & 0xff) as u8),
            r.1 == lambda_voltage_ratio(((input >> 8) & 0xff) as u8, (input & 0xff) as u8),
    {
        decode_oxygen_sensor_lambda(input)
    }
}

/// Mode 0x01, PID 0x2c: commanded EGR;
/// `interpret_result` yields commanded exhaust gas recirculation as a percentage.
pub struct CommandedEGR;

impl CommandedEGR {
    pub fn new() -> Self {
        CommandedEGR
    }
}

impl Pid for CommandedEGR {
    type Input = u8;

    type Output = Ratio;

    open spec fn spec_mode(&self) -> u8 {
        0x01
    }

    open spec fn spec_pid(&self) -> u8 {
        0x2c
    }

    open spec fn spec_result_size(&self) -> ResultSize {
        ResultSize::Value(1)
    }

    fn mode_number(&self) -> (r: u8)
        ensures
            r == 0x01,
    {
        0x01
    }

    fn pid_number(&self) -> (r: u8)
        ensures
            r == 0x2c,
    {
        0x2c
    }

    fn result_size(&self) -> (r: ResultSize)
        ensures
            r == ResultSize::Value(1),
    {
        ResultSize::Value(0x01)
    }

    fn description(&self) -> (r: &'static str)
        ensures
            r@ == "Commanded EGR"@,
    {
        "Commanded EGR"
    }

    fn max(&self) -> (r: Option<Ratio>)
        ensures
            r == Some(Ratio { num: 100i32, den: 1u32 }),
    {
        Some(Ratio { num: 100i32, den: 1u32 })
    }

    fn min(&self) -> (r: Option<Ratio>)
        ensures
            r == Some(Ratio { num: 0i32, den: 1u32 }),
    {
        Some(Ratio { num: 0i32, den: 1u32 })
    }

    fn unit(&self) -> (r: Option<&'static str>)
        ensures
            r matches Some(u) && u@ == "%"@,
    {
        Some("%")
    }

    fn interpret_result(&self, input: u8) -> (r: Ratio)
        ensures
            r == percent_ratio(input),
    {
        decode_percent(input)
    }
}

/// Mode 0x01, PID 0x2d: EGR error;
/// `interpret_result` yields exhaust-gas-recirculation error as a percentage.
pub struct EGRError;

impl EGRError {
    pub fn new() -> Self {
        EGRError
    }
}

impl Pid for EGRError {
    type Input = u8;

    type Output = Ratio;

    open spec fn spec_mode(&self) -> u8 {
        0x01
    }

    open spec fn spec_pid(&self) -> u8 {
        0x2d
    }

    open spec fn spec_result_size(&self) -> ResultSize {
        ResultSize::Value(1)
    }

    fn mode_number(&self) -> (r: u8)
        ensures
            r == 0x01,
    {
        0x01
    }

    fn pid_number(&self) -> (r: u8)
        ensures
            r == 0x2d,
    {
        0x2d
    }

    fn result_size(&self) -> (r: ResultSize)
        ensures
            r == ResultSize::Value(1),
    {
        ResultSize::Value(0x01)
    }

    fn description(&self) -> (r: &'static str)
        ensures
            r@ == "EGR error"@,
    {
        "EGR error"
    }

    fn max(&self) -> (r: Option<Ratio>)
        ensures
            r == Some(Ratio { num: 992i32, den: 10u32 }),
    {
        Some(Ratio { num: 992i32, den: 10u32 })
    }

    fn min(&self) -> (r: Option<Ratio>)
        ensures
            r == Some(Ratio { num: -100i32, den: 1u32 }),
    {
        Some(Ratio { num: -100i32, den: 1u32 })
    }

    fn unit(&self) -> (r: Option<&'static str>)
        ensures
            r matches Some(u) && u@ == "%"@,
    {
        Some("%")
    }

    fn interpret_result(&self, input: u8) -> (r: Ratio)
        ensures
            r == fuel_trim_ratio(input),
    {
        decode_egr_error(input)
    }
}

/// Mode 0x01, PID 0x2e: commanded evaporative purge;
/// `interpret_result` yields commanded evaporative purge as a percentage.
pub struct CommandedEvaporativePurge;

impl CommandedEvaporativePurge {
    pub fn new() -> Self {
        CommandedEvaporativePurge
    }
}

impl Pid for CommandedEvaporativePurge {
    type Input = u8;

    type Output = Ratio;

    open spec fn spec_mode(&self) -> u8 {
        0x01
    }

    open spec fn spec_pid(&self) -> u8 {
        0x2e
    }

    open spec fn spec_result_size(&self) -> ResultSize {
        ResultSize::Value(1)
    }

    fn mode_number(&self) -> (r: u8)
        ensures
            r == 0x01,
    {
        0x01
    }

    fn pid_number(&self) -> (r: u8)
        ensures
            r == 0x2e,
    {
        0x2e
    }

    fn result_size(&self) -> (r: ResultSize)
        ensures
            r == ResultSize::Value(1),
    {
        ResultSize::Value(0x01)
    }

    fn description(&self) -> (r: &'static str)
        ensures
            r@ == "Commanded evaporative purge"@,
    {
        "Commanded evaporative purge"
    }

    fn max(&self) -> (r: Option<Ratio>)
        ensures
            r == Some(Ratio { num: 100i32, den: 1u32 }),
    {
        Some(Ratio { num: 100i32, den: 1u32 })
    }

    fn min(&self) -> (r: Option<Ratio>)
        ensures
            r == Some(Ratio { num: 0i32, den: 1u32 }),
    {
        Some(Ratio { num: 0i32, den: 1u32 })
    }

    fn unit(&self) -> (r: Option<&'static str>)
        ensures
            r matches Some(u) && u@ == "%"@,
    {
        Some("%")
    }

    fn interpret_result(&self, input: u8) -> (r: Ratio)
        ensures
            r == percent_ratio(input),
    {
        decode_percent(input)
    }
}

/// Mode 0x01, PID 0x2f: fuel tank level input;
/// `interpret_result` yields fuel tank level as a percentage.
pub struct FuelTankLevelInput;

impl FuelTankLevelInput {
    pub fn new() -> Self {
        FuelTankLevelInput
    }
}

impl Pid for FuelTankLevelInput {
    type Input = u8;

    type Output = Ratio;

    open spec fn spec_mode(&self) -> u8 {
        0x01
    }

    open spec fn spec_pid(&self) -> u8 {
        0x2f
    }

    open spec fn spec_result_size(&self) -> ResultSize {
        ResultSize::Value(1)
    }

    fn mode_number(&self) -> (r: u8)
        ensures
            r == 0x01,
    {
        0x01
    }

    fn pid_number(&self) -> (r: u8)
        ensures
            r == 0x2f,
    {
        0x2f
    }

    fn result_size(&self) -> (r: ResultSize)
        ensures
            r == ResultSize::Value(1),
    {
        ResultSize::Value(0x01)
    }

    fn description(&self) -> (r: &'static str)
        ensures
            r@ == "Fuel tank level input"@,
    {
        "Fuel tank level input"
    }

    fn max(&self) -> (r: Option<Ratio>)
        ensures
            r == Some(Ratio { num: 100i32, den: 1u32 }),
    {
        Some(Ratio { num: 100i32, den: 1u32 })
    }

    fn min(&self) -> (r: Option<Ratio>)
        ensures
            r == Some(Ratio { num: 0i32, den: 1u32 }),
    {
        Some(Ratio { num: 0i32, den: 1u32 })
    }

    fn unit(&self) -> (r: Option<&'static str>)
        ensures
            r matches Some(u) && u@ == "%"@,
    {
        Some("%")
    }

    fn interpret_result(&self, input: u8) -> (r: Ratio)
        ensures
            r == percent_ratio(input),
    {
        decode_percent(input)
    }
}

} // verus!
