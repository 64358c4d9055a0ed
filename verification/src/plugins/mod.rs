//! Device plugin system.
//!
//! Each supported device family implements the [`DevicePlugin`] trait, which provides:
//! - all SCPI command generation,
//! - response parsing,
//! - device capabilities (what controls to show).
//!
//! Plugin resolution uses hierarchical model-name matching:
//! for model "SPM6103" it tries SPM6103, SPM610, SPM61, SPM6, SPM, and then the default.

pub mod default;
pub mod family;
pub mod registry;
pub mod spm;

pub use default::DefaultPlugin;
pub use registry::{default_plugin, extract_model, resolve_plugin, Plugin};
pub use spm::SpmPlugin;

use crate::double::Double;
use crate::multimeter::MeterMode;
use crate::number::{is_number, NumberText};
use crate::ranges::{Matching, RangeMatch};
use crate::replies::{reading, Precision, Reading, ReadingText};
use crate::tables::{label_of, label_text, unit_of, unit_text};
use crate::text::{
    contains_char, eq_ignoring_case, same, same_ignoring_case, split, split_at_char, split_words,
    string, strip, texts, trimmed, words,
};
use family::DeviceFamily;
use vstd::prelude::*;

verus! {

// ---- Core Types ----

/// What a `ParseResult` holds, as pure data.
#[verifier::ext_equal]
pub struct Parsed {
    pub measurement: Option<ReadingText>,
    pub mode: Option<MeterMode>,
    pub range_index: Matching,
    pub precision: Option<Precision>,
}

/// Result of parsing a device response.
#[derive(Debug)]
pub struct ParseResult {
    pub measurement: Option<Reading>,
    pub mode: Option<MeterMode>,
    pub range_index: RangeMatch,
    pub precision: Option<Precision>,
}

impl View for ParseResult {
    type V = Parsed;

    open spec fn view(&self) -> Parsed {
        Parsed {
            measurement: reading(self.measurement),
            mode: self.mode,
            range_index: self.range_index@,
            precision: self.precision,
        }
    }
}

/// Range information for a specific mode, for a drop-down list.
/// The plugin's `range_command(mode, index)` generates the actual SCPI.
#[derive(Clone, Debug)]
pub struct RangeInfo {
    /// Display names for each range option (such as "auto", "200mV", "2V").
    pub ranges: Vec<&'static str>,
}

/// The display names of range information that may be absent.
pub open spec fn range_names(info: Option<RangeInfo>) -> Option<Seq<Seq<char>>> {
    match info {
        Some(info) => Some(texts(info.ranges@)),
        None => None,
    }
}

/// Limits of an integrated power supply, in thousandths of a volt and of an ampere.
#[derive(Clone, Copy, PartialEq, Eq, Debug, Structural)]
pub struct PowerSupplyLimits {
    pub voltage_min: u32,
    pub voltage_max: u32,
    pub current_min: u32,
    pub current_max: u32,
    pub ovp_max: u32,
    pub ocp_max: u32,
}

/// What `DeviceCapabilities` holds, as pure data.
#[verifier::ext_equal]
pub struct Capabilities {
    pub supported_modes: Seq<MeterMode>,
    pub has_power_supply: bool,
    pub power_supply_limits: Option<PowerSupplyLimits>,
    pub rate_options: Seq<Seq<char>>,
    pub has_beeper: bool,
    pub has_threshold: bool,
    pub has_hold: bool,
}

/// Describes what a device can do, and so which controls to show.
#[derive(Clone, Debug)]
pub struct DeviceCapabilities {
    /// Meter modes supported by this device.
    pub supported_modes: Vec<MeterMode>,
    /// Whether this device has an integrated power supply.
    pub has_power_supply: bool,
    /// Limits of the power supply.
    pub power_supply_limits: Option<PowerSupplyLimits>,
    /// Sampling rate display names; none means that the device has no rate control.
    pub rate_options: Vec<&'static str>,
    /// Whether this device supports beeper control.
    pub has_beeper: bool,
    /// Whether this device supports threshold settings (continuity and diode).
    pub has_threshold: bool,
    /// Whether this device supports hardware hold.
    pub has_hold: bool,
}

impl View for DeviceCapabilities {
    type V = Capabilities;

    open spec fn view(&self) -> Capabilities {
        Capabilities {
            supported_modes: self.supported_modes@,
            has_power_supply: self.has_power_supply,
            power_supply_limits: self.power_supply_limits,
            rate_options: texts(self.rate_options@),
            has_beeper: self.has_beeper,
            has_threshold: self.has_threshold,
            has_hold: self.has_hold,
        }
    }
}

/// The settings of a power supply.
#[derive(Clone, Copy, PartialEq, Eq, Debug, Structural)]
pub enum PsSetting {
    /// Output voltage.
    Voltage,
    /// Current limit.
    Current,
    /// Overvoltage protection.
    Ovp,
    /// Overcurrent protection.
    Ocp,
}

/// Changes that the user asked for and the instrument has not confirmed.
/// In each field, `None` means that nothing is pending and `Some(v)` that the user wants `v`.
#[derive(Clone, Debug)]
pub struct PendingChanges {
    pub output_on: Option<bool>,
    pub voltage_set: Option<Double>,
    pub current_set: Option<Double>,
    pub ovp: Option<Double>,
    pub ocp: Option<Double>,
    /// Range index and full SCPI command string.
    pub range: Option<(usize, String)>,
    /// Target mode, SCPI command, retries remaining.
    pub mode: Option<(MeterMode, String, u32)>,
}

/// What `PendingChanges` holds, as pure data.
#[verifier::ext_equal]
pub struct Pending {
    pub output_on: Option<bool>,
    pub voltage_set: Option<Double>,
    pub current_set: Option<Double>,
    pub ovp: Option<Double>,
    pub ocp: Option<Double>,
    pub range: Option<(usize, Seq<char>)>,
    pub mode: Option<(MeterMode, Seq<char>, u32)>,
}

impl View for PendingChanges {
    type V = Pending;

    open spec fn view(&self) -> Pending {
        Pending {
            output_on: self.output_on,
            voltage_set: self.voltage_set,
            current_set: self.current_set,
            ovp: self.ovp,
            ocp: self.ocp,
            range: match self.range {
                Some((index, command)) => Some((index, command@)),
                None => None,
            },
            mode: match self.mode {
                Some((mode, command, retries)) => Some((mode, command@, retries)),
                None => None,
            },
        }
    }
}

/// Nothing pending.
pub open spec fn nothing_pending() -> Pending {
    Pending {
        output_on: None,
        voltage_set: None,
        current_set: None,
        ovp: None,
        ocp: None,
        range: None,
        mode: None,
    }
}

impl Default for PendingChanges {
    fn default() -> (r: PendingChanges)
        ensures
            r@ == nothing_pending(),
    {
        PendingChanges {
            output_on: None,
            voltage_set: None,
            current_set: None,
            ovp: None,
            ocp: None,
            range: None,
            mode: None,
        }
    }
}

impl PendingChanges {
    /// Whether anything is pending.
    pub fn has_any(&self) -> (b: bool)
        ensures
            b == (self@ != nothing_pending()),
    {
        self.output_on.is_some() || self.voltage_set.is_some() || self.current_set.is_some()
            || self.ovp.is_some() || self.ocp.is_some() || self.range.is_some()
            || self.mode.is_some()
    }
}

/// Measured output power: told by the instrument, or the product of voltage and current.
#[derive(Debug)]
pub enum PowerReading {
    Reported(NumberText),
    Product,
}

/// What a `PowerReading` holds, as pure data.
#[verifier::ext_equal]
pub enum PowerText {
    Reported(Seq<char>),
    Product,
}

impl View for PowerReading {
    type V = PowerText;

    open spec fn view(&self) -> PowerText {
        match self {
            PowerReading::Reported(n) => PowerText::Reported(n@),
            PowerReading::Product => PowerText::Product,
        }
    }
}

/// Measured output of the power supply.
#[derive(Debug)]
pub struct PsMeasurement {
    pub voltage: NumberText,
    pub current: NumberText,
    pub power: PowerReading,
}

/// What a `PsMeasurement` holds, as pure data.
#[verifier::ext_equal]
pub struct PsOutput {
    pub voltage: Seq<char>,
    pub current: Seq<char>,
    pub power: PowerText,
}

impl View for PsMeasurement {
    type V = PsOutput;

    open spec fn view(&self) -> PsOutput {
        PsOutput { voltage: self.voltage@, current: self.current@, power: self.power@ }
    }
}

/// The content of an output measurement that may be absent.
pub open spec fn ps_output(m: Option<PsMeasurement>) -> Option<PsOutput> {
    match m {
        Some(m) => Some(m@),
        None => None,
    }
}

/// Power supply state received from the device. Numbers are kept as the device wrote them.
#[derive(Debug)]
pub struct PowerSupplyState {
    pub output_on: bool,
    pub voltage_set: NumberText,
    pub current_set: NumberText,
    pub ovp: NumberText,
    pub ocp: NumberText,
    pub voltage_readback: NumberText,
    pub current_readback: NumberText,
    pub power_readback: PowerReading,
    /// Whether the settings were queried too, and not just the output.
    pub includes_settings: bool,
}

/// What a `PowerSupplyState` holds, as pure data.
#[verifier::ext_equal]
pub struct PsState {
    pub output_on: bool,
    pub voltage_set: Seq<char>,
    pub current_set: Seq<char>,
    pub ovp: Seq<char>,
    pub ocp: Seq<char>,
    pub voltage_readback: Seq<char>,
    pub current_readback: Seq<char>,
    pub power_readback: PowerText,
    pub includes_settings: bool,
}

impl View for PowerSupplyState {
    type V = PsState;

    open spec fn view(&self) -> PsState {
        PsState {
            output_on: self.output_on,
            voltage_set: self.voltage_set@,
            current_set: self.current_set@,
            ovp: self.ovp@,
            ocp: self.ocp@,
            voltage_readback: self.voltage_readback@,
            current_readback: self.current_readback@,
            power_readback: self.power_readback@,
            includes_settings: self.includes_settings,
        }
    }
}

/// The state before anything was received: output off and every number zero.
pub open spec fn initial_ps_state() -> PsState {
    PsState {
        output_on: false,
        voltage_set: "0"@,
        current_set: "0"@,
        ovp: "0"@,
        ocp: "0"@,
        voltage_readback: "0"@,
        current_readback: "0"@,
        power_readback: PowerText::Reported("0"@),
        includes_settings: false,
    }
}

impl Default for PowerSupplyState {
    fn default() -> (r: PowerSupplyState)
        ensures
            r@ == initial_ps_state(),
    {
        PowerSupplyState {
            output_on: false,
            voltage_set: NumberText::zero(),
            current_set: NumberText::zero(),
            ovp: NumberText::zero(),
            ocp: NumberText::zero(),
            voltage_readback: NumberText::zero(),
            current_readback: NumberText::zero(),
            power_readback: PowerReading::Reported(NumberText::zero()),
            includes_settings: false,
        }
    }
}

impl PowerSupplyState {
    /// A second copy.
    pub fn duplicate(&self) -> (r: PowerSupplyState)
        ensures
            r@ == self@,
    {
        PowerSupplyState {
            output_on: self.output_on,
            voltage_set: self.voltage_set.duplicate(),
            current_set: self.current_set.duplicate(),
            ovp: self.ovp.duplicate(),
            ocp: self.ocp.duplicate(),
            voltage_readback: self.voltage_readback.duplicate(),
            current_readback: self.current_readback.duplicate(),
            power_readback: match &self.power_readback {
                PowerReading::Reported(power) => PowerReading::Reported(power.duplicate()),
                PowerReading::Product => PowerReading::Product,
            },
            includes_settings: self.includes_settings,
        }
    }
}

impl Clone for PowerSupplyState {
    fn clone(&self) -> (r: PowerSupplyState)
        ensures
            r@ == self@,
    {
        self.duplicate()
    }
}

/// The content of a borrowed text that may be absent.
pub open spec fn opt_text(s: Option<&str>) -> Option<Seq<char>> {
    match s {
        Some(s) => Some(s@),
        None => None,
    }
}

/// The output state that a reply tells: `ON` or `1`, `OFF` or `0`.
pub open spec fn output_state(reply: Seq<char>) -> Option<bool> {
    let t = trimmed(reply);
    if t == "1"@ || eq_ignoring_case(t, "ON"@) {
        Some(true)
    } else if t == "0"@ || eq_ignoring_case(t, "OFF"@) {
        Some(false)
    } else {
        None
    }
}

/// The number that a reply consists of.
pub open spec fn ps_value(reply: Seq<char>) -> Option<Seq<char>> {
    if is_number(trimmed(reply)) {
        Some(trimmed(reply))
    } else {
        None
    }
}

/// The fields of a reply: separated by commas if it has any, by white space otherwise.
pub open spec fn reply_fields(reply: Seq<char>) -> Seq<Seq<char>> {
    let t = trimmed(reply);
    if t.contains(',') {
        split(t, ',')
    } else {
        words(t)
    }
}

/// Voltage, current and power that a reply tells. Where the power is missing or no number, it is
/// the product of the others.
pub open spec fn ps_meas_all(reply: Seq<char>) -> Option<PsOutput> {
    let fields = reply_fields(reply);
    if fields.len() >= 2 && is_number(fields[0]) && is_number(fields[1]) {
        Some(
            PsOutput {
                voltage: fields[0],
                current: fields[1],
                power: if fields.len() >= 3 && is_number(fields[2]) {
                    PowerText::Reported(fields[2])
                } else {
                    PowerText::Product
                },
            },
        )
    } else {
        None
    }
}

// ---- DevicePlugin Trait ----

/// Device-specific behavior.
///
/// All SCPI command knowledge lives in the plugin implementations. What each command and each
/// parser yields is a function of the plugin's [`DeviceFamily`].
pub trait DevicePlugin: Send + Sync {
    /// The family, and what is known of the individual instrument.
    spec fn family(&self) -> DeviceFamily;

    /// Human-readable plugin name.
    fn name(&self) -> (r: &str)
        ensures
            r@ == self.family().name(),
    ;

    /// What this device can do.
    fn capabilities(&self) -> (r: &DeviceCapabilities)
        ensures
            r@ == self.family().capabilities(),
    ;

    /// Configure the plugin from the `*IDN?` response.
    fn configure_from_idn(&mut self, idn: &str)
        ensures
            final(self).family() == old(self).family().configured(idn@),
    ;

    // ---- SCPI Command Generation ----

    /// Identify the instrument.
    fn identify_command(&self) -> (r: &str)
        ensures
            r@ == "*IDN?\n"@,
    {
        "*IDN?\n"
    }

    /// Reset the instrument.
    fn reset_command(&self) -> (r: &str)
        ensures
            r@ == "*RST\n"@,
    {
        "*RST\n"
    }

    /// Enter remote mode.
    fn remote_command(&self) -> (r: Option<&str>)
        ensures
            opt_text(r) == Some("SYST:REM\n"@),
    {
        Some("SYST:REM\n")
    }

    /// Return to local mode.
    fn local_command(&self) -> (r: Option<&str>)
        ensures
            opt_text(r) == Some("SYST:LOC\n"@),
    {
        Some("SYST:LOC\n")
    }

    /// Query for a measurement reading.
    fn measurement_command(&self) -> (r: &str)
        ensures
            r@ == self.family().measurement_command(),
    ;

    /// Query for the current function.
    fn function_query_command(&self) -> (r: &str)
        ensures
            r@ == self.family().function_query_command(),
    ;

    /// Command to switch to a specific meter mode.
    fn mode_command(&self, mode: MeterMode) -> (r: String)
        ensures
            r@ == self.family().mode_command(mode),
    ;

    /// Command to set the sampling rate by index into the rate options.
    fn rate_command(&self, index: usize) -> (r: Option<String>)
        ensures
            string(r) == self.family().rate_command(index as int),
    ;

    /// Command to set a specific range. May hold several lines.
    fn range_command(&self, mode: MeterMode, range_index: usize) -> (r: Option<String>)
        ensures
            string(r) == self.family().range_command(mode, range_index as int),
    ;

    /// Command to enable or disable hardware hold.
    fn hold_command(&self, on: bool) -> (r: Option<String>)
        ensures
            string(r) == self.family().hold_command(on),
    ;

    /// Command to enable or disable the beeper.
    fn beeper_command(&self, on: bool) -> (r: Option<String>)
        ensures
            string(r) == self.family().beeper_command(on),
    ;

    /// Command to set the continuity threshold in ohms.
    fn cont_threshold_command(&self, ohms: u32) -> (r: Option<String>)
        ensures
            string(r) == self.family().cont_threshold_command(ohms),
    ;

    /// Command to set the diode threshold, given as the decimal notation of a voltage.
    fn diod_threshold_command(&self, volts: &str) -> (r: Option<String>)
        ensures
            string(r) == self.family().diod_threshold_command(volts@),
    ;

    // ---- Power Supply Commands ----

    /// Command to turn the output on or off.
    fn ps_output_command(&self, on: bool) -> (r: Option<String>)
        ensures
            string(r) == self.family().ps_output_command(on),
    ;

    /// Query for the output state.
    fn ps_query_output(&self) -> (r: Option<&str>)
        ensures
            opt_text(r) == self.family().ps_query_output(),
    ;

    /// Command to set the voltage, given in decimal notation with three decimals.
    fn ps_set_voltage(&self, v: &str) -> (r: Option<String>)
        ensures
            string(r) == self.family().ps_set(PsSetting::Voltage, v@),
    ;

    /// Command to set the current, given in decimal notation with three decimals.
    fn ps_set_current(&self, a: &str) -> (r: Option<String>)
        ensures
            string(r) == self.family().ps_set(PsSetting::Current, a@),
    ;

    /// Command to set the overvoltage protection, given in decimal notation with three decimals.
    fn ps_set_ovp(&self, v: &str) -> (r: Option<String>)
        ensures
            string(r) == self.family().ps_set(PsSetting::Ovp, v@),
    ;

    /// Command to set the overcurrent protection, given in decimal notation with three decimals.
    fn ps_set_ocp(&self, a: &str) -> (r: Option<String>)
        ensures
            string(r) == self.family().ps_set(PsSetting::Ocp, a@),
    ;

    /// Query for the voltage setting.
    fn ps_query_voltage(&self) -> (r: Option<&str>)
        ensures
            opt_text(r) == self.family().ps_query(PsSetting::Voltage),
    ;

    /// Query for the current setting.
    fn ps_query_current(&self) -> (r: Option<&str>)
        ensures
            opt_text(r) == self.family().ps_query(PsSetting::Current),
    ;

    /// Query for the overvoltage protection.
    fn ps_query_ovp(&self) -> (r: Option<&str>)
        ensures
            opt_text(r) == self.family().ps_query(PsSetting::Ovp),
    ;

    /// Query for the overcurrent protection.
    fn ps_query_ocp(&self) -> (r: Option<&str>)
        ensures
            opt_text(r) == self.family().ps_query(PsSetting::Ocp),
    ;

    /// Query for measured voltage, current and power.
    fn ps_query_meas_all(&self) -> (r: Option<&str>)
        ensures
            opt_text(r) == self.family().ps_query_meas_all(),
    ;

    // ---- Response Parsing ----

    /// Parse a measurement or function response.
    fn parse_measurement(&self, response: &str) -> (r: ParseResult)
        ensures
            r@ == self.family().parse_measurement(response@),
    ;

    /// Parse an output state response (`ON`/`OFF`, `0`/`1`).
    fn parse_output_state(&self, response: &str) -> (r: Option<bool>)
        ensures
            r == output_state(response@),
    {
        let t: &str = strip(response);
        if same(t, "1") || same_ignoring_case(t, "ON") {
            Some(true)
        } else if same(t, "0") || same_ignoring_case(t, "OFF") {
            Some(false)
        } else {
            None
        }
    }

    /// Parse a numeric power supply response.
    fn parse_ps_value(&self, response: &str) -> (r: Option<NumberText>)
        ensures
            crate::number::number(r) == ps_value(response@),
    {
        NumberText::parse(strip(response))
    }

    /// Parse a `MEAS:ALL?` response.
    fn parse_ps_meas_all(&self, response: &str) -> (r: Option<PsMeasurement>)
        ensures
            ps_output(r) == ps_meas_all(response@),
    {
        let t: &str = strip(response);
        let parts: Vec<&str> = if contains_char(t, ',') {
            split_at_char(t, ',')
        } else {
            split_words(t)
        };
        proof {
            assert(texts(parts@) == reply_fields(response@));
            assert(texts(parts@).len() == parts@.len());
            assert(forall|i: int| 0 <= i < parts@.len() ==> texts(parts@)[i] == parts@[i]@);
        }
        if parts.len() < 2 {
            return None;
        }
        match (NumberText::parse(parts[0]), NumberText::parse(parts[1])) {
            (Some(voltage), Some(current)) => {
                let reported: Option<NumberText> = if parts.len() >= 3 {
                    NumberText::parse(parts[2])
                } else {
                    None
                };
                let power: PowerReading = match reported {
                    Some(power) => PowerReading::Reported(power),
                    None => PowerReading::Product,
                };
                Some(PsMeasurement { voltage, current, power })
            },
            _ => None,
        }
    }

    /// Parse a range query response and find the matching range.
    fn parse_range_response(&self, response: &str, mode: MeterMode) -> (r: RangeMatch)
        ensures
            r@ == self.family().parse_range_response(response@, mode),
    ;

    /// Display names of a mode's ranges.
    fn range_info(&self, mode: MeterMode) -> (r: Option<RangeInfo>)
        ensures
            range_names(r) == self.family().range_names(mode),
    ;

    /// The unit string for a mode.
    fn mode_unit(&self, mode: MeterMode) -> (r: &str)
        ensures
            r@ == unit_text(mode),
    {
        unit_of(mode)
    }

    /// The display label for a mode button.
    fn mode_label(&self, mode: MeterMode) -> (r: &str)
        ensures
            r@ == label_text(mode),
    {
        label_of(mode)
    }
}

} // verus!
