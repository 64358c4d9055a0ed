//! What is known of each instrument family, as pure data: its commands, its capabilities, and
//! how its replies are read.

use super::{Capabilities, Parsed, PowerSupplyLimits, PsSetting};
use crate::multimeter::MeterMode;
use crate::number::{decimal, decimal_places, is_number, u32_value};
use crate::ranges::{named_range, names, offers_auto, valued_range, Matching, RangeTable};
use crate::replies::{
    function_mode, is_function, is_overload, mode_named, value_number, value_prefix, value_reading,
    Precision, ReadingText, SiPrefix,
};
use crate::tables::{spm_mode_command, spm_table, xdm_mode_command, xdm_table};
use crate::text::{eq_ignoring_case, split, trim, trim_start, trimmed, CharClass};
use vstd::prelude::*;

verus! {

/// An instrument family, with what was learned of the individual instrument.
#[derive(Clone, Copy, PartialEq, Eq, Debug, Structural)]
pub enum DeviceFamily {
    /// Bench multimeters with the XDM command set.
    Default {
        /// Whether the firmware reports diode and continuity the wrong way round.
        swap_diod_cont: bool,
    },
    /// Power supplies with an integrated multimeter.
    Spm,
}

/// Whether an identification reply names an XDM firmware that swaps the diode and continuity
/// names, if it names a firmware at all. Versions before 4.3 do.
pub open spec fn firmware_swaps(idn: Seq<char>) -> Option<bool> {
    let fields = split(idn, ',');
    let version = split(trim_start(fields[3], CharClass::Only('V')), '.');
    if fields.len() >= 4 && fields[0] == "OWON"@ && (fields[1] == "XDM1041"@ || fields[1]
        == "XDM1241"@) && version.len() >= 2 {
        match (u32_value(version[0]), u32_value(version[1])) {
            (Some(major), Some(minor)) => Some(major < 4 || (major == 4 && minor < 3)),
            _ => None,
        }
    } else {
        None
    }
}

/// The command that selects a range by its index: automatic ranging by its own command if there is
/// one, a fixed range after automatic ranging is turned off.
pub open spec fn range_selection(table: RangeTable, index: int) -> Option<Seq<char>> {
    if 0 <= index < table.ranges.len() {
        let (name, value) = table.ranges[index];
        if name == "auto"@ && table.auto_on is Some {
            table.auto_on
        } else if name == "auto"@ {
            Some(table.prefix + "AUTO"@ + "\n"@)
        } else {
            let select = table.prefix + value + "\n"@;
            match table.auto_off {
                Some(off) => Some(off + select),
                None => Some(select),
            }
        }
    } else {
        None
    }
}

/// A reply that tells nothing.
pub open spec fn nothing_parsed() -> Parsed {
    Parsed {
        measurement: None,
        mode: None,
        range_index: Matching::Settled(None),
        precision: None,
    }
}

/// How an XDM reply is read: the answer to a function query gives a mode, a number a measurement.
pub open spec fn xdm_parsed(reply: Seq<char>, swap: bool) -> Parsed {
    let t = trimmed(reply);
    let unquoted = trim(t, CharClass::Only('"'));
    if is_function(unquoted) {
        Parsed { mode: function_mode(unquoted, swap), ..nothing_parsed() }
    } else if is_number(t) {
        Parsed {
            measurement: Some(ReadingText::Number(t, SiPrefix::One)),
            precision: Some(
                Precision { decimals: decimal_places(t) as usize, prefix: SiPrefix::One },
            ),
            ..nothing_parsed()
        }
    } else {
        nothing_parsed()
    }
}

/// The range that the status and range fields of an SPM reply `TYPE,VALUE,STATUS,RANGE` name, in a
/// mode with the given ranges.
pub open spec fn field_range(table: Option<RangeTable>, fields: Seq<Seq<char>>) -> Matching {
    if fields.len() < 3 || table is None {
        Matching::Settled(None)
    } else if eq_ignoring_case(trimmed(fields[2]), "AUTO"@) && offers_auto(table->0.ranges) {
        Matching::Settled(Some(0))
    } else if fields.len() >= 4 && trimmed(fields[3]).len() > 0 {
        valued_range(table->0.ranges, trimmed(fields[3]))
    } else {
        Matching::Settled(None)
    }
}

/// How an SPM reply `TYPE,VALUE,STATUS,RANGE` is read. A reply without a comma tells nothing.
pub open spec fn spm_parsed(reply: Seq<char>) -> Parsed {
    let t = trimmed(reply);
    let fields = split(t, ',');
    if t.contains(',') && fields.len() >= 2 {
        let mode = mode_named(trimmed(fields[0]), false);
        let value = trimmed(fields[1]);
        Parsed {
            measurement: value_reading(value),
            mode,
            range_index: match mode {
                Some(m) => field_range(spm_table(m), fields),
                None => Matching::Settled(None),
            },
            precision: if is_overload(value) {
                None
            } else {
                Some(
                    Precision {
                        decimals: decimal_places(value_number(value)) as usize,
                        prefix: value_prefix(value),
                    },
                )
            },
        }
    } else {
        nothing_parsed()
    }
}

impl DeviceFamily {
    /// Human-readable name.
    pub open spec fn name(self) -> Seq<char> {
        match self {
            DeviceFamily::Default { .. } => "Default"@,
            DeviceFamily::Spm => "SPM"@,
        }
    }

    /// What instruments of the family can do.
    pub open spec fn capabilities(self) -> Capabilities {
        match self {
            DeviceFamily::Default { .. } => Capabilities {
                supported_modes: seq![
                    MeterMode::Vdc,
                    MeterMode::Vac,
                    MeterMode::Adc,
                    MeterMode::Aac,
                    MeterMode::Res,
                    MeterMode::Cap,
                    MeterMode::Freq,
                    MeterMode::Per,
                    MeterMode::Diod,
                    MeterMode::Cont,
                    MeterMode::Temp,
                ],
                has_power_supply: false,
                power_supply_limits: None,
                rate_options: seq!["Slow"@, "Medium"@, "Fast"@],
                has_beeper: true,
                has_threshold: true,
                has_hold: false,
            },
            DeviceFamily::Spm => Capabilities {
                supported_modes: seq![
                    MeterMode::Vdc,
                    MeterMode::Vac,
                    MeterMode::Adc,
                    MeterMode::Aac,
                    MeterMode::Res,
                    MeterMode::Cap,
                    MeterMode::Diod,
                    MeterMode::Cont,
                ],
                has_power_supply: true,
                power_supply_limits: Some(
                    PowerSupplyLimits {
                        voltage_min: 0,
                        voltage_max: 60000,
                        current_min: 0,
                        current_max: 3200,
                        ovp_max: 63000,
                        ocp_max: 3500,
                    },
                ),
                rate_options: seq![],
                has_beeper: false,
                has_threshold: false,
                has_hold: true,
            },
        }
    }

    /// What the family becomes once an instrument has identified itself.
    pub open spec fn configured(self, idn: Seq<char>) -> DeviceFamily {
        match self {
            DeviceFamily::Default { .. } => match firmware_swaps(idn) {
                Some(swap_diod_cont) => DeviceFamily::Default { swap_diod_cont },
                None => self,
            },
            DeviceFamily::Spm => self,
        }
    }

    /// Query for a measurement reading.
    pub open spec fn measurement_command(self) -> Seq<char> {
        match self {
            DeviceFamily::Default { .. } => "MEAS?\n"@,
            DeviceFamily::Spm => "CONFigure:ALL?\n"@,
        }
    }

    /// Query for the current function.
    pub open spec fn function_query_command(self) -> Seq<char> {
        match self {
            DeviceFamily::Default { .. } => "FUNC?\n"@,
            DeviceFamily::Spm => "CONFigure:ALL?\n"@,
        }
    }

    /// Command to switch to a meter mode.
    pub open spec fn mode_command(self, mode: MeterMode) -> Seq<char> {
        match self {
            DeviceFamily::Default { .. } => xdm_mode_command(mode),
            DeviceFamily::Spm => spm_mode_command(mode),
        }
    }

    /// Command to set the sampling rate by its index among the rate options.
    pub open spec fn rate_command(self, index: int) -> Option<Seq<char>> {
        match self {
            DeviceFamily::Default { .. } => if index == 0 {
                Some("RATE S\n"@)
            } else if index == 1 {
                Some("RATE M\n"@)
            } else if index == 2 {
                Some("RATE F\n"@)
            } else {
                None
            },
            DeviceFamily::Spm => None,
        }
    }

    /// The ranges of a mode.
    pub open spec fn range_table(self, mode: MeterMode) -> Option<RangeTable> {
        match self {
            DeviceFamily::Default { .. } => xdm_table(mode),
            DeviceFamily::Spm => spm_table(mode),
        }
    }

    /// Commands to select a range by its index among the mode's ranges. The XDM command set has
    /// automatic ranging as one more value.
    pub open spec fn range_command(self, mode: MeterMode, index: int) -> Option<Seq<char>> {
        match self.range_table(mode) {
            Some(table) => match self {
                DeviceFamily::Default { .. } => if 0 <= index < table.ranges.len() {
                    Some(table.prefix + table.ranges[index].1 + "\n"@)
                } else {
                    None
                },
                DeviceFamily::Spm => range_selection(table, index),
            },
            None => None,
        }
    }

    /// The display names of a mode's ranges.
    pub open spec fn range_names(self, mode: MeterMode) -> Option<Seq<Seq<char>>> {
        match self.range_table(mode) {
            Some(table) => Some(names(table.ranges)),
            None => None,
        }
    }

    /// Command to turn hardware hold on or off.
    pub open spec fn hold_command(self, on: bool) -> Option<Seq<char>> {
        match self {
            DeviceFamily::Default { .. } => None,
            DeviceFamily::Spm => Some(
                if on {
                    "MULT:HOLD ON\n"@
                } else {
                    "MULT:HOLD OFF\n"@
                },
            ),
        }
    }

    /// Command to turn the beeper on or off.
    pub open spec fn beeper_command(self, on: bool) -> Option<Seq<char>> {
        match self {
            DeviceFamily::Default { .. } => Some(
                if on {
                    "SYST:BEEP:STATe ON\n"@
                } else {
                    "SYST:BEEP:STATe OFF\n"@
                },
            ),
            DeviceFamily::Spm => None,
        }
    }

    /// Command to set the continuity threshold.
    pub open spec fn cont_threshold_command(self, ohms: u32) -> Option<Seq<char>> {
        match self {
            DeviceFamily::Default { .. } => Some(
                "CONT:THREshold "@ + decimal(ohms as nat) + "\n"@,
            ),
            DeviceFamily::Spm => None,
        }
    }

    /// Command to set the diode threshold, given in decimal notation.
    pub open spec fn diod_threshold_command(self, volts: Seq<char>) -> Option<Seq<char>> {
        match self {
            DeviceFamily::Default { .. } => Some("DIOD:THREshold "@ + volts + "\n"@),
            DeviceFamily::Spm => None,
        }
    }

    /// Command to turn the power supply's output on or off.
    pub open spec fn ps_output_command(self, on: bool) -> Option<Seq<char>> {
        match self {
            DeviceFamily::Default { .. } => None,
            DeviceFamily::Spm => Some(
                if on {
                    "OUTP ON\n"@
                } else {
                    "OUTP OFF\n"@
                },
            ),
        }
    }

    /// Query for the state of the output.
    pub open spec fn ps_query_output(self) -> Option<Seq<char>> {
        match self {
            DeviceFamily::Default { .. } => None,
            DeviceFamily::Spm => Some("OUTP?\n"@),
        }
    }

    /// Command to change a setting, given in decimal notation.
    pub open spec fn ps_set(self, setting: PsSetting, amount: Seq<char>) -> Option<Seq<char>> {
        match self {
            DeviceFamily::Default { .. } => None,
            DeviceFamily::Spm => Some(
                (match setting {
                    PsSetting::Voltage => "VOLT "@,
                    PsSetting::Current => "CURR "@,
                    PsSetting::Ovp => "VOLT:LIM "@,
                    PsSetting::Ocp => "CURR:LIM "@,
                }) + amount + "\n"@,
            ),
        }
    }

    /// Query for a setting.
    pub open spec fn ps_query(self, setting: PsSetting) -> Option<Seq<char>> {
        match self {
            DeviceFamily::Default { .. } => None,
            DeviceFamily::Spm => Some(
                match setting {
                    PsSetting::Voltage => "VOLT?\n"@,
                    PsSetting::Current => "CURR?\n"@,
                    PsSetting::Ovp => "VOLT:LIM?\n"@,
                    PsSetting::Ocp => "CURR:LIM?\n"@,
                },
            ),
        }
    }

    /// Query for output voltage, current and power together.
    pub open spec fn ps_query_meas_all(self) -> Option<Seq<char>> {
        match self {
            DeviceFamily::Default { .. } => None,
            DeviceFamily::Spm => Some("MEAS:ALL?\n"@),
        }
    }

    /// How the answer to a measurement or function query is read.
    pub open spec fn parse_measurement(self, reply: Seq<char>) -> Parsed {
        match self {
            DeviceFamily::Default { swap_diod_cont } => xdm_parsed(reply, swap_diod_cont),
            DeviceFamily::Spm => spm_parsed(reply),
        }
    }

    /// How the answer to a range query is read.
    pub open spec fn parse_range_response(self, reply: Seq<char>, mode: MeterMode) -> Matching {
        match self.range_table(mode) {
            Some(table) => match self {
                DeviceFamily::Default { .. } => Matching::Settled(named_range(table.ranges, reply)),
                DeviceFamily::Spm => valued_range(table.ranges, reply),
            },
            None => Matching::Settled(None),
        }
    }
}

} // verus!
