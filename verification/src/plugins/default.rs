//! Default plugin: baseline multimeter behaviour.
//!
//! Used as a fallback when no device-specific plugin matches the model name. Implements the
//! command set of the OWON XDM1041 and XDM1241 bench multimeters.
//!
//! - `MEAS?` for measurements, `FUNC?` for the function query
//! - `CONF:*` commands for mode and range
//! - `RATE S/M/F` for the sampling rate
//! - beeper and threshold control
//! - no power supply, no hardware hold

use super::family::DeviceFamily;
use super::{Capabilities, DeviceCapabilities, DevicePlugin, ParseResult, RangeInfo};
use crate::multimeter::MeterMode;
use crate::number::{count_decimals, parse_u32, render_u32, NumberText};
use crate::ranges::{details, list_names, match_named_range, RangeDetails, RangeMatch};
use crate::replies::{is_function_reply, parse_function, Precision, Reading, SiPrefix};
use crate::tables::{xdm_mode, xdm_ranges, xdm_table};
use crate::text::{
    join, same, split_at_char, strip, texts, without_ends, without_leading, CharClass,
};
use vstd::prelude::*;

verus! {

/// Plugin for instruments with the XDM command set.
pub struct DefaultPlugin {
    capabilities: DeviceCapabilities,
    /// XDM1041 firmware before 4.3 swaps DIOD and CONT in `FUNC?` responses.
    swap_diod_cont: bool,
}

impl DefaultPlugin {
    /// What the plugin says that its device can do.
    pub closed spec fn declared(self) -> Capabilities {
        self.capabilities@
    }

    #[verifier::type_invariant]
    spec fn knows_capabilities(self) -> bool {
        self.capabilities@ == (DeviceFamily::Default { swap_diod_cont: false }).capabilities()
    }

    /// A plugin for an instrument whose firmware is not known yet.
    pub fn new() -> (r: DefaultPlugin)
        ensures
            r.family() == (DeviceFamily::Default { swap_diod_cont: false }),
            r.declared() == (DeviceFamily::Default { swap_diod_cont: false }).capabilities(),
    {
        let capabilities: DeviceCapabilities = DeviceCapabilities {
            supported_modes: vec![
                MeterMode::Vdc,
                MeterMode::Vac,
                MeterMode::Adc,
                MeterMode::Aac,
                MeterMode::Res,
                MeterMode::Cap,
                MeterMode::Freq,
                MeterMode::Per,
                MeterMode::Diod,
                MeterMode::Cont,
                MeterMode::Temp,
            ],
            has_power_supply: false,
            power_supply_limits: None,
            rate_options: vec!["Slow", "Medium", "Fast"],
            has_beeper: true,
            has_threshold: true,
            has_hold: false,
        };
        proof {
            let wanted = (DeviceFamily::Default { swap_diod_cont: false }).capabilities();
            assert(capabilities@.supported_modes =~= wanted.supported_modes);
            assert(capabilities@.rate_options =~= wanted.rate_options);
        }
        DefaultPlugin { capabilities, swap_diod_cont: false }
    }

    /// Range data with SCPI details.
    fn internal_range_info(&self, mode: MeterMode) -> (r: Option<RangeDetails>)
        ensures
            details(r) == xdm_table(mode),
    {
        xdm_ranges(mode)
    }
}

impl DevicePlugin for DefaultPlugin {
    closed spec fn family(&self) -> DeviceFamily {
        DeviceFamily::Default { swap_diod_cont: self.swap_diod_cont }
    }

    fn name(&self) -> &str {
        "Default"
    }

    fn capabilities(&self) -> (r: &DeviceCapabilities)
        ensures
            r@ == self.declared(),
    {
        proof {
            use_type_invariant(self);
        }
        &self.capabilities
    }

    fn configure_from_idn(&mut self, idn: &str) {
        let parts: Vec<&str> = split_at_char(idn, ',');
        proof {
            use_type_invariant(&*self);
            assert(texts(parts@).len() == parts@.len());
            assert(forall|i: int| 0 <= i < parts@.len() ==> texts(parts@)[i] == parts@[i]@);
        }
        if parts.len() >= 4 && same(parts[0], "OWON") && (same(parts[1], "XDM1041") || same(
            parts[1],
            "XDM1241",
        )) {
            let fw_version: &str = without_leading(parts[3], CharClass::Only('V'));
            let vparts: Vec<&str> = split_at_char(fw_version, '.');
            proof {
                assert(texts(vparts@).len() == vparts@.len());
                assert(forall|i: int|
                    0 <= i < vparts@.len() ==> texts(vparts@)[i] == vparts@[i]@);
            }
            if vparts.len() >= 2 {
                match (parse_u32(vparts[0]), parse_u32(vparts[1])) {
                    (Some(major), Some(minor)) => {
                        self.swap_diod_cont = major < 4 || (major == 4 && minor < 3);
                    },
                    _ => {},
                }
            }
        }
    }

    // ---- SCPI Command Generation ----

    fn measurement_command(&self) -> &str {
        "MEAS?\n"
    }

    fn function_query_command(&self) -> &str {
        "FUNC?\n"
    }

    fn mode_command(&self, mode: MeterMode) -> String {
        xdm_mode(mode).to_owned()
    }

    fn rate_command(&self, index: usize) -> Option<String> {
        if index == 0 {
            Some("RATE S\n".to_owned())
        } else if index == 1 {
            Some("RATE M\n".to_owned())
        } else if index == 2 {
            Some("RATE F\n".to_owned())
        } else {
            None
        }
    }

    fn range_command(&self, mode: MeterMode, range_index: usize) -> Option<String> {
        match self.internal_range_info(mode) {
            Some(info) => {
                assert(info@.ranges.len() == info.ranges@.len());
                if range_index < info.ranges.len() {
                    let value: &str = info.ranges[range_index].1;
                    assert(info@.ranges[range_index as int].1 == value@);
                    let mut command: String = join(info.scpi_prefix, value);
                    command.append("\n");
                    Some(command)
                } else {
                    None
                }
            },
            None => None,
        }
    }

    fn hold_command(&self, on: bool) -> Option<String> {
        None
    }

    fn beeper_command(&self, on: bool) -> Option<String> {
        if on {
            Some("SYST:BEEP:STATe ON\n".to_owned())
        } else {
            Some("SYST:BEEP:STATe OFF\n".to_owned())
        }
    }

    fn cont_threshold_command(&self, ohms: u32) -> Option<String> {
        let amount: String = render_u32(ohms);
        let mut command: String = join("CONT:THREshold ", amount.as_str());
        command.append("\n");
        Some(command)
    }

    fn diod_threshold_command(&self, volts: &str) -> Option<String> {
        let mut command: String = join("DIOD:THREshold ", volts);
        command.append("\n");
        Some(command)
    }

    // ---- Power Supply Commands ----

    fn ps_output_command(&self, on: bool) -> Option<String> {
        None
    }

    fn ps_query_output(&self) -> Option<&str> {
        None
    }

    fn ps_set_voltage(&self, v: &str) -> Option<String> {
        None
    }

    fn ps_set_current(&self, a: &str) -> Option<String> {
        None
    }

    fn ps_set_ovp(&self, v: &str) -> Option<String> {
        None
    }

    fn ps_set_ocp(&self, a: &str) -> Option<String> {
        None
    }

    fn ps_query_voltage(&self) -> Option<&str> {
        None
    }

    fn ps_query_current(&self) -> Option<&str> {
        None
    }

    fn ps_query_ovp(&self) -> Option<&str> {
        None
    }

    fn ps_query_ocp(&self) -> Option<&str> {
        None
    }

    fn ps_query_meas_all(&self) -> Option<&str> {
        None
    }

    // ---- Response Parsing ----

    fn parse_measurement(&self, response: &str) -> ParseResult {
        let trimmed: &str = strip(response);
        let unquoted: &str = without_ends(trimmed, CharClass::Only('"'));
        if is_function_reply(unquoted) {
            return ParseResult {
                measurement: None,
                mode: parse_function(unquoted, self.swap_diod_cont),
                range_index: RangeMatch::Settled(None),
                precision: None,
            };
        }
        match NumberText::parse(trimmed) {
            Some(number) => ParseResult {
                measurement: Some(Reading::Number(number, SiPrefix::One)),
                mode: None,
                range_index: RangeMatch::Settled(None),
                precision: Some(
                    Precision { decimals: count_decimals(trimmed), prefix: SiPrefix::One },
                ),
            },
            None => ParseResult {
                measurement: None,
                mode: None,
                range_index: RangeMatch::Settled(None),
                precision: None,
            },
        }
    }

    fn parse_range_response(&self, response: &str, mode: MeterMode) -> RangeMatch {
        match self.internal_range_info(mode) {
            Some(info) => RangeMatch::Settled(match_named_range(&info.ranges, response)),
            None => RangeMatch::Settled(None),
        }
    }

    fn range_info(&self, mode: MeterMode) -> Option<RangeInfo> {
        match self.internal_range_info(mode) {
            Some(info) => Some(RangeInfo { ranges: list_names(&info.ranges) }),
            None => None,
        }
    }
}

} // verus!
