//! SPM plugin: OWON SPM-series power supplies with an integrated multimeter.
//!
//! Matched for any model whose name starts with "SPM".
//!
//! - `CONFigure:ALL?` for both the measurement and the function query (comma-separated)
//! - `FUNC:*` commands for mode switching
//! - `SENS:*:RANG` and `*:RANG:AUTO` for range control
//! - hardware hold via `MULT:HOLD`
//! - integrated power supply (OUTP, VOLT, CURR, MEAS:ALL?)
//! - no sampling rate control, beeper, or threshold settings

use super::family::{field_range, DeviceFamily};
use super::{
    Capabilities, DeviceCapabilities, DevicePlugin, ParseResult, PowerSupplyLimits, RangeInfo,
};
use crate::multimeter::MeterMode;
use crate::ranges::{details, has_auto, list_names, match_valued_range, RangeDetails, RangeMatch};
use crate::replies::{mode_from_name, parse_value_field, Precision, ValueField};
use crate::tables::{spm_mode, spm_ranges, spm_table};
use crate::text::{
    contains_char, join, same, same_ignoring_case, split_at_char, strip, texts, trimmed,
};
use vstd::prelude::*;

verus! {

/// Plugin for SPM-series power supplies.
pub struct SpmPlugin {
    capabilities: DeviceCapabilities,
}

/// Reads the status and range fields of a reply `TYPE,VALUE,STATUS,RANGE`.
pub fn match_field_range(info: &Option<RangeDetails>, parts: &Vec<&str>) -> (r: RangeMatch)
    ensures
        r@ == field_range(details(*info), texts(parts@)),
{
    proof {
        assert(texts(parts@).len() == parts@.len());
        assert(forall|i: int| 0 <= i < parts@.len() ==> texts(parts@)[i] == parts@[i]@);
    }
    match info {
        Some(info) => {
            if parts.len() < 3 {
                RangeMatch::Settled(None)
            } else if same_ignoring_case(strip(parts[2]), "AUTO") && has_auto(&info.ranges) {
                RangeMatch::Settled(Some(0))
            } else if parts.len() >= 4 {
                let range_str: &str = strip(parts[3]);
                if range_str.unicode_len() > 0 {
                    match_valued_range(&info.ranges, range_str)
                } else {
                    RangeMatch::Settled(None)
                }
            } else {
                RangeMatch::Settled(None)
            }
        },
        None => RangeMatch::Settled(None),
    }
}

impl SpmPlugin {
    /// What the plugin says that its device can do.
    pub closed spec fn declared(self) -> Capabilities {
        self.capabilities@
    }

    #[verifier::type_invariant]
    spec fn knows_capabilities(self) -> bool {
        self.capabilities@ == DeviceFamily::Spm.capabilities()
    }

    /// A plugin for an SPM power supply.
    pub fn new() -> (r: SpmPlugin)
        ensures
            r.family() == DeviceFamily::Spm,
            r.declared() == DeviceFamily::Spm.capabilities(),
    {
        let capabilities: DeviceCapabilities = DeviceCapabilities {
            supported_modes: vec![
                MeterMode::Vdc,
                MeterMode::Vac,
                MeterMode::Adc,
                MeterMode::Aac,
                MeterMode::Res,
                MeterMode::Cap,
                MeterMode::Diod,
                MeterMode::Cont,
            ],
            has_power_supply: true,
            power_supply_limits: Some(
                PowerSupplyLimits {
                    voltage_min: 0,
                    voltage_max: 60000,
                    current_min: 0,
                    current_max: 3200,
                    ovp_max: 63000,
                    ocp_max: 3500,
                },
            ),
            rate_options: vec![],
            has_beeper: false,
            has_threshold: false,
            has_hold: true,
        };
        proof {
            let wanted = DeviceFamily::Spm.capabilities();
            assert(capabilities@.supported_modes =~= wanted.supported_modes);
            assert(capabilities@.rate_options =~= wanted.rate_options);
        }
        SpmPlugin { capabilities }
    }

    /// Range data with SCPI details.
    fn internal_range_info(&self, mode: MeterMode) -> (r: Option<RangeDetails>)
        ensures
            details(r) == spm_table(mode),
    {
        spm_ranges(mode)
    }
}

/// A command with an amount.
fn amount_command(prefix: &str, amount: &str) -> (r: String)
    ensures
        r@ == prefix@ + amount@ + "\n"@,
{
    let mut command: String = join(prefix, amount);
    command.append("\n");
    command
}

impl DevicePlugin for SpmPlugin {
    closed spec fn family(&self) -> DeviceFamily {
        DeviceFamily::Spm
    }

    fn name(&self) -> &str {
        "SPM"
    }

    fn capabilities(&self) -> (r: &DeviceCapabilities)
        ensures
            r@ == self.declared(),
    {
        proof {
            use_type_invariant(self);
        }
        &self.capabilities
    }

    fn configure_from_idn(&mut self, idn: &str) {
    }

    // ---- SCPI Command Generation ----

    fn measurement_command(&self) -> &str {
        "CONFigure:ALL?\n"
    }

    fn function_query_command(&self) -> &str {
        "CONFigure:ALL?\n"
    }

    fn mode_command(&self, mode: MeterMode) -> String {
        spm_mode(mode).to_owned()
    }

    fn rate_command(&self, index: usize) -> Option<String> {
        None
    }

    fn range_command(&self, mode: MeterMode, range_index: usize) -> Option<String> {
        match self.internal_range_info(mode) {
            Some(info) => {
                assert(info@.ranges.len() == info.ranges@.len());
                if range_index >= info.ranges.len() {
                    return None;
                }
                let (name, scpi_val) = info.ranges[range_index];
                assert(info@.ranges[range_index as int] == (name@, scpi_val@));
                if same(name, "auto") {
                    match info.auto_on_cmd {
                        Some(cmd) => Some(cmd.to_owned()),
                        None => Some(amount_command(info.scpi_prefix, "AUTO")),
                    }
                } else {
                    let select: String = amount_command(info.scpi_prefix, scpi_val);
                    match info.auto_off_cmd {
                        Some(auto_off) => Some(join(auto_off, select.as_str())),
                        None => Some(select),
                    }
                }
            },
            None => None,
        }
    }

    fn hold_command(&self, on: bool) -> Option<String> {
        if on {
            Some("MULT:HOLD ON\n".to_owned())
        } else {
            Some("MULT:HOLD OFF\n".to_owned())
        }
    }

    fn beeper_command(&self, on: bool) -> Option<String> {
        None
    }

    fn cont_threshold_command(&self, ohms: u32) -> Option<String> {
        None
    }

    fn diod_threshold_command(&self, volts: &str) -> Option<String> {
        None
    }

    // ---- Power Supply Commands ----

    fn ps_output_command(&self, on: bool) -> Option<String> {
        if on {
            Some("OUTP ON\n".to_owned())
        } else {
            Some("OUTP OFF\n".to_owned())
        }
    }

    fn ps_query_output(&self) -> Option<&str> {
        Some("OUTP?\n")
    }

    fn ps_set_voltage(&self, v: &str) -> Option<String> {
        Some(amount_command("VOLT ", v))
    }

    fn ps_set_current(&self, a: &str) -> Option<String> {
        Some(amount_command("CURR ", a))
    }

    fn ps_set_ovp(&self, v: &str) -> Option<String> {
        Some(amount_command("VOLT:LIM ", v))
    }

    fn ps_set_ocp(&self, a: &str) -> Option<String> {
        Some(amount_command("CURR:LIM ", a))
    }

    fn ps_query_voltage(&self) -> Option<&str> {
        Some("VOLT?\n")
    }

    fn ps_query_current(&self) -> Option<&str> {
        Some("CURR?\n")
    }

    fn ps_query_ovp(&self) -> Option<&str> {
        Some("VOLT:LIM?\n")
    }

    fn ps_query_ocp(&self) -> Option<&str> {
        Some("CURR:LIM?\n")
    }

    fn ps_query_meas_all(&self) -> Option<&str> {
        Some("MEAS:ALL?\n")
    }

    // ---- Response Parsing ----

    fn parse_measurement(&self, response: &str) -> ParseResult {
        let trimmed: &str = strip(response);
        let parts: Vec<&str> = split_at_char(trimmed, ',');
        if !contains_char(trimmed, ',') || parts.len() < 2 {
            return ParseResult {
                measurement: None,
                mode: None,
                range_index: RangeMatch::Settled(None),
                precision: None,
            };
        }
        proof {
            assert(texts(parts@).len() == parts@.len());
            assert(forall|i: int| 0 <= i < parts@.len() ==> texts(parts@)[i] == parts@[i]@);
        }
        let mode: Option<MeterMode> = mode_from_name(strip(parts[0]), false);
        let value: ValueField = parse_value_field(strip(parts[1]));
        let precision: Option<Precision> = if value.overload {
            None
        } else {
            Some(Precision { decimals: value.decimals, prefix: value.prefix })
        };
        let range_index: RangeMatch = match mode {
            Some(mode) => match_field_range(&self.internal_range_info(mode), &parts),
            None => RangeMatch::Settled(None),
        };
        ParseResult { measurement: value.reading, mode, range_index, precision }
    }

    fn parse_range_response(&self, response: &str, mode: MeterMode) -> RangeMatch {
        match self.internal_range_info(mode) {
            Some(info) => match_valued_range(&info.ranges, response),
            None => RangeMatch::Settled(None),
        }
    }

    fn range_info(&self, mode: MeterMode) -> Option<RangeInfo> {
        match self.internal_range_info(mode) {
            Some(info) => Some(RangeInfo { ranges: list_names(&info.ranges) }),
            None => None,
        }
    }
}

} // verus!
