//! Plugins for two individual models, the XDM1041 and the SPM6103, that tell a reading's decimal
//! places and can query a range.

use crate::multimeter::MeterMode;
use crate::number::{count_decimals, decimal_places, is_number, NumberText};
use crate::plugins::family::field_range;
use crate::plugins::spm::match_field_range;
pub use crate::plugins::{PendingChanges, PowerSupplyLimits, PowerSupplyState};
use crate::ranges::{
    borrowed, details, match_named_range, match_valued_range, named_range, pairs, valued_range,
    Matching, RangeDetails, RangeMatch, RangeTable,
};
use crate::replies::{
    function_mode, is_function, is_function_reply, mode_from_name, mode_named, parse_function,
    parse_value_field, reading, value_number, value_prefix, value_reading, Reading, ReadingText,
    SiPrefix, ValueField,
};
use crate::tables::{
    spm6103_ranges, spm6103_table, spm_mode, spm_mode_command, xdm_mode, xdm_mode_command,
    xdm_ranges, xdm_table,
};
use crate::text::{
    contains_char, split, split_at_char, string, strip, texts, trim, trimmed, without_ends,
    CharClass,
};
use vstd::prelude::*;

verus! {

/// What a `ParseResult` holds, as pure data.
#[verifier::ext_equal]
pub struct Parsed {
    pub measurement: Option<ReadingText>,
    pub mode: Option<MeterMode>,
    pub range_index: Matching,
    pub decimals: Option<nat>,
}

/// Result of parsing a device response.
#[derive(Debug)]
pub struct ParseResult {
    pub measurement: Option<Reading>,
    pub mode: Option<MeterMode>,
    /// Index into the ranges of the current mode.
    pub range_index: RangeMatch,
    /// Number of decimal places that the measurement needs in the base unit.
    pub decimals: Option<usize>,
}

impl View for ParseResult {
    type V = Parsed;

    open spec fn view(&self) -> Parsed {
        Parsed {
            measurement: reading(self.measurement),
            mode: self.mode,
            range_index: self.range_index@,
            decimals: match self.decimals {
                Some(n) => Some(n as nat),
                None => None,
            },
        }
    }
}

/// Range information for a specific mode.
#[derive(Clone, Debug)]
pub struct RangeInfo {
    pub scpi_prefix: &'static str,
    /// (display name, SCPI value)
    pub ranges: Vec<(&'static str, &'static str)>,
    /// Command to enable automatic ranging, where it is not the prefix with `AUTO`.
    pub auto_on_cmd: Option<&'static str>,
    /// Command to disable automatic ranging before a fixed range is set.
    pub auto_off_cmd: Option<&'static str>,
}

impl View for RangeInfo {
    type V = RangeTable;

    open spec fn view(&self) -> RangeTable {
        RangeTable {
            prefix: self.scpi_prefix@,
            auto_on: borrowed(self.auto_on_cmd),
            auto_off: borrowed(self.auto_off_cmd),
            ranges: pairs(self.ranges@),
        }
    }
}

/// The table of range information that may be absent.
pub open spec fn table(info: Option<RangeInfo>) -> Option<RangeTable> {
    match info {
        Some(info) => Some(info@),
        None => None,
    }
}

/// The models.
#[derive(Clone, Copy, PartialEq, Eq, Debug, Structural)]
pub enum DeviceModel {
    Xdm1041,
    Spm6103,
}

/// A reply that tells nothing.
pub open spec fn nothing_parsed() -> Parsed {
    Parsed {
        measurement: None,
        mode: None,
        range_index: Matching::Settled(None),
        decimals: None,
    }
}

impl DeviceModel {
    /// The ranges of a mode.
    pub open spec fn ranges(self, mode: MeterMode) -> Option<RangeTable> {
        match self {
            DeviceModel::Xdm1041 => xdm_table(mode),
            DeviceModel::Spm6103 => spm6103_table(mode),
        }
    }

    /// The command to set a mode.
    pub open spec fn mode_command(self, mode: MeterMode) -> Seq<char> {
        match self {
            DeviceModel::Xdm1041 => xdm_mode_command(mode),
            DeviceModel::Spm6103 => spm_mode_command(mode),
        }
    }

    /// Which modes the model measures in.
    pub open spec fn supports_mode(self, mode: MeterMode) -> bool {
        match self {
            DeviceModel::Xdm1041 => true,
            DeviceModel::Spm6103 => mode != MeterMode::Freq && mode != MeterMode::Per && mode
                != MeterMode::Temp,
        }
    }

    /// The limits of the integrated power supply.
    pub open spec fn limits(self) -> Option<PowerSupplyLimits> {
        match self {
            DeviceModel::Xdm1041 => None,
            DeviceModel::Spm6103 => Some(
                PowerSupplyLimits {
                    voltage_min: 0,
                    voltage_max: 60000,
                    current_min: 0,
                    current_max: 3200,
                    ovp_max: 63000,
                    ocp_max: 3500,
                },
            ),
        }
    }

    /// The query for the range setting of a mode.
    pub open spec fn range_query(self, mode: MeterMode) -> Option<Seq<char>> {
        match self {
            DeviceModel::Xdm1041 => match mode {
                MeterMode::Vdc => Some("CONF:VOLT:DC?\n"@),
                MeterMode::Vac => Some("CONF:VOLT:AC?\n"@),
                MeterMode::Adc => Some("CONF:CURR:DC?\n"@),
                MeterMode::Aac => Some("CONF:CURR:AC?\n"@),
                MeterMode::Res => Some("CONF:RES?\n"@),
                MeterMode::Cap => Some("CONF:CAP?\n"@),
                MeterMode::Temp => Some("CONF:TEMP?\n"@),
                _ => None,
            },
            DeviceModel::Spm6103 => match mode {
                MeterMode::Vdc => Some("VOLT:DC:RANG?\n"@),
                MeterMode::Vac => Some("VOLT:AC:RANG?\n"@),
                MeterMode::Adc => Some("CURR:DC:RANG?\n"@),
                MeterMode::Aac => Some("CURR:AC:RANG?\n"@),
                MeterMode::Res => Some("RES:RANG?\n"@),
                MeterMode::Cap => Some("CAP:RANG?\n"@),
                _ => None,
            },
        }
    }

    /// How the answer to a range query is read.
    pub open spec fn parse_range(self, reply: Seq<char>, mode: MeterMode) -> Matching {
        match self.ranges(mode) {
            Some(table) => match self {
                DeviceModel::Xdm1041 => Matching::Settled(named_range(table.ranges, reply)),
                DeviceModel::Spm6103 => valued_range(table.ranges, reply),
            },
            None => Matching::Settled(None),
        }
    }

    /// How a reply is read. The XDM1041 answers with a function name or a number, the SPM6103 with
    /// `TYPE,VALUE,STATUS,RANGE`.
    pub open spec fn parse(self, reply: Seq<char>, swap: bool) -> Parsed {
        let t = trimmed(reply);
        match self {
            DeviceModel::Xdm1041 => {
                let unquoted = trim(t, CharClass::Only('"'));
                if is_function(unquoted) {
                    Parsed { mode: function_mode(unquoted, swap), ..nothing_parsed() }
                } else if is_number(t) {
                    Parsed {
                        measurement: Some(ReadingText::Number(t, SiPrefix::One)),
                        decimals: Some(decimal_places(t)),
                        ..nothing_parsed()
                    }
                } else {
                    nothing_parsed()
                }
            },
            DeviceModel::Spm6103 => {
                let fields = split(t, ',');
                if t.contains(',') && fields.len() >= 2 {
                    let mode = mode_named(trimmed(fields[0]), swap);
                    let value = trimmed(fields[1]);
                    Parsed {
                        measurement: value_reading(value),
                        mode,
                        range_index: match mode {
                            Some(m) => field_range(self.ranges(m), fields),
                            None => Matching::Settled(None),
                        },
                        decimals: Some(
                            decimal_places(value_number(value)) + value_prefix(
                                value,
                            ).added_decimals(),
                        ),
                    }
                } else {
                    nothing_parsed()
                }
            },
        }
    }
}

/// Device-specific behavior.
pub trait DevicePlugin: Send + Sync {
    /// The model that the plugin serves.
    spec fn model(&self) -> DeviceModel;

    /// Parse a measurement response from the device.
    fn parse_measurement(&self, response: &str, swap_diod_cont: bool) -> (r: ParseResult)
        requires
            response@.len() + 9 <= usize::MAX,
        ensures
            r@ == self.model().parse(response@, swap_diod_cont),
    ;

    /// Generate the command to set a specific meter mode.
    fn mode_command(&self, mode: MeterMode) -> (r: String)
        ensures
            r@ == self.model().mode_command(mode),
    ;

    /// Check if a specific mode is supported by this device.
    fn supports_mode(&self, mode: MeterMode) -> (b: bool)
        ensures
            b == self.model().supports_mode(mode),
    ;

    /// Check if this device supports sampling rate control.
    fn supports_rate_control(&self) -> (b: bool)
        ensures
            b == (self.model() is Xdm1041),
    ;

    /// Get range information for a specific mode.
    fn range_info(&self, mode: MeterMode) -> (r: Option<RangeInfo>)
        ensures
            table(r) == self.model().ranges(mode),
    ;

    /// Check if this device supports beeper control.
    fn supports_beeper(&self) -> (b: bool)
        ensures
            b == (self.model() is Xdm1041),
    ;

    /// Check if this device supports threshold settings.
    fn supports_threshold(&self) -> (b: bool)
        ensures
            b == (self.model() is Xdm1041),
    ;

    /// Check if this device supports hardware hold.
    fn supports_hold(&self) -> (b: bool)
        ensures
            b == (self.model() is Spm6103),
    ;

    /// Generate the query command to read the current range setting for a mode.
    fn range_query_command(&self, mode: MeterMode) -> (r: Option<String>)
        ensures
            string(r) == self.model().range_query(mode),
    ;

    /// Parse a range query response and find the matching range.
    fn parse_range_response(&self, response: &str, mode: MeterMode) -> (r: RangeMatch)
        ensures
            r@ == self.model().parse_range(response@, mode),
    ;

    /// Check if this device has an integrated power supply.
    fn supports_power_supply(&self) -> (b: bool)
        ensures
            b == (self.model() is Spm6103),
    ;

    /// Get the power supply limits.
    fn power_supply_limits(&self) -> (r: Option<PowerSupplyLimits>)
        ensures
            r == self.model().limits(),
    ;
}

/// Range information from range details.
fn published(details: RangeDetails) -> (r: RangeInfo)
    ensures
        r@ == details@,
{
    RangeInfo {
        scpi_prefix: details.scpi_prefix,
        ranges: details.ranges,
        auto_on_cmd: details.auto_on_cmd,
        auto_off_cmd: details.auto_off_cmd,
    }
}

/// Plugin for OWON XDM1041 and XDM1241 multimeters.
pub struct Xdm1041Plugin;

impl DevicePlugin for Xdm1041Plugin {
    open spec fn model(&self) -> DeviceModel {
        DeviceModel::Xdm1041
    }

    fn parse_measurement(&self, response: &str, swap_diod_cont: bool) -> ParseResult {
        let trimmed: &str = strip(response);
        let unquoted: &str = without_ends(trimmed, CharClass::Only('"'));
        if is_function_reply(unquoted) {
            return ParseResult {
                measurement: None,
                mode: parse_function(unquoted, swap_diod_cont),
                range_index: RangeMatch::Settled(None),
                decimals: None,
            };
        }
        match NumberText::parse(trimmed) {
            Some(number) => ParseResult {
                measurement: Some(Reading::Number(number, SiPrefix::One)),
                mode: None,
                range_index: RangeMatch::Settled(None),
                decimals: Some(count_decimals(trimmed)),
            },
            None => ParseResult {
                measurement: None,
                mode: None,
                range_index: RangeMatch::Settled(None),
                decimals: None,
            },
        }
    }

    fn mode_command(&self, mode: MeterMode) -> String {
        xdm_mode(mode).to_owned()
    }

    fn supports_mode(&self, mode: MeterMode) -> bool {
        true
    }

    fn supports_rate_control(&self) -> bool {
        true
    }

    fn range_info(&self, mode: MeterMode) -> Option<RangeInfo> {
        match xdm_ranges(mode) {
            Some(details) => Some(published(details)),
            None => None,
        }
    }

    fn supports_beeper(&self) -> bool {
        true
    }

    fn supports_threshold(&self) -> bool {
        true
    }

    fn supports_hold(&self) -> bool {
        false
    }

    fn range_query_command(&self, mode: MeterMode) -> Option<String> {
        match mode {
            MeterMode::Vdc => Some("CONF:VOLT:DC?\n".to_owned()),
            MeterMode::Vac => Some("CONF:VOLT:AC?\n".to_owned()),
            MeterMode::Adc => Some("CONF:CURR:DC?\n".to_owned()),
            MeterMode::Aac => Some("CONF:CURR:AC?\n".to_owned()),
            MeterMode::Res => Some("CONF:RES?\n".to_owned()),
            MeterMode::Cap => Some("CONF:CAP?\n".to_owned()),
            MeterMode::Temp => Some("CONF:TEMP?\n".to_owned()),
            _ => None,
        }
    }

    fn parse_range_response(&self, response: &str, mode: MeterMode) -> RangeMatch {
        match xdm_ranges(mode) {
            Some(details) => RangeMatch::Settled(match_named_range(&details.ranges, response)),
            None => RangeMatch::Settled(None),
        }
    }

    fn supports_power_supply(&self) -> bool {
        false
    }

    fn power_supply_limits(&self) -> Option<PowerSupplyLimits> {
        None
    }
}

/// Plugin for the OWON SPM6103 power supply with integrated multimeter.
pub struct Spm6103Plugin;

impl DevicePlugin for Spm6103Plugin {
    open spec fn model(&self) -> DeviceModel {
        DeviceModel::Spm6103
    }

    fn parse_measurement(&self, response: &str, swap_diod_cont: bool) -> ParseResult {
        let trimmed: &str = strip(response);
        let parts: Vec<&str> = split_at_char(trimmed, ',');
        if !contains_char(trimmed, ',') || parts.len() < 2 {
            return ParseResult {
                measurement: None,
                mode: None,
                range_index: RangeMatch::Settled(None),
                decimals: None,
            };
        }
        proof {
            assert(texts(parts@).len() == parts@.len());
            assert(forall|i: int| 0 <= i < parts@.len() ==> texts(parts@)[i] == parts@[i]@);
        }
        let mode: Option<MeterMode> = mode_from_name(strip(parts[0]), swap_diod_cont);
        let value_str: &str = strip(parts[1]);
        let value: ValueField = parse_value_field(value_str);
        proof {
            crate::text::lemma_trimmed_len(response@);
            crate::text::lemma_split_len(trimmed@, ',', 1);
            crate::text::lemma_trimmed_len(parts@[1]@);
        }
        let decimals: usize = value.decimals + value.prefix.extra_decimals();
        let range_index: RangeMatch = match mode {
            Some(mode) => match_field_range(&spm6103_ranges(mode), &parts),
            None => RangeMatch::Settled(None),
        };
        ParseResult { measurement: value.reading, mode, range_index, decimals: Some(decimals) }
    }

    fn mode_command(&self, mode: MeterMode) -> String {
        spm_mode(mode).to_owned()
    }

    fn supports_mode(&self, mode: MeterMode) -> bool {
        match mode {
            MeterMode::Freq | MeterMode::Per | MeterMode::Temp => false,
            _ => true,
        }
    }

    fn supports_rate_control(&self) -> bool {
        false
    }

    fn range_info(&self, mode: MeterMode) -> Option<RangeInfo> {
        match spm6103_ranges(mode) {
            Some(details) => Some(published(details)),
            None => None,
        }
    }

    fn supports_beeper(&self) -> bool {
        false
    }

    fn supports_threshold(&self) -> bool {
        false
    }

    fn supports_hold(&self) -> bool {
        true
    }

    fn range_query_command(&self, mode: MeterMode) -> Option<String> {
        match mode {
            MeterMode::Vdc => Some("VOLT:DC:RANG?\n".to_owned()),
            MeterMode::Vac => Some("VOLT:AC:RANG?\n".to_owned()),
            MeterMode::Adc => Some("CURR:DC:RANG?\n".to_owned()),
            MeterMode::Aac => Some("CURR:AC:RANG?\n".to_owned()),
            MeterMode::Res => Some("RES:RANG?\n".to_owned()),
            MeterMode::Cap => Some("CAP:RANG?\n".to_owned()),
            _ => None,
        }
    }

    fn parse_range_response(&self, response: &str, mode: MeterMode) -> RangeMatch {
        match spm6103_ranges(mode) {
            Some(details) => match_valued_range(&details.ranges, response),
            None => RangeMatch::Settled(None),
        }
    }

    fn supports_power_supply(&self) -> bool {
        true
    }

    fn power_supply_limits(&self) -> Option<PowerSupplyLimits> {
        Some(
            PowerSupplyLimits {
                voltage_min: 0,
                voltage_max: 60000,
                current_min: 0,
                current_max: 3200,
                ovp_max: 63000,
                ocp_max: 3500,
            },
        )
    }
}

} // verus!
