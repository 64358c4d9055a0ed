//! The command and range tables of the supported instrument families.

use crate::multimeter::MeterMode;
use crate::ranges::{details, RangeDetails, RangeTable};
use vstd::prelude::*;

verus! {

/// The ranges of the XDM bench multimeters. Frequency, period, diode and continuity have none.
pub open spec fn xdm_table(mode: MeterMode) -> Option<RangeTable> {
    match mode {
        MeterMode::Vdc => Some(
            RangeTable {
                prefix: "CONF:VOLT:DC "@,
                auto_on: None,
                auto_off: None,
                ranges: seq![
                    ("auto"@, "AUTO"@),
                    ("50mV"@, "50E-3"@),
                    ("500mV"@, "500E-3"@),
                    ("5V"@, "5"@),
                    ("50V"@, "50"@),
                    ("500V"@, "500"@),
                    ("1000V"@, "1000"@),
                ],
            },
        ),
        MeterMode::Vac => Some(
            RangeTable {
                prefix: "CONF:VOLT:AC "@,
                auto_on: None,
                auto_off: None,
                ranges: seq![
                    ("auto"@, "AUTO"@),
                    ("500mV"@, "500E-3"@),
                    ("5V"@, "5"@),
                    ("50V"@, "50"@),
                    ("500V"@, "500"@),
                    ("750V"@, "750"@),
                ],
            },
        ),
        MeterMode::Adc => Some(
            RangeTable {
                prefix: "CONF:CURR:DC "@,
                auto_on: None,
                auto_off: None,
                ranges: seq![
                    ("500uA"@, "500E-6"@),
                    ("5mA"@, "5E-3"@),
                    ("50mA"@, "50E-3"@),
                    ("500mA"@, "500E-3"@),
                    ("5A"@, "5"@),
                    ("10A"@, "10"@),
                ],
            },
        ),
        MeterMode::Aac => Some(
            RangeTable {
                prefix: "CONF:CURR:AC "@,
                auto_on: None,
                auto_off: None,
                ranges: seq![
                    ("500uA"@, "500E-6"@),
                    ("5mA"@, "5E-3"@),
                    ("50mA"@, "50E-3"@),
                    ("500mA"@, "500E-3"@),
                    ("5A"@, "5"@),
                    ("10A"@, "10"@),
                ],
            },
        ),
        MeterMode::Res => Some(
            RangeTable {
                prefix: "CONF:RES "@,
                auto_on: None,
                auto_off: None,
                ranges: seq![
                    ("auto"@, "AUTO"@),
                    ("500Ohm"@, "500"@),
                    ("5kOhm"@, "5E3"@),
                    ("50kOhm"@, "50E3"@),
                    ("500kOhm"@, "500E3"@),
                    ("5MOhm"@, "5E6"@),
                    ("50MOhm"@, "50E6"@),
                ],
            },
        ),
        MeterMode::Cap => Some(
            RangeTable {
                prefix: "CONF:CAP "@,
                auto_on: None,
                auto_off: None,
                ranges: seq![
                    ("auto"@, "AUTO"@),
                    ("50nF"@, "50E-9"@),
                    ("500nF"@, "500E-9"@),
                    ("5uF"@, "5E-6"@),
                    ("50uF"@, "50E-6"@),
                    ("500uF"@, "500E-6"@),
                    ("5mF"@, "5E-3"@),
                    ("50mF"@, "50E-3"@),
                ],
            },
        ),
        MeterMode::Temp => Some(
            RangeTable {
                prefix: "CONF:TEMP:RTD "@,
                auto_on: None,
                auto_off: None,
                ranges: seq![
                    ("PT100"@, "PT100"@),
                    ("K-type (KITS90)"@, "KITS90"@),
                ],
            },
        ),
        _ => None,
    }
}

/// Looks up the ranges of the XDM bench multimeters.
pub fn xdm_ranges(mode: MeterMode) -> (r: Option<RangeDetails>)
    ensures
        details(r) == xdm_table(mode),
{
    let r: Option<RangeDetails> = match mode {
        MeterMode::Vdc => Some(
            RangeDetails {
                scpi_prefix: "CONF:VOLT:DC ",
                auto_on_cmd: None,
                auto_off_cmd: None,
                ranges: vec![
                    ("auto", "AUTO"),
                    ("50mV", "50E-3"),
                    ("500mV", "500E-3"),
                    ("5V", "5"),
                    ("50V", "50"),
                    ("500V", "500"),
                    ("1000V", "1000"),
                ],
            },
        ),
        MeterMode::Vac => Some(
            RangeDetails {
                scpi_prefix: "CONF:VOLT:AC ",
                auto_on_cmd: None,
                auto_off_cmd: None,
                ranges: vec![
                    ("auto", "AUTO"),
                    ("500mV", "500E-3"),
                    ("5V", "5"),
                    ("50V", "50"),
                    ("500V", "500"),
                    ("750V", "750"),
                ],
            },
        ),
        MeterMode::Adc => Some(
            RangeDetails {
                scpi_prefix: "CONF:CURR:DC ",
                auto_on_cmd: None,
                auto_off_cmd: None,
                ranges: vec![
                    ("500uA", "500E-6"),
                    ("5mA", "5E-3"),
                    ("50mA", "50E-3"),
                    ("500mA", "500E-3"),
                    ("5A", "5"),
                    ("10A", "10"),
                ],
            },
        ),
        MeterMode::Aac => Some(
            RangeDetails {
                scpi_prefix: "CONF:CURR:AC ",
                auto_on_cmd: None,
                auto_off_cmd: None,
                ranges: vec![
                    ("500uA", "500E-6"),
                    ("5mA", "5E-3"),
                    ("50mA", "50E-3"),
                    ("500mA", "500E-3"),
                    ("5A", "5"),
                    ("10A", "10"),
                ],
            },
        ),
        MeterMode::Res => Some(
            RangeDetails {
                scpi_prefix: "CONF:RES ",
                auto_on_cmd: None,
                auto_off_cmd: None,
                ranges: vec![
                    ("auto", "AUTO"),
                    ("500Ohm", "500"),
                    ("5kOhm", "5E3"),
                    ("50kOhm", "50E3"),
                    ("500kOhm", "500E3"),
                    ("5MOhm", "5E6"),
                    ("50MOhm", "50E6"),
                ],
            },
        ),
        MeterMode::Cap => Some(
            RangeDetails {
                scpi_prefix: "CONF:CAP ",
                auto_on_cmd: None,
                auto_off_cmd: None,
                ranges: vec![
                    ("auto", "AUTO"),
                    ("50nF", "50E-9"),
                    ("500nF", "500E-9"),
                    ("5uF", "5E-6"),
                    ("50uF", "50E-6"),
                    ("500uF", "500E-6"),
                    ("5mF", "5E-3"),
                    ("50mF", "50E-3"),
                ],
            },
        ),
        MeterMode::Temp => Some(
            RangeDetails {
                scpi_prefix: "CONF:TEMP:RTD ",
                auto_on_cmd: None,
                auto_off_cmd: None,
                ranges: vec![
                    ("PT100", "PT100"),
                    ("K-type (KITS90)", "KITS90"),
                ],
            },
        ),
        _ => None,
    };
    proof {
        if r is Some {
            assert(r->0@.ranges =~= xdm_table(mode)->0.ranges);
        }
    }
    r
}

/// The ranges of the SPM power supplies. Current has no automatic ranging, and capacitance nothing
/// else; frequency, period, diode, continuity and temperature have no ranges.
pub open spec fn spm_table(mode: MeterMode) -> Option<RangeTable> {
    match mode {
        MeterMode::Vdc => Some(
            RangeTable {
                prefix: "SENS:VOLT:DC:RANG "@,
                auto_on: Some("VOLT:DC:RANG:AUTO 1\n"@),
                auto_off: Some("VOLT:DC:RANG:AUTO 0\n"@),
                ranges: seq![
                    ("auto"@, "AUTO"@),
                    ("200mV"@, "200E-3"@),
                    ("2V"@, "2"@),
                    ("20V"@, "20"@),
                    ("200V"@, "200"@),
                    ("1000V"@, "1000"@),
                ],
            },
        ),
        MeterMode::Vac => Some(
            RangeTable {
                prefix: "SENS:VOLT:AC:RANG "@,
                auto_on: Some("VOLT:AC:RANG:AUTO 1\n"@),
                auto_off: Some("VOLT:AC:RANG:AUTO 0\n"@),
                ranges: seq![
                    ("auto"@, "AUTO"@),
                    ("200mV"@, "200E-3"@),
                    ("2V"@, "2"@),
                    ("20V"@, "20"@),
                    ("200V"@, "200"@),
                    ("750V"@, "750"@),
                ],
            },
        ),
        MeterMode::Adc => Some(
            RangeTable {
                prefix: "SENS:CURR:DC:RANG "@,
                auto_on: None,
                auto_off: None,
                ranges: seq![
                    ("200mA"@, "200E-3"@),
                    ("10A"@, "10"@),
                ],
            },
        ),
        MeterMode::Aac => Some(
            RangeTable {
                prefix: "SENS:CURR:AC:RANG "@,
                auto_on: None,
                auto_off: None,
                ranges: seq![
                    ("200mA"@, "200E-3"@),
                    ("10A"@, "10"@),
                ],
            },
        ),
        MeterMode::Res => Some(
            RangeTable {
                prefix: "SENS:RES:RANG "@,
                auto_on: Some("RES:RANG:AUTO 1\n"@),
                auto_off: Some("RES:RANG:AUTO 0\n"@),
                ranges: seq![
                    ("auto"@, "AUTO"@),
                    ("200Ohm"@, "200"@),
                    ("2kOhm"@, "2E3"@),
                    ("20kOhm"@, "20E3"@),
                    ("200kOhm"@, "200E3"@),
                    ("2MOhm"@, "2E6"@),
                    ("20MOhm"@, "20E6"@),
                    ("100MOhm"@, "100E6"@),
                ],
            },
        ),
        MeterMode::Cap => Some(
            RangeTable {
                prefix: "SENS:CAP:RANG "@,
                auto_on: None,
                auto_off: None,
                ranges: seq![
                    ("auto"@, "AUTO"@),
                ],
            },
        ),
        _ => None,
    }
}

/// Looks up the ranges of the SPM power supplies.
pub fn spm_ranges(mode: MeterMode) -> (r: Option<RangeDetails>)
    ensures
        details(r) == spm_table(mode),
{
    let r: Option<RangeDetails> = match mode {
        MeterMode::Vdc => Some(
            RangeDetails {
                scpi_prefix: "SENS:VOLT:DC:RANG ",
                auto_on_cmd: Some("VOLT:DC:RANG:AUTO 1\n"),
                auto_off_cmd: Some("VOLT:DC:RANG:AUTO 0\n"),
                ranges: vec![
                    ("auto", "AUTO"),
                    ("200mV", "200E-3"),
                    ("2V", "2"),
                    ("20V", "20"),
                    ("200V", "200"),
                    ("1000V", "1000"),
                ],
            },
        ),
        MeterMode::Vac => Some(
            RangeDetails {
                scpi_prefix: "SENS:VOLT:AC:RANG ",
                auto_on_cmd: Some("VOLT:AC:RANG:AUTO 1\n"),
                auto_off_cmd: Some("VOLT:AC:RANG:AUTO 0\n"),
                ranges: vec![
                    ("auto", "AUTO"),
                    ("200mV", "200E-3"),
                    ("2V", "2"),
                    ("20V", "20"),
                    ("200V", "200"),
                    ("750V", "750"),
                ],
            },
        ),
        MeterMode::Adc => Some(
            RangeDetails {
                scpi_prefix: "SENS:CURR:DC:RANG ",
                auto_on_cmd: None,
                auto_off_cmd: None,
                ranges: vec![
                    ("200mA", "200E-3"),
                    ("10A", "10"),
                ],
            },
        ),
        MeterMode::Aac => Some(
            RangeDetails {
                scpi_prefix: "SENS:CURR:AC:RANG ",
                auto_on_cmd: None,
                auto_off_cmd: None,
                ranges: vec![
                    ("200mA", "200E-3"),
                    ("10A", "10"),
                ],
            },
        ),
        MeterMode::Res => Some(
            RangeDetails {
                scpi_prefix: "SENS:RES:RANG ",
                auto_on_cmd: Some("RES:RANG:AUTO 1\n"),
                auto_off_cmd: Some("RES:RANG:AUTO 0\n"),
                ranges: vec![
                    ("auto", "AUTO"),
                    ("200Ohm", "200"),
                    ("2kOhm", "2E3"),
                    ("20kOhm", "20E3"),
                    ("200kOhm", "200E3"),
                    ("2MOhm", "2E6"),
                    ("20MOhm", "20E6"),
                    ("100MOhm", "100E6"),
                ],
            },
        ),
        MeterMode::Cap => Some(
            RangeDetails {
                scpi_prefix: "SENS:CAP:RANG ",
                auto_on_cmd: None,
                auto_off_cmd: None,
                ranges: vec![
                    ("auto", "AUTO"),
                ],
            },
        ),
        _ => None,
    };
    proof {
        if r is Some {
            assert(r->0@.ranges =~= spm_table(mode)->0.ranges);
        }
    }
    r
}

/// The ranges of the SPM6103, whose automatic ranging is switched by name.
pub open spec fn spm6103_table(mode: MeterMode) -> Option<RangeTable> {
    match mode {
        MeterMode::Vdc => Some(
            RangeTable {
                prefix: "SENS:VOLT:DC:RANG "@,
                auto_on: Some("VOLT:DC:RANG:AUTO ON\n"@),
                auto_off: Some("VOLT:DC:RANG:AUTO OFF\n"@),
                ranges: seq![
                    ("auto"@, "AUTO"@),
                    ("200mV"@, "200E-3"@),
                    ("2V"@, "2"@),
                    ("20V"@, "20"@),
                    ("200V"@, "200"@),
                    ("1000V"@, "1000"@),
                ],
            },
        ),
        MeterMode::Vac => Some(
            RangeTable {
                prefix: "SENS:VOLT:AC:RANG "@,
                auto_on: Some("VOLT:AC:RANG:AUTO ON\n"@),
                auto_off: Some("VOLT:AC:RANG:AUTO OFF\n"@),
                ranges: seq![
                    ("auto"@, "AUTO"@),
                    ("200mV"@, "200E-3"@),
                    ("2V"@, "2"@),
                    ("20V"@, "20"@),
                    ("200V"@, "200"@),
                    ("750V"@, "750"@),
                ],
            },
        ),
        MeterMode::Adc => Some(
            RangeTable {
                prefix: "SENS:CURR:DC:RANG "@,
                auto_on: None,
                auto_off: None,
                ranges: seq![
                    ("200mA"@, "200E-3"@),
                    ("10A"@, "10"@),
                ],
            },
        ),
        MeterMode::Aac => Some(
            RangeTable {
                prefix: "SENS:CURR:AC:RANG "@,
                auto_on: None,
                auto_off: None,
                ranges: seq![
                    ("200mA"@, "200E-3"@),
                    ("10A"@, "10"@),
                ],
            },
        ),
        MeterMode::Res => Some(
            RangeTable {
                prefix: "SENS:RES:RANG "@,
                auto_on: Some("RES:RANG:AUTO ON\n"@),
                auto_off: Some("RES:RANG:AUTO OFF\n"@),
                ranges: seq![
                    ("auto"@, "AUTO"@),
                    ("200Ohm"@, "200"@),
                    ("2kOhm"@, "2E3"@),
                    ("20kOhm"@, "20E3"@),
                    ("200kOhm"@, "200E3"@),
                    ("2MOhm"@, "2E6"@),
                    ("20MOhm"@, "20E6"@),
                    ("100MOhm"@, "100E6"@),
                ],
            },
        ),
        MeterMode::Cap => Some(
            RangeTable {
                prefix: "SENS:CAP:RANG "@,
                auto_on: None,
                auto_off: None,
                ranges: seq![
                    ("auto"@, "AUTO"@),
                ],
            },
        ),
        _ => None,
    }
}

/// Looks up the ranges of the SPM6103.
pub fn spm6103_ranges(mode: MeterMode) -> (r: Option<RangeDetails>)
    ensures
        details(r) == spm6103_table(mode),
{
    let r: Option<RangeDetails> = match mode {
        MeterMode::Vdc => Some(
            RangeDetails {
                scpi_prefix: "SENS:VOLT:DC:RANG ",
                auto_on_cmd: Some("VOLT:DC:RANG:AUTO ON\n"),
                auto_off_cmd: Some("VOLT:DC:RANG:AUTO OFF\n"),
                ranges: vec![
                    ("auto", "AUTO"),
                    ("200mV", "200E-3"),
                    ("2V", "2"),
                    ("20V", "20"),
                    ("200V", "200"),
                    ("1000V", "1000"),
                ],
            },
        ),
        MeterMode::Vac => Some(
            RangeDetails {
                scpi_prefix: "SENS:VOLT:AC:RANG ",
                auto_on_cmd: Some("VOLT:AC:RANG:AUTO ON\n"),
                auto_off_cmd: Some("VOLT:AC:RANG:AUTO OFF\n"),
                ranges: vec![
                    ("auto", "AUTO"),
                    ("200mV", "200E-3"),
                    ("2V", "2"),
                    ("20V", "20"),
                    ("200V", "200"),
                    ("750V", "750"),
                ],
            },
        ),
        MeterMode::Adc => Some(
            RangeDetails {
                scpi_prefix: "SENS:CURR:DC:RANG ",
                auto_on_cmd: None,
                auto_off_cmd: None,
                ranges: vec![
                    ("200mA", "200E-3"),
                    ("10A", "10"),
                ],
            },
        ),
        MeterMode::Aac => Some(
            RangeDetails {
                scpi_prefix: "SENS:CURR:AC:RANG ",
                auto_on_cmd: None,
                auto_off_cmd: None,
                ranges: vec![
                    ("200mA", "200E-3"),
                    ("10A", "10"),
                ],
            },
        ),
        MeterMode::Res => Some(
            RangeDetails {
                scpi_prefix: "SENS:RES:RANG ",
                auto_on_cmd: Some("RES:RANG:AUTO ON\n"),
                auto_off_cmd: Some("RES:RANG:AUTO OFF\n"),
                ranges: vec![
                    ("auto", "AUTO"),
                    ("200Ohm", "200"),
                    ("2kOhm", "2E3"),
                    ("20kOhm", "20E3"),
                    ("200kOhm", "200E3"),
                    ("2MOhm", "2E6"),
                    ("20MOhm", "20E6"),
                    ("100MOhm", "100E6"),
                ],
            },
        ),
        MeterMode::Cap => Some(
            RangeDetails {
                scpi_prefix: "SENS:CAP:RANG ",
                auto_on_cmd: None,
                auto_off_cmd: None,
                ranges: vec![
                    ("auto", "AUTO"),
                ],
            },
        ),
        _ => None,
    };
    proof {
        if r is Some {
            assert(r->0@.ranges =~= spm6103_table(mode)->0.ranges);
        }
    }
    r
}

/// The command that switches an XDM bench multimeter to a mode.
pub open spec fn xdm_mode_command(mode: MeterMode) -> Seq<char> {
    match mode {
        MeterMode::Vdc => "CONF:VOLT:DC AUTO\n"@,
        MeterMode::Vac => "CONF:VOLT:AC AUTO\n"@,
        MeterMode::Adc => "CONF:CURR:DC\n"@,
        MeterMode::Aac => "CONF:CURR:AC\n"@,
        MeterMode::Res => "CONF:RES AUTO\n"@,
        MeterMode::Cap => "CONF:CAP AUTO\n"@,
        MeterMode::Freq => "CONF:FREQ\n"@,
        MeterMode::Per => "CONF:PER\n"@,
        MeterMode::Diod => "CONF:DIOD\n"@,
        MeterMode::Cont => "CONF:CONT\n"@,
        MeterMode::Temp => "CONF:TEMP:RTD PT100\n"@,
    }
}

/// Looks up the command that switches an XDM bench multimeter to a mode.
pub fn xdm_mode(mode: MeterMode) -> (r: &'static str)
    ensures
        r@ == xdm_mode_command(mode),
{
    match mode {
        MeterMode::Vdc => "CONF:VOLT:DC AUTO\n",
        MeterMode::Vac => "CONF:VOLT:AC AUTO\n",
        MeterMode::Adc => "CONF:CURR:DC\n",
        MeterMode::Aac => "CONF:CURR:AC\n",
        MeterMode::Res => "CONF:RES AUTO\n",
        MeterMode::Cap => "CONF:CAP AUTO\n",
        MeterMode::Freq => "CONF:FREQ\n",
        MeterMode::Per => "CONF:PER\n",
        MeterMode::Diod => "CONF:DIOD\n",
        MeterMode::Cont => "CONF:CONT\n",
        MeterMode::Temp => "CONF:TEMP:RTD PT100\n",
    }
}

/// The command that switches an SPM power supply's meter to a mode.
pub open spec fn spm_mode_command(mode: MeterMode) -> Seq<char> {
    match mode {
        MeterMode::Vdc => "FUNC:VOLT:DC\n"@,
        MeterMode::Vac => "FUNC:VOLT:AC\n"@,
        MeterMode::Adc => "FUNC:CURR:DC\n"@,
        MeterMode::Aac => "FUNC:CURR:AC\n"@,
        MeterMode::Res => "FUNC:RES\n"@,
        MeterMode::Cap => "FUNC:CAP\n"@,
        MeterMode::Freq => "FUNC:FREQ\n"@,
        MeterMode::Per => "FUNC:PER\n"@,
        MeterMode::Diod => "FUNC:DIOD\n"@,
        MeterMode::Cont => "FUNC:CONT\n"@,
        MeterMode::Temp => "FUNC:TEMP\n"@,
    }
}

/// Looks up the command that switches an SPM power supply's meter to a mode.
pub fn spm_mode(mode: MeterMode) -> (r: &'static str)
    ensures
        r@ == spm_mode_command(mode),
{
    match mode {
        MeterMode::Vdc => "FUNC:VOLT:DC\n",
        MeterMode::Vac => "FUNC:VOLT:AC\n",
        MeterMode::Adc => "FUNC:CURR:DC\n",
        MeterMode::Aac => "FUNC:CURR:AC\n",
        MeterMode::Res => "FUNC:RES\n",
        MeterMode::Cap => "FUNC:CAP\n",
        MeterMode::Freq => "FUNC:FREQ\n",
        MeterMode::Per => "FUNC:PER\n",
        MeterMode::Diod => "FUNC:DIOD\n",
        MeterMode::Cont => "FUNC:CONT\n",
        MeterMode::Temp => "FUNC:TEMP\n",
    }
}

/// The unit that a mode's readings are shown in.
pub open spec fn unit_text(mode: MeterMode) -> Seq<char> {
    match mode {
        MeterMode::Vdc => "VDC"@,
        MeterMode::Vac => "VAC"@,
        MeterMode::Adc => "ADC"@,
        MeterMode::Aac => "AAC"@,
        MeterMode::Res => "Ohm"@,
        MeterMode::Cap => "F"@,
        MeterMode::Freq => "Hz"@,
        MeterMode::Per => "s"@,
        MeterMode::Diod => "V"@,
        MeterMode::Cont => "Ohm"@,
        MeterMode::Temp => "°C"@,
    }
}

/// Looks up the unit of a mode.
pub fn unit_of(mode: MeterMode) -> (r: &'static str)
    ensures
        r@ == unit_text(mode),
{
    match mode {
        MeterMode::Vdc => "VDC",
        MeterMode::Vac => "VAC",
        MeterMode::Adc => "ADC",
        MeterMode::Aac => "AAC",
        MeterMode::Res => "Ohm",
        MeterMode::Cap => "F",
        MeterMode::Freq => "Hz",
        MeterMode::Per => "s",
        MeterMode::Diod => "V",
        MeterMode::Cont => "Ohm",
        MeterMode::Temp => "°C",
    }
}

/// The label of a mode's button.
pub open spec fn label_text(mode: MeterMode) -> Seq<char> {
    match mode {
        MeterMode::Vdc => "VDC"@,
        MeterMode::Vac => "VAC"@,
        MeterMode::Adc => "ADC"@,
        MeterMode::Aac => "AAC"@,
        MeterMode::Res => "Ohm"@,
        MeterMode::Cap => "C"@,
        MeterMode::Freq => "Freq"@,
        MeterMode::Per => "Period"@,
        MeterMode::Diod => "Diode"@,
        MeterMode::Cont => "Cont"@,
        MeterMode::Temp => "Temp"@,
    }
}

/// Looks up the label of a mode's button.
pub fn label_of(mode: MeterMode) -> (r: &'static str)
    ensures
        r@ == label_text(mode),
{
    match mode {
        MeterMode::Vdc => "VDC",
        MeterMode::Vac => "VAC",
        MeterMode::Adc => "ADC",
        MeterMode::Aac => "AAC",
        MeterMode::Res => "Ohm",
        MeterMode::Cap => "C",
        MeterMode::Freq => "Freq",
        MeterMode::Per => "Period",
        MeterMode::Diod => "Diode",
        MeterMode::Cont => "Cont",
        MeterMode::Temp => "Temp",
    }
}

} // verus!
