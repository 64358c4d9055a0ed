use rusty_meter::multimeter::MeterMode;
use rusty_meter::plugins::registry::{find_entry, plugin_registry, PluginRegistryEntry, RegisteredFamily};
use rusty_meter::plugins::{
    default_plugin, extract_model, resolve_plugin, DefaultPlugin, DevicePlugin, PendingChanges, Plugin,
    PowerReading, PowerSupplyState, SpmPlugin,
};
use rusty_meter::double::Double;
use rusty_meter::ranges::RangeMatch;
use rusty_meter::replies::{
    extract_si_multiplier, mode_from_name, parse_value_field, Precision, Reading, SiPrefix,
};

const ALL_MODES: [MeterMode; 11] = [
    MeterMode::Vdc,
    MeterMode::Vac,
    MeterMode::Adc,
    MeterMode::Aac,
    MeterMode::Res,
    MeterMode::Cap,
    MeterMode::Freq,
    MeterMode::Per,
    MeterMode::Diod,
    MeterMode::Cont,
    MeterMode::Temp,
];

fn number(reading: &Option<Reading>) -> Option<(&str, SiPrefix)> {
    match reading {
        Some(Reading::Number(n, prefix)) => Some((n.as_str(), *prefix)),
        _ => None,
    }
}

// ---- Registry ----

#[test]
fn model_is_the_second_field() {
    assert_eq!(extract_model("OWON,SPM6103,25281747,FV:V2.1.0"), "SPM6103");
    assert_eq!(extract_model("OWON, SPM6103 ,1"), "SPM6103");
    assert_eq!(extract_model("OWON"), "");
    assert_eq!(extract_model(""), "");
}

#[test]
fn detects_devices() {
    let xdm = resolve_plugin("OWON,XDM1041,12345678,V4.3.0");
    assert!(matches!(xdm, Plugin::Default(_)));
    assert_eq!(xdm.name(), "Default");
    assert_eq!(xdm.measurement_command(), "MEAS?\n");
    let spm = resolve_plugin("OWON,SPM6103,25281747,FV:V2.1.0");
    assert!(matches!(spm, Plugin::Spm(_)));
    assert_eq!(spm.name(), "SPM");
    assert_eq!(spm.measurement_command(), "CONFigure:ALL?\n");
    let unknown = resolve_plugin("OWON,UNKNOWN,12345678,V1.0.0");
    assert!(matches!(unknown, Plugin::Default(_)));
    assert!(matches!(resolve_plugin("owon,spm3051,1,2"), Plugin::Spm(_)));
    assert!(matches!(resolve_plugin("OWON,SP,1,2"), Plugin::Default(_)));
    assert!(matches!(resolve_plugin(""), Plugin::Default(_)));
    assert!(matches!(default_plugin(), Plugin::Default(_)));
}

#[test]
fn most_specific_entry_wins() {
    let entry = |prefix| PluginRegistryEntry { prefix, family: RegisteredFamily::Spm };
    let registry = vec![entry("SPM"), entry("SPM61"), entry("XDM"), entry("spm61")];
    assert_eq!(find_entry(&registry, "SPM6103"), Some(1));
    assert_eq!(find_entry(&registry, "SPM3051"), Some(0));
    assert_eq!(find_entry(&registry, "xdm1041"), Some(2));
    assert_eq!(find_entry(&registry, "SP"), None);
    assert_eq!(find_entry(&registry, ""), None);
    assert_eq!(plugin_registry().len(), 1);
    assert_eq!(plugin_registry()[0].prefix, "SPM");
}

#[test]
fn old_firmware_swaps_diode_and_continuity() {
    let mode = |idn: &str, reply: &str| resolve_plugin(idn).parse_measurement(reply).mode;
    for idn in ["OWON,XDM1041,1,V4.2.9", "OWON,XDM1241,1,V3.9", "OWON,XDM1041,1,4.0.1"] {
        assert_eq!(mode(idn, "\"DIOD\""), Some(MeterMode::Cont));
        assert_eq!(mode(idn, "\"CONT\""), Some(MeterMode::Diod));
        assert_eq!(mode(idn, "\"RES\""), Some(MeterMode::Res));
    }
    for idn in [
        "OWON,XDM1041,1,V4.3.0",
        "OWON,XDM1041,1,V5.0.0",
        "OWON,XDM2041,1,V1.0.0",
        "OWON,XDM1041,1,V4",
        "OWON,XDM1041,1,Vx.1",
        "OWON,XDM1041,1",
        "ACME,XDM1041,1,V1.0",
    ] {
        assert_eq!(mode(idn, "\"DIOD\""), Some(MeterMode::Diod), "{}", idn);
        assert_eq!(mode(idn, "\"CONT\""), Some(MeterMode::Cont), "{}", idn);
    }
}

#[test]
fn swapping_twice_changes_nothing() {
    for name in ["DIOD", "CONT", "RES", "VOLT", "junk"] {
        let swapped = mode_from_name(name, true);
        let back = match swapped {
            Some(MeterMode::Diod) => Some(MeterMode::Cont),
            Some(MeterMode::Cont) => Some(MeterMode::Diod),
            other => other,
        };
        assert_eq!(back, mode_from_name(name, false));
    }
}

// ---- Capabilities and commands ----

#[test]
fn default_plugin_capabilities() {
    let plugin = DefaultPlugin::new();
    let caps = plugin.capabilities();
    assert_eq!(caps.supported_modes, ALL_MODES.to_vec());
    assert!(!caps.has_power_supply && caps.power_supply_limits.is_none());
    assert_eq!(caps.rate_options, vec!["Slow", "Medium", "Fast"]);
    assert!(caps.has_beeper && caps.has_threshold && !caps.has_hold);
}

#[test]
fn spm_plugin_capabilities() {
    let plugin = SpmPlugin::new();
    let caps = plugin.capabilities();
    assert_eq!(caps.supported_modes.len(), 8);
    assert!(!caps.supported_modes.contains(&MeterMode::Freq));
    let limits = caps.power_supply_limits.as_ref().unwrap();
    assert_eq!((limits.voltage_min, limits.voltage_max), (0, 60_000));
    assert_eq!((limits.current_min, limits.current_max), (0, 3_200));
    assert_eq!((limits.ovp_max, limits.ocp_max), (63_000, 3_500));
    assert!(caps.has_power_supply && caps.rate_options.is_empty());
    assert!(!caps.has_beeper && !caps.has_threshold && caps.has_hold);
}

#[test]
fn default_plugin_commands() {
    let p = DefaultPlugin::new();
    assert_eq!(p.identify_command(), "*IDN?\n");
    assert_eq!(p.reset_command(), "*RST\n");
    assert_eq!(p.remote_command(), Some("SYST:REM\n"));
    assert_eq!(p.local_command(), Some("SYST:LOC\n"));
    assert_eq!(p.function_query_command(), "FUNC?\n");
    assert_eq!(p.mode_command(MeterMode::Vdc), "CONF:VOLT:DC AUTO\n");
    assert_eq!(p.mode_command(MeterMode::Adc), "CONF:CURR:DC\n");
    assert_eq!(p.mode_command(MeterMode::Aac), "CONF:CURR:AC\n");
    assert_eq!(p.mode_command(MeterMode::Temp), "CONF:TEMP:RTD PT100\n");
    assert_eq!(p.rate_command(0).as_deref(), Some("RATE S\n"));
    assert_eq!(p.rate_command(1).as_deref(), Some("RATE M\n"));
    assert_eq!(p.rate_command(2).as_deref(), Some("RATE F\n"));
    assert_eq!(p.rate_command(3), None);
    assert_eq!(p.range_command(MeterMode::Res, 2).as_deref(), Some("CONF:RES 5E3\n"));
    assert_eq!(p.range_command(MeterMode::Vdc, 0).as_deref(), Some("CONF:VOLT:DC AUTO\n"));
    assert_eq!(p.range_command(MeterMode::Vdc, 7), None);
    assert_eq!(p.range_command(MeterMode::Freq, 0), None);
    assert_eq!(p.beeper_command(true).as_deref(), Some("SYST:BEEP:STATe ON\n"));
    assert_eq!(p.beeper_command(false).as_deref(), Some("SYST:BEEP:STATe OFF\n"));
    assert_eq!(p.cont_threshold_command(50).as_deref(), Some("CONT:THREshold 50\n"));
    assert_eq!(p.diod_threshold_command("2").as_deref(), Some("DIOD:THREshold 2\n"));
    assert_eq!(p.hold_command(true), None);
    assert_eq!(p.ps_output_command(true), None);
    assert_eq!(p.ps_query_output(), None);
    assert_eq!(p.ps_set_voltage("1.000"), None);
    assert_eq!(p.ps_query_meas_all(), None);
}

#[test]
fn spm_plugin_commands() {
    let p = SpmPlugin::new();
    assert_eq!(p.function_query_command(), "CONFigure:ALL?\n");
    assert_eq!(p.mode_command(MeterMode::Cap), "FUNC:CAP\n");
    assert_eq!(p.rate_command(0), None);
    assert_eq!(p.beeper_command(true), None);
    assert_eq!(p.cont_threshold_command(1), None);
    assert_eq!(p.diod_threshold_command("1"), None);
    assert_eq!(p.range_command(MeterMode::Vdc, 0).as_deref(), Some("VOLT:DC:RANG:AUTO 1\n"));
    assert_eq!(
        p.range_command(MeterMode::Vdc, 2).as_deref(),
        Some("VOLT:DC:RANG:AUTO 0\nSENS:VOLT:DC:RANG 2\n")
    );
    assert_eq!(p.range_command(MeterMode::Adc, 1).as_deref(), Some("SENS:CURR:DC:RANG 10\n"));
    assert_eq!(p.range_command(MeterMode::Cap, 0).as_deref(), Some("SENS:CAP:RANG AUTO\n"));
    assert_eq!(p.range_command(MeterMode::Diod, 0), None);
    assert_eq!(p.hold_command(true).as_deref(), Some("MULT:HOLD ON\n"));
    assert_eq!(p.hold_command(false).as_deref(), Some("MULT:HOLD OFF\n"));
    assert_eq!(p.ps_output_command(true).as_deref(), Some("OUTP ON\n"));
    assert_eq!(p.ps_output_command(false).as_deref(), Some("OUTP OFF\n"));
    assert_eq!(p.ps_query_output(), Some("OUTP?\n"));
    assert_eq!(p.ps_set_voltage("5.000").as_deref(), Some("VOLT 5.000\n"));
    assert_eq!(p.ps_set_current("1.000").as_deref(), Some("CURR 1.000\n"));
    assert_eq!(p.ps_set_ovp("32.000").as_deref(), Some("VOLT:LIM 32.000\n"));
    assert_eq!(p.ps_set_ocp("3.200").as_deref(), Some("CURR:LIM 3.200\n"));
    assert_eq!(p.ps_query_voltage(), Some("VOLT?\n"));
    assert_eq!(p.ps_query_current(), Some("CURR?\n"));
    assert_eq!(p.ps_query_ovp(), Some("VOLT:LIM?\n"));
    assert_eq!(p.ps_query_ocp(), Some("CURR:LIM?\n"));
    assert_eq!(p.ps_query_meas_all(), Some("MEAS:ALL?\n"));
}

#[test]
fn units_and_labels() {
    let p = default_plugin();
    assert_eq!(p.mode_unit(MeterMode::Temp), "°C");
    assert_eq!(p.mode_unit(MeterMode::Cont), "Ohm");
    assert_eq!(p.mode_label(MeterMode::Per), "Period");
    assert_eq!(p.mode_label(MeterMode::Cap), "C");
}

// ---- Replies ----

#[test]
fn xdm_replies_are_read() {
    let p = DefaultPlugin::new();
    let r = p.parse_measurement(" +1.234\r\n");
    assert_eq!(number(&r.measurement), Some(("+1.234", SiPrefix::One)));
    assert_eq!(r.precision, Some(Precision { decimals: 3, prefix: SiPrefix::One }));
    assert_eq!(r.mode, None);
    for (reply, mode) in [
        ("\"VOLT\"", MeterMode::Vdc),
        ("VOLT:DC 5", MeterMode::Vdc),
        ("\"VOLT AC\"", MeterMode::Vac),
        ("VOLT AC AUTO", MeterMode::Vac),
        ("\"VOLT:AC\"", MeterMode::Vac),
        ("CURR", MeterMode::Adc),
        ("CURR AC", MeterMode::Aac),
        ("CURR AC 5", MeterMode::Aac),
        ("RES", MeterMode::Res),
        ("CAP", MeterMode::Cap),
        ("FREQ", MeterMode::Freq),
        ("PER", MeterMode::Per),
        ("TEMP", MeterMode::Temp),
        ("DIOD", MeterMode::Diod),
        ("CONT", MeterMode::Cont),
    ] {
        let r = p.parse_measurement(reply);
        assert_eq!(r.mode, Some(mode), "{}", reply);
        assert!(r.measurement.is_none() && r.precision.is_none());
        assert!(matches!(r.range_index, RangeMatch::Settled(None)));
    }
    for reply in ["VOLTAGE", "RES 5", "garbage", ""] {
        let r = p.parse_measurement(reply);
        assert!(r.mode.is_none() && r.measurement.is_none(), "{}", reply);
    }
}

#[test]
fn spm_replies_are_read() {
    let p = SpmPlugin::new();
    let r = p.parse_measurement("VOLT:DC,+0.0011V,AUTO,2V");
    assert_eq!(r.mode, Some(MeterMode::Vdc));
    assert_eq!(number(&r.measurement), Some(("+0.0011", SiPrefix::One)));
    assert_eq!(r.precision, Some(Precision { decimals: 4, prefix: SiPrefix::One }));
    assert!(matches!(r.range_index, RangeMatch::Settled(Some(0))));
    let r = p.parse_measurement("RES,OL,AUTO,100M Ohm");
    assert!(matches!(r.measurement, Some(Reading::Overload)));
    assert_eq!(r.precision, None);
    assert!(matches!(r.range_index, RangeMatch::Settled(Some(0))));
    let r = p.parse_measurement("RES,+000.26Ohm,Manual,200 Ohm");
    assert_eq!(number(&r.measurement), Some(("+000.26", SiPrefix::One)));
    assert!(matches!(r.range_index, RangeMatch::Settled(Some(1))));
    let r = p.parse_measurement("DIOD,Open,Manual,");
    assert_eq!(r.mode, Some(MeterMode::Diod));
    assert!(matches!(r.measurement, Some(Reading::Overload)));
    assert!(matches!(r.range_index, RangeMatch::Settled(None)));
    let r = p.parse_measurement("CURR:DC,+20.44mA,AUTO,200mA");
    assert_eq!(number(&r.measurement), Some(("+20.44", SiPrefix::Milli)));
    assert!(matches!(r.range_index, RangeMatch::Settled(Some(0))));
    let r = p.parse_measurement("XYZ,1.5V,AUTO,2V");
    assert_eq!(r.mode, None);
    assert_eq!(number(&r.measurement), Some(("1.5", SiPrefix::One)));
    assert!(matches!(r.range_index, RangeMatch::Settled(None)));
    let r = p.parse_measurement("VOLT:DC");
    assert!(r.mode.is_none() && r.measurement.is_none() && r.precision.is_none());
    let r = p.parse_measurement("CAP,bad");
    assert!(r.measurement.is_none());
    assert_eq!(r.precision, Some(Precision { decimals: 0, prefix: SiPrefix::One }));
}

#[test]
fn spm_mode_commands_read_back() {
    let p = SpmPlugin::new();
    for mode in ALL_MODES {
        let command = p.mode_command(mode);
        let function = command.trim_end().strip_prefix("FUNC:").unwrap();
        assert_eq!(p.parse_measurement(&format!("{},1.0,AUTO,", function)).mode, Some(mode));
    }
}

#[test]
fn value_fields_are_taken_apart() {
    let f = parse_value_field("+20.44mV");
    assert_eq!((f.overload, f.decimals, f.prefix), (false, 2, SiPrefix::Milli));
    assert_eq!(number(&f.reading), Some(("+20.44", SiPrefix::Milli)));
    let f = parse_value_field("+0.0007 KOhm");
    assert_eq!((f.decimals, f.prefix), (4, SiPrefix::Kilo));
    let f = parse_value_field("5.1μF");
    assert_eq!(number(&f.reading), Some(("5.1", SiPrefix::Micro)));
    assert!(parse_value_field("OLx").overload);
    assert!(parse_value_field("Open").overload);
    assert!(!parse_value_field("Opened").overload);
}

#[test]
fn si_prefixes() {
    for (unit, prefix, exponent) in [
        ("nF", SiPrefix::Nano, -9),
        ("uF", SiPrefix::Micro, -6),
        ("μF", SiPrefix::Micro, -6),
        ("mV", SiPrefix::Milli, -3),
        ("V", SiPrefix::One, 0),
        ("", SiPrefix::One, 0),
        ("kOhm", SiPrefix::Kilo, 3),
        ("KOhm", SiPrefix::Kilo, 3),
        ("MOhm", SiPrefix::Mega, 6),
        ("GHz", SiPrefix::Giga, 9),
    ] {
        assert_eq!(extract_si_multiplier(unit), prefix);
        assert_eq!(prefix.exponent(), exponent);
    }
    assert_eq!(SiPrefix::Nano.extra_decimals(), 9);
    assert_eq!(SiPrefix::Micro.extra_decimals(), 6);
    assert_eq!(SiPrefix::Milli.extra_decimals(), 3);
    assert_eq!(SiPrefix::Giga.extra_decimals(), 0);
}

#[test]
fn power_supply_answers_are_read() {
    let p = SpmPlugin::new();
    assert_eq!(p.parse_output_state(" on\r\n"), Some(true));
    assert_eq!(p.parse_output_state("1"), Some(true));
    assert_eq!(p.parse_output_state("Off"), Some(false));
    assert_eq!(p.parse_output_state("0"), Some(false));
    assert_eq!(p.parse_output_state("2"), None);
    assert_eq!(p.parse_ps_value(" 5.000 ").unwrap().as_str(), "5.000");
    assert!(p.parse_ps_value("5V").is_none());
    let m = p.parse_ps_meas_all("5.001,0.100,0.5001").unwrap();
    assert_eq!((m.voltage.as_str(), m.current.as_str()), ("5.001", "0.100"));
    assert!(matches!(m.power, PowerReading::Reported(ref n) if n.as_str() == "0.5001"));
    let m = p.parse_ps_meas_all("5.0 0.1").unwrap();
    assert_eq!(m.current.as_str(), "0.1");
    assert!(matches!(m.power, PowerReading::Product));
    let m = p.parse_ps_meas_all("5.0,0.1,W").unwrap();
    assert!(matches!(m.power, PowerReading::Product));
    assert!(p.parse_ps_meas_all("5.0").is_none());
    assert!(p.parse_ps_meas_all("5.0, 0.1").is_none());
    assert!(p.parse_ps_meas_all("VOLT:DC,+0.0011V,AUTO,2V").is_none());
}

#[test]
fn pending_changes_know_whether_there_are_any() {
    let mut pending = PendingChanges::default();
    assert!(!pending.has_any());
    pending.ocp = Some(Double { bits: 0 });
    assert!(pending.has_any());
    pending.ocp = None;
    pending.mode = Some((MeterMode::Vdc, String::new(), 0));
    assert!(pending.has_any());
    pending.mode = None;
    pending.range = Some((0, String::new()));
    assert!(pending.has_any());
}

#[test]
fn power_supply_state_starts_at_zero() {
    let state = PowerSupplyState::default().duplicate();
    assert!(!state.output_on && !state.includes_settings);
    assert_eq!(state.voltage_set.as_str().parse::<f64>(), Ok(0.0));
    assert!(matches!(state.power_readback, PowerReading::Reported(_)));
}

#[test]
fn plain_data_can_be_cloned() {
    let plugin = SpmPlugin::new();
    assert_eq!(plugin.capabilities().clone().supported_modes, plugin.capabilities().supported_modes);
    let info = plugin.range_info(MeterMode::Vdc).unwrap();
    assert_eq!(info.clone().ranges, info.ranges);
    let mut pending = PendingChanges::default();
    pending.range = Some((2, "X\n".to_string()));
    let copy = pending.clone();
    assert_eq!(copy.range, pending.range);
    assert!(copy.has_any() && copy.mode.is_none());
    assert_eq!(PowerSupplyState::default().clone().ovp.as_str(), "0");
}

#[test]
fn mode_commands_are_uniform() {
    for mode in ALL_MODES {
        let command = DefaultPlugin::new().mode_command(mode);
        assert!(command.starts_with("CONF:") && command.ends_with('\n'), "{}", command);
        let command = SpmPlugin::new().mode_command(mode);
        assert!(command.starts_with("FUNC:") && command.ends_with('\n'), "{}", command);
    }
}
