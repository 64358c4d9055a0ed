use rusty_meter::device_plugin::{DevicePlugin, Spm6103Plugin, Xdm1041Plugin};
use rusty_meter::multimeter::MeterMode;
use rusty_meter::plugins::{default_plugin, SpmPlugin};
use rusty_meter::ranges::RangeMatch;
use rusty_meter::replies::{Reading, SiPrefix};
use rusty_meter::serial::{SerialConfig, SerialTask};

#[test]
fn xdm1041_reads_replies() {
    let p = Xdm1041Plugin;
    let r = p.parse_measurement("+1.234\n", false);
    assert!(matches!(r.measurement, Some(Reading::Number(ref n, SiPrefix::One)) if n.as_str() == "+1.234"));
    assert_eq!(r.decimals, Some(3));
    assert_eq!(p.parse_measurement("\"VOLT AC\"", false).mode, Some(MeterMode::Vac));
    assert_eq!(p.parse_measurement("\"DIOD\"", true).mode, Some(MeterMode::Cont));
    assert_eq!(p.parse_measurement("\"CONT\"", true).mode, Some(MeterMode::Diod));
    assert_eq!(p.parse_measurement("?", true).decimals, None);
}

#[test]
fn spm6103_counts_decimals_of_the_base_unit() {
    let p = Spm6103Plugin;
    let r = p.parse_measurement("VOLT:DC,+20.44mV,Manual,200mV", false);
    assert_eq!(r.decimals, Some(5));
    assert!(matches!(r.range_index, RangeMatch::Settled(Some(1))));
    assert_eq!(p.parse_measurement("CAP,1.5nF,AUTO,", false).decimals, Some(10));
    assert_eq!(p.parse_measurement("RES,1.50kOhm,AUTO,2kOhm", false).decimals, Some(2));
    assert_eq!(p.parse_measurement("RES,OL,AUTO,100M Ohm", false).decimals, Some(0));
    assert_eq!(p.parse_measurement("CONT,1,AUTO,", true).mode, Some(MeterMode::Diod));
    assert_eq!(p.parse_measurement("1.5", false).decimals, None);
}

#[test]
fn models_support_different_features() {
    let (x, s) = (Xdm1041Plugin, Spm6103Plugin);
    assert!(x.supports_mode(MeterMode::Freq) && !s.supports_mode(MeterMode::Freq));
    assert!(s.supports_mode(MeterMode::Cap) && !s.supports_mode(MeterMode::Temp));
    assert!(x.supports_rate_control() && !s.supports_rate_control());
    assert!(x.supports_beeper() && !s.supports_beeper());
    assert!(x.supports_threshold() && !s.supports_threshold());
    assert!(!x.supports_hold() && s.supports_hold());
    assert!(!x.supports_power_supply() && s.supports_power_supply());
    assert!(x.power_supply_limits().is_none());
    assert_eq!(s.power_supply_limits().unwrap().current_max, 3_200);
}

#[test]
fn models_query_and_command_ranges() {
    let (x, s) = (Xdm1041Plugin, Spm6103Plugin);
    assert_eq!(x.range_query_command(MeterMode::Vdc).as_deref(), Some("CONF:VOLT:DC?\n"));
    assert_eq!(x.range_query_command(MeterMode::Diod), None);
    assert_eq!(s.range_query_command(MeterMode::Res).as_deref(), Some("RES:RANG?\n"));
    assert_eq!(s.range_query_command(MeterMode::Temp), None);
    assert_eq!(x.mode_command(MeterMode::Cont), "CONF:CONT\n");
    assert_eq!(s.mode_command(MeterMode::Cont), "FUNC:CONT\n");
    let info = s.range_info(MeterMode::Vdc).unwrap();
    assert_eq!(info.scpi_prefix, "SENS:VOLT:DC:RANG ");
    assert_eq!(info.auto_on_cmd, Some("VOLT:DC:RANG:AUTO ON\n"));
    assert_eq!(info.auto_off_cmd, Some("VOLT:DC:RANG:AUTO OFF\n"));
    assert_eq!(info.ranges[1], ("200mV", "200E-3"));
    assert!(x.range_info(MeterMode::Per).is_none());
    assert!(matches!(x.parse_range_response("\"RES 5E3\"", MeterMode::Res), RangeMatch::Settled(Some(2))));
    assert!(matches!(s.parse_range_response("20k Ohm", MeterMode::Res), RangeMatch::Settled(Some(3))));
    assert!(matches!(s.parse_range_response("20k Ohm", MeterMode::Diod), RangeMatch::Settled(None)));
}

#[test]
fn range_queries_are_awaited() {
    let config = SerialConfig {
        lock_remote: false,
        beeper_enabled: false,
        cont_threshold: 0,
        diod_threshold: "0".to_string(),
        curr_rate: 0,
    };
    let mut task = SerialTask::new(config, MeterMode::Vdc);
    let plugin = default_plugin();
    assert!(!task.command_sent(&plugin));
    assert!(!task.expecting_range_response);
    let models: [&dyn DevicePlugin; 2] = [&Xdm1041Plugin, &Spm6103Plugin];
    for model in models {
        for mode in [MeterMode::Vdc, MeterMode::Vac, MeterMode::Adc, MeterMode::Res, MeterMode::Cap] {
            task.expecting_range_response = false;
            task.queue_command(model.range_query_command(mode).unwrap());
            assert!(!task.command_sent(&plugin));
            assert!(task.expecting_range_response);
        }
    }
    task.expecting_range_response = false;
    for query in ["CONFigure:ALL?\n", "MEAS?\n", "FUNC?\n", "VOLT:LIM?\n", "CONF:VOLT:DC 5\n"] {
        task.queue_command(query.to_string());
        task.command_sent(&plugin);
        assert!(!task.expecting_range_response, "{}", query);
    }
}

#[test]
fn spm6103_ranges_are_those_of_the_family() {
    let family = SpmPlugin::new();
    for mode in [MeterMode::Vdc, MeterMode::Aac, MeterMode::Res, MeterMode::Cap, MeterMode::Diod] {
        let model = Spm6103Plugin.range_info(mode).map(|info| {
            info.ranges.iter().map(|(name, _)| *name).collect::<Vec<_>>()
        });
        let names = rusty_meter::plugins::DevicePlugin::range_info(&family, mode).map(|info| info.ranges);
        assert_eq!(model, names);
    }
}

#[test]
fn mode_commands_agree_with_the_family() {
    let x = Xdm1041Plugin;
    assert_eq!(x.mode_command(MeterMode::Adc), "CONF:CURR:DC\n");
    assert_eq!(x.mode_command(MeterMode::Aac), "CONF:CURR:AC\n");
    assert_eq!(x.mode_command(MeterMode::Freq), "CONF:FREQ\n");
    let s = Spm6103Plugin;
    assert_eq!(s.mode_command(MeterMode::Adc), "FUNC:CURR:DC\n");
    assert_eq!(s.mode_command(MeterMode::Aac), "FUNC:CURR:AC\n");
}
