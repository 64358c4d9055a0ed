use rusty_meter::double::Double;
use rusty_meter::multimeter::MeterMode;
use rusty_meter::plugins::{default_plugin, resolve_plugin, DevicePlugin, PendingChanges, Plugin, PsSetting};
use rusty_meter::session::{
    append, step_limit, ConnectionState, ConnectionText, GraphPass, PsPanel, PsReport, Session,
    SettingReport, MODE_RETRIES,
};
use rusty_meter::settings::{Color, PlotTab, RecordingFormat, RecordingMode, Settings, TimestampFormat};
use std::collections::VecDeque;

fn bits(value: f64) -> Double {
    Double { bits: value.to_bits() }
}

fn spm() -> Plugin {
    resolve_plugin("OWON,SPM6103,1,FV:V2.1.0")
}

fn setting(value: f64, near_pending: bool) -> SettingReport {
    SettingReport { value: bits(value), text: format!("{:.3}", value), near_pending }
}

fn report(includes_settings: bool, near: bool) -> PsReport {
    PsReport {
        output_on: true,
        voltage_set: setting(6.0, near),
        current_set: setting(2.0, near),
        ovp: setting(33.0, near),
        ocp: setting(3.3, near),
        voltage_readback: bits(5.9),
        current_readback: bits(0.1),
        power_readback: bits(0.59),
        includes_settings,
    }
}

#[test]
fn settings_have_defaults() {
    let s = Settings::default();
    assert_eq!((s.serial_port.as_str(), s.baud_rate, s.bits, s.stop_bits, s.parity), ("", 115200, 8, 1, false));
    assert_eq!((s.mem_depth, s.mem_depth_max), (100, 2000));
    assert_eq!((s.hist_mem_depth, s.hist_mem_depth_max), (1000, 10000));
    assert_eq!((s.poll_interval_ms, s.graph_update_interval_ms, s.graph_update_interval_max), (20, 20, 1000));
    assert_eq!((s.cont_threshold, f64::from_bits(s.diod_threshold.bits)), (50, 2.0));
    assert!(s.beeper_enabled && s.lock_remote && !s.hold_enabled);
    assert_eq!(s.graph_line_color, Color { r: 0, g: 255, b: 255, a: 255 });
    assert_eq!(s.recording_format, RecordingFormat::Csv);
    assert_eq!(s.recording_mode, RecordingMode::FixedInterval);
    assert_eq!(s.recording_timestamp_format, TimestampFormat::Rfc3339);
    assert_eq!(PlotTab::Graph.title(), "Graph");
    assert_eq!(PlotTab::Histogram.title(), "Histogram");
}

#[test]
fn session_has_defaults() {
    let s = Session::default();
    assert_eq!(s.metermode, MeterMode::Vdc);
    assert_eq!(s.curr_unit, "VDC");
    assert!(f64::from_bits(s.curr_meas.bits).is_nan());
    assert_eq!(f64::from_bits(s.curr_precision.bits), 0.0001);
    assert_eq!(s.connection_state, ConnectionState::Disconnected);
    assert_eq!(f64::from_bits(s.ps.voltage.value.bits), 5.0);
    assert_eq!(s.ps.voltage.input, "5.000");
    assert_eq!(f64::from_bits(s.ps.current.value.bits), 1.0);
    assert_eq!(s.ps.current.input, "1.000");
    assert_eq!(s.ps.ovp.input, "32.000");
    assert_eq!(f64::from_bits(s.ps.ocp.value.bits), 3.2);
    assert_eq!(s.ps.ocp.input, "3.200");
}

#[test]
fn mode_change_is_pending_until_confirmed() {
    let plugin = default_plugin();
    let mut pending = PendingChanges::default();
    let mut s = Session::default();
    s.values.push_back(bits(1.0));
    s.curr_range = 3;
    let commands = s.set_mode(MeterMode::Cont, &plugin, &mut pending, "2");
    assert_eq!(commands.beeper.as_deref(), Some("SYST:BEEP:STATe ON\n"));
    assert_eq!(commands.threshold.as_deref(), Some("CONT:THREshold 50\n"));
    assert_eq!(s.pending_mode_change, Some(MeterMode::Cont));
    assert_eq!((s.metermode, s.curr_range, s.curr_unit.as_str()), (MeterMode::Cont, 0, "Ohm"));
    assert_eq!(s.confstring, "CONF:CONT\n");
    assert!(s.values.is_empty());
    assert_eq!(pending.mode, Some((MeterMode::Cont, "CONF:CONT\n".to_string(), MODE_RETRIES)));
    s.note_mode(MeterMode::Vdc, &plugin, &mut pending);
    assert_eq!((s.metermode, s.curr_unit.as_str()), (MeterMode::Vdc, "VDC"));
    assert_eq!(s.pending_mode_change, Some(MeterMode::Cont));
    assert!(pending.mode.is_some());
    s.note_mode(MeterMode::Cont, &plugin, &mut pending);
    assert_eq!(s.pending_mode_change, None);
    assert!(pending.mode.is_none());
}

#[test]
fn mode_commands_depend_on_mode_and_instrument() {
    let mut pending = PendingChanges::default();
    let mut s = Session::default();
    let commands = s.set_mode(MeterMode::Diod, &default_plugin(), &mut pending, "1.5");
    assert_eq!(commands.threshold.as_deref(), Some("DIOD:THREshold 1.5\n"));
    let commands = s.set_mode(MeterMode::Res, &default_plugin(), &mut pending, "1.5");
    assert!(commands.beeper.is_none() && commands.threshold.is_none());
    let commands = s.set_mode(MeterMode::Diod, &spm(), &mut pending, "1.5");
    assert!(commands.beeper.is_none() && commands.threshold.is_none());
}

#[test]
fn range_reports_respect_pending_changes() {
    let mut pending = PendingChanges::default();
    let mut s = Session::default();
    s.note_range(MeterMode::Vdc, 2, &mut pending);
    assert_eq!(s.curr_range, 2);
    s.note_range(MeterMode::Res, 1, &mut pending);
    assert_eq!(s.curr_range, 2);
    s.pending_mode_change = Some(MeterMode::Res);
    s.note_range(MeterMode::Vdc, 1, &mut pending);
    assert_eq!(s.curr_range, 2);
    s.pending_mode_change = None;
    pending.range = Some((4, String::new()));
    s.note_range(MeterMode::Vdc, 1, &mut pending);
    assert_eq!(s.curr_range, 2);
    assert!(pending.range.is_some());
    s.note_range(MeterMode::Vdc, 4, &mut pending);
    assert_eq!(s.curr_range, 4);
    assert!(pending.range.is_none());
}

#[test]
fn range_list_clamps_the_selection() {
    let mut s = Session::default();
    s.curr_range = 4;
    let choice = s.range_choice(&default_plugin()).unwrap();
    assert_eq!((choice.selected, choice.enabled, choice.names.len()), ("50V", true, 7));
    s.curr_range = 7;
    let choice = s.range_choice(&default_plugin()).unwrap();
    assert_eq!((choice.selected, s.curr_range), ("auto", 0));
    s.metermode = MeterMode::Cap;
    assert!(!s.range_choice(&spm()).unwrap().enabled);
    s.metermode = MeterMode::Freq;
    assert!(s.range_choice(&default_plugin()).is_none());
}

#[test]
fn range_choice_is_sent_and_pending() {
    let mut pending = PendingChanges::default();
    let mut s = Session::default();
    let commands = s.choose_range(2, &spm(), &mut pending);
    assert_eq!(commands, vec!["VOLT:DC:RANG:AUTO 0\n", "SENS:VOLT:DC:RANG 2\n"]);
    assert_eq!(s.curr_range, 2);
    assert_eq!(pending.range.as_ref().unwrap().0, 2);
    s.metermode = MeterMode::Freq;
    assert!(s.choose_range(1, &default_plugin(), &mut pending).is_empty());
    assert_eq!(pending.range.as_ref().unwrap().0, 2);
}

#[test]
fn rate_and_beeper_are_chosen() {
    let mut s = Session::default();
    assert_eq!(s.choose_rate(2, &default_plugin()).as_deref(), Some("RATE F\n"));
    assert_eq!((s.settings.curr_rate, s.confstring.as_str()), (2, "RATE F\n"));
    assert_eq!(s.choose_rate(1, &spm()), None);
    assert_eq!((s.settings.curr_rate, s.confstring.as_str()), (1, "RATE F\n"));
    assert_eq!(s.choose_beeper(false, &default_plugin()).as_deref(), Some("SYST:BEEP:STATe OFF\n"));
    assert!(!s.settings.beeper_enabled);
}

#[test]
fn hold_toggles() {
    let mut s = Session::default();
    s.last_graph_update = bits(7.0);
    assert_eq!(s.toggle_hold(&spm()).as_deref(), Some("MULT:HOLD ON\n"));
    assert!(s.settings.hold_enabled);
    assert_eq!(f64::from_bits(s.last_graph_update.bits), 7.0);
    assert_eq!(s.toggle_hold(&spm()).as_deref(), Some("MULT:HOLD OFF\n"));
    assert!(!s.settings.hold_enabled);
    assert_eq!(f64::from_bits(s.last_graph_update.bits), 0.0);
    assert_eq!(s.toggle_hold(&default_plugin()), None);
    assert!(s.settings.hold_enabled);
}

#[test]
fn graph_keeps_the_newest_values() {
    let mut s = Session::default();
    s.settings.mem_depth = 3;
    for i in 0..5 {
        s.note_measurement(bits(i as f64), bits(0.1));
        let pass = s.update_graph(bits(i as f64), true, false);
        assert_eq!(pass, GraphPass { sampled: true, record: false });
    }
    let values: Vec<f64> = s.values.iter().map(|d| f64::from_bits(d.bits)).collect();
    assert_eq!(values, vec![2.0, 3.0, 4.0]);
    assert_eq!(f64::from_bits(s.last_graph_update.bits), 4.0);
    let mut shrunk: VecDeque<Double> = (0..6).map(|i| bits(i as f64)).collect();
    append(&mut shrunk, bits(6.0), 2);
    assert_eq!(shrunk, VecDeque::from(vec![bits(5.0), bits(6.0)]));
    append(&mut shrunk, bits(7.0), 0);
    assert!(shrunk.is_empty());
}

#[test]
fn graph_waits_and_records() {
    let mut s = Session::default();
    assert_eq!(s.update_graph(bits(1.0), true, true), GraphPass { sampled: false, record: false });
    assert_eq!(f64::from_bits(s.last_graph_update.bits), 1.0);
    s.note_measurement(bits(3.0), bits(0.1));
    assert!(!s.update_graph(bits(2.0), false, true).sampled);
    assert_eq!(f64::from_bits(s.last_graph_update.bits), 1.0);
    s.settings.recording_active = true;
    assert!(s.update_graph(bits(2.0), true, true).record);
    assert_eq!(f64::from_bits(s.last_record_time.bits), 2.0);
    assert!(!s.update_graph(bits(3.0), true, false).record);
    s.settings.recording_mode = RecordingMode::Manual;
    assert!(!s.update_graph(bits(4.0), true, true).record);
    s.settings.hold_enabled = true;
    assert!(!s.update_graph(bits(5.0), true, true).sampled);
    assert_eq!(f64::from_bits(s.last_graph_update.bits), 4.0);
}

#[test]
fn thresholds_light_up() {
    let mut s = Session::default();
    s.metermode = MeterMode::Cont;
    assert!(!s.below_threshold());
    s.values.push_back(bits(50.0));
    assert!(s.below_threshold());
    s.values.push_back(bits(50.000001));
    assert!(!s.below_threshold());
    s.metermode = MeterMode::Diod;
    s.values.push_back(bits(2.0));
    assert!(s.below_threshold());
    s.values.push_back(bits(2.1));
    assert!(!s.below_threshold());
    s.metermode = MeterMode::Vdc;
    s.values.push_back(bits(0.0));
    assert!(!s.below_threshold());
}

#[test]
fn unconfirmed_settings_stay() {
    let mut panel = PsPanel::default();
    let mut pending = PendingChanges::default();
    panel.request(PsSetting::Voltage, bits(7.5), Some("7.500".to_string()), &mut pending);
    panel.note_report(&report(true, false), &mut pending);
    assert_eq!((f64::from_bits(panel.voltage.value.bits), panel.voltage.input.as_str()), (7.5, "7.500"));
    assert_eq!(pending.voltage_set, Some(bits(7.5)));
    assert_eq!((f64::from_bits(panel.current.value.bits), panel.current.input.as_str()), (2.0, "2.000"));
    assert_eq!(f64::from_bits(panel.ovp.value.bits), 33.0);
    assert_eq!(panel.ocp.input, "3.300");
    assert!(panel.initial_sync_done && panel.output_on);
    assert_eq!(f64::from_bits(panel.power_readback.bits), 0.59);
    panel.note_report(&report(true, true), &mut pending);
    assert_eq!((f64::from_bits(panel.voltage.value.bits), panel.voltage.input.as_str()), (6.0, "6.000"));
    assert!(!pending.has_any());
}

#[test]
fn editing_is_not_disturbed() {
    let mut panel = PsPanel::default();
    let mut pending = PendingChanges::default();
    panel.input_has_focus = true;
    panel.note_report(&report(true, false), &mut pending);
    assert_eq!((f64::from_bits(panel.voltage.value.bits), panel.voltage.input.as_str()), (6.0, "5.000"));
}

#[test]
fn fast_reports_leave_settings_alone() {
    let mut panel = PsPanel::default();
    let mut pending = PendingChanges::default();
    pending.ocp = Some(bits(1.0));
    panel.note_report(&report(false, true), &mut pending);
    assert_eq!(f64::from_bits(panel.voltage.value.bits), 5.0);
    assert_eq!(f64::from_bits(panel.voltage_readback.bits), 5.9);
    assert_eq!(pending.ocp, Some(bits(1.0)));
}

#[test]
fn output_request_stays_until_confirmed() {
    let mut panel = PsPanel::default();
    let mut pending = PendingChanges::default();
    panel.toggle_output(&mut pending);
    assert!(panel.output_on);
    panel.toggle_output(&mut pending);
    assert!(!panel.output_on);
    assert_eq!(pending.output_on, Some(false));
    panel.note_report(&report(false, false), &mut pending);
    assert!(!panel.output_on);
    assert_eq!(pending.output_on, Some(false));
    let mut off = report(false, false);
    off.output_on = false;
    panel.note_report(&off, &mut pending);
    assert_eq!(pending.output_on, None);
}

#[test]
fn latest_request_wins() {
    let mut panel = PsPanel::default();
    let mut pending = PendingChanges::default();
    panel.request(PsSetting::Ocp, bits(1.0), None, &mut pending);
    panel.request(PsSetting::Ovp, bits(9.0), Some("9".to_string()), &mut pending);
    panel.request(PsSetting::Ocp, bits(2.0), None, &mut pending);
    panel.request(PsSetting::Current, bits(0.5), None, &mut pending);
    assert_eq!(pending.ocp, Some(bits(2.0)));
    assert_eq!(pending.ovp, Some(bits(9.0)));
    assert_eq!(pending.current_set, Some(bits(0.5)));
    assert_eq!((panel.ocp.value, panel.ocp.input.as_str()), (bits(2.0), "3.200"));
    assert_eq!(panel.ovp.input, "9");
}

#[test]
fn steps_have_limits() {
    assert_eq!(step_limit(PsSetting::Voltage), 60_000);
    assert_eq!(step_limit(PsSetting::Current), 3_200);
    assert_eq!(step_limit(PsSetting::Ovp), 63_000);
    assert_eq!(step_limit(PsSetting::Ocp), 3_500);
}

#[test]
fn panel_hides_for_meters() {
    let mut s = Session::default();
    s.note_capabilities(&default_plugin());
    assert!(!s.ps.confirmed_non_ps);
    s.connected();
    s.note_capabilities(&default_plugin());
    assert!(!s.ps.confirmed_non_ps);
    s.device = "OWON,XDM1041,1,V4.3.0".to_string();
    s.note_capabilities(&spm());
    assert!(!s.ps.confirmed_non_ps);
    s.note_capabilities(&default_plugin());
    assert!(s.ps.confirmed_non_ps);
}

#[test]
fn startup_lists_ports_and_connects() {
    let mut s = Session::default();
    let ports = vec!["COM1".to_string(), "COM2".to_string()];
    assert!(!s.start_up(ports));
    assert_eq!(s.portlist, VecDeque::from(vec!["COM2".to_string(), "COM1".to_string()]));
    assert!(s.is_init);
    s.settings.connect_on_startup = true;
    s.settings.serial_port = "COM1".to_string();
    assert!(!s.start_up(vec!["COM3".to_string()]));
    assert_eq!(s.portlist.len(), 2);
    let mut s = Session::default();
    s.settings.connect_on_startup = true;
    assert!(!s.start_up(vec![]));
    let mut s = Session::default();
    s.settings.connect_on_startup = true;
    s.settings.serial_port = "COM1".to_string();
    assert!(s.start_up(vec![]));
    assert_eq!(s.connection_state, ConnectionState::Connecting);
}

#[test]
fn connection_line_tells_the_state() {
    let mut s = Session::default();
    assert_eq!(s.connection_text(), ConnectionText::NotConnected);
    s.begin_connecting();
    assert_eq!(s.connection_text(), ConnectionText::Connecting);
    s.connection_failed("Failed to connect: ", "busy");
    assert_eq!(s.connection_text(), ConnectionText::Failed("Failed to connect: busy"));
    s.begin_connecting();
    s.connected();
    assert_eq!(s.connection_text(), ConnectionText::AwaitingDevice);
    s.device = "X".to_string();
    assert_eq!(s.connection_text(), ConnectionText::ConnectedTo("X"));
}

#[test]
fn disconnecting_forgets_the_instrument() {
    let mut plugin = spm();
    let mut pending = PendingChanges::default();
    let mut s = Session::default();
    s.connected();
    s.device = "X".to_string();
    s.values.push_back(bits(1.0));
    s.meas_count = 4;
    s.ps.request(PsSetting::Voltage, bits(7.0), None, &mut pending);
    s.ps.note_report(&report(false, false), &mut pending);
    s.disconnect(&mut plugin, &mut pending);
    assert_eq!(plugin.name(), "Default");
    assert!(!pending.has_any());
    assert_eq!(s.connection_text(), ConnectionText::NotConnected);
    assert!(s.values.is_empty() && s.device.is_empty());
    assert!(f64::from_bits(s.curr_meas.bits).is_nan());
    assert_eq!(f64::from_bits(s.ps.voltage.value.bits), 7.0);
    assert_eq!(f64::from_bits(s.ps.voltage_readback.bits), 0.0);
    assert!(!s.ps.initial_sync_done && !s.ps.output_on);
}

#[test]
fn buttons_follow_the_instrument() {
    let s = Session::default();
    let labels: Vec<String> = s.mode_buttons(&spm()).into_iter().map(|(_, label)| label).collect();
    assert_eq!(labels, vec!["VDC", "VAC", "ADC", "AAC", "Ohm", "C", "Diode", "Cont"]);
    assert_eq!(s.mode_buttons(&default_plugin()).len(), 11);
}

#[test]
fn threshold_command_follows_mode_and_instrument() {
    let mut s = Session::default();
    assert_eq!(s.threshold_command(&default_plugin(), "2"), None);
    s.metermode = MeterMode::Cont;
    assert_eq!(s.threshold_command(&default_plugin(), "2").as_deref(), Some("CONT:THREshold 50\n"));
    s.metermode = MeterMode::Diod;
    assert_eq!(s.threshold_command(&default_plugin(), "2").as_deref(), Some("DIOD:THREshold 2\n"));
    assert_eq!(s.threshold_command(&spm(), "2"), None);
}
