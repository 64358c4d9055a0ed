use rusty_meter::double::Double;
use rusty_meter::multimeter::MeterMode;
use rusty_meter::plugins::{default_plugin, PendingChanges, Plugin, PowerReading};
use rusty_meter::ranges::RangeMatch;
use rusty_meter::replies::{Precision, Reading, SiPrefix};
use rusty_meter::serial::{
    split_commands, split_received, split_replies, LineOutcome, PsAmounts, PsPhase, ScpiMode,
    SerialConfig, SerialTask,
};

const XDM: &str = "OWON,XDM1041,1,V4.3.0";
const SPM: &str = "OWON,SPM6103,1,FV:V2.1.0";

struct Conversation {
    task: SerialTask,
    plugin: Plugin,
    pending: PendingChanges,
    sent: Vec<String>,
}

impl Conversation {
    fn start() -> Conversation {
        let config = SerialConfig {
            lock_remote: true,
            beeper_enabled: true,
            cont_threshold: 50,
            diod_threshold: "2".to_string(),
            curr_rate: 1,
        };
        Conversation {
            task: SerialTask::new(config, MeterMode::Vdc),
            plugin: default_plugin(),
            pending: PendingChanges::default(),
            sent: Vec::new(),
        }
    }

    fn identified(idn: &str) -> Conversation {
        let mut c = Conversation::start();
        c.send_all();
        c.line(idn);
        c.send_all();
        c.sent.clear();
        c
    }

    /// Sends until a query was sent or nothing is left.
    fn send(&mut self) {
        while let Some(command) = self.task.next_command().cloned() {
            self.sent.push(command);
            if !self.task.command_sent(&self.plugin) {
                break;
            }
        }
    }

    fn send_all(&mut self) {
        while self.task.next_command().is_some() {
            self.send();
        }
    }

    fn line(&mut self, line: &str) -> LineOutcome {
        self.task.take_line(line, &mut self.plugin, &mut self.pending)
    }

    fn resume(&mut self) {
        let amount = |a: &Option<Double>| a.map(|d| format!("{:.3}", f64::from_bits(d.bits)));
        let amounts = PsAmounts {
            voltage_set: amount(&self.pending.voltage_set),
            current_set: amount(&self.pending.current_set),
            ovp: amount(&self.pending.ovp),
            ocp: amount(&self.pending.ocp),
        };
        self.task.resume(&self.plugin, &mut self.pending, &amounts);
    }

    fn queue(&self) -> Vec<&str> {
        self.task.command_queue.iter().map(|s| s.as_str()).collect()
    }
}

#[test]
fn received_bytes_are_split_into_replies() {
    assert_eq!(split_received(b"+1.0\r\nERR\n\nON\n"), vec!["+1.0", "ON"]);
    assert_eq!(split_received("5μF\n".as_bytes()), vec!["5μF"]);
    assert_eq!(split_received(&[b'a', 0xff, b'\n']), vec!["a\u{fffd}"]);
    assert!(split_received(b"").is_empty());
    assert_eq!(split_replies(" ERR \nERR1"), vec!["ERR1"]);
}

#[test]
fn command_strings_are_split_into_commands() {
    assert_eq!(
        split_commands("VOLT:DC:RANG:AUTO 0\nSENS:VOLT:DC:RANG 2\n"),
        vec!["VOLT:DC:RANG:AUTO 0\n", "SENS:VOLT:DC:RANG 2\n"]
    );
    assert!(split_commands("\n \n").is_empty());
}

#[test]
fn conversation_begins_with_identification() {
    let mut c = Conversation::start();
    assert_eq!(c.queue(), vec!["*IDN?\n"]);
    c.send();
    assert_eq!(c.sent, vec!["*IDN?\n"]);
    assert_eq!(c.queue(), vec!["SYST:REM\n"]);
    let outcome = c.line(XDM);
    assert_eq!(outcome.device.as_deref(), Some(XDM));
    assert_eq!(c.task.scpimode, ScpiMode::Meas);
    assert!(!c.task.has_power_supply);
    assert_eq!(
        c.queue(),
        vec![
            "SYST:REM\n",
            "RATE M\n",
            "SYST:BEEP:STATe ON\n",
            "CONT:THREshold 50\n",
            "DIOD:THREshold 2\n"
        ]
    );
}

#[test]
fn remote_lock_is_optional() {
    let mut c = Conversation::start();
    c.task.config.lock_remote = false;
    c.send();
    assert!(c.queue().is_empty());
}

#[test]
fn power_supply_is_polled_after_identification() {
    let mut c = Conversation::start();
    c.send();
    c.line(SPM);
    assert!(c.task.has_power_supply);
    assert_eq!(c.task.ps_phase, PsPhase::WaitOutp);
    assert_eq!(c.queue(), vec!["SYST:REM\n", "OUTP?\n"]);
    assert!(matches!(c.plugin, Plugin::Spm(_)));
}

#[test]
fn full_poll_completes_the_state() {
    let mut c = Conversation::identified(SPM);
    assert!(c.line("ON").power_supply.is_none());
    assert!(c.line("5.000").power_supply.is_none());
    assert!(c.line("1.000").power_supply.is_none());
    assert!(c.line("32.000").power_supply.is_none());
    assert!(c.line("3.200").power_supply.is_none());
    assert_eq!(c.task.ps_phase, PsPhase::WaitMeasAll);
    let state = c.line("4.999,0.500,2.4995").power_supply.unwrap();
    assert!(state.output_on && state.includes_settings);
    assert_eq!(state.voltage_set.as_str(), "5.000");
    assert_eq!(state.current_set.as_str(), "1.000");
    assert_eq!(state.ovp.as_str(), "32.000");
    assert_eq!(state.ocp.as_str(), "3.200");
    assert_eq!(state.voltage_readback.as_str(), "4.999");
    assert_eq!(state.current_readback.as_str(), "0.500");
    assert!(matches!(state.power_readback, PowerReading::Reported(ref n) if n.as_str() == "2.4995"));
    assert_eq!(c.task.ps_phase, PsPhase::Idle);
    assert_eq!(
        c.queue(),
        vec!["VOLT?\n", "CURR?\n", "VOLT:LIM?\n", "CURR:LIM?\n", "MEAS:ALL?\n"]
    );
}

#[test]
fn fast_poll_keeps_the_settings() {
    let mut c = Conversation::identified(SPM);
    for line in ["ON", "5.000", "1.000", "32.000", "3.200", "4.999,0.500,2.5"] {
        c.line(line);
    }
    c.send_all();
    for _ in 0..5 {
        c.resume();
        c.send_all();
    }
    assert_eq!(c.task.ps_full_poll_counter, 1);
    assert!(c.line("OFF").power_supply.is_none());
    assert_eq!(c.task.ps_phase, PsPhase::WaitMeasAllFast);
    let state = c.line("0.001 0.000").power_supply.unwrap();
    assert!(!state.output_on && !state.includes_settings);
    assert_eq!(state.voltage_set.as_str(), "5.000");
    assert_eq!(state.voltage_readback.as_str(), "0.001");
    assert!(matches!(state.power_readback, PowerReading::Product));
}

#[test]
fn measurements_pass_a_pending_power_supply_query() {
    let mut c = Conversation::identified(SPM);
    let outcome = c.line("VOLT:DC,+0.0011V,AUTO,2V");
    assert!(outcome.power_supply.is_none());
    assert!(matches!(outcome.measurement, Some((Reading::Number(ref n, SiPrefix::One), _)) if n.as_str() == "+0.0011"));
    assert_eq!(c.task.ps_phase, PsPhase::WaitOutp);
}

#[test]
fn unanswered_query_is_given_up() {
    let mut c = Conversation::identified(SPM);
    for _ in 0..50 {
        c.task.count_timeout();
        assert_eq!(c.task.ps_phase, PsPhase::WaitOutp);
    }
    c.task.count_timeout();
    assert_eq!(c.task.ps_phase, PsPhase::Idle);
    assert_eq!(c.task.ps_timeout, 0);
    c.task.count_timeout();
    assert_eq!(c.task.ps_timeout, 0);
}

#[test]
fn meter_is_polled_and_asked_for_its_function() {
    let mut c = Conversation::identified(XDM);
    for i in 0..25 {
        c.resume();
        c.send();
        let expected = if i == 10 || i == 21 { "FUNC?\n" } else { "MEAS?\n" };
        assert_eq!(c.sent.last().map(|s| s.as_str()), Some(expected), "pass {}", i);
        if expected == "MEAS?\n" {
            let outcome = c.line("+1.5");
            let (_, precision) = outcome.measurement.unwrap();
            assert_eq!(precision, Precision { decimals: 1, prefix: SiPrefix::One });
        } else {
            assert!(c.line("\"VOLT\"").measurement.is_none());
        }
    }
}

#[test]
fn nothing_is_queued_while_something_is_left() {
    let mut c = Conversation::identified(XDM);
    c.task.queue_command("X\n".to_string());
    c.resume();
    assert_eq!(c.queue(), vec!["X\n"]);
}

#[test]
fn mode_change_is_followed_up() {
    let mut c = Conversation::identified(XDM);
    c.pending.mode = Some((MeterMode::Diod, "CONF:DIOD\n".to_string(), 5));
    c.resume();
    assert_eq!(c.queue(), vec!["CONF:DIOD\n", "MEAS?\n"]);
    c.send_all();
    let outcome = c.line("\"DIOD\"");
    assert_eq!(outcome.mode, Some(MeterMode::Diod));
    assert!(c.pending.mode.is_none());
    assert_eq!(c.queue(), vec!["SYST:BEEP:STATe ON\n", "DIOD:THREshold 2\n", "FUNC?\n"]);
    c.send_all();
    assert_eq!(c.line("\"DIOD\"").mode, None);
    assert!(c.queue().is_empty());
    assert_eq!(c.line("\"CONT\"").mode, Some(MeterMode::Cont));
    assert_eq!(c.queue(), vec!["SYST:BEEP:STATe ON\n", "CONT:THREshold 50\n", "FUNC?\n"]);
}

#[test]
fn mode_change_is_retried_five_times() {
    let mut c = Conversation::identified(XDM);
    c.pending.mode = Some((MeterMode::Res, "CONF:RES AUTO\n".to_string(), 5));
    for pass in 0..8 {
        c.sent.clear();
        c.resume();
        c.send_all();
        c.line("1.0");
        assert_eq!(c.sent.contains(&"CONF:RES AUTO\n".to_string()), pass < 5);
    }
    assert_eq!(c.pending.mode.as_ref().unwrap().2, 0);
}

#[test]
fn range_change_is_sent_line_by_line() {
    let mut c = Conversation::identified(SPM);
    c.task.ps_phase = PsPhase::Idle;
    c.pending.range = Some((2, "VOLT:DC:RANG:AUTO 0\nSENS:VOLT:DC:RANG 2\n".to_string()));
    c.resume();
    assert_eq!(
        c.queue(),
        vec!["VOLT:DC:RANG:AUTO 0\n", "SENS:VOLT:DC:RANG 2\n", "CONFigure:ALL?\n"]
    );
}

#[test]
fn power_supply_is_polled_every_fifth_pass() {
    let mut c = Conversation::identified(SPM);
    c.task.ps_phase = PsPhase::Idle;
    c.pending.output_on = Some(true);
    c.pending.voltage_set = Some(Double { bits: 5.0f64.to_bits() });
    c.pending.ocp = Some(Double { bits: 3.2f64.to_bits() });
    for pass in 1..=5 {
        assert!(c.queue().is_empty());
        c.resume();
        if pass < 5 {
            assert_eq!(c.queue(), vec!["CONFigure:ALL?\n"]);
            c.send_all();
        }
    }
    assert_eq!(
        c.queue(),
        vec!["CONFigure:ALL?\n", "OUTP ON\n", "VOLT 5.000\n", "CURR:LIM 3.200\n", "OUTP?\n"]
    );
    assert_eq!(c.task.ps_phase, PsPhase::WaitOutp);
    assert_eq!(c.task.ps_full_poll_counter, 1);
}

#[test]
fn every_tenth_poll_is_full() {
    let mut c = Conversation::identified(SPM);
    c.task.ps_phase = PsPhase::Idle;
    let mut full = Vec::new();
    for _ in 0..100 {
        c.resume();
        c.send_all();
        if c.task.ps_phase == PsPhase::WaitOutp {
            c.line("ON");
            full.push(c.task.ps_phase == PsPhase::WaitVolt);
            c.task.ps_phase = PsPhase::Idle;
            c.send_all();
        }
    }
    assert_eq!(full.len(), 20);
    for (i, is_full) in full.iter().enumerate() {
        assert_eq!(*is_full, i % 10 == 9);
    }
}

#[test]
fn range_answers_are_awaited() {
    let mut c = Conversation::identified(XDM);
    c.task.queue_command("CONF:VOLT:DC?\n".to_string());
    c.send();
    assert!(c.task.expecting_range_response);
    let outcome = c.line("\"VOLT:DC 5\"");
    assert!(matches!(outcome.range, Some((MeterMode::Vdc, RangeMatch::Settled(Some(3))))));
    assert!(!c.task.expecting_range_response);
    c.task.queue_command("RES:RANG?\n".to_string());
    c.send();
    assert!(c.task.expecting_range_response);
    assert!(c.line("nonsense").range.is_none());
}

#[test]
fn only_one_query_is_sent_at_a_time() {
    let mut c = Conversation::identified(XDM);
    for command in ["A\n", "B?\n", "C\n", "D?\n"] {
        c.task.queue_command(command.to_string());
    }
    c.send();
    assert_eq!(c.sent, vec!["A\n", "B?\n"]);
    c.send();
    assert_eq!(c.sent, vec!["A\n", "B?\n", "C\n", "D?\n"]);
}

#[test]
fn hold_overtakes_other_commands() {
    let mut c = Conversation::identified(SPM);
    c.task.queue_command("FUNC:RES\n".to_string());
    c.task.queue_command("MULT:HOLD ON\n".to_string());
    assert_eq!(c.queue(), vec!["MULT:HOLD ON\n", "FUNC:RES\n"]);
}

#[test]
fn failed_command_is_dropped() {
    let mut c = Conversation::identified(XDM);
    c.task.queue_command("A\n".to_string());
    c.task.queue_command("B\n".to_string());
    c.task.command_failed();
    assert_eq!(c.queue(), vec!["B\n"]);
}

#[test]
fn shutdown_turns_off_and_resets() {
    let mut c = Conversation::identified(SPM);
    c.task.queue_command("FUNC:RES\n".to_string());
    c.task.request_shutdown(&c.plugin);
    assert_eq!(c.task.ps_phase, PsPhase::Idle);
    assert_eq!(c.queue(), vec!["FUNC:RES\n", "OUTP OFF\n", "SYST:LOC\n", "*RST\n"]);
    c.resume();
    assert_eq!(c.queue().len(), 4);
    assert!(!c.task.finished());
    c.send_all();
    assert!(c.task.finished());
    let mut meter = Conversation::start();
    meter.task.request_shutdown(&meter.plugin);
    assert_eq!(meter.queue(), vec!["*IDN?\n", "SYST:LOC\n", "*RST\n"]);
    meter.send_all();
    assert_eq!(meter.sent, vec!["*IDN?\n", "SYST:LOC\n", "*RST\n"]);
    assert!(meter.task.finished());
}

#[test]
fn spm_replies_tell_mode_range_and_value() {
    let mut c = Conversation::identified(SPM);
    let outcome = c.line("RES,OL,AUTO,100M Ohm");
    assert_eq!(outcome.mode, Some(MeterMode::Res));
    assert!(matches!(outcome.range, Some((MeterMode::Res, RangeMatch::Settled(Some(0))))));
    let (reading, precision) = outcome.measurement.unwrap();
    assert!(matches!(reading, Reading::Overload));
    assert_eq!(precision, Precision { decimals: 4, prefix: SiPrefix::One });
    assert_eq!(c.queue(), vec!["CONFigure:ALL?\n"]);
    assert_eq!(c.task.meas_count, 1);
}
