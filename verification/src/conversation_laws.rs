//! What each step of the serial conversation sends, tells and leaves alone, command by command.

use crate::device_plugin::DeviceModel;
use crate::multimeter::MeterMode;
use crate::number::decimal;
use crate::plugins::family::DeviceFamily;
use crate::plugins::{output_state, ps_meas_all, ps_value, Pending, PsSetting};
use crate::ranges::Matching;
use crate::replies::{Precision, SiPrefix};
use crate::serial::{
    command_lines, reply_lines, without_errors, Amounts, Config, PsPhase, ScpiMode, Serial,
};
use crate::serial_laws::{
    law_queries_are_recognised, law_range_queries_are_awaited, lemma_missing, lemma_reset_trimmed,
};
use crate::text::{
    inhabited_lines, lemma_leading, lemma_trailing, occurs, split, stripped, trim_end, trim_start,
    trimmed, white_space, CharClass,
};
use vstd::prelude::*;

verus! {

// ---------------------------------------------------------------------------------------------
// Idle passes
// ---------------------------------------------------------------------------------------------

/// Sending one setting adds its command, and an absent one adds nothing.
proof fn lemma_setting_added(s: Serial, setting: PsSetting, amount: Option<Seq<char>>)
    ensures
        s.setting(DeviceFamily::Spm, setting, amount) == (Serial {
            queue: s.queue + setting_commands(setting, amount),
            ..s
        }),
{
    match amount {
        Some(v) => {
            let command = DeviceFamily::Spm.ps_set(setting, v)->0;
            assert(s.queue.push(command) =~= s.queue + seq![command]);
        },
        None => {
            assert(s.queue + seq![] =~= s.queue);
        },
    }
}

/// The command that changes a setting to an amount, if there is an amount.
spec fn setting_commands(setting: PsSetting, amount: Option<Seq<char>>) -> Seq<Seq<char>> {
    match amount {
        Some(v) => match setting {
            PsSetting::Voltage => seq!["VOLT "@ + v + "\n"@],
            PsSetting::Current => seq!["CURR "@ + v + "\n"@],
            PsSetting::Ovp => seq!["VOLT:LIM "@ + v + "\n"@],
            PsSetting::Ocp => seq!["CURR:LIM "@ + v + "\n"@],
        },
        None => seq![],
    }
}

/// The changes of the power supply that a poll sends.
proof fn lemma_changes_added(s: Serial, output_on: Option<bool>, amounts: Amounts)
    ensures
        s.applying(DeviceFamily::Spm, output_on, amounts) == (Serial {
            queue: s.queue + (match output_on {
                Some(true) => seq!["OUTP ON\n"@],
                Some(false) => seq!["OUTP OFF\n"@],
                None => seq![],
            }) + setting_commands(PsSetting::Voltage, amounts.voltage_set) + setting_commands(
                PsSetting::Current,
                amounts.current_set,
            ) + setting_commands(PsSetting::Ovp, amounts.ovp) + setting_commands(
                PsSetting::Ocp,
                amounts.ocp,
            ),
            ..s
        }),
{
    let family = DeviceFamily::Spm;
    let output: Seq<Seq<char>> = match output_on {
        Some(true) => seq!["OUTP ON\n"@],
        Some(false) => seq!["OUTP OFF\n"@],
        None => seq![],
    };
    let s1 = match output_on {
        Some(on) => s.queueing(family.ps_output_command(on)),
        None => s,
    };
    assert(s1.queue =~= s.queue + output);
    let s2 = s1.setting(family, PsSetting::Voltage, amounts.voltage_set);
    let s3 = s2.setting(family, PsSetting::Current, amounts.current_set);
    let s4 = s3.setting(family, PsSetting::Ovp, amounts.ovp);
    lemma_setting_added(s1, PsSetting::Voltage, amounts.voltage_set);
    lemma_setting_added(s2, PsSetting::Current, amounts.current_set);
    lemma_setting_added(s3, PsSetting::Ovp, amounts.ovp);
    lemma_setting_added(s4, PsSetting::Ocp, amounts.ocp);
}

/// The commands for the meter of a power supply.
proof fn lemma_meter_part(
    s: Serial,
    pending: Pending,
    mode: Seq<Seq<char>>,
    range: Seq<Seq<char>>,
)
    requires
        mode == (match pending.mode {
            Some((_, command, retries)) if retries > 0 => seq![command],
            _ => seq![],
        }),
        range == (match pending.range {
            Some((_, command)) => command_lines(command),
            None => seq![],
        }),
    ensures
        s.meter_commands(DeviceFamily::Spm, pending) == mode + range + seq!["CONFigure:ALL?\n"@],
{
    assert(s.meter_commands(DeviceFamily::Spm, pending) =~= mode + range + seq![
        "CONFigure:ALL?\n"@,
    ]);
}

/// A poll sends the power supply what is pending and nothing else. After the commands for the meter
/// come the output state, the voltage, the current and the two protection limits that were asked
/// for, in this order and each once, and then the query for the output state. What was not asked
/// for is not sent.
pub proof fn law_poll_sends_only_what_is_pending(s: Serial, pending: Pending, amounts: Amounts)
    requires
        !s.shutting_down,
        s.scpimode == ScpiMode::Meas,
        s.queue.len() == 0,
        s.ps_phase == PsPhase::Idle,
        s.has_power_supply,
        s.ps_poll_counter == 4,
    ensures
        ({
            let mode: Seq<Seq<char>> = match pending.mode {
                Some((_, command, retries)) if retries > 0 => seq![command],
                _ => seq![],
            };
            let range: Seq<Seq<char>> = match pending.range {
                Some((_, command)) => command_lines(command),
                None => seq![],
            };
            let output: Seq<Seq<char>> = match pending.output_on {
                Some(true) => seq!["OUTP ON\n"@],
                Some(false) => seq!["OUTP OFF\n"@],
                None => seq![],
            };
            let voltage: Seq<Seq<char>> = match amounts.voltage_set {
                Some(v) => seq!["VOLT "@ + v + "\n"@],
                None => seq![],
            };
            let current: Seq<Seq<char>> = match amounts.current_set {
                Some(v) => seq!["CURR "@ + v + "\n"@],
                None => seq![],
            };
            let ovp: Seq<Seq<char>> = match amounts.ovp {
                Some(v) => seq!["VOLT:LIM "@ + v + "\n"@],
                None => seq![],
            };
            let ocp: Seq<Seq<char>> = match amounts.ocp {
                Some(v) => seq!["CURR:LIM "@ + v + "\n"@],
                None => seq![],
            };
            s.resumed(DeviceFamily::Spm, pending, amounts).queue == mode + range + seq![
                "CONFigure:ALL?\n"@,
            ] + output + voltage + current + ovp + ocp + seq!["OUTP?\n"@]
        }),
{
    let mode: Seq<Seq<char>> = match pending.mode {
        Some((_, command, retries)) if retries > 0 => seq![command],
        _ => seq![],
    };
    let range: Seq<Seq<char>> = match pending.range {
        Some((_, command)) => command_lines(command),
        None => seq![],
    };
    lemma_meter_part(s, pending, mode, range);
    let polled = Serial {
        queue: mode + range + seq!["CONFigure:ALL?\n"@],
        meas_count: if s.meas_count >= 10 {
            0
        } else {
            s.meas_count
        },
        ..s
    };
    lemma_changes_added(polled, pending.output_on, amounts);
    let changed = polled.applying(DeviceFamily::Spm, pending.output_on, amounts).queue;
    assert(s.resumed(DeviceFamily::Spm, pending, amounts).queue == changed.push("OUTP?\n"@));
    assert(changed.push("OUTP?\n"@) =~= changed + seq!["OUTP?\n"@]);
}

/// With nothing pending, a poll changes nothing on the instrument: it sends two queries, that for
/// the measurement and that for the output state.
pub proof fn law_quiet_poll_changes_nothing(s: Serial, pending: Pending, amounts: Amounts)
    requires
        !s.shutting_down,
        s.scpimode == ScpiMode::Meas,
        s.queue.len() == 0,
        s.ps_phase == PsPhase::Idle,
        s.has_power_supply,
        s.ps_poll_counter == 4,
        pending.mode is None,
        pending.range is None,
        pending.output_on is None,
        amounts.voltage_set is None,
        amounts.current_set is None,
        amounts.ovp is None,
        amounts.ocp is None,
    ensures
        s.resumed(DeviceFamily::Spm, pending, amounts).queue == seq![
            "CONFigure:ALL?\n"@,
            "OUTP?\n"@,
        ],
{
    law_poll_sends_only_what_is_pending(s, pending, amounts);
}

/// A pass in which no poll is due sends the meter's commands and nothing else: the pending mode
/// change while retries are left, the pending range change line by line, and one query. A bench
/// multimeter is asked for its function after ten measurements, and for a measurement otherwise.
pub proof fn law_pass_serves_the_meter(
    s: Serial,
    family: DeviceFamily,
    pending: Pending,
    amounts: Amounts,
)
    requires
        !s.shutting_down,
        s.scpimode == ScpiMode::Meas,
        s.queue.len() == 0,
        s.ps_phase == PsPhase::Idle,
        !s.has_power_supply || s.ps_poll_counter < 4,
    ensures
        ({
            let mode: Seq<Seq<char>> = match pending.mode {
                Some((_, command, retries)) if retries > 0 => seq![command],
                _ => seq![],
            };
            let range: Seq<Seq<char>> = match pending.range {
                Some((_, command)) => command_lines(command),
                None => seq![],
            };
            let query = if family is Spm {
                "CONFigure:ALL?\n"@
            } else if s.meas_count >= 10 {
                "FUNC?\n"@
            } else {
                "MEAS?\n"@
            };
            let r = s.resumed(family, pending, amounts);
            &&& r.queue == mode + range + seq![query]
            &&& r.meas_count == (if s.meas_count >= 10 {
                0
            } else {
                s.meas_count
            })
            &&& r.ps_poll_counter == (if s.has_power_supply {
                s.ps_poll_counter + 1
            } else {
                s.ps_poll_counter as int
            })
            &&& r == (Serial {
                queue: r.queue,
                meas_count: r.meas_count,
                ps_poll_counter: r.ps_poll_counter,
                ..s
            })
        }),
{
    let mode: Seq<Seq<char>> = match pending.mode {
        Some((_, command, retries)) if retries > 0 => seq![command],
        _ => seq![],
    };
    let range: Seq<Seq<char>> = match pending.range {
        Some((_, command)) => command_lines(command),
        None => seq![],
    };
    let r = s.resumed(family, pending, amounts);
    assert(r.queue =~= mode + range + seq![r.queue.last()]);
}

/// A poll is due in every fifth pass, and every tenth poll is a full one: the count of polls starts
/// over with it. Apart from the queue and the counts, a poll only starts to wait for the output
/// state.
pub proof fn law_poll_counts(s: Serial, family: DeviceFamily, pending: Pending, amounts: Amounts)
    requires
        !s.shutting_down,
        s.scpimode == ScpiMode::Meas,
        s.queue.len() == 0,
        s.ps_phase == PsPhase::Idle,
        s.has_power_supply,
        s.ps_poll_counter == 4,
        s.ps_full_poll_counter < 10,
    ensures
        ({
            let r = s.resumed(family, pending, amounts);
            &&& r.ps_full_poll_counter == (s.ps_full_poll_counter + 1) % 10
            &&& r.meas_count == (if s.meas_count >= 10 {
                0
            } else {
                s.meas_count
            })
            &&& r == (Serial {
                queue: r.queue,
                meas_count: r.meas_count,
                ps_phase: PsPhase::WaitOutp,
                ps_timeout: 0,
                ps_poll_counter: 0,
                ps_full_poll_counter: r.ps_full_poll_counter,
                ..s
            })
        }),
{
}

/// Nothing new is sent before the instrument is known, while something waits to be sent, while the
/// power supply owes an answer, or in a shutdown; nor are retries used up meanwhile.
pub proof fn law_busy_conversation_waits(
    s: Serial,
    family: DeviceFamily,
    pending: Pending,
    amounts: Amounts,
)
    requires
        s.shutting_down || s.scpimode == ScpiMode::Idn || s.queue.len() > 0 || s.ps_phase
            != PsPhase::Idle,
    ensures
        s.resumed(family, pending, amounts) == s,
        s.pending_resumed(pending) == pending,
{
}

/// An idle pass uses up one retry of the pending mode change, if one is left, and touches nothing
/// else that is pending.
pub proof fn law_pass_uses_one_retry(s: Serial, pending: Pending)
    requires
        !s.shutting_down,
        s.scpimode == ScpiMode::Meas,
        s.queue.len() == 0,
        s.ps_phase == PsPhase::Idle,
    ensures
        ({
            let r = s.pending_resumed(pending);
            &&& r.mode is Some == pending.mode is Some
            &&& pending.mode matches Some((target, command, retries)) ==> {
                &&& (r.mode->0).0 == target
                &&& (r.mode->0).1 == command
                &&& (r.mode->0).2 == (if retries == 0 {
                    0
                } else {
                    retries - 1
                })
            }
            &&& r.output_on == pending.output_on
            &&& r.voltage_set == pending.voltage_set
            &&& r.current_set == pending.current_set
            &&& r.ovp == pending.ovp
            &&& r.ocp == pending.ocp
            &&& r.range == pending.range
        }),
{
}

/// Whether a text is one line: neither empty nor blank at either end, and without a line end.
pub open spec fn one_line(s: Seq<char>) -> bool {
    &&& s.len() > 0
    &&& !white_space(s[0])
    &&& !white_space(s.last())
    &&& forall|k: int| 0 <= k < s.len() ==> s[k] != '\n'
}

/// A line is what is left of it once trimmed.
proof fn lemma_line_is_trimmed(s: Seq<char>)
    requires
        one_line(s),
    ensures
        trimmed(s) == s,
{
    lemma_leading(s, CharClass::Space, 0);
    assert(trim_start(s, CharClass::Space) =~= s);
    lemma_trailing(s, CharClass::Space, 0);
    assert(trim_end(s, CharClass::Space) =~= s);
}

/// Splitting off the first line.
proof fn lemma_first_line(a: Seq<char>, rest: Seq<char>)
    requires
        forall|k: int| 0 <= k < a.len() ==> a[k] != '\n',
    ensures
        split(a + "\n"@ + rest, '\n') == seq![a] + split(rest, '\n'),
{
    reveal_strlit("\n");
    let s = a + "\n"@ + rest;
    assert forall|k: int| 0 <= k < a.len() implies CharClass::Except('\n').has(
        #[trigger] s[k],
    ) by {
        assert(s[k] == a[k]);
    }
    assert(s[a.len() as int] == '\n');
    lemma_leading(s, CharClass::Except('\n'), a.len());
    assert(s.take(a.len() as int) =~= a);
    assert(s.skip(a.len() as int + 1) =~= rest);
}

/// A command string is sent line by line: each line as a command of its own that ends its line, in
/// the order in which they stand, and none is lost or made up.
pub proof fn law_commands_are_sent_line_by_line(a: Seq<char>, b: Seq<char>)
    requires
        one_line(a),
        one_line(b),
    ensures
        command_lines(a + "\n"@) == seq![a + "\n"@],
        command_lines(a + "\n"@ + b + "\n"@) == seq![a + "\n"@, b + "\n"@],
{
    let none = Seq::<char>::empty();
    reveal_strlit("\n");
    assert(a + "\n"@ =~= a + "\n"@ + none);
    assert(a + "\n"@ + b + "\n"@ =~= a + "\n"@ + (b + "\n"@));
    assert(b + "\n"@ =~= b + "\n"@ + none);
    lemma_first_line(a, none);
    lemma_first_line(b, none);
    lemma_first_line(a, b + "\n"@);
    lemma_leading(none, CharClass::Except('\n'), 0);
    assert(split(none, '\n') =~= seq![none]);
    lemma_line_is_trimmed(a);
    lemma_line_is_trimmed(b);
    lemma_leading(none, CharClass::Space, 0);
    assert(trim_start(none, CharClass::Space) =~= none);
    lemma_trailing(none, CharClass::Space, 0);
    assert(trimmed(none) =~= none);
    assert(stripped(seq![]) =~= Seq::<Seq<char>>::empty());
    let one = seq![a] + seq![none];
    assert(one.drop_last() =~= seq![a]);
    assert(seq![a].drop_last() =~= seq![]);
    assert(stripped(seq![a]) =~= seq![a]);
    assert(stripped(one) =~= seq![a]);
    let two = seq![a] + (seq![b] + seq![none]);
    assert(two.drop_last() =~= seq![a, b]);
    assert(seq![a, b].drop_last() =~= seq![a]);
    assert(stripped(seq![a, b]) =~= seq![a, b]);
    assert(stripped(two) =~= seq![a, b]);
    assert(command_lines(a + "\n"@) =~= seq![a + "\n"@]);
    assert(command_lines(a + "\n"@ + b + "\n"@) =~= seq![a + "\n"@, b + "\n"@]);
}

/// Received text is taken line by line, in the order in which the lines stand. A line that says
/// `ERR` carries no reply and is dropped; no other is.
pub proof fn law_replies_are_taken_line_by_line(a: Seq<char>, b: Seq<char>)
    requires
        one_line(a),
        one_line(b),
    ensures
        reply_lines(a + "\n"@ + b + "\n"@) == (if a == "ERR"@ && b == "ERR"@ {
            seq![]
        } else if a == "ERR"@ {
            seq![b]
        } else if b == "ERR"@ {
            seq![a]
        } else {
            seq![a, b]
        }),
        reply_lines(a) == (if a == "ERR"@ {
            seq![]
        } else {
            seq![a]
        }),
{
    lemma_two_lines(a, b);
    let two = seq![a, b];
    assert(two.drop_last() =~= seq![a]);
    assert(seq![a].drop_last() =~= seq![]);
    assert(without_errors(seq![]) =~= Seq::<Seq<char>>::empty());
    assert(without_errors(seq![a]) =~= (if a == "ERR"@ {
        seq![]
    } else {
        seq![a]
    }));
    assert(without_errors(two) =~= (if a == "ERR"@ && b == "ERR"@ {
        seq![]
    } else if a == "ERR"@ {
        seq![b]
    } else if b == "ERR"@ {
        seq![a]
    } else {
        seq![a, b]
    }));
}

/// The inhabited lines of one line, and of two.
proof fn lemma_two_lines(a: Seq<char>, b: Seq<char>)
    requires
        one_line(a),
        one_line(b),
    ensures
        inhabited_lines(a) == seq![a],
        inhabited_lines(a + "\n"@ + b + "\n"@) == seq![a, b],
{
    let none = Seq::<char>::empty();
    reveal_strlit("\n");
    assert(a + "\n"@ + b + "\n"@ =~= a + "\n"@ + (b + "\n"@));
    assert(b + "\n"@ =~= b + "\n"@ + none);
    lemma_first_line(b, none);
    lemma_first_line(a, b + "\n"@);
    lemma_leading(none, CharClass::Except('\n'), 0);
    assert(split(none, '\n') =~= seq![none]);
    lemma_leading(a, CharClass::Except('\n'), a.len());
    assert(split(a, '\n') =~= seq![a]);
    lemma_line_is_trimmed(a);
    lemma_line_is_trimmed(b);
    lemma_leading(none, CharClass::Space, 0);
    assert(trim_start(none, CharClass::Space) =~= none);
    lemma_trailing(none, CharClass::Space, 0);
    assert(trimmed(none) =~= none);
    assert(stripped(seq![]) =~= Seq::<Seq<char>>::empty());
    let two = seq![a] + (seq![b] + seq![none]);
    assert(two.drop_last() =~= seq![a, b]);
    assert(seq![a, b].drop_last() =~= seq![a]);
    assert(seq![a].drop_last() =~= seq![]);
    assert(stripped(seq![a]) =~= seq![a]);
    assert(stripped(seq![a, b]) =~= seq![a, b]);
    assert(stripped(two) =~= seq![a, b]);
}

// ---------------------------------------------------------------------------------------------
// Lines from the instrument
// ---------------------------------------------------------------------------------------------

/// A reading is told as it stands. Whenever the reply names a range, that range is told together
/// with the mode that it belongs to: the mode that the reply names, or else the one seen before,
/// whether or not the two differ. The mode is told if it is another than before, and a measurement
/// with its precision, or with that of four decimals if the reply tells none. Nothing else is told.
pub proof fn law_reading_is_told(s: Serial, family: DeviceFamily, line: Seq<char>)
    requires
        s.scpimode == ScpiMode::Meas,
        s.ps_phase == PsPhase::Idle,
        !s.expecting_range_response || line.contains(','),
    ensures
        ({
            let parsed = family.parse_measurement(line);
            let told = s.line_outcome(line, family);
            let mode = match parsed.mode {
                Some(mode) => mode,
                None => s.last_mode,
            };
            &&& told.range is None == (parsed.range_index == Matching::Settled(None))
            &&& told.range matches Some(range) ==> range == (mode, parsed.range_index)
            &&& told.mode is None == (mode == s.last_mode)
            &&& told.mode matches Some(m) ==> m == mode
            &&& told.measurement is Some == parsed.measurement is Some
            &&& told.measurement matches Some((reading, precision)) ==> {
                &&& Some(reading) == parsed.measurement
                &&& parsed.precision is Some ==> Some(precision) == parsed.precision
                &&& parsed.precision is None ==> precision == (Precision {
                    decimals: 4,
                    prefix: SiPrefix::One,
                })
            }
            &&& told.device is None
            &&& told.power_supply is None
        }),
{
}

/// Which range a reply names does not hang on the mode that was seen before: two conversations that
/// differ in that alone tell the same range, if the reply names its mode.
pub proof fn law_range_is_told_in_every_mode(
    s: Serial,
    before: MeterMode,
    family: DeviceFamily,
    line: Seq<char>,
)
    requires
        s.scpimode == ScpiMode::Meas,
        s.ps_phase == PsPhase::Idle,
        !s.expecting_range_response || line.contains(','),
        family.parse_measurement(line).mode is Some,
    ensures
        (Serial { last_mode: before, ..s }).line_outcome(line, family).range == s.line_outcome(
            line,
            family,
        ).range,
        (Serial { last_mode: before, ..s }).after_line(line, family).last_mode == s.after_line(
            line,
            family,
        ).last_mode,
{
}

/// A reading in the mode that was seen before queues nothing and only counts as one more
/// measurement, if it is one.
pub proof fn law_reading_in_the_same_mode(s: Serial, family: DeviceFamily, line: Seq<char>)
    requires
        s.scpimode == ScpiMode::Meas,
        s.ps_phase == PsPhase::Idle,
        s.meas_count < u32::MAX,
        !s.expecting_range_response || line.contains(','),
        family.parse_measurement(line).mode is None || family.parse_measurement(line).mode == Some(
            s.last_mode,
        ),
    ensures
        s.after_line(line, family) == (Serial {
            meas_count: if family.parse_measurement(line).measurement is Some {
                (s.meas_count + 1) as u32
            } else {
                s.meas_count
            },
            ..s
        }),
{
}

/// A reading in another mode is taken note of. A bench multimeter in a diode or continuity test is
/// told the beeper's state and the threshold of that test, no instrument is told anything in
/// another mode, and each is then asked for its function.
pub proof fn law_reading_in_another_mode(
    s: Serial,
    family: DeviceFamily,
    line: Seq<char>,
    mode: MeterMode,
)
    requires
        s.scpimode == ScpiMode::Meas,
        s.ps_phase == PsPhase::Idle,
        s.meas_count < u32::MAX,
        !s.expecting_range_response || line.contains(','),
        family.parse_measurement(line).mode == Some(mode),
        mode != s.last_mode,
    ensures
        ({
            let r = s.after_line(line, family);
            let beeper = if s.config.beeper_enabled {
                "SYST:BEEP:STATe ON\n"@
            } else {
                "SYST:BEEP:STATe OFF\n"@
            };
            let ohms = "CONT:THREshold "@ + decimal(s.config.cont_threshold as nat) + "\n"@;
            let volts = "DIOD:THREshold "@ + s.config.diod_threshold + "\n"@;
            let asked: Seq<Seq<char>> = if family is Spm {
                seq!["CONFigure:ALL?\n"@]
            } else if mode == MeterMode::Cont {
                seq![beeper, ohms, "FUNC?\n"@]
            } else if mode == MeterMode::Diod {
                seq![beeper, volts, "FUNC?\n"@]
            } else {
                seq!["FUNC?\n"@]
            };
            &&& r.queue == s.queue + asked
            &&& r.last_mode == mode
            &&& r.meas_count == s.meas_count + (if family.parse_measurement(
                line,
            ).measurement is Some {
                1int
            } else {
                0
            })
            &&& r == (Serial {
                queue: r.queue,
                last_mode: mode,
                meas_count: r.meas_count,
                ..s
            })
        }),
{
    let r = s.after_line(line, family);
    let n = s.queue.len() as int;
    match family {
        DeviceFamily::Default { .. } => {
            if mode == MeterMode::Cont || mode == MeterMode::Diod {
                assert(r.queue =~= s.queue + seq![r.queue[n], r.queue[n + 1], r.queue[n + 2]]);
            } else {
                assert(r.queue =~= s.queue + seq![r.queue[n]]);
            }
        },
        DeviceFamily::Spm => {
            assert(r.queue =~= s.queue + seq![r.queue[n]]);
        },
    }
}

/// A reading settles the pending mode change if it names the target mode. One that names another
/// mode, or none, leaves everything pending.
pub proof fn law_reading_settles_its_mode(
    s: Serial,
    family: DeviceFamily,
    line: Seq<char>,
    pending: Pending,
)
    requires
        s.scpimode == ScpiMode::Meas,
        s.ps_phase == PsPhase::Idle,
        !s.expecting_range_response || line.contains(','),
    ensures
        ({
            let r = s.pending_after(line, family, pending);
            let seen = family.parse_measurement(line).mode;
            &&& pending.mode matches Some((target, _, _)) ==> r.mode == (if seen == Some(target) {
                None
            } else {
                pending.mode
            })
            &&& pending.mode is None ==> r.mode is None
            &&& r == (Pending { mode: r.mode, ..pending })
        }),
{
}

/// The answer to a range query, once the power supply owes none, tells the range in the mode that
/// was seen last, if it names one. It ends the wait for it and does nothing else.
pub proof fn law_range_answer_is_told(
    s: Serial,
    family: DeviceFamily,
    line: Seq<char>,
    pending: Pending,
)
    requires
        s.scpimode == ScpiMode::Meas,
        s.ps_phase == PsPhase::Idle,
        s.expecting_range_response,
        !line.contains(','),
    ensures
        ({
            let matched = family.parse_range_response(line, s.last_mode);
            let told = s.line_outcome(line, family);
            &&& told.range is None == (matched == Matching::Settled(None))
            &&& told.range matches Some(range) ==> range == (s.last_mode, matched)
            &&& told.device is None
            &&& told.power_supply is None
            &&& told.mode is None
            &&& told.measurement is None
            &&& s.after_line(line, family) == (Serial { expecting_range_response: false, ..s })
            &&& s.pending_after(line, family, pending) == pending
        }),
{
}

/// A line that cannot answer what the power supply was asked is read as if nothing had been asked.
/// While a state or a setting is awaited this holds of every line with a comma or a colon, of every
/// line that is no switch position, or no number; while the measured output is awaited, of every
/// line that does not begin with two numbers.
pub proof fn law_other_lines_are_no_answers(
    s: Serial,
    family: DeviceFamily,
    line: Seq<char>,
    pending: Pending,
)
    requires
        s.scpimode == ScpiMode::Meas,
        match s.ps_phase {
            PsPhase::Idle => true,
            PsPhase::WaitOutp => line.contains(',') || line.contains(':') || output_state(
                line,
            ) is None,
            PsPhase::WaitVolt
            | PsPhase::WaitCurr
            | PsPhase::WaitVoltLim
            | PsPhase::WaitCurrLim => line.contains(',') || line.contains(':') || ps_value(
                line,
            ) is None,
            PsPhase::WaitMeasAll | PsPhase::WaitMeasAllFast => ps_meas_all(line) is None,
        },
    ensures
        ({
            let free = Serial { ps_phase: PsPhase::Idle, ..s };
            &&& s.line_outcome(line, family) == free.line_outcome(line, family)
            &&& s.after_line(line, family) == (Serial {
                ps_phase: s.ps_phase,
                ..free.after_line(line, family)
            })
            &&& s.pending_after(line, family, pending) == free.pending_after(line, family, pending)
        }),
{
}

/// An answer of the power supply, and the line by which the instrument identifies itself, settle
/// nothing that is pending.
pub proof fn law_answers_settle_nothing(
    s: Serial,
    family: DeviceFamily,
    line: Seq<char>,
    pending: Pending,
)
    requires
        s.scpimode == ScpiMode::Idn || (match s.ps_phase {
            PsPhase::Idle => false,
            PsPhase::WaitOutp => !line.contains(',') && !line.contains(':') && output_state(
                line,
            ) is Some,
            PsPhase::WaitVolt
            | PsPhase::WaitCurr
            | PsPhase::WaitVoltLim
            | PsPhase::WaitCurrLim => !line.contains(',') && !line.contains(':') && ps_value(
                line,
            ) is Some,
            PsPhase::WaitMeasAll | PsPhase::WaitMeasAllFast => ps_meas_all(line) is Some,
        }),
    ensures
        s.pending_after(line, family, pending) == pending,
        s.line_outcome(line, family).mode is None,
        s.line_outcome(line, family).measurement is None,
        s.line_outcome(line, family).range is None,
        s.scpimode == ScpiMode::Meas ==> s.family_after(line, family) == family,
        s.scpimode == ScpiMode::Meas ==> s.line_outcome(line, family).device is None,
{
}

// ---------------------------------------------------------------------------------------------
// Sending
// ---------------------------------------------------------------------------------------------

/// Sending takes the first command off the queue. Only after the identification query of an
/// instrument to be locked does a command follow of itself, and it goes last.
pub proof fn law_sending_takes_the_first(s: Serial)
    requires
        s.queue.len() > 0,
    ensures
        ({
            let r = s.sent();
            &&& r.queue == (if s.queue[0] == "*IDN?\n"@ && !s.shutting_down
                && s.config.lock_remote {
                s.queue.skip(1).push("SYST:REM\n"@)
            } else {
                s.queue.skip(1)
            })
            &&& r == (Serial {
                queue: r.queue,
                expecting_range_response: r.expecting_range_response,
                drop_serial: r.drop_serial,
                ..s
            })
        }),
{
}

/// What is sent next is what has waited longest, and once it is sent, or dropped because it could not
/// be, what waited behind it comes next. A dropped command leaves no other trace.
pub proof fn law_first_come_first_sent(s: Serial, command: Seq<char>, rest: Seq<Seq<char>>)
    requires
        s.queue == seq![command] + rest,
    ensures
        s.next() == Some(command),
        s.dropped() == (Serial { queue: rest, ..s }),
        s.sent().queue.len() >= rest.len(),
        s.sent().queue.take(rest.len() as int) == rest,
        (Serial { queue: seq![], ..s }).next() is None,
{
    assert(s.queue[0] == command);
    assert(s.queue.skip(1) =~= rest);
    assert(s.sent().queue.take(rest.len() as int) =~= rest);
}

/// After a query nothing is sent before its answer, and after any other command the next one may
/// follow: no two answers can be confused.
pub proof fn law_one_query_at_a_time(
    s: Serial,
    family: DeviceFamily,
    mode: MeterMode,
    on: bool,
    setting: PsSetting,
)
    requires
        s.queue.len() > 0,
    ensures
        s.queue[0] == "*IDN?\n"@ ==> !s.goes_on(),
        s.queue[0] == family.measurement_command() ==> !s.goes_on(),
        s.queue[0] == family.function_query_command() ==> !s.goes_on(),
        family.ps_query_output() == Some(s.queue[0]) ==> !s.goes_on(),
        family.ps_query(setting) == Some(s.queue[0]) ==> !s.goes_on(),
        family.ps_query_meas_all() == Some(s.queue[0]) ==> !s.goes_on(),
        s.queue[0] == family.mode_command(mode) ==> s.goes_on(),
        s.queue[0] == "SYST:REM\n"@ ==> s.goes_on(),
        s.queue[0] == "SYST:LOC\n"@ ==> s.goes_on(),
        s.queue[0] == "*RST\n"@ ==> s.goes_on(),
        family.hold_command(on) == Some(s.queue[0]) ==> s.goes_on(),
        family.beeper_command(on) == Some(s.queue[0]) ==> s.goes_on(),
        family.ps_output_command(on) == Some(s.queue[0]) ==> s.goes_on(),
{
    law_queries_are_recognised(family, mode, on);
}

/// The port is let go when a shutdown was asked for and the reset has been sent, and never while
/// the conversation goes on.
pub proof fn law_port_is_kept_until_the_reset(s: Serial)
    requires
        s.wf(),
    ensures
        !s.shutting_down ==> !s.over(),
        !s.drop_serial ==> !s.over(),
        s.shutting_down && s.queue.len() > 0 && s.queue[0] == "*RST\n"@ ==> s.sent().over(),
        s.over() && s.queue.len() > 0 ==> s.sent().over(),
{
    lemma_reset_trimmed();
}

/// After a range query the conversation waits for the range, and it goes on waiting whatever else
/// is sent.
pub proof fn law_range_is_awaited_after_its_query(s: Serial, model: DeviceModel, mode: MeterMode)
    requires
        s.queue.len() > 0,
    ensures
        model.range_query(mode) == Some(s.queue[0]) ==> s.sent().expecting_range_response,
        s.expecting_range_response ==> s.sent().expecting_range_response,
{
    law_range_queries_are_awaited(model, mode);
}

/// The port is let go once the reset is sent in a shutdown, and a reset at any other time keeps it.
pub proof fn law_reset_ends_a_shutdown(s: Serial)
    requires
        s.queue.len() > 0,
        s.queue[0] == "*RST\n"@,
    ensures
        s.shutting_down ==> s.sent().drop_serial,
        !s.shutting_down ==> s.sent().drop_serial == s.drop_serial,
{
    lemma_reset_trimmed();
}

/// A command of the user takes its turn behind what is waiting, unless it is a hold command. All
/// commands that switch the mode take their turn.
pub proof fn law_requests_take_their_turn(
    s: Serial,
    family: DeviceFamily,
    mode: MeterMode,
    command: Seq<char>,
)
    ensures
        !occurs(command, "MULT:HOLD"@) ==> s.requested(command) == (Serial {
            queue: s.queue.push(command),
            ..s
        }),
        s.requested(family.mode_command(mode)) == (Serial {
            queue: s.queue.push(family.mode_command(mode)),
            ..s
        }),
{
    reveal_strlit("MULT:HOLD");
    reveal_strlit("CONF:VOLT:DC AUTO\n");
    reveal_strlit("CONF:VOLT:AC AUTO\n");
    reveal_strlit("CONF:CURR:DC\n");
    reveal_strlit("CONF:CURR:AC\n");
    reveal_strlit("CONF:RES AUTO\n");
    reveal_strlit("CONF:CAP AUTO\n");
    reveal_strlit("CONF:FREQ\n");
    reveal_strlit("CONF:PER\n");
    reveal_strlit("CONF:DIOD\n");
    reveal_strlit("CONF:CONT\n");
    reveal_strlit("CONF:TEMP:RTD PT100\n");
    reveal_strlit("FUNC:VOLT:DC\n");
    reveal_strlit("FUNC:VOLT:AC\n");
    reveal_strlit("FUNC:CURR:DC\n");
    reveal_strlit("FUNC:CURR:AC\n");
    reveal_strlit("FUNC:RES\n");
    reveal_strlit("FUNC:CAP\n");
    reveal_strlit("FUNC:FREQ\n");
    reveal_strlit("FUNC:PER\n");
    reveal_strlit("FUNC:DIOD\n");
    reveal_strlit("FUNC:CONT\n");
    reveal_strlit("FUNC:TEMP\n");
    lemma_missing(family.mode_command(mode), "MULT:HOLD"@, 5);
}

/// A conversation starts by asking the instrument who it is, and by nothing else: until the answer
/// comes, nothing is measured, polled or awaited.
pub proof fn law_conversation_starts_with_a_question(config: Config, mode: MeterMode)
    ensures
        ({
            let s = Serial::start(config, mode);
            &&& s.wf()
            &&& s.queue == seq!["*IDN?\n"@]
            &&& s.scpimode == ScpiMode::Idn
            &&& s.last_mode == mode
            &&& s.config == config
            &&& s.ps_phase == PsPhase::Idle
            &&& !s.has_power_supply
            &&& !s.shutting_down
            &&& !s.expecting_range_response
            &&& s.meas_count == 0
            &&& s.ps_poll_counter == 0
            &&& s.ps_full_poll_counter == 0
        }),
{
}

} // verus!
