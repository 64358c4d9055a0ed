//! What holds of the serial conversation as a whole.

use crate::device_plugin::DeviceModel;
use crate::multimeter::MeterMode;
use crate::number::{
    decimal, digits, exponent_at, is_number, mantissa, pointed_at, special, unsigned,
};
use crate::plugins::family::DeviceFamily;
use crate::plugins::registry::{has_prefix, law_spm_serves_spm_models, model_name, recognised};
use crate::plugins::{output_state, ps_meas_all, ps_value, Pending, PsSetting, PsState};
use crate::serial::{
    enqueued, is_query, is_range_query, retried, silent, Amounts, Outcome, PsPhase, ScpiMode,
    Serial,
};
use crate::text::{
    ascii_letter, ascii_lower, ascii_lower_char, digit, eq_ignoring_case, leading, lemma_leading,
    lemma_leading_holds, lemma_trailing, lemma_trailing_holds, occurs, occurs_at, trailing,
    trim_end, trim_start, trimmed, white_space, CharClass,
};
use vstd::prelude::*;

verus! {

// ---------------------------------------------------------------------------------------------
// Text of replies
// ---------------------------------------------------------------------------------------------

/// What is not white space and not in the trimmed text is not in the text.
proof fn lemma_outside_trimmed(s: Seq<char>, c: char)
    requires
        !white_space(c),
        !trimmed(s).contains(c),
    ensures
        !s.contains(c),
{
    let t = trim_start(s, CharClass::Space);
    let n = leading(s, CharClass::Space) as int;
    let m = trailing(t, CharClass::Space) as int;
    lemma_leading_holds(s, CharClass::Space);
    lemma_trailing_holds(t, CharClass::Space);
    if s.contains(c) {
        let i = choose|i: int| 0 <= i < s.len() && s[i] == c;
        if i < n {
            assert(CharClass::Space.has(s[i]));
        } else if i - n >= t.len() - m {
            assert(t[i - n] == s[i]);
            assert(CharClass::Space.has(t[i - n]));
        } else {
            assert(trimmed(s)[i - n] == c);
        }
    }
}

/// Equality up to case with a text of letters leaves room for letters only.
proof fn lemma_letters_only(s: Seq<char>, word: Seq<char>, c: char)
    requires
        eq_ignoring_case(s, word),
        forall|i: int| 0 <= i < word.len() ==> 'a' <= #[trigger] word[i] <= 'z',
        !ascii_letter(c),
    ensures
        !s.contains(c),
{
    assert(ascii_lower(s).len() == s.len() && ascii_lower(word).len() == word.len());
    if s.contains(c) {
        let i = choose|i: int| 0 <= i < s.len() && s[i] == c;
        assert(ascii_lower(s)[i] == ascii_lower_char(c));
        assert(ascii_lower(word)[i] == ascii_lower_char(word[i]));
        assert('a' <= word[i] <= 'z');
    }
}

/// A mantissa holds nothing but digits and a point.
proof fn lemma_mantissa_chars(s: Seq<char>, c: char)
    requires
        mantissa(s),
        !digit(c),
        c != '.',
    ensures
        !s.contains(c),
{
    if s.contains(c) {
        let i = choose|i: int| 0 <= i < s.len() && s[i] == c;
        if digits(s) {
            assert(digit(s[i]));
        } else {
            let d = choose|d: int| pointed_at(s, d);
            if i < d {
                assert(digit(s.take(d)[i]));
            } else if i > d {
                assert(digit(s.skip(d + 1)[i - d - 1]));
            }
        }
    }
}

/// A number holds nothing but digits, letters, points and signs.
pub proof fn lemma_number_chars(s: Seq<char>, c: char)
    requires
        is_number(s),
        !digit(c),
        !ascii_letter(c),
        c != '.',
        c != '+',
        c != '-',
    ensures
        !s.contains(c),
{
    let u = unsigned(s);
    assert(!u.contains(c)) by {
        if special(u) {
            reveal_strlit("inf");
            reveal_strlit("infinity");
            reveal_strlit("nan");
            if eq_ignoring_case(u, "inf"@) {
                lemma_letters_only(u, "inf"@, c);
            } else if eq_ignoring_case(u, "infinity"@) {
                lemma_letters_only(u, "infinity"@, c);
            } else {
                lemma_letters_only(u, "nan"@, c);
            }
        } else if mantissa(u) {
            lemma_mantissa_chars(u, c);
        } else {
            let e = choose|e: int| exponent_at(u, e);
            lemma_mantissa_chars(u.take(e), c);
            if u.contains(c) {
                let i = choose|i: int| 0 <= i < u.len() && u[i] == c;
                if i < e {
                    assert(u.take(e)[i] == c);
                } else if i > e {
                    let x = u.skip(e + 1);
                    assert(x[i - e - 1] == c);
                    if unsigned(x) == x {
                        assert(digit(x[i - e - 1]));
                    } else if i - e - 1 > 0 {
                        assert(unsigned(x)[i - e - 2] == c);
                        assert(digit(unsigned(x)[i - e - 2]));
                    }
                }
            }
        }
    }
    if s.contains(c) {
        let i = choose|i: int| 0 <= i < s.len() && s[i] == c;
        if s.len() > 0 && CharClass::Sign.has(s[0]) {
            assert(i > 0);
            assert(u[i - 1] == c);
        }
    }
}

/// An answer that tells the output state or a setting holds neither comma nor colon, so that it is
/// never mistaken for a measurement.
pub proof fn law_short_answers_are_plain(line: Seq<char>)
    requires
        output_state(line) is Some || ps_value(line) is Some,
    ensures
        !line.contains(','),
        !line.contains(':'),
{
    let t = trimmed(line);
    assert forall|c: char| c == ',' || c == ':' implies !t.contains(c) by {
        if ps_value(line) is Some {
            lemma_number_chars(t, c);
        } else {
            reveal_strlit("1");
            reveal_strlit("0");
            reveal_strlit("ON");
            reveal_strlit("OFF");
            if t.contains(c) {
                let i = choose|i: int| 0 <= i < t.len() && t[i] == c;
                assert(ascii_lower(t).len() == t.len());
                assert(ascii_lower(t)[i] == c);
                if eq_ignoring_case(t, "ON"@) {
                    assert(ascii_lower("ON"@)[i] == ascii_lower_char("ON"@[i]));
                } else if eq_ignoring_case(t, "OFF"@) {
                    assert(ascii_lower("OFF"@)[i] == ascii_lower_char("OFF"@[i]));
                }
            }
        }
    }
    lemma_outside_trimmed(line, ',');
    lemma_outside_trimmed(line, ':');
}

// ---------------------------------------------------------------------------------------------
// Identification
// ---------------------------------------------------------------------------------------------

/// The first reply decides what the instrument is. A model whose name begins with `SPM` is a power
/// supply, which is polled at once; any other instrument is a meter, which is told rate, beeper and
/// thresholds and is never polled as a power supply.
pub proof fn law_identification(s: Serial, family: DeviceFamily, idn: Seq<char>)
    requires
        s.wf(),
        s.scpimode == ScpiMode::Idn,
    ensures
        ({
            let r = s.after_line(idn, family);
            let spm = has_prefix(model_name(idn), "SPM"@);
            let known = s.family_after(idn, family);
            &&& s.line_outcome(idn, family) == (Outcome { device: Some(idn), ..silent() })
            &&& known is Spm == spm
            &&& known is Default == !spm
            &&& r == (Serial {
                scpimode: ScpiMode::Meas,
                has_power_supply: spm,
                ps_phase: if spm {
                    PsPhase::WaitOutp
                } else {
                    PsPhase::Idle
                },
                ps_timeout: if spm {
                    0
                } else {
                    s.ps_timeout
                },
                queue: if spm {
                    s.queue.push("OUTP?\n"@)
                } else {
                    enqueued(s.queue, known.rate_command(s.config.curr_rate as int)) + seq![
                        known.beeper_command(s.config.beeper_enabled)->0,
                        "CONT:THREshold "@ + decimal(s.config.cont_threshold as nat) + "\n"@,
                        "DIOD:THREshold "@ + s.config.diod_threshold + "\n"@,
                    ]
                },
                ..s
            })
        }),
{
    law_spm_serves_spm_models(idn);
    let known = recognised(idn).configured(idn);
    let r = s.identified(idn);
    if known is Default {
        assert(r.queue =~= enqueued(s.queue, known.rate_command(s.config.curr_rate as int)) + seq![
            known.beeper_command(s.config.beeper_enabled)->0,
            "CONT:THREshold "@ + decimal(s.config.cont_threshold as nat) + "\n"@,
            "DIOD:THREshold "@ + s.config.diod_threshold + "\n"@,
        ]);
    }
}

/// An instrument without a power supply is never asked about one: an idle pass sends the meter's
/// commands and nothing else.
pub proof fn law_meters_are_not_polled(
    s: Serial,
    family: DeviceFamily,
    pending: Pending,
    amounts: Amounts,
)
    requires
        s.wf(),
        !s.has_power_supply,
    ensures
        s.ps_phase == PsPhase::Idle,
        s.resumed(family, pending, amounts).ps_phase == PsPhase::Idle,
        s.resting() ==> s.resumed(family, pending, amounts).queue == s.meter_commands(
            family,
            pending,
        ),
{
}

// ---------------------------------------------------------------------------------------------
// Polling the power supply
// ---------------------------------------------------------------------------------------------

/// The state of the power supply after a full poll with the given answers.
pub open spec fn polled_state(
    output: Seq<char>,
    voltage: Seq<char>,
    current: Seq<char>,
    ovp: Seq<char>,
    ocp: Seq<char>,
    measured: Seq<char>,
) -> PsState {
    PsState {
        output_on: output_state(output)->0,
        voltage_set: ps_value(voltage)->0,
        current_set: ps_value(current)->0,
        ovp: ps_value(ovp)->0,
        ocp: ps_value(ocp)->0,
        voltage_readback: (ps_meas_all(measured)->0).voltage,
        current_readback: (ps_meas_all(measured)->0).current,
        power_readback: (ps_meas_all(measured)->0).power,
        includes_settings: true,
    }
}

/// What an answer about one setting leads to in a full poll.
proof fn lemma_setting_answer(s: Serial, family: DeviceFamily, line: Seq<char>)
    requires
        family.capabilities().has_power_supply,
        s.scpimode == ScpiMode::Meas,
        s.ps_phase == PsPhase::WaitVolt || s.ps_phase == PsPhase::WaitCurr || s.ps_phase
            == PsPhase::WaitVoltLim || s.ps_phase == PsPhase::WaitCurrLim,
        ps_value(line) is Some,
    ensures
        s.after_line(line, family) == (match s.ps_phase {
            PsPhase::WaitVolt => Serial {
                queue: s.queue.push("CURR?\n"@),
                ps_state: PsState { voltage_set: ps_value(line)->0, ..s.ps_state },
                ps_phase: PsPhase::WaitCurr,
                ps_timeout: 0,
                ..s
            },
            PsPhase::WaitCurr => Serial {
                queue: s.queue.push("VOLT:LIM?\n"@),
                ps_state: PsState { current_set: ps_value(line)->0, ..s.ps_state },
                ps_phase: PsPhase::WaitVoltLim,
                ps_timeout: 0,
                ..s
            },
            PsPhase::WaitVoltLim => Serial {
                queue: s.queue.push("CURR:LIM?\n"@),
                ps_state: PsState { ovp: ps_value(line)->0, ..s.ps_state },
                ps_phase: PsPhase::WaitCurrLim,
                ps_timeout: 0,
                ..s
            },
            _ => Serial {
                queue: s.queue.push("MEAS:ALL?\n"@),
                ps_state: PsState { ocp: ps_value(line)->0, ..s.ps_state },
                ps_phase: PsPhase::WaitMeasAll,
                ps_timeout: 0,
                ..s
            },
        }),
        s.line_outcome(line, family).power_supply is None,
{
    law_short_answers_are_plain(line);
}

/// What the answer about the output leads to in a full poll.
proof fn lemma_output_answer(s: Serial, family: DeviceFamily, line: Seq<char>)
    requires
        family.capabilities().has_power_supply,
        s.scpimode == ScpiMode::Meas,
        s.ps_phase == PsPhase::WaitOutp,
        s.ps_full_poll_counter == 0,
        output_state(line) is Some,
    ensures
        s.after_line(line, family) == (Serial {
            queue: s.queue.push("VOLT?\n"@),
            ps_state: PsState { output_on: output_state(line)->0, ..s.ps_state },
            ps_phase: PsPhase::WaitVolt,
            ps_timeout: 0,
            ..s
        }),
        s.line_outcome(line, family).power_supply is None,
{
    law_short_answers_are_plain(line);
}

/// What the answer about the measured output leads to in a full poll.
proof fn lemma_measured_answer(s: Serial, family: DeviceFamily, line: Seq<char>)
    requires
        s.scpimode == ScpiMode::Meas,
        s.ps_phase == PsPhase::WaitMeasAll,
        ps_meas_all(line) is Some,
    ensures
        s.after_line(line, family) == s.measured(ps_meas_all(line)->0, true),
        s.line_outcome(line, family).power_supply == Some(s.after_line(line, family).ps_state),
{
}

/// The first half of a full poll: output state, voltage and current.
#[verifier::rlimit(40)]
proof fn lemma_first_answers(
    s: Serial,
    family: DeviceFamily,
    output: Seq<char>,
    voltage: Seq<char>,
    current: Seq<char>,
)
    requires
        family.capabilities().has_power_supply,
        s.scpimode == ScpiMode::Meas,
        s.ps_phase == PsPhase::WaitOutp,
        s.ps_full_poll_counter == 0,
        output_state(output) is Some,
        ps_value(voltage) is Some,
        ps_value(current) is Some,
    ensures
        ({
            let s1 = s.after_line(output, family);
            let s2 = s1.after_line(voltage, family);
            let s3 = s2.after_line(current, family);
            &&& s3 == (Serial {
                queue: s.queue.push("VOLT?\n"@).push("CURR?\n"@).push("VOLT:LIM?\n"@),
                ps_state: PsState {
                    output_on: output_state(output)->0,
                    voltage_set: ps_value(voltage)->0,
                    current_set: ps_value(current)->0,
                    ..s.ps_state
                },
                ps_phase: PsPhase::WaitVoltLim,
                ps_timeout: 0,
                ..s
            })
            &&& s.line_outcome(output, family).power_supply is None
            &&& s1.line_outcome(voltage, family).power_supply is None
            &&& s2.line_outcome(current, family).power_supply is None
        }),
{
    let s1 = s.after_line(output, family);
    let s2 = s1.after_line(voltage, family);
    lemma_output_answer(s, family, output);
    lemma_setting_answer(s1, family, voltage);
    lemma_setting_answer(s2, family, current);
}

/// The second half of a full poll: the protection limits and the measured output.
#[verifier::rlimit(40)]
proof fn lemma_last_answers(
    s: Serial,
    family: DeviceFamily,
    ovp: Seq<char>,
    ocp: Seq<char>,
    measured: Seq<char>,
)
    requires
        family.capabilities().has_power_supply,
        s.scpimode == ScpiMode::Meas,
        s.ps_phase == PsPhase::WaitVoltLim,
        ps_value(ovp) is Some,
        ps_value(ocp) is Some,
        ps_meas_all(measured) is Some,
    ensures
        ({
            let s4 = s.after_line(ovp, family);
            let s5 = s4.after_line(ocp, family);
            let s6 = s5.after_line(measured, family);
            let state = PsState {
                ovp: ps_value(ovp)->0,
                ocp: ps_value(ocp)->0,
                voltage_readback: (ps_meas_all(measured)->0).voltage,
                current_readback: (ps_meas_all(measured)->0).current,
                power_readback: (ps_meas_all(measured)->0).power,
                includes_settings: true,
                ..s.ps_state
            };
            &&& s6 == (Serial {
                queue: s.queue.push("CURR:LIM?\n"@).push("MEAS:ALL?\n"@),
                ps_state: state,
                ps_phase: PsPhase::Idle,
                ps_timeout: 0,
                ..s
            })
            &&& s.line_outcome(ovp, family).power_supply is None
            &&& s4.line_outcome(ocp, family).power_supply is None
            &&& s5.line_outcome(measured, family).power_supply == Some(state)
        }),
{
    let s4 = s.after_line(ovp, family);
    let s5 = s4.after_line(ocp, family);
    lemma_setting_answer(s, family, ovp);
    lemma_setting_answer(s4, family, ocp);
    lemma_measured_answer(s5, family, measured);
}

/// Six proper answers complete a full poll: every part of the state is what the instrument
/// answered, each answer but the last triggers the next query and nothing else, and the last one
/// makes the state known.
#[verifier::rlimit(80)]
pub proof fn law_full_poll(
    s: Serial,
    family: DeviceFamily,
    output: Seq<char>,
    voltage: Seq<char>,
    current: Seq<char>,
    ovp: Seq<char>,
    ocp: Seq<char>,
    measured: Seq<char>,
)
    requires
        family.capabilities().has_power_supply,
        s.scpimode == ScpiMode::Meas,
        s.ps_phase == PsPhase::WaitOutp,
        s.ps_full_poll_counter == 0,
        output_state(output) is Some,
        ps_value(voltage) is Some,
        ps_value(current) is Some,
        ps_value(ovp) is Some,
        ps_value(ocp) is Some,
        ps_meas_all(measured) is Some,
    ensures
        ({
            let s1 = s.after_line(output, family);
            let s2 = s1.after_line(voltage, family);
            let s3 = s2.after_line(current, family);
            let s4 = s3.after_line(ovp, family);
            let s5 = s4.after_line(ocp, family);
            let s6 = s5.after_line(measured, family);
            let state = PsState {
                output_on: output_state(output)->0,
                voltage_set: ps_value(voltage)->0,
                current_set: ps_value(current)->0,
                ovp: ps_value(ovp)->0,
                ocp: ps_value(ocp)->0,
                voltage_readback: (ps_meas_all(measured)->0).voltage,
                current_readback: (ps_meas_all(measured)->0).current,
                power_readback: (ps_meas_all(measured)->0).power,
                includes_settings: true,
            };
            &&& s6 == (Serial {
                queue: s.queue + seq![
                    "VOLT?\n"@,
                    "CURR?\n"@,
                    "VOLT:LIM?\n"@,
                    "CURR:LIM?\n"@,
                    "MEAS:ALL?\n"@,
                ],
                ps_state: state,
                ps_phase: PsPhase::Idle,
                ps_timeout: 0,
                ..s
            })
            &&& state == polled_state(output, voltage, current, ovp, ocp, measured)
            &&& s5.line_outcome(measured, family).power_supply == Some(state)
            &&& s.line_outcome(output, family).power_supply is None
            &&& s1.line_outcome(voltage, family).power_supply is None
            &&& s2.line_outcome(current, family).power_supply is None
            &&& s3.line_outcome(ovp, family).power_supply is None
            &&& s4.line_outcome(ocp, family).power_supply is None
        }),
{
    let s3 = s.after_line(output, family).after_line(voltage, family).after_line(current, family);
    lemma_first_answers(s, family, output, voltage, current);
    lemma_last_answers(s3, family, ovp, ocp, measured);
    assert(s.queue.push("VOLT?\n"@).push("CURR?\n"@).push("VOLT:LIM?\n"@).push("CURR:LIM?\n"@).push(
        "MEAS:ALL?\n"@,
    ) =~= s.queue + seq![
        "VOLT?\n"@,
        "CURR?\n"@,
        "VOLT:LIM?\n"@,
        "CURR:LIM?\n"@,
        "MEAS:ALL?\n"@,
    ]);
}

/// Two proper answers complete a fast poll: output state and measured output are renewed, the
/// settings stay as they were.
pub proof fn law_fast_poll(
    s: Serial,
    family: DeviceFamily,
    output: Seq<char>,
    measured: Seq<char>,
)
    requires
        family.capabilities().has_power_supply,
        s.scpimode == ScpiMode::Meas,
        s.ps_phase == PsPhase::WaitOutp,
        s.ps_full_poll_counter > 0,
        output_state(output) is Some,
        ps_meas_all(measured) is Some,
    ensures
        ({
            let s1 = s.after_line(output, family);
            let s2 = s1.after_line(measured, family);
            let state = PsState {
                output_on: output_state(output)->0,
                voltage_readback: (ps_meas_all(measured)->0).voltage,
                current_readback: (ps_meas_all(measured)->0).current,
                power_readback: (ps_meas_all(measured)->0).power,
                includes_settings: false,
                ..s.ps_state
            };
            &&& s2 == (Serial {
                queue: s.queue.push("MEAS:ALL?\n"@),
                ps_state: state,
                ps_phase: PsPhase::Idle,
                ps_timeout: 0,
                ..s
            })
            &&& s1.line_outcome(measured, family).power_supply == Some(state)
            &&& s.line_outcome(output, family).power_supply is None
        }),
{
    law_short_answers_are_plain(output);
}

/// The state after a number of polls without an answer.
pub open spec fn timeouts(s: Serial, n: nat) -> Serial
    decreases n,
{
    if n == 0 {
        s
    } else {
        timeouts(s, (n - 1) as nat).timed()
    }
}

/// A power supply query that stays unanswered is given up once fifty polls have passed, at the next
/// one, and not before.
pub proof fn law_unanswered_query_ends(s: Serial, n: nat)
    requires
        s.wf(),
        s.ps_phase != PsPhase::Idle,
    ensures
        n + s.ps_timeout <= 50 ==> timeouts(s, n) == (Serial {
            ps_timeout: (s.ps_timeout + n) as u32,
            ..s
        }),
        n + s.ps_timeout > 50 ==> timeouts(s, n) == (Serial {
            ps_phase: PsPhase::Idle,
            ps_timeout: 0,
            ..s
        }),
    decreases n,
{
    if n > 0 {
        law_unanswered_query_ends(s, (n - 1) as nat);
    }
}

/// The power supply is polled in every fifth pass of an idle conversation, and nothing is asked of
/// it in the others.
pub proof fn law_poll_schedule(s: Serial, family: DeviceFamily, pending: Pending, amounts: Amounts)
    requires
        s.wf(),
        s.resting(),
        s.has_power_supply,
    ensures
        ({
            let r = s.resumed(family, pending, amounts);
            let due = s.ps_poll_counter == 4;
            &&& r.ps_poll_counter == (s.ps_poll_counter + 1) % 5
            &&& r.ps_phase == (if due {
                PsPhase::WaitOutp
            } else {
                PsPhase::Idle
            })
            &&& r.ps_full_poll_counter == (if due {
                (s.ps_full_poll_counter + 1) % 10
            } else {
                s.ps_full_poll_counter as int
            })
            &&& !due ==> r.queue == s.meter_commands(family, pending)
        }),
{
}

/// Whether a command stands in the queue at or after a position.
pub open spec fn queued_from(
    queue: Seq<Seq<char>>,
    start: int,
    command: Option<Seq<char>>,
) -> bool {
    exists|i: int| start <= i < queue.len() && Some(#[trigger] queue[i]) == command
}

/// What stands in a queue stays there when commands are added.
proof fn lemma_stays_queued(
    queue: Seq<Seq<char>>,
    start: int,
    command: Option<Seq<char>>,
    more: Option<Seq<char>>,
)
    requires
        0 <= start,
        queued_from(queue, start, command),
    ensures
        queued_from(enqueued(queue, more), start, command),
{
    let i = choose|i: int| start <= i < queue.len() && Some(#[trigger] queue[i]) == command;
    assert(enqueued(queue, more)[i] == queue[i]);
}

/// A command that is added stands in the queue.
proof fn lemma_newly_queued(queue: Seq<Seq<char>>, start: int, command: Seq<char>)
    requires
        0 <= start <= queue.len(),
    ensures
        queued_from(enqueued(queue, Some(command)), start, Some(command)),
{
    assert(enqueued(queue, Some(command))[queue.len() as int] == command);
}

/// When the power supply is polled, every pending change of it is sent first, after the meter's
/// commands and before the query.
pub proof fn law_poll_sends_changes(
    s: Serial,
    family: DeviceFamily,
    pending: Pending,
    amounts: Amounts,
)
    requires
        family.capabilities().has_power_supply,
        s.wf(),
        s.resting(),
        s.has_power_supply,
        s.ps_poll_counter == 4,
    ensures
        ({
            let queue = s.resumed(family, pending, amounts).queue;
            let meter = s.meter_commands(family, pending);
            let n = meter.len() as int;
            let changes = queue.drop_last();
            &&& queue.len() > n
            &&& queue.take(n) == meter
            &&& queue.last() == "OUTP?\n"@
            &&& pending.output_on matches Some(on) ==> queued_from(
                changes,
                n,
                family.ps_output_command(on),
            )
            &&& amounts.voltage_set matches Some(v) ==> queued_from(
                changes,
                n,
                family.ps_set(PsSetting::Voltage, v),
            )
            &&& amounts.current_set matches Some(v) ==> queued_from(
                changes,
                n,
                family.ps_set(PsSetting::Current, v),
            )
            &&& amounts.ovp matches Some(v) ==> queued_from(
                changes,
                n,
                family.ps_set(PsSetting::Ovp, v),
            )
            &&& amounts.ocp matches Some(v) ==> queued_from(
                changes,
                n,
                family.ps_set(PsSetting::Ocp, v),
            )
        }),
{
    let polled = Serial { queue: s.meter_commands(family, pending), ..s };
    let n = polled.queue.len() as int;
    let c1 = match pending.output_on {
        Some(on) => family.ps_output_command(on),
        None => None,
    };
    let c2 = match amounts.voltage_set {
        Some(v) => family.ps_set(PsSetting::Voltage, v),
        None => None,
    };
    let c3 = match amounts.current_set {
        Some(v) => family.ps_set(PsSetting::Current, v),
        None => None,
    };
    let c4 = match amounts.ovp {
        Some(v) => family.ps_set(PsSetting::Ovp, v),
        None => None,
    };
    let c5 = match amounts.ocp {
        Some(v) => family.ps_set(PsSetting::Ocp, v),
        None => None,
    };
    let q1 = enqueued(polled.queue, c1);
    let q2 = enqueued(q1, c2);
    let q3 = enqueued(q2, c3);
    let q4 = enqueued(q3, c4);
    let q5 = enqueued(q4, c5);
    assert(s.resumed(family, pending, amounts).queue == q5.push("OUTP?\n"@));
    assert(q5.push("OUTP?\n"@).drop_last() =~= q5);
    assert(q5.push("OUTP?\n"@).take(n) =~= polled.queue);
    if c1 is Some {
        lemma_newly_queued(polled.queue, n, c1->0);
        lemma_stays_queued(q1, n, c1, c2);
        lemma_stays_queued(q2, n, c1, c3);
        lemma_stays_queued(q3, n, c1, c4);
        lemma_stays_queued(q4, n, c1, c5);
    }
    if c2 is Some {
        lemma_newly_queued(q1, n, c2->0);
        lemma_stays_queued(q2, n, c2, c3);
        lemma_stays_queued(q3, n, c2, c4);
        lemma_stays_queued(q4, n, c2, c5);
    }
    if c3 is Some {
        lemma_newly_queued(q2, n, c3->0);
        lemma_stays_queued(q3, n, c3, c4);
        lemma_stays_queued(q4, n, c3, c5);
    }
    if c4 is Some {
        lemma_newly_queued(q3, n, c4->0);
        lemma_stays_queued(q4, n, c4, c5);
    }
    if c5 is Some {
        lemma_newly_queued(q4, n, c5->0);
    }
}

// ---------------------------------------------------------------------------------------------
// Mode changes
// ---------------------------------------------------------------------------------------------

/// The pending changes after a number of passes in which the instrument confirms nothing.
pub open spec fn passes(pending: Pending, n: nat) -> Pending
    decreases n,
{
    if n == 0 {
        pending
    } else {
        retried(passes(pending, (n - 1) as nat))
    }
}

/// A mode change that the instrument does not confirm is sent once in each pass until its retries
/// are used up, and then no more. It stays pending, and nothing else changes.
pub proof fn law_mode_change_is_retried(
    s: Serial,
    family: DeviceFamily,
    pending: Pending,
    mode: MeterMode,
    command: Seq<char>,
    retries: u32,
    n: nat,
)
    requires
        pending.mode == Some((mode, command, retries)),
    ensures
        passes(pending, n) == (Pending {
            mode: Some(
                (
                    mode,
                    command,
                    (if n < retries {
                        retries - n
                    } else {
                        0
                    }) as u32,
                ),
            ),
            ..pending
        }),
        s.meter_commands(family, passes(pending, n)) == (if n < retries {
            seq![command]
        } else {
            seq![]
        }) + s.meter_commands(family, Pending { mode: None, ..pending }),
    decreases n,
{
    if n > 0 {
        law_mode_change_is_retried(
            s,
            family,
            pending,
            mode,
            command,
            retries,
            (n - 1) as nat,
        );
    }
    assert(s.meter_commands(family, passes(pending, n)) =~= (if n < retries {
        seq![command]
    } else {
        seq![]
    }) + s.meter_commands(family, Pending { mode: None, ..pending }));
}

// ---------------------------------------------------------------------------------------------
// Sending
// ---------------------------------------------------------------------------------------------

/// The text of a one-line command without its line end.
proof fn lemma_line_end(command: Seq<char>)
    requires
        command.len() >= 2,
        command.last() == '\n',
        !white_space(command[command.len() - 2]),
    ensures
        trim_end(command, CharClass::Space) == command.drop_last(),
        is_query(command) == (command[command.len() - 2] == '?'),
{
    lemma_trailing(command, CharClass::Space, 1);
    let t = command.drop_last();
    assert(trim_end(command, CharClass::Space) =~= t);
    reveal_strlit("?");
    assert(t.subrange(t.len() - 1, t.len() as int) =~= seq![t.last()]);
    assert("?"@ =~= seq!['?']);
    assert(seq![t.last()][0] == t.last());
    assert(seq!['?'][0] == '?');
}

/// Queries are told from other commands: after a query the conversation waits for its answer,
/// after a command it goes on.
pub proof fn law_queries_are_recognised(family: DeviceFamily, mode: MeterMode, on: bool)
    ensures
        is_query("*IDN?\n"@),
        is_query(family.measurement_command()),
        is_query(family.function_query_command()),
        family.ps_query_output() matches Some(query) ==> is_query(query),
        forall|setting: PsSetting|
            #[trigger] family.ps_query(setting) matches Some(query) ==> is_query(query),
        family.ps_query_meas_all() matches Some(query) ==> is_query(query),
        !is_query("SYST:REM\n"@),
        !is_query("SYST:LOC\n"@),
        !is_query("*RST\n"@),
        !is_query(family.mode_command(mode)),
        family.hold_command(on) matches Some(command) ==> !is_query(command),
        family.beeper_command(on) matches Some(command) ==> !is_query(command),
        family.ps_output_command(on) matches Some(command) ==> !is_query(command),
{
    reveal_strlit("*IDN?\n");
    reveal_strlit("MEAS?\n");
    reveal_strlit("FUNC?\n");
    reveal_strlit("CONFigure:ALL?\n");
    reveal_strlit("OUTP?\n");
    reveal_strlit("VOLT?\n");
    reveal_strlit("CURR?\n");
    reveal_strlit("VOLT:LIM?\n");
    reveal_strlit("CURR:LIM?\n");
    reveal_strlit("MEAS:ALL?\n");
    lemma_line_end("*IDN?\n"@);
    lemma_line_end("MEAS?\n"@);
    lemma_line_end("FUNC?\n"@);
    lemma_line_end("CONFigure:ALL?\n"@);
    lemma_line_end("OUTP?\n"@);
    lemma_line_end("VOLT?\n"@);
    lemma_line_end("CURR?\n"@);
    lemma_line_end("VOLT:LIM?\n"@);
    lemma_line_end("CURR:LIM?\n"@);
    lemma_line_end("MEAS:ALL?\n"@);
    reveal_strlit("SYST:REM\n");
    reveal_strlit("SYST:LOC\n");
    reveal_strlit("*RST\n");
    lemma_line_end("SYST:REM\n"@);
    lemma_line_end("SYST:LOC\n"@);
    lemma_line_end("*RST\n"@);
    reveal_strlit("MULT:HOLD ON\n");
    reveal_strlit("MULT:HOLD OFF\n");
    reveal_strlit("SYST:BEEP:STATe ON\n");
    reveal_strlit("SYST:BEEP:STATe OFF\n");
    reveal_strlit("OUTP ON\n");
    reveal_strlit("OUTP OFF\n");
    lemma_line_end("MULT:HOLD ON\n"@);
    lemma_line_end("MULT:HOLD OFF\n"@);
    lemma_line_end("SYST:BEEP:STATe ON\n"@);
    lemma_line_end("SYST:BEEP:STATe OFF\n"@);
    lemma_line_end("OUTP ON\n"@);
    lemma_line_end("OUTP OFF\n"@);
    lemma_mode_commands(family, mode);
}

/// No mode command is a query.
proof fn lemma_mode_commands(family: DeviceFamily, mode: MeterMode)
    ensures
        !is_query(family.mode_command(mode)),
{
    reveal_strlit("CONF:VOLT:DC AUTO\n");
    reveal_strlit("CONF:VOLT:AC AUTO\n");
    reveal_strlit("CONF:CURR:DC\n");
    reveal_strlit("CONF:CURR:AC\n");
    reveal_strlit("FUNC:CURR:DC\n");
    reveal_strlit("FUNC:CURR:AC\n");
    reveal_strlit("CONF:RES AUTO\n");
    reveal_strlit("CONF:CAP AUTO\n");
    reveal_strlit("CONF:FREQ\n");
    reveal_strlit("CONF:PER\n");
    reveal_strlit("CONF:DIOD\n");
    reveal_strlit("CONF:CONT\n");
    reveal_strlit("CONF:TEMP:RTD PT100\n");
    reveal_strlit("FUNC:VOLT:DC\n");
    reveal_strlit("FUNC:VOLT:AC\n");
    reveal_strlit("FUNC:RES\n");
    reveal_strlit("FUNC:CAP\n");
    reveal_strlit("FUNC:FREQ\n");
    reveal_strlit("FUNC:PER\n");
    reveal_strlit("FUNC:DIOD\n");
    reveal_strlit("FUNC:CONT\n");
    reveal_strlit("FUNC:TEMP\n");
    lemma_line_end(family.mode_command(mode));
}

/// Whether a range query is recognised as one, and as a query.
spec fn awaited(query: Seq<char>) -> bool {
    is_range_query(query) && is_query(query)
}

/// A query that begins with `CONF:` asks for a range.
proof fn lemma_configuration_query(query: Seq<char>)
    requires
        query.len() >= 7,
        query.take(5) == "CONF:"@,
        query.skip(query.len() - 2) == "?\n"@,
    ensures
        awaited(query),
{
    reveal_strlit("CONF:");
    reveal_strlit("?\n");
    assert(query.subrange(0, 5) =~= query.take(5));
    assert(occurs_at(query, "CONF:"@, 0));
    assert(query.subrange(query.len() - 2, query.len() as int) =~= query.skip(query.len() - 2));
    assert(query.skip(query.len() - 2)[0] == query[query.len() - 2]);
    assert(query.skip(query.len() - 2)[1] == query[query.len() - 1]);
    lemma_line_end(query);
}

/// A query that ends in `RANG?` asks for a range.
proof fn lemma_range_query(query: Seq<char>)
    requires
        query.len() >= 6,
        query.skip(query.len() - 6) == "RANG?\n"@,
    ensures
        awaited(query),
{
    reveal_strlit("RANG?");
    reveal_strlit("RANG?\n");
    let tail = query.skip(query.len() - 6);
    assert(query.subrange(query.len() - 6, query.len() - 1) =~= tail.take(5));
    assert(tail.take(5) =~= "RANG?"@);
    assert(occurs_at(query, "RANG?"@, query.len() - 6));
    assert(tail[4] == query[query.len() - 2]);
    assert(tail[5] == query[query.len() - 1]);
    lemma_line_end(query);
}

/// The answer to every range query of a model is awaited as such.
pub proof fn law_range_queries_are_awaited(model: DeviceModel, mode: MeterMode)
    ensures
        model.range_query(mode) matches Some(query) ==> is_range_query(query) && is_query(query),
{
    if let Some(query) = model.range_query(mode) {
        reveal_strlit("CONF:");
        reveal_strlit("?\n");
        reveal_strlit("RANG?\n");
        reveal_strlit("CONF:VOLT:DC?\n");
        reveal_strlit("CONF:VOLT:AC?\n");
        reveal_strlit("CONF:CURR:DC?\n");
        reveal_strlit("CONF:CURR:AC?\n");
        reveal_strlit("CONF:RES?\n");
        reveal_strlit("CONF:CAP?\n");
        reveal_strlit("CONF:TEMP?\n");
        reveal_strlit("VOLT:DC:RANG?\n");
        reveal_strlit("VOLT:AC:RANG?\n");
        reveal_strlit("CURR:DC:RANG?\n");
        reveal_strlit("CURR:AC:RANG?\n");
        reveal_strlit("RES:RANG?\n");
        reveal_strlit("CAP:RANG?\n");
        match model {
            DeviceModel::Xdm1041 => {
                assert(query.take(5) =~= "CONF:"@);
                assert(query.skip(query.len() - 2) =~= "?\n"@);
                lemma_configuration_query(query);
            },
            DeviceModel::Spm6103 => {
                assert(query.skip(query.len() - 6) =~= "RANG?\n"@);
                lemma_range_query(query);
            },
        }
    }
}

/// A text in which one character of a pattern is missing does not hold the pattern.
pub proof fn lemma_missing(s: Seq<char>, pattern: Seq<char>, k: int)
    requires
        0 <= k < pattern.len(),
        forall|i: int| 0 <= i < s.len() ==> s[i] != pattern[k],
    ensures
        !occurs(s, pattern),
{
    if occurs(s, pattern) {
        let i = choose|i: int| occurs_at(s, pattern, i);
        assert(s.subrange(i, i + pattern.len())[k] == s[i + k]);
    }
}

/// No other query of a family makes the conversation wait for a range.
pub proof fn law_other_queries_await_no_range(family: DeviceFamily)
    ensures
        !is_range_query("*IDN?\n"@),
        !is_range_query(family.measurement_command()),
        !is_range_query(family.function_query_command()),
        family.ps_query_output() matches Some(query) ==> !is_range_query(query),
        forall|setting: PsSetting|
            #[trigger] family.ps_query(setting) matches Some(query) ==> !is_range_query(query),
        family.ps_query_meas_all() matches Some(query) ==> !is_range_query(query),
{
    reveal_strlit("RANG?");
    reveal_strlit("CONF:");
    reveal_strlit("*IDN?\n");
    reveal_strlit("MEAS?\n");
    reveal_strlit("FUNC?\n");
    reveal_strlit("CONFigure:ALL?\n");
    reveal_strlit("OUTP?\n");
    reveal_strlit("VOLT?\n");
    reveal_strlit("CURR?\n");
    reveal_strlit("VOLT:LIM?\n");
    reveal_strlit("CURR:LIM?\n");
    reveal_strlit("MEAS:ALL?\n");
    lemma_missing("*IDN?\n"@, "RANG?"@, 0);
    lemma_missing("*IDN?\n"@, "CONF:"@, 0);
    lemma_missing("MEAS?\n"@, "RANG?"@, 0);
    lemma_missing("MEAS?\n"@, "CONF:"@, 0);
    lemma_missing("FUNC?\n"@, "RANG?"@, 0);
    lemma_missing("FUNC?\n"@, "CONF:"@, 1);
    lemma_missing("CONFigure:ALL?\n"@, "RANG?"@, 0);
    lemma_missing("OUTP?\n"@, "RANG?"@, 0);
    lemma_missing("OUTP?\n"@, "CONF:"@, 0);
    lemma_missing("VOLT?\n"@, "RANG?"@, 0);
    lemma_missing("VOLT?\n"@, "CONF:"@, 0);
    lemma_missing("CURR?\n"@, "RANG?"@, 1);
    lemma_missing("CURR?\n"@, "CONF:"@, 1);
    lemma_missing("VOLT:LIM?\n"@, "RANG?"@, 0);
    lemma_missing("VOLT:LIM?\n"@, "CONF:"@, 0);
    lemma_missing("CURR:LIM?\n"@, "RANG?"@, 1);
    lemma_missing("CURR:LIM?\n"@, "CONF:"@, 1);
    lemma_missing("MEAS:ALL?\n"@, "RANG?"@, 0);
    lemma_missing("MEAS:ALL?\n"@, "CONF:"@, 0);
    let all = "CONFigure:ALL?\n"@;
    if occurs(all, "CONF:"@) {
        let i = choose|i: int| occurs_at(all, "CONF:"@, i);
        assert(all.subrange(i, i + 5)[0] == all[i]);
        assert(all.subrange(i, i + 5)[4] == all[i + 4]);
    }
}

/// A hold command overtakes everything that is waiting to be sent.
pub proof fn law_hold_goes_first(s: Serial, family: DeviceFamily, on: bool)
    ensures
        family.hold_command(on) matches Some(command) ==> s.requested(command).queue == seq![
            command,
        ] + s.queue,
{
    reveal_strlit("MULT:HOLD");
    reveal_strlit("MULT:HOLD ON\n");
    reveal_strlit("MULT:HOLD OFF\n");
    assert("MULT:HOLD ON\n"@.subrange(0, 9) =~= "MULT:HOLD"@);
    assert("MULT:HOLD OFF\n"@.subrange(0, 9) =~= "MULT:HOLD"@);
    assert(occurs_at("MULT:HOLD ON\n"@, "MULT:HOLD"@, 0));
    assert(occurs_at("MULT:HOLD OFF\n"@, "MULT:HOLD"@, 0));
}

/// The state after a number of commands were sent.
pub open spec fn sends(s: Serial, n: nat) -> Serial
    decreases n,
{
    if n == 0 {
        s
    } else {
        sends(s, (n - 1) as nat).sent()
    }
}

/// The reset command, trimmed.
pub proof fn lemma_reset_trimmed()
    ensures
        trimmed("*RST\n"@) == "*RST"@,
{
    reveal_strlit("*RST\n");
    reveal_strlit("*RST");
    let s = "*RST\n"@;
    lemma_leading(s, CharClass::Space, 0);
    assert(trim_start(s, CharClass::Space) =~= s);
    lemma_trailing(s, CharClass::Space, 1);
    assert(s.take(4) =~= "*RST"@);
}

/// Sending adds nothing to the queue of a conversation that is shutting down.
proof fn lemma_shutdown_sends(s: Serial, n: nat)
    requires
        s.shutting_down,
        n <= s.queue.len(),
    ensures
        sends(s, n).queue == s.queue.skip(n as int),
        sends(s, n).shutting_down,
        s.drop_serial ==> sends(s, n).drop_serial,
    decreases n,
{
    if n > 0 {
        lemma_shutdown_sends(s, (n - 1) as nat);
        assert(s.queue.skip(n - 1).skip(1) =~= s.queue.skip(n as int));
    } else {
        assert(s.queue.skip(0) =~= s.queue);
    }
}

/// A shutdown turns the power supply's output off, returns the instrument to local control and
/// resets it, in this order and after everything that was waiting. Once all of it is sent, the
/// port is let go.
pub proof fn law_shutdown_completes(s: Serial, family: DeviceFamily)
    requires
        s.has_power_supply ==> family.capabilities().has_power_supply,
    ensures
        ({
            let down = s.shutdown(family);
            let last = sends(down, down.queue.len());
            &&& down.queue == s.queue + (if s.has_power_supply {
                seq!["OUTP OFF\n"@, "SYST:LOC\n"@, "*RST\n"@]
            } else {
                seq!["SYST:LOC\n"@, "*RST\n"@]
            })
            &&& down.ps_phase == PsPhase::Idle
            &&& last.queue.len() == 0
            &&& last.shutting_down
            &&& last.drop_serial
        }),
{
    let down = s.shutdown(family);
    assert(down.queue =~= s.queue + (if s.has_power_supply {
        seq!["OUTP OFF\n"@, "SYST:LOC\n"@, "*RST\n"@]
    } else {
        seq!["SYST:LOC\n"@, "*RST\n"@]
    }));
    let n = down.queue.len();
    lemma_shutdown_sends(down, (n - 1) as nat);
    lemma_shutdown_sends(down, n);
    lemma_reset_trimmed();
    assert(down.queue.skip(n - 1)[0] == "*RST\n"@);
}

/// A conversation that is shutting down starts nothing of its own: it polls nothing, retries
/// nothing, and sending only shortens its queue.
pub proof fn law_shutdown_is_quiet(
    s: Serial,
    family: DeviceFamily,
    pending: Pending,
    amounts: Amounts,
)
    requires
        s.shutting_down,
    ensures
        s.resumed(family, pending, amounts) == s,
        s.pending_resumed(pending) == pending,
        s.sent().queue == s.queue.skip(1),
        s.sent().shutting_down,
        s.timed().shutting_down,
        forall|line: Seq<char>| (#[trigger] s.after_line(line, family)).shutting_down,
{
}

} // verus!
