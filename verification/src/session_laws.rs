//! What holds of a session across its steps: each report reaches the place that is meant for it,
//! each request stays until it is confirmed, and nothing else changes.

use crate::conversation_laws::{law_commands_are_sent_line_by_line, one_line};
use crate::device_plugin::DeviceModel;
use crate::double::{whole, Double, NAN, ZERO};
use crate::multimeter::MeterMode;
use crate::number::decimal;
use crate::plugins::family::DeviceFamily;
use crate::plugins::{nothing_pending, Pending, PsSetting};
use crate::serial::command_lines;
use crate::session::{
    beeper_chosen, beeper_for, buttons, disconnected, failed, graph_updated, largest_step, lines_of,
    mode_noted, mode_set, output_toggled, pending_reported, range_chosen, range_noted,
    range_offered, rate_chosen, reported, requested, says, started, threshold_for, under_threshold,
    ConnectionState, ConnectionText, GraphPass, PsPanel, PsReport, RangeChoice, Session,
};
use crate::settings::{RecordingMode, Settings};
use crate::tables::label_text;
use crate::text::string;
use vstd::prelude::*;

verus! {

// ---------------------------------------------------------------------------------------------
// Reports of the power supply
// ---------------------------------------------------------------------------------------------

/// After every report, fast or full, and whatever is pending, each measured quantity on the panel
/// is that of the report: the voltage is the voltage, the current the current, the power the power.
pub proof fn law_readbacks_are_those_reported(
    before: PsPanel,
    after: PsPanel,
    pending: Pending,
    report: PsReport,
)
    requires
        reported(before, after, pending, report),
    ensures
        after.voltage_readback == report.voltage_readback,
        after.current_readback == report.current_readback,
        after.power_readback == report.power_readback,
        after.initial_sync_done,
        after.input_has_focus == before.input_has_focus,
        after.confirmed_non_ps == before.confirmed_non_ps,
{
}

/// A full report with nothing pending puts every setting in its own place, as value and, unless the
/// user is editing, as text; the output is shown as reported, and nothing is pending afterwards.
pub proof fn law_full_report_fills_the_panel(
    before: PsPanel,
    after: PsPanel,
    pending: Pending,
    report: PsReport,
)
    requires
        reported(before, after, pending, report),
        report.includes_settings,
        pending.output_on is None,
        pending.voltage_set is None,
        pending.current_set is None,
        pending.ovp is None,
        pending.ocp is None,
    ensures
        after.output_on == report.output_on,
        after.voltage.value == report.voltage_set.value,
        after.current.value == report.current_set.value,
        after.ovp.value == report.ovp.value,
        after.ocp.value == report.ocp.value,
        !before.input_has_focus ==> {
            &&& after.voltage.input@ == report.voltage_set.text@
            &&& after.current.input@ == report.current_set.text@
            &&& after.ovp.input@ == report.ovp.text@
            &&& after.ocp.input@ == report.ocp.text@
        },
        pending_reported(pending, report) == pending,
{
}

/// Each setting is judged by its own report and its own pending value: one that was asked for and
/// is not confirmed keeps its value, its text and its request, whatever the report says of the
/// others; one that is confirmed takes the reported value over and is no longer pending.
pub proof fn law_settings_are_judged_one_by_one(
    before: PsPanel,
    after: PsPanel,
    pending: Pending,
    report: PsReport,
)
    requires
        reported(before, after, pending, report),
        report.includes_settings,
    ensures
        ({
            let left = pending_reported(pending, report);
            &&& pending.voltage_set is Some && !report.voltage_set.near_pending ==> {
                &&& after.voltage.value == before.voltage.value
                &&& after.voltage.input@ == before.voltage.input@
                &&& left.voltage_set == pending.voltage_set
            }
            &&& report.voltage_set.near_pending ==> after.voltage.value == report.voltage_set.value
                && left.voltage_set is None
            &&& pending.current_set is Some && !report.current_set.near_pending ==> {
                &&& after.current.value == before.current.value
                &&& after.current.input@ == before.current.input@
                &&& left.current_set == pending.current_set
            }
            &&& report.current_set.near_pending ==> after.current.value == report.current_set.value
                && left.current_set is None
            &&& pending.ovp is Some && !report.ovp.near_pending ==> {
                &&& after.ovp.value == before.ovp.value
                &&& after.ovp.input@ == before.ovp.input@
                &&& left.ovp == pending.ovp
            }
            &&& report.ovp.near_pending ==> after.ovp.value == report.ovp.value && left.ovp is None
            &&& pending.ocp is Some && !report.ocp.near_pending ==> {
                &&& after.ocp.value == before.ocp.value
                &&& after.ocp.input@ == before.ocp.input@
                &&& left.ocp == pending.ocp
            }
            &&& report.ocp.near_pending ==> after.ocp.value == report.ocp.value && left.ocp is None
        }),
{
}

/// A report of the power supply settles neither a range nor a mode.
pub proof fn law_power_reports_spare_the_meter(pending: Pending, report: PsReport)
    ensures
        pending_reported(pending, report).range == pending.range,
        pending_reported(pending, report).mode == pending.mode,
        pending.output_on is None ==> pending_reported(pending, report).output_on is None,
        !report.includes_settings ==> {
            &&& pending_reported(pending, report).voltage_set == pending.voltage_set
            &&& pending_reported(pending, report).current_set == pending.current_set
            &&& pending_reported(pending, report).ovp == pending.ovp
            &&& pending_reported(pending, report).ocp == pending.ocp
        },
{
}

/// A fast report keeps every setting on the panel, and shows the output as reported unless another
/// state was asked for.
pub proof fn law_fast_report_keeps_the_settings(
    before: PsPanel,
    after: PsPanel,
    pending: Pending,
    report: PsReport,
)
    requires
        reported(before, after, pending, report),
        !report.includes_settings,
    ensures
        after.voltage == before.voltage,
        after.current == before.current,
        after.ovp == before.ovp,
        after.ocp == before.ocp,
        pending.output_on is None ==> after.output_on == report.output_on,
        pending.output_on == Some(!report.output_on) ==> after.output_on == before.output_on,
{
}

// ---------------------------------------------------------------------------------------------
// Requests for the power supply
// ---------------------------------------------------------------------------------------------

/// Switching the output asks for the other state, shows it at once, and disturbs nothing else; a
/// report of that state settles it and leaves it shown.
pub proof fn law_switching_asks_for_the_other_state(
    before: PsPanel,
    shown: PsPanel,
    pending: Pending,
    wanted: Pending,
    after: PsPanel,
    report: PsReport,
)
    requires
        output_toggled(before, shown, pending, wanted),
        reported(shown, after, wanted, report),
    ensures
        shown.output_on != before.output_on,
        wanted.output_on == Some(shown.output_on),
        shown.voltage == before.voltage,
        shown.current == before.current,
        shown.ovp == before.ovp,
        shown.ocp == before.ocp,
        shown.voltage_readback == before.voltage_readback,
        shown.current_readback == before.current_readback,
        shown.power_readback == before.power_readback,
        wanted.voltage_set == pending.voltage_set,
        wanted.current_set == pending.current_set,
        wanted.ovp == pending.ovp,
        wanted.ocp == pending.ocp,
        wanted.range == pending.range,
        wanted.mode == pending.mode,
        after.output_on == shown.output_on,
        (pending_reported(wanted, report).output_on is None) == (report.output_on
            == shown.output_on),
{
}

/// A request of a setting reaches that setting, on the panel and among the pending changes, and no
/// other.
pub proof fn law_request_reaches_its_setting(
    before: PsPanel,
    after: PsPanel,
    setting: PsSetting,
    value: Double,
    text: Option<Seq<char>>,
    pending: Pending,
    wanted: Pending,
)
    requires
        requested(before, after, pending, wanted, setting, value, text),
    ensures
        setting == PsSetting::Voltage ==> after.voltage.value == value && (text matches Some(t)
            ==> after.voltage.input@ == t) && (text is None ==> after.voltage.input@
            == before.voltage.input@),
        setting != PsSetting::Voltage ==> after.voltage == before.voltage,
        setting == PsSetting::Current ==> after.current.value == value && (text matches Some(t)
            ==> after.current.input@ == t) && (text is None ==> after.current.input@
            == before.current.input@),
        setting != PsSetting::Current ==> after.current == before.current,
        setting == PsSetting::Ovp ==> after.ovp.value == value && (text matches Some(t)
            ==> after.ovp.input@ == t) && (text is None ==> after.ovp.input@ == before.ovp.input@),
        setting != PsSetting::Ovp ==> after.ovp == before.ovp,
        setting == PsSetting::Ocp ==> after.ocp.value == value && (text matches Some(t)
            ==> after.ocp.input@ == t) && (text is None ==> after.ocp.input@ == before.ocp.input@),
        setting != PsSetting::Ocp ==> after.ocp == before.ocp,
        after.output_on == before.output_on,
        after.voltage_readback == before.voltage_readback,
        after.current_readback == before.current_readback,
        after.power_readback == before.power_readback,
        ({
            &&& wanted.voltage_set == (if setting == PsSetting::Voltage {
                Some(value)
            } else {
                pending.voltage_set
            })
            &&& wanted.current_set == (if setting == PsSetting::Current {
                Some(value)
            } else {
                pending.current_set
            })
            &&& wanted.ovp == (if setting == PsSetting::Ovp {
                Some(value)
            } else {
                pending.ovp
            })
            &&& wanted.ocp == (if setting == PsSetting::Ocp {
                Some(value)
            } else {
                pending.ocp
            })
            &&& wanted.output_on == pending.output_on
            &&& wanted.range == pending.range
            &&& wanted.mode == pending.mode
        }),
{
}

/// The steps of a setting go up to the limit that the power supply has for it.
pub proof fn law_steps_stop_at_the_limits(setting: PsSetting)
    ensures
        DeviceFamily::Spm.capabilities().power_supply_limits matches Some(limits)
            && largest_step(setting) == (match setting {
            PsSetting::Voltage => limits.voltage_max,
            PsSetting::Current => limits.current_max,
            PsSetting::Ovp => limits.ovp_max,
            PsSetting::Ocp => limits.ocp_max,
        }) && limits.voltage_min <= limits.voltage_max <= limits.ovp_max && limits.current_min
            <= limits.current_max <= limits.ocp_max,
{
}

// ---------------------------------------------------------------------------------------------
// Modes and ranges
// ---------------------------------------------------------------------------------------------

/// A mode that the user changes to is shown at once and asked for up to five times. Once the
/// instrument is seen in it, the change is settled, the panel stays in that mode, and nothing of
/// the request is left.
pub proof fn law_mode_change_is_carried_through(
    before: Session,
    shown: Session,
    after: Session,
    family: DeviceFamily,
    pending: Pending,
    wanted: Pending,
    left: Pending,
    mode: MeterMode,
    volts: Seq<char>,
    beeper: Option<Seq<char>>,
    threshold: Option<Seq<char>>,
)
    requires
        mode_set(before, shown, pending, wanted, mode, family, volts, beeper, threshold),
        mode_noted(shown, after, wanted, left, mode),
    ensures
        shown.metermode == mode,
        shown.pending_mode_change == Some(mode),
        shown.confstring@ == family.mode_command(mode),
        shown.curr_range == 0,
        shown.values@.len() == 0,
        shown.hist_values@.len() == 0,
        shown.settings == before.settings,
        shown.ps == before.ps,
        shown.device == before.device,
        shown.curr_meas == before.curr_meas,
        wanted == (Pending {
            mode: Some((mode, family.mode_command(mode), 5u32)),
            ..pending
        }),
        after.metermode == mode,
        after.pending_mode_change is None,
        left == (Pending { mode: None, ..pending }),
{
}

/// With a mode change a diode or continuity test is set up: with the beeper as it is set, and with
/// the threshold of that test as it is set. Other modes, and a power supply, are set up with neither.
pub proof fn law_mode_change_sets_the_test_up(
    before: Session,
    shown: Session,
    family: DeviceFamily,
    pending: Pending,
    wanted: Pending,
    mode: MeterMode,
    volts: Seq<char>,
    beeper: Option<Seq<char>>,
    threshold: Option<Seq<char>>,
)
    requires
        mode_set(before, shown, pending, wanted, mode, family, volts, beeper, threshold),
    ensures
        ({
            let test = family is Default && (mode == MeterMode::Cont || mode == MeterMode::Diod);
            &&& test && before.settings.beeper_enabled ==> beeper == Some(
                "SYST:BEEP:STATe ON\n"@,
            )
            &&& test && !before.settings.beeper_enabled ==> beeper == Some(
                "SYST:BEEP:STATe OFF\n"@,
            )
            &&& test && mode == MeterMode::Cont ==> threshold == Some(
                "CONT:THREshold "@ + decimal(before.settings.cont_threshold as nat) + "\n"@,
            )
            &&& test && mode == MeterMode::Diod ==> threshold == Some(
                "DIOD:THREshold "@ + volts + "\n"@,
            )
            &&& !test ==> beeper is None && threshold is None
        }),
{
}

/// The threshold that is sent is that of the current test, as it is set, and there is one only in a
/// test of a bench multimeter.
pub proof fn law_threshold_of_the_current_test(
    session: Session,
    family: DeviceFamily,
    volts: Seq<char>,
)
    ensures
        family is Default && session.metermode == MeterMode::Cont ==> session.threshold_request(
            family,
            volts,
        ) == Some(
            "CONT:THREshold "@ + decimal(session.settings.cont_threshold as nat) + "\n"@,
        ),
        family is Default && session.metermode == MeterMode::Diod ==> session.threshold_request(
            family,
            volts,
        ) == Some("DIOD:THREshold "@ + volts + "\n"@),
        family is Spm || (session.metermode != MeterMode::Cont && session.metermode
            != MeterMode::Diod) ==> session.threshold_request(family, volts) is None,
        session.tripped() ==> session.values@.len() > 0 && (session.metermode == MeterMode::Cont
            || session.metermode == MeterMode::Diod),
        session.values@.len() > 0 && !session.values@.last().nan() && session.metermode
            == MeterMode::Cont ==> session.tripped() == (session.values@.last().value() <= whole(
            session.settings.cont_threshold as nat,
        )),
        session.values@.len() > 0 && session.metermode == MeterMode::Diod ==> session.tripped()
            == session.values@.last().at_most(session.settings.diod_threshold),
{
}

/// While the instrument is still seen in another mode, the change stays pending.
pub proof fn law_mode_change_awaits_its_target(
    shown: Session,
    after: Session,
    pending: Pending,
    left: Pending,
    mode: MeterMode,
    seen: MeterMode,
)
    requires
        shown.pending_mode_change == Some(mode),
        seen != mode,
        mode_noted(shown, after, pending, left, seen),
    ensures
        after.pending_mode_change == Some(mode),
        after.metermode == seen,
        left == pending,
{
}

/// The mode on the panel is the one that the instrument is in. What was collected in another mode
/// is dropped with the change and the range starts over; in the same mode everything is kept.
pub proof fn law_panel_follows_the_mode(
    before: Session,
    after: Session,
    pending: Pending,
    left: Pending,
    mode: MeterMode,
)
    requires
        mode_noted(before, after, pending, left, mode),
    ensures
        after.metermode == mode,
        mode != before.metermode ==> after.values@.len() == 0 && after.hist_values@.len() == 0
            && after.curr_range == 0,
        mode == before.metermode ==> after.values == before.values && after.hist_values
            == before.hist_values && after.curr_range == before.curr_range && after.curr_unit
            == before.curr_unit,
        after.settings == before.settings,
        after.ps == before.ps,
        after.curr_meas == before.curr_meas,
        after.device == before.device,
        after.connection_state == before.connection_state,
{
}

/// A range that the user chose is shown at once, sent and asked for, in the current mode. The report
/// of that range settles the request; until then reports of other ranges change nothing.
pub proof fn law_range_change_is_carried_through(
    before: Session,
    shown: Session,
    after: Session,
    family: DeviceFamily,
    pending: Pending,
    wanted: Pending,
    left: Pending,
    index: usize,
    seen: usize,
    commands: Seq<Seq<char>>,
)
    requires
        range_chosen(before, shown, pending, wanted, index, family, commands),
        before.pending_mode_change is None,
        range_noted(shown, after, wanted, left, before.metermode, seen),
        family.range_command(before.metermode, index as int) is Some,
    ensures
        ({
            let command = family.range_command(before.metermode, index as int)->0;
            &&& shown == (Session { curr_range: index, ..before })
            &&& wanted == (Pending { range: Some((index, command)), ..pending })
            &&& commands == command_lines(command)
            &&& after == shown
            &&& seen == index ==> left == (Pending { range: None, ..pending })
            &&& seen != index ==> left == wanted
        }),
{
}

/// A range that cannot be chosen is neither sent nor asked for.
pub proof fn law_missing_range_is_not_asked_for(
    before: Session,
    shown: Session,
    family: DeviceFamily,
    pending: Pending,
    wanted: Pending,
    index: usize,
    commands: Seq<Seq<char>>,
)
    requires
        range_chosen(before, shown, pending, wanted, index, family, commands),
        family.range_command(before.metermode, index as int) is None,
    ensures
        wanted == pending,
        commands.len() == 0,
{
}

/// With nothing pending, the drop-down list follows the instrument: the reported range of the
/// current mode is shown, and one of another mode is not.
pub proof fn law_panel_follows_the_range(
    before: Session,
    after: Session,
    pending: Pending,
    left: Pending,
    mode: MeterMode,
    index: usize,
)
    requires
        range_noted(before, after, pending, left, mode, index),
        pending.range is None,
    ensures
        before.pending_mode_change is None && mode == before.metermode ==> after.curr_range
            == index,
        before.pending_mode_change is Some || mode != before.metermode ==> after.curr_range
            == before.curr_range,
        left == pending,
        after.metermode == before.metermode,
        after.values == before.values,
        after.pending_mode_change == before.pending_mode_change,
{
}

/// The drop-down list offers every range of the mode under its name, has the current one selected,
/// and can be opened if there are several.
pub proof fn law_list_shows_the_ranges(
    before: Session,
    after: Session,
    family: DeviceFamily,
    names: Seq<Seq<char>>,
    choice: Option<RangeChoice>,
)
    requires
        range_offered(before, after, family, choice),
        family.range_names(before.metermode) == Some(names),
        names.len() > 0,
    ensures
        choice is Some,
        choice->0.names@.len() == names.len(),
        forall|k: int| 0 <= k < names.len() ==> (#[trigger] choice->0.names@[k])@ == names[k],
        after.curr_range < names.len(),
        choice->0.selected@ == names[after.curr_range as int],
        before.curr_range < names.len() ==> after.curr_range == before.curr_range,
        before.curr_range >= names.len() ==> after.curr_range == 0,
        choice->0.enabled == (names.len() >= 2),
        after.metermode == before.metermode,
{
    let shown = crate::text::texts(choice->0.names@);
    assert(shown.len() == choice->0.names@.len());
    assert forall|k: int| 0 <= k < names.len() implies (#[trigger] choice->0.names@[k])@
        == names[k] by {
        assert(shown[k] == choice->0.names@[k]@);
    }
}

/// The commands for a chosen range go out line by line, and there are none where the range cannot
/// be chosen.
pub proof fn law_chosen_range_is_sent(first: Seq<char>, second: Seq<char>)
    requires
        one_line(first),
        one_line(second),
    ensures
        lines_of(None).len() == 0,
        lines_of(Some(first + "\n"@)) == seq![first + "\n"@],
        lines_of(Some(first + "\n"@ + second + "\n"@)) == seq![first + "\n"@, second + "\n"@],
{
    law_commands_are_sent_line_by_line(first, second);
}

/// A diode or continuity test of a bench multimeter is set up with the beeper's state and its own
/// threshold, that of the continuity test in ohms and that of the diode test in volts. No other
/// mode needs either, and a power supply never does.
pub proof fn law_tests_are_set_up(
    mode: MeterMode,
    swap: bool,
    enabled: bool,
    ohms: u32,
    volts: Seq<char>,
)
    ensures
        ({
            let family = DeviceFamily::Default { swap_diod_cont: swap };
            let test = mode == MeterMode::Cont || mode == MeterMode::Diod;
            &&& beeper_for(mode, family, enabled) == (if test && enabled {
                Some("SYST:BEEP:STATe ON\n"@)
            } else if test {
                Some("SYST:BEEP:STATe OFF\n"@)
            } else {
                None
            })
            &&& threshold_for(MeterMode::Cont, family, ohms, volts) == Some(
                "CONT:THREshold "@ + decimal(ohms as nat) + "\n"@,
            )
            &&& threshold_for(MeterMode::Diod, family, ohms, volts) == Some(
                "DIOD:THREshold "@ + volts + "\n"@,
            )
            &&& !test ==> threshold_for(mode, family, ohms, volts) is None
            &&& beeper_for(mode, DeviceFamily::Spm, enabled) is None
            &&& threshold_for(mode, DeviceFamily::Spm, ohms, volts) is None
        }),
{
}

/// The chosen rate is kept and sent; what cannot be sent leaves the last command as it was.
pub proof fn law_rate_is_kept(
    before: Session,
    after: Session,
    index: usize,
    family: DeviceFamily,
    command: Option<Seq<char>>,
)
    requires
        rate_chosen(before, after, index, family, command),
    ensures
        command == family.rate_command(index as int),
        after.settings.curr_rate == index,
        command matches Some(text) ==> after.confstring@ == text,
        command is None ==> after.confstring@ == before.confstring@,
        after.settings.beeper_enabled == before.settings.beeper_enabled,
        after.settings.hold_enabled == before.settings.hold_enabled,
        after.metermode == before.metermode,
        after.curr_range == before.curr_range,
        after.values == before.values,
        after.ps == before.ps,
{
}

/// The beeper's state is sent and kept, and nothing else changes with it.
pub proof fn law_beeper_is_kept(
    session: Session,
    after: Session,
    on: bool,
    family: DeviceFamily,
    command: Option<Seq<char>>,
)
    requires
        beeper_chosen(session, after, on, family, command),
    ensures
        after == session.beeping(on),
        command == family.beeper_command(on),
        session.beeping(on).settings.beeper_enabled == on,
        session.beeping(on).beeping(session.settings.beeper_enabled) == session,
        session.beeping(on).metermode == session.metermode,
        session.beeping(on).settings.curr_rate == session.settings.curr_rate,
        session.beeping(on).settings.hold_enabled == session.settings.hold_enabled,
{
}

// ---------------------------------------------------------------------------------------------
// Graph and hold
// ---------------------------------------------------------------------------------------------

/// A measurement is shown as it came, with its precision, until the next one.
pub proof fn law_latest_measurement_is_shown(
    session: Session,
    meas: Double,
    precision: Double,
    next: Double,
    finer: Double,
)
    ensures
        session.measuring(meas, precision).curr_meas == meas,
        session.measuring(meas, precision).curr_precision == precision,
        session.measuring(meas, precision).measuring(next, finer) == session.measuring(
            next,
            finer,
        ),
        session.measuring(session.curr_meas, session.curr_precision) == session,
{
}

/// On hold, and while no update is due, nothing is added to the graph and nothing is recorded.
pub proof fn law_hold_freezes_the_graph(
    before: Session,
    after: Session,
    now: Double,
    due: bool,
    record_due: bool,
    pass: GraphPass,
)
    requires
        graph_updated(before, after, now, due, record_due, pass),
        before.settings.hold_enabled || !due,
    ensures
        !pass.sampled,
        !pass.record,
        after == before,
{
}

/// When an update is due, a measured value becomes the newest of the graph, up to its depth, and
/// what is no number never does. The time is noted either way.
pub proof fn law_due_update_samples(
    before: Session,
    after: Session,
    now: Double,
    record_due: bool,
    pass: GraphPass,
)
    requires
        graph_updated(before, after, now, true, record_due, pass),
        !before.settings.hold_enabled,
        before.settings.mem_depth > 0,
    ensures
        pass.sampled == !before.curr_meas.nan(),
        pass.sampled ==> {
            &&& after.values@.len() > 0
            &&& after.values@.last() == before.curr_meas
            &&& after.values@.len() <= before.settings.mem_depth
            &&& before.values@.len() < before.settings.mem_depth ==> after.values@
                == before.values@.push(before.curr_meas)
        },
        !pass.sampled ==> after.values == before.values,
        after.last_graph_update == now,
        after.curr_meas == before.curr_meas,
        after.settings == before.settings,
{
}

/// A value is recorded only as it is added to the graph, while recording is on at a fixed interval
/// and that interval has passed, and then always.
pub proof fn law_recording_keeps_its_interval(
    before: Session,
    after: Session,
    now: Double,
    due: bool,
    record_due: bool,
    pass: GraphPass,
)
    requires
        graph_updated(before, after, now, due, record_due, pass),
    ensures
        pass.record ==> pass.sampled && record_due && before.settings.recording_active,
        before.settings.recording_mode == RecordingMode::Manual ==> !pass.record,
        pass.sampled && record_due && before.settings.recording_active
            && before.settings.recording_mode == RecordingMode::FixedInterval ==> pass.record,
        pass.record ==> after.last_record_time == now,
        !pass.record ==> after.last_record_time == before.last_record_time,
{
}

/// Only in a continuity or diode test, and only by the newest value, is a threshold undercut: that
/// of the continuity test in whole ohms, that of the diode test in volts. What is no number never
/// does.
pub proof fn law_threshold_is_that_of_the_test(
    values: Seq<Double>,
    value: Double,
    mode: MeterMode,
    settings: Settings,
)
    ensures
        !under_threshold(seq![], mode, settings),
        value.nan() ==> !under_threshold(values.push(value), mode, settings),
        mode != MeterMode::Cont && mode != MeterMode::Diod ==> !under_threshold(
            values.push(value),
            mode,
            settings,
        ),
        !value.nan() ==> under_threshold(values.push(value), MeterMode::Cont, settings) == (
        value.value() <= whole(settings.cont_threshold as nat)),
        under_threshold(values.push(value), MeterMode::Diod, settings) == value.at_most(
            settings.diod_threshold,
        ),
{
}

/// Hold is turned on and off on a power supply by its own command, and on a bench multimeter
/// without one. When hold ends the graph goes on at once.
pub proof fn law_hold_is_sent_where_there_is_one(session: Session, family: DeviceFamily)
    ensures
        ({
            let held = session.hold_toggled().settings.hold_enabled;
            let command = session.hold_asked(family);
            &&& held != session.settings.hold_enabled
            &&& family is Spm && held ==> command == Some("MULT:HOLD ON\n"@)
            &&& family is Spm && !held ==> command == Some("MULT:HOLD OFF\n"@)
            &&& family is Default ==> command is None
        }),
        session.settings.hold_enabled ==> session.hold_toggled().last_graph_update == (Double {
            bits: ZERO,
        }),
        !session.settings.hold_enabled ==> session.hold_toggled().last_graph_update
            == session.last_graph_update,
        session.hold_toggled().values == session.values,
        session.hold_toggled().curr_meas == session.curr_meas,
        session.hold_toggled().metermode == session.metermode,
{
}

// ---------------------------------------------------------------------------------------------
// Connection
// ---------------------------------------------------------------------------------------------

/// A session starts up once: a second time nothing happens. It connects by itself only if it was
/// told to and a port is chosen. Every port is listed, the last one first, before those known.
pub proof fn law_start_up_happens_once(
    before: Session,
    after: Session,
    again: Session,
    ports: Seq<Seq<char>>,
    more: Seq<Seq<char>>,
    connect: bool,
    reconnect: bool,
)
    requires
        started(before, after, ports, connect),
        started(after, again, more, reconnect),
    ensures
        after.is_init,
        !reconnect,
        again == after,
        connect ==> before.settings.connect_on_startup && before.settings.serial_port@.len() > 0
            && after.connection_state == ConnectionState::Connecting,
        !connect ==> after.connection_state == before.connection_state,
        !before.is_init && before.settings.connect_on_startup && before.settings.serial_port@.len()
            > 0 ==> connect,
        !before.is_init ==> {
            let listed = crate::text::strings(after.portlist@);
            let known = crate::text::strings(before.portlist@);
            &&& listed.len() == ports.len() + known.len()
            &&& forall|k: int|
                0 <= k < ports.len() ==> #[trigger] ports[k] == listed[ports.len() - 1 - k]
            &&& forall|k: int| 0 <= k < known.len() ==> #[trigger] known[k] == listed[ports.len()
                + k]
        },
{
    if !before.is_init {
        let listed = crate::text::strings(after.portlist@);
        let known = crate::text::strings(before.portlist@);
        let r = ports.reverse();
        assert forall|k: int| 0 <= k < ports.len() implies #[trigger] ports[k]
            == listed[ports.len() - 1 - k] by {
            assert(listed[ports.len() - 1 - k] == r[ports.len() - 1 - k]);
        }
        assert forall|k: int| 0 <= k < known.len() implies #[trigger] known[k]
            == listed[ports.len() + k] by {}
    }
}

/// The connection line tells each state apart: what went wrong, that there is no connection, that
/// one is being made, that the instrument is awaited, and which one it is.
pub proof fn law_connection_line_tells_the_state(session: Session, text: ConnectionText)
    requires
        says(session, text),
    ensures
        session.connection_state == ConnectionState::Connecting ==> text is Connecting,
        session.connection_state == ConnectionState::Connected && session.device@.len() == 0
            ==> text is AwaitingDevice,
        session.connection_state == ConnectionState::Connected && session.device@.len() > 0
            ==> (text matches ConnectionText::ConnectedTo(name) && name@ == session.device@),
        session.connection_state == ConnectionState::Disconnected && session.connection_error is None
            ==> text is NotConnected,
        session.connection_state == ConnectionState::Disconnected
            && session.connection_error is Some ==> (text matches ConnectionText::Failed(why)
            && Some(why@) == string(session.connection_error)),
{
}

/// A new attempt forgets the last failure; a failure is told until then, and ends the attempt.
pub proof fn law_connection_takes_its_course(
    session: Session,
    after: Session,
    context: Seq<char>,
    reason: Seq<char>,
    text: ConnectionText,
)
    requires
        failed(session.connecting(), after, context, reason),
        says(after, text),
    ensures
        session.connecting().connection_state == ConnectionState::Connecting,
        session.connecting().connection_error is None,
        session.linked().connection_state == ConnectionState::Connected,
        session.linked().connection_error == session.connection_error,
        session.linked().device == session.device,
        after.connection_state == ConnectionState::Disconnected,
        text matches ConnectionText::Failed(told) && told@ == context + reason,
        after.connecting() == session.connecting(),
        after.settings == session.settings,
        after.device == session.device,
{
}

/// A disconnected instrument leaves nothing behind: no name, no measurement, no graph, no reported
/// state of the power supply, nothing pending and nothing known of its firmware. The settings stay,
/// those of the application and those on the panel.
pub proof fn law_disconnecting_forgets_the_instrument(
    before: Session,
    after: Session,
    family: DeviceFamily,
    pending: Pending,
    text: ConnectionText,
)
    requires
        disconnected(before, after, family, pending),
        says(after, text),
    ensures
        family == (DeviceFamily::Default { swap_diod_cont: false }),
        pending.output_on is None,
        pending.voltage_set is None,
        pending.current_set is None,
        pending.ovp is None,
        pending.ocp is None,
        pending.range is None,
        pending.mode is None,
        text is NotConnected,
        after.device@.len() == 0,
        after.curr_meas == (Double { bits: NAN }),
        after.curr_meas.nan(),
        after.values@.len() == 0,
        after.hist_values@.len() == 0,
        after.meas_count == 0,
        !after.ps.output_on,
        after.ps.voltage_readback == (Double { bits: ZERO }),
        after.ps.current_readback == (Double { bits: ZERO }),
        after.ps.power_readback == (Double { bits: ZERO }),
        !after.ps.initial_sync_done,
        !after.ps.confirmed_non_ps,
        after.ps.voltage == before.ps.voltage,
        after.ps.current == before.ps.current,
        after.ps.ovp == before.ps.ovp,
        after.ps.ocp == before.ps.ocp,
        after.settings == before.settings,
        after.metermode == before.metermode,
        after.portlist == before.portlist,
{
    reveal_strlit("");
}

/// An instrument is known to have no power supply once it is connected and identified as one that
/// has none, and not before; it is never taken back.
pub proof fn law_power_supply_is_ruled_out_by_identification(session: Session, swap: bool)
    ensures
        session.connection_state == ConnectionState::Connected && session.device@.len() > 0
            ==> session.knowing(DeviceFamily::Default { swap_diod_cont: swap }).ps.confirmed_non_ps,
        session.connection_state != ConnectionState::Connected || session.device@.len() == 0
            ==> session.knowing(DeviceFamily::Default { swap_diod_cont: swap }) == session,
        session.knowing(DeviceFamily::Spm) == session,
        session.ps.confirmed_non_ps ==> session.knowing(
            DeviceFamily::Default { swap_diod_cont: swap },
        ).ps.confirmed_non_ps,
{
}

// ---------------------------------------------------------------------------------------------
// What an instrument can do
// ---------------------------------------------------------------------------------------------

/// An instrument has exactly the commands for what it can do: hold, beeper, thresholds, rates and
/// power supply are offered where there are commands for them, and nowhere else.
pub proof fn law_capabilities_come_with_commands(
    family: DeviceFamily,
    on: bool,
    ohms: u32,
    text: Seq<char>,
    index: int,
    setting: PsSetting,
)
    ensures
        ({
            let caps = family.capabilities();
            &&& caps.has_hold == family.hold_command(on) is Some
            &&& caps.has_beeper == family.beeper_command(on) is Some
            &&& caps.has_threshold == family.cont_threshold_command(ohms) is Some
            &&& caps.has_threshold == family.diod_threshold_command(text) is Some
            &&& (0 <= index < caps.rate_options.len()) == family.rate_command(index) is Some
            &&& caps.has_power_supply == caps.power_supply_limits is Some
            &&& caps.has_power_supply == family.ps_output_command(on) is Some
            &&& caps.has_power_supply == family.ps_query_output() is Some
            &&& caps.has_power_supply == family.ps_query_meas_all() is Some
            &&& caps.has_power_supply == family.ps_set(setting, text) is Some
            &&& caps.has_power_supply == family.ps_query(setting) is Some
        }),
        (DeviceFamily::Spm).capabilities().has_power_supply,
        (DeviceFamily::Spm).capabilities().has_hold,
        family is Default ==> family.capabilities().has_beeper
            && family.capabilities().has_threshold && family.capabilities().rate_options.len() > 0,
{
}

/// A sampling rate is set by the initial of its name.
pub proof fn law_rates_go_by_their_initials(swap: bool, index: int)
    ensures
        ({
            let family = DeviceFamily::Default { swap_diod_cont: swap };
            let names = family.capabilities().rate_options;
            &&& names.len() == 3
            &&& 0 <= index < names.len() ==> names[index].len() > 0 && family.rate_command(index)
                == Some("RATE "@ + seq![names[index][0]] + "\n"@)
            &&& names[0] == "Slow"@
            &&& names[1] == "Medium"@
            &&& names[2] == "Fast"@
        }),
{
    reveal_strlit("Slow");
    reveal_strlit("Medium");
    reveal_strlit("Fast");
    reveal_strlit("RATE ");
    reveal_strlit("\n");
    reveal_strlit("RATE S\n");
    reveal_strlit("RATE M\n");
    reveal_strlit("RATE F\n");
    assert("RATE S\n"@ =~= "RATE "@ + seq!['S'] + "\n"@);
    assert("RATE M\n"@ =~= "RATE "@ + seq!['M'] + "\n"@);
    assert("RATE F\n"@ =~= "RATE "@ + seq!['F'] + "\n"@);
}

/// Everything that can be switched is switched on by `ON` and off by `OFF`.
pub proof fn law_switches_say_on_and_off(swap: bool, on: bool)
    ensures
        ({
            let word = if on {
                "ON"@
            } else {
                "OFF"@
            };
            &&& DeviceFamily::Spm.ps_output_command(on) == Some("OUTP "@ + word + "\n"@)
            &&& DeviceFamily::Spm.hold_command(on) == Some("MULT:HOLD "@ + word + "\n"@)
            &&& (DeviceFamily::Default { swap_diod_cont: swap }).beeper_command(on) == Some(
                "SYST:BEEP:STATe "@ + word + "\n"@,
            )
        }),
{
    reveal_strlit("ON");
    reveal_strlit("OFF");
    reveal_strlit("\n");
    reveal_strlit("OUTP ");
    reveal_strlit("MULT:HOLD ");
    reveal_strlit("SYST:BEEP:STATe ");
    reveal_strlit("OUTP ON\n");
    reveal_strlit("OUTP OFF\n");
    reveal_strlit("MULT:HOLD ON\n");
    reveal_strlit("MULT:HOLD OFF\n");
    reveal_strlit("SYST:BEEP:STATe ON\n");
    reveal_strlit("SYST:BEEP:STATe OFF\n");
    assert("OUTP ON\n"@ =~= "OUTP "@ + "ON"@ + "\n"@);
    assert("OUTP OFF\n"@ =~= "OUTP "@ + "OFF"@ + "\n"@);
    assert("MULT:HOLD ON\n"@ =~= "MULT:HOLD "@ + "ON"@ + "\n"@);
    assert("MULT:HOLD OFF\n"@ =~= "MULT:HOLD "@ + "OFF"@ + "\n"@);
    assert("SYST:BEEP:STATe ON\n"@ =~= "SYST:BEEP:STATe "@ + "ON"@ + "\n"@);
    assert("SYST:BEEP:STATe OFF\n"@ =~= "SYST:BEEP:STATe "@ + "OFF"@ + "\n"@);
}

/// The modes of an instrument are each listed once. A bench multimeter measures in every mode; a
/// power supply's meter in every mode but frequency, period and temperature. Model and family agree,
/// and every mode with ranges is among them.
pub proof fn law_modes_are_listed_once(family: DeviceFamily, mode: MeterMode)
    ensures
        ({
            let modes = family.capabilities().supported_modes;
            &&& forall|i: int, j: int| 0 <= i < j < modes.len() ==> modes[i] != modes[j]
            &&& family is Default ==> modes.contains(mode)
            &&& family is Spm ==> modes.contains(mode) == !(mode == MeterMode::Freq || mode
                == MeterMode::Per || mode == MeterMode::Temp)
            &&& family is Default ==> DeviceModel::Xdm1041.supports_mode(mode)
            &&& family is Spm ==> DeviceModel::Spm6103.supports_mode(mode) == modes.contains(mode)
            &&& family.range_table(mode) is Some ==> modes.contains(mode)
        }),
{
    let modes = family.capabilities().supported_modes;
    assert(modes[0] == MeterMode::Vdc && modes[1] == MeterMode::Vac && modes[2] == MeterMode::Adc
        && modes[3] == MeterMode::Aac && modes[4] == MeterMode::Res && modes[5] == MeterMode::Cap);
    match family {
        DeviceFamily::Default { .. } => {
            assert(modes[6] == MeterMode::Freq && modes[7] == MeterMode::Per && modes[8]
                == MeterMode::Diod && modes[9] == MeterMode::Cont && modes[10] == MeterMode::Temp);
        },
        DeviceFamily::Spm => {
            assert(modes[6] == MeterMode::Diod && modes[7] == MeterMode::Cont);
        },
    }
}

/// Every mode of an instrument has its button, in order, with the label of that mode.
pub proof fn law_every_mode_has_its_button(family: DeviceFamily, i: int)
    ensures
        ({
            let modes = family.capabilities().supported_modes;
            &&& buttons(family).len() == modes.len()
            &&& 0 <= i < modes.len() ==> buttons(family)[i].0 == modes[i] && buttons(family)[i].1
                == label_text(modes[i])
        }),
{
}

/// The model has the limits of its family.
pub proof fn law_models_have_the_limits_of_their_family(swap: bool)
    ensures
        DeviceModel::Spm6103.limits()
            == DeviceFamily::Spm.capabilities().power_supply_limits,
        DeviceModel::Xdm1041.limits() == (DeviceFamily::Default {
            swap_diod_cont: swap,
        }).capabilities().power_supply_limits,
{
}

/// Nothing is pending once every single change is settled, and only then.
pub proof fn law_nothing_pending_means_nothing(pending: Pending)
    ensures
        (pending == nothing_pending()) == (pending.output_on is None && pending.voltage_set is None
            && pending.current_set is None && pending.ovp is None && pending.ocp is None
            && pending.range is None && pending.mode is None),
{
}

} // verus!
