//! The state of a session, and how the user's actions and the instrument's reports change it.

use crate::double::{from_u32, whole, Double, NAN, ONE, ZERO};
use crate::multimeter::MeterMode;
use crate::plugins::family::DeviceFamily;
use crate::plugins::{
    default_plugin, nothing_pending, DevicePlugin, Pending, PendingChanges, Plugin, PsSetting,
};
use crate::serial::{command_lines, confirm_mode, confirmed, split_commands};
use crate::settings::{Record, RecordingMode, Settings};
use crate::tables::{label_text, unit_text};
use crate::text::{join, string, strings, texts};
use std::collections::VecDeque;
use vstd::prelude::*;

verus! {

/// The bits of five: default voltage.
pub const PS_VOLTAGE_DEFAULT: u64 = 0x4014_0000_0000_0000;

/// The bits of thirty-two: default overvoltage protection.
pub const PS_OVP_DEFAULT: u64 = 0x4040_0000_0000_0000;

/// The bits of the double nearest to 3.2: default overcurrent protection.
pub const PS_OCP_DEFAULT: u64 = 0x4009_9999_9999_999a;

/// The bits of the double nearest to one ten-thousandth: default precision.
pub const PRECISION_DEFAULT: u64 = 0x3f1a_36e2_eb1c_432d;

/// How often a mode change is sent before it is given up.
pub const MODE_RETRIES: u32 = 5;

/// Whether there is a connection.
#[derive(Clone, Copy, PartialEq, Eq, Debug, Structural)]
pub enum ConnectionState {
    Disconnected,
    Connecting,
    Connected,
}

/// A power supply setting: its value, and the text in its input box.
#[derive(Debug)]
pub struct PsField {
    pub value: Double,
    pub input: String,
}

impl PsField {
    /// Changes the value, and the input box if there is a text for it.
    fn change(&mut self, value: Double, text: Option<String>)
        ensures
            final(self).value == value,
            final(self).input@ == (match text {
                Some(text) => text@,
                None => old(self).input@,
            }),
    {
        self.value = value;
        match text {
            Some(text) => {
                self.input = text;
            },
            None => {},
        }
    }
}

/// The state of a session.
#[derive(Debug)]
pub struct Session {
    pub settings: Settings,
    pub recording_open: bool,
    pub recording_data: Vec<Record>,
    /// Length of `recording_data` when it was last shown.
    pub recording_data_len: usize,
    pub curr_meter: String,
    pub metermode: MeterMode,
    /// The last configuration command.
    pub confstring: String,
    pub curr_meas: Double,
    /// Smallest resolvable step of the measurement, in the base unit.
    pub curr_precision: Double,
    pub curr_unit: String,
    pub issue_new_write: bool,
    pub portlist: VecDeque<String>,
    /// Values in the graph.
    pub values: VecDeque<Double>,
    /// Values in the histogram.
    pub hist_values: VecDeque<Double>,
    /// Identification of the instrument.
    pub device: String,
    pub settings_open: bool,
    pub is_init: bool,
    pub curr_range: usize,
    /// The mode that is being changed to; range reports are ignored meanwhile.
    pub pending_mode_change: Option<MeterMode>,
    pub last_graph_update: Double,
    pub last_hist_collect_time: Double,
    pub connection_state: ConnectionState,
    pub connection_error: Option<String>,
    pub meas_count: u32,
    pub last_record_time: Double,
    pub ps: PsPanel,
}

/// What is known of, and asked of, the power supply.
#[derive(Debug)]
pub struct PsPanel {
    pub output_on: bool,
    pub voltage: PsField,
    pub current: PsField,
    pub ovp: PsField,
    pub ocp: PsField,
    pub voltage_readback: Double,
    pub current_readback: Double,
    pub power_readback: Double,
    pub initial_sync_done: bool,
    /// Whether an input box had the focus last.
    pub input_has_focus: bool,
    /// Whether the instrument is known to have no power supply.
    pub confirmed_non_ps: bool,
}

/// A reported setting of the power supply.
#[derive(Debug)]
pub struct SettingReport {
    pub value: Double,
    /// The value with three decimals.
    pub text: String,
    /// Whether the value differs from the pending one by less than two thousandths.
    pub near_pending: bool,
}

/// A report of the power supply's state.
#[derive(Debug)]
pub struct PsReport {
    pub output_on: bool,
    pub voltage_set: SettingReport,
    pub current_set: SettingReport,
    pub ovp: SettingReport,
    pub ocp: SettingReport,
    pub voltage_readback: Double,
    pub current_readback: Double,
    pub power_readback: Double,
    pub includes_settings: bool,
}

/// What one pass of the graph did.
#[derive(Clone, Copy, PartialEq, Eq, Debug, Structural)]
pub struct GraphPass {
    /// The measurement was added to the graph.
    pub sampled: bool,
    /// The measurement is to be recorded.
    pub record: bool,
}

/// The drop-down list of ranges.
#[derive(Debug)]
pub struct RangeChoice {
    pub names: Vec<&'static str>,
    /// The name of the current range.
    pub selected: &'static str,
    /// Whether there is anything to choose.
    pub enabled: bool,
}

/// Commands that accompany a mode change.
#[derive(Debug)]
pub struct ModeCommands {
    pub beeper: Option<String>,
    pub threshold: Option<String>,
}

/// What the connection line says.
#[derive(Clone, Copy, PartialEq, Eq, Debug)]
pub enum ConnectionText<'a> {
    Failed(&'a str),
    NotConnected,
    Connecting,
    AwaitingDevice,
    ConnectedTo(&'a str),
}

/// Whether a reported value takes the place of what the user asked for: nothing is pending, or the
/// report confirms it.
pub open spec fn accepted(pending: Option<Double>, report: SettingReport) -> bool {
    pending is None || report.near_pending
}

/// A setting after a report. An accepted value is taken over; its text is too, unless the user is
/// editing.
pub open spec fn synced(
    field: PsField,
    after: PsField,
    pending: Option<Double>,
    report: SettingReport,
    editing: bool,
) -> bool {
    &&& after.value == (if accepted(pending, report) {
        report.value
    } else {
        field.value
    })
    &&& after.input@ == (if accepted(pending, report) && !editing {
        report.text@
    } else {
        field.input@
    })
}

/// What is pending of a setting after a report.
pub open spec fn still_pending(pending: Option<Double>, report: SettingReport) -> Option<Double> {
    if accepted(pending, report) {
        None
    } else {
        pending
    }
}

/// The pending changes after a report of the power supply's state.
pub open spec fn pending_reported(pending: Pending, report: PsReport) -> Pending {
    let switched = Pending {
        output_on: if pending.output_on == Some(report.output_on) {
            None
        } else {
            pending.output_on
        },
        ..pending
    };
    if report.includes_settings {
        Pending {
            voltage_set: still_pending(pending.voltage_set, report.voltage_set),
            current_set: still_pending(pending.current_set, report.current_set),
            ovp: still_pending(pending.ovp, report.ovp),
            ocp: still_pending(pending.ocp, report.ocp),
            ..switched
        }
    } else {
        switched
    }
}

/// What is known of the power supply before and after a report of its state, given what was
/// pending.
pub open spec fn reported(
    before: PsPanel,
    after: PsPanel,
    pending: Pending,
    report: PsReport,
) -> bool {
    let editing = before.input_has_focus;
    &&& if report.includes_settings {
        &&& synced(
            before.voltage,
            after.voltage,
            pending.voltage_set,
            report.voltage_set,
            editing,
        )
        &&& synced(
            before.current,
            after.current,
            pending.current_set,
            report.current_set,
            editing,
        )
        &&& synced(before.ovp, after.ovp, pending.ovp, report.ovp, editing)
        &&& synced(before.ocp, after.ocp, pending.ocp, report.ocp, editing)
    } else {
        &&& after.voltage == before.voltage
        &&& after.current == before.current
        &&& after.ovp == before.ovp
        &&& after.ocp == before.ocp
    }
    &&& after == (PsPanel {
        output_on: if pending.output_on is None || pending.output_on == Some(report.output_on) {
            report.output_on
        } else {
            before.output_on
        },
        voltage: after.voltage,
        current: after.current,
        ovp: after.ovp,
        ocp: after.ocp,
        voltage_readback: report.voltage_readback,
        current_readback: report.current_readback,
        power_readback: report.power_readback,
        initial_sync_done: true,
        ..before
    })
}

// ---------------------------------------------------------------------------------------------
// What each step does
// ---------------------------------------------------------------------------------------------

/// The output is asked to be switched: what is shown and what is pending is the other state.
pub open spec fn output_toggled(
    before: PsPanel,
    after: PsPanel,
    pending: Pending,
    wanted: Pending,
) -> bool {
    &&& after == (PsPanel { output_on: !before.output_on, ..before })
    &&& wanted == (Pending { output_on: Some(!before.output_on), ..pending })
}

/// A value of a setting is asked for, with a text for its input box if there is one.
pub open spec fn requested(
    before: PsPanel,
    after: PsPanel,
    pending: Pending,
    wanted: Pending,
    setting: PsSetting,
    value: Double,
    text: Option<Seq<char>>,
) -> bool {
    &&& wanted == asked(pending, setting, value)
    &&& after == before.with_field(setting, after.field(setting))
    &&& after.field(setting).value == value
    &&& after.field(setting).input@ == (match text {
        Some(text) => text,
        None => before.field(setting).input@,
    })
}

/// The instrument is seen in a mode. What was collected in another mode is dropped, and a mode
/// change to this mode is settled.
pub open spec fn mode_noted(
    before: Session,
    after: Session,
    pending: Pending,
    left: Pending,
    mode: MeterMode,
) -> bool {
    let settled = before.pending_mode_change == Some(mode);
    &&& mode != before.metermode ==> {
        &&& after.curr_unit@ == unit_text(mode)
        &&& after.values@.len() == 0
        &&& after.hist_values@.len() == 0
    }
    &&& after == (if mode != before.metermode {
        Session {
            metermode: mode,
            values: after.values,
            hist_values: after.hist_values,
            curr_unit: after.curr_unit,
            curr_range: 0,
            pending_mode_change: after.pending_mode_change,
            ..before
        }
    } else {
        Session { pending_mode_change: after.pending_mode_change, ..before }
    })
    &&& after.pending_mode_change == (if settled {
        None
    } else {
        before.pending_mode_change
    })
    &&& left == (if settled {
        confirmed(pending, mode)
    } else {
        pending
    })
}

/// The instrument is seen in a range of a mode. While a mode change is pending, in another mode,
/// and while another range is awaited, that is ignored.
pub open spec fn range_noted(
    before: Session,
    after: Session,
    pending: Pending,
    left: Pending,
    mode: MeterMode,
    index: usize,
) -> bool {
    let ignored = before.pending_mode_change is Some || mode != before.metermode || (
    pending.range matches Some((expected, _)) && expected != index);
    if ignored {
        after == before && left == pending
    } else {
        after == (Session { curr_range: index, ..before }) && left == (Pending {
            range: None,
            ..pending
        })
    }
}

/// One pass of the graph.
pub open spec fn graph_updated(
    before: Session,
    after: Session,
    now: Double,
    due: bool,
    record_due: bool,
    pass: GraphPass,
) -> bool {
    let active = due && !before.settings.hold_enabled;
    let sampled = active && !before.curr_meas.nan();
    let record = sampled && before.settings.recording_active && before.settings.recording_mode
        == RecordingMode::FixedInterval && record_due;
    &&& pass == (GraphPass { sampled, record })
    &&& sampled ==> after.values@ == appended(
        before.values@,
        before.curr_meas,
        before.settings.mem_depth as int,
    )
    &&& after == (Session {
        values: if sampled {
            after.values
        } else {
            before.values
        },
        last_record_time: if record {
            now
        } else {
            before.last_record_time
        },
        last_graph_update: if active {
            now
        } else {
            before.last_graph_update
        },
        ..before
    })
}

/// Whether the last value in the graph is at or below the threshold of the continuity or diode
/// test.
pub open spec fn under_threshold(
    values: Seq<Double>,
    mode: MeterMode,
    settings: Settings,
) -> bool {
    values.len() > 0 && !values.last().nan() && match mode {
        MeterMode::Cont => values.last().value() <= whole(settings.cont_threshold as nat),
        MeterMode::Diod => values.last().at_most(settings.diod_threshold),
        _ => false,
    }
}

/// The user changes the mode. The change is pending, and a diode or continuity test is set up; the
/// diode threshold is given in decimal notation.
pub open spec fn mode_set(
    before: Session,
    after: Session,
    pending: Pending,
    wanted: Pending,
    mode: MeterMode,
    family: DeviceFamily,
    volts: Seq<char>,
    beeper: Option<Seq<char>>,
    threshold: Option<Seq<char>>,
) -> bool {
    &&& wanted == mode_asked(pending, mode, family)
    &&& beeper == beeper_for(mode, family, before.settings.beeper_enabled)
    &&& threshold == threshold_for(mode, family, before.settings.cont_threshold, volts)
    &&& after.curr_unit@ == unit_text(mode)
    &&& after.confstring@ == family.mode_command(mode)
    &&& after.values@.len() == 0
    &&& after.hist_values@.len() == 0
    &&& after == (Session {
        pending_mode_change: Some(mode),
        metermode: mode,
        curr_unit: after.curr_unit,
        curr_range: 0,
        confstring: after.confstring,
        values: after.values,
        hist_values: after.hist_values,
        ..before
    })
}

/// The pending changes with a mode asked for.
pub open spec fn mode_asked(pending: Pending, mode: MeterMode, family: DeviceFamily) -> Pending {
    Pending { mode: Some((mode, family.mode_command(mode), MODE_RETRIES)), ..pending }
}

/// The command for the beeper that a mode needs.
pub open spec fn beeper_for(mode: MeterMode, family: DeviceFamily, enabled: bool) -> Option<
    Seq<char>,
> {
    if (mode == MeterMode::Diod || mode == MeterMode::Cont) && family.capabilities().has_beeper {
        family.beeper_command(enabled)
    } else {
        None
    }
}

/// The command for the threshold of a mode: that of the continuity test in ohms, that of the diode
/// test in volts.
pub open spec fn threshold_for(
    mode: MeterMode,
    family: DeviceFamily,
    ohms: u32,
    volts: Seq<char>,
) -> Option<Seq<char>> {
    if !family.capabilities().has_threshold {
        None
    } else {
        match mode {
            MeterMode::Cont => family.cont_threshold_command(ohms),
            MeterMode::Diod => family.diod_threshold_command(volts),
            _ => None,
        }
    }
}

/// The drop-down list for the names of the current mode's ranges, if it has any. A range index
/// beyond them falls back to the first.
pub open spec fn range_offered(
    before: Session,
    after: Session,
    family: DeviceFamily,
    choice: Option<RangeChoice>,
) -> bool {
    match family.range_names(before.metermode) {
        Some(names) => {
            let index = if before.curr_range < names.len() {
                before.curr_range
            } else {
                0
            };
            &&& after == (Session { curr_range: index, ..before })
            &&& choice is Some
            &&& texts(choice->0.names@) == names
            &&& choice->0.selected@ == (if names.len() > 0 {
                names[index as int]
            } else {
                "auto"@
            })
            &&& choice->0.enabled == (names.len() > 1)
        },
        None => choice is None && after == before,
    }
}

/// The pending changes with a range asked for, if there is a command for it.
pub open spec fn range_asked(
    pending: Pending,
    index: usize,
    command: Option<Seq<char>>,
) -> Pending {
    match command {
        Some(command) => Pending { range: Some((index, command)), ..pending },
        None => pending,
    }
}

/// The lines of a command, if there is one.
pub open spec fn lines_of(command: Option<Seq<char>>) -> Seq<Seq<char>> {
    match command {
        Some(command) => command_lines(command),
        None => seq![],
    }
}

/// The user changes the range. The change is pending, and its commands are sent at once.
pub open spec fn range_chosen(
    before: Session,
    after: Session,
    pending: Pending,
    wanted: Pending,
    index: usize,
    family: DeviceFamily,
    commands: Seq<Seq<char>>,
) -> bool {
    let command = family.range_command(before.metermode, index as int);
    &&& after == (Session { curr_range: index, ..before })
    &&& wanted == range_asked(pending, index, command)
    &&& commands == lines_of(command)
}

/// The contents of modes with labels.
pub open spec fn labelled(v: Seq<(MeterMode, String)>) -> Seq<(MeterMode, Seq<char>)> {
    Seq::new(v.len(), |i: int| (v[i].0, v[i].1@))
}

/// The buttons for the modes of an instrument, with their labels.
pub open spec fn buttons(family: DeviceFamily) -> Seq<(MeterMode, Seq<char>)> {
    let modes = family.capabilities().supported_modes;
    Seq::new(modes.len(), |i: int| (modes[i], label_text(modes[i])))
}

/// The user changes the sampling rate.
pub open spec fn rate_chosen(
    before: Session,
    after: Session,
    index: usize,
    family: DeviceFamily,
    command: Option<Seq<char>>,
) -> bool {
    &&& command == family.rate_command(index as int)
    &&& after.confstring@ == (match command {
        Some(text) => text,
        None => before.confstring@,
    })
    &&& after == (Session {
        settings: Settings { curr_rate: index, ..before.settings },
        confstring: after.confstring,
        ..before
    })
}

/// The user turns the beeper on or off, and the instrument is told.
pub open spec fn beeper_chosen(
    before: Session,
    after: Session,
    on: bool,
    family: DeviceFamily,
    command: Option<Seq<char>>,
) -> bool {
    &&& after == before.beeping(on)
    &&& command == family.beeper_command(on)
}

/// The session starts up, once: the ports are listed, the last one first.
pub open spec fn started(
    before: Session,
    after: Session,
    ports: Seq<Seq<char>>,
    connect: bool,
) -> bool {
    if before.is_init {
        !connect && after == before
    } else {
        &&& connect == (before.settings.connect_on_startup && before.settings.serial_port@.len()
            > 0)
        &&& strings(after.portlist@) == ports.reverse() + strings(before.portlist@)
        &&& after == (Session {
            portlist: after.portlist,
            connection_state: if connect {
                ConnectionState::Connecting
            } else {
                before.connection_state
            },
            connection_error: if connect {
                None
            } else {
                before.connection_error
            },
            is_init: true,
            ..before
        })
    }
}

/// The connection could not be made, and why.
pub open spec fn failed(
    before: Session,
    after: Session,
    context: Seq<char>,
    reason: Seq<char>,
) -> bool {
    &&& string(after.connection_error) == Some(context + reason)
    &&& after == (Session {
        connection_state: ConnectionState::Disconnected,
        connection_error: after.connection_error,
        ..before
    })
}

/// The instrument is gone, and with it what it reported, what it was and what is pending.
pub open spec fn disconnected(
    before: Session,
    after: Session,
    family: DeviceFamily,
    pending: Pending,
) -> bool {
    &&& family == (DeviceFamily::Default { swap_diod_cont: false })
    &&& pending == nothing_pending()
    &&& after.device@ == ""@
    &&& after.values@.len() == 0
    &&& after.hist_values@.len() == 0
    &&& after == (Session {
        connection_state: ConnectionState::Disconnected,
        connection_error: None,
        device: after.device,
        curr_meas: Double { bits: NAN },
        values: after.values,
        hist_values: after.hist_values,
        meas_count: 0,
        ps: before.ps.forgotten(),
        ..before
    })
}

/// What the connection line says of a session.
pub open spec fn says(session: Session, text: ConnectionText) -> bool {
    match session.connection_state {
        ConnectionState::Disconnected => match session.connection_error {
            Some(error) => text matches ConnectionText::Failed(words) && words@ == error@,
            None => text is NotConnected,
        },
        ConnectionState::Connecting => text is Connecting,
        ConnectionState::Connected => if session.device@.len() > 0 {
            text matches ConnectionText::ConnectedTo(words) && words@ == session.device@
        } else {
            text is AwaitingDevice
        },
    }
}

impl Session {
    /// With another measurement.
    pub open spec fn measuring(self, meas: Double, precision: Double) -> Session {
        Session { curr_meas: meas, curr_precision: precision, ..self }
    }

    /// With what is known of an instrument's power supply once it is connected and identified.
    pub open spec fn knowing(self, family: DeviceFamily) -> Session {
        Session {
            ps: PsPanel {
                confirmed_non_ps: self.ps.confirmed_non_ps || (self.connection_state
                    == ConnectionState::Connected && self.device@.len() > 0
                    && !family.capabilities().has_power_supply),
                ..self.ps
            },
            ..self
        }
    }

    /// The command that turns hold on or off, for an instrument with hardware hold.
    pub open spec fn hold_asked(self, family: DeviceFamily) -> Option<Seq<char>> {
        if family.capabilities().has_hold {
            family.hold_command(!self.settings.hold_enabled)
        } else {
            None
        }
    }

    /// Whether the threshold of the current test is undercut.
    pub open spec fn tripped(self) -> bool {
        under_threshold(self.values@, self.metermode, self.settings)
    }

    /// The command for the threshold of the current mode; the diode threshold is given in decimal
    /// notation.
    pub open spec fn threshold_request(self, family: DeviceFamily, volts: Seq<char>) -> Option<
        Seq<char>,
    > {
        threshold_for(self.metermode, family, self.settings.cont_threshold, volts)
    }

    /// With the beeper on or off.
    pub open spec fn beeping(self, on: bool) -> Session {
        Session { settings: Settings { beeper_enabled: on, ..self.settings }, ..self }
    }

    /// While a connection is being made.
    pub open spec fn connecting(self) -> Session {
        Session {
            connection_state: ConnectionState::Connecting,
            connection_error: None,
            ..self
        }
    }

    /// Once the connection is made.
    pub open spec fn linked(self) -> Session {
        Session { connection_state: ConnectionState::Connected, ..self }
    }
}

impl PsPanel {
    /// Without what a disconnected power supply reported. The settings stay.
    pub open spec fn forgotten(self) -> PsPanel {
        PsPanel {
            output_on: false,
            voltage_readback: Double { bits: ZERO },
            current_readback: Double { bits: ZERO },
            power_readback: Double { bits: ZERO },
            initial_sync_done: false,
            confirmed_non_ps: false,
            ..self
        }
    }
}

/// Takes a report of one setting over.
fn sync_setting(
    field: &mut PsField,
    pending: &mut Option<Double>,
    report: &SettingReport,
    editing: bool,
)
    ensures
        synced(*old(field), *final(field), *old(pending), *report, editing),
        *final(pending) == still_pending(*old(pending), *report),
{
    if pending.is_none() || report.near_pending {
        *pending = None;
        field.value = report.value;
        if !editing {
            field.input = report.text.clone();
        }
    }
}

impl Default for PsPanel {
    fn default() -> (r: PsPanel)
        ensures
            r.voltage.input@ == "5.000"@,
            r.current.input@ == "1.000"@,
            r.ovp.input@ == "32.000"@,
            r.ocp.input@ == "3.200"@,
            r == (PsPanel {
                output_on: false,
                voltage: PsField {
                    value: Double { bits: PS_VOLTAGE_DEFAULT },
                    input: r.voltage.input,
                },
                current: PsField { value: Double { bits: ONE }, input: r.current.input },
                ovp: PsField { value: Double { bits: PS_OVP_DEFAULT }, input: r.ovp.input },
                ocp: PsField { value: Double { bits: PS_OCP_DEFAULT }, input: r.ocp.input },
                voltage_readback: Double { bits: ZERO },
                current_readback: Double { bits: ZERO },
                power_readback: Double { bits: ZERO },
                initial_sync_done: false,
                input_has_focus: false,
                confirmed_non_ps: false,
            }),
    {
        PsPanel {
            output_on: false,
            voltage: PsField {
                value: Double { bits: PS_VOLTAGE_DEFAULT },
                input: "5.000".to_owned(),
            },
            current: PsField { value: Double { bits: ONE }, input: "1.000".to_owned() },
            ovp: PsField { value: Double { bits: PS_OVP_DEFAULT }, input: "32.000".to_owned() },
            ocp: PsField { value: Double { bits: PS_OCP_DEFAULT }, input: "3.200".to_owned() },
            voltage_readback: Double { bits: ZERO },
            current_readback: Double { bits: ZERO },
            power_readback: Double { bits: ZERO },
            initial_sync_done: false,
            input_has_focus: false,
            confirmed_non_ps: false,
        }
    }
}

impl PsPanel {
    /// Takes a report of the power supply's state over. What the user asked for is kept until a
    /// report confirms it.
    pub fn note_report(&mut self, report: &PsReport, pending: &mut PendingChanges)
        ensures
            final(pending)@ == pending_reported(old(pending)@, *report),
            reported(*old(self), *final(self), old(pending)@, *report),
    {
        match pending.output_on {
            Some(expected) => {
                if report.output_on == expected {
                    pending.output_on = None;
                    self.output_on = report.output_on;
                }
            },
            None => {
                self.output_on = report.output_on;
            },
        }
        self.voltage_readback = report.voltage_readback;
        self.current_readback = report.current_readback;
        self.power_readback = report.power_readback;
        if report.includes_settings {
            let editing: bool = self.input_has_focus;
            sync_setting(
                &mut self.voltage,
                &mut pending.voltage_set,
                &report.voltage_set,
                editing,
            );
            sync_setting(
                &mut self.current,
                &mut pending.current_set,
                &report.current_set,
                editing,
            );
            sync_setting(&mut self.ovp, &mut pending.ovp, &report.ovp, editing);
            sync_setting(&mut self.ocp, &mut pending.ocp, &report.ocp, editing);
        }
        self.initial_sync_done = true;
    }

    /// Asks for the output to be switched.
    pub fn toggle_output(&mut self, pending: &mut PendingChanges)
        ensures
            output_toggled(*old(self), *final(self), old(pending)@, final(pending)@),
    {
        let new_state: bool = !self.output_on;
        self.output_on = new_state;
        pending.output_on = Some(new_state);
    }

    /// The value and input box of a setting.
    pub open spec fn field(self, setting: PsSetting) -> PsField {
        match setting {
            PsSetting::Voltage => self.voltage,
            PsSetting::Current => self.current,
            PsSetting::Ovp => self.ovp,
            PsSetting::Ocp => self.ocp,
        }
    }

    /// With another setting in place.
    pub open spec fn with_field(self, setting: PsSetting, field: PsField) -> PsPanel {
        match setting {
            PsSetting::Voltage => PsPanel { voltage: field, ..self },
            PsSetting::Current => PsPanel { current: field, ..self },
            PsSetting::Ovp => PsPanel { ovp: field, ..self },
            PsSetting::Ocp => PsPanel { ocp: field, ..self },
        }
    }

    /// Asks for a value of a setting. `text` is what to write into the input box, if anything.
    pub fn request(
        &mut self,
        setting: PsSetting,
        value: Double,
        text: Option<String>,
        pending: &mut PendingChanges,
    )
        ensures
            requested(
                *old(self),
                *final(self),
                old(pending)@,
                final(pending)@,
                setting,
                value,
                string(text),
            ),
    {
        match setting {
            PsSetting::Voltage => {
                self.voltage.change(value, text);
                pending.voltage_set = Some(value);
            },
            PsSetting::Current => {
                self.current.change(value, text);
                pending.current_set = Some(value);
            },
            PsSetting::Ovp => {
                self.ovp.change(value, text);
                pending.ovp = Some(value);
            },
            PsSetting::Ocp => {
                self.ocp.change(value, text);
                pending.ocp = Some(value);
            },
        }
    }

    /// Forgets what a disconnected power supply reported. The settings stay.
    pub fn forget(&mut self)
        ensures
            *final(self) == old(self).forgotten(),
    {
        self.output_on = false;
        self.voltage_readback = Double { bits: ZERO };
        self.current_readback = Double { bits: ZERO };
        self.power_readback = Double { bits: ZERO };
        self.initial_sync_done = false;
        self.confirmed_non_ps = false;
    }
}

impl Default for Session {
    fn default() -> (r: Session)
        ensures
            call_ensures(Settings::default, (), r.settings),
            call_ensures(PsPanel::default, (), r.ps),
            r.recording_data@.len() == 0,
            r.curr_meter@ == ""@,
            r.confstring@ == ""@,
            r.curr_unit@ == "VDC"@,
            r.portlist@.len() == 0,
            r.values@.len() == 0,
            r.hist_values@.len() == 0,
            r.device@ == ""@,
            r == (Session {
                settings: r.settings,
                recording_open: false,
                recording_data: r.recording_data,
                recording_data_len: 0,
                curr_meter: r.curr_meter,
                metermode: MeterMode::Vdc,
                confstring: r.confstring,
                curr_meas: Double { bits: NAN },
                curr_precision: Double { bits: PRECISION_DEFAULT },
                curr_unit: r.curr_unit,
                issue_new_write: false,
                portlist: r.portlist,
                values: r.values,
                hist_values: r.hist_values,
                device: r.device,
                settings_open: false,
                is_init: false,
                curr_range: 0,
                pending_mode_change: None,
                last_graph_update: Double { bits: ZERO },
                last_hist_collect_time: Double { bits: ZERO },
                connection_state: ConnectionState::Disconnected,
                connection_error: None,
                meas_count: 0,
                last_record_time: Double { bits: ZERO },
                ps: r.ps,
            }),
    {
        Session {
            settings: Settings::default(),
            recording_open: false,
            recording_data: Vec::new(),
            recording_data_len: 0,
            curr_meter: "".to_owned(),
            metermode: MeterMode::Vdc,
            confstring: "".to_owned(),
            curr_meas: Double { bits: NAN },
            curr_precision: Double { bits: PRECISION_DEFAULT },
            curr_unit: "VDC".to_owned(),
            issue_new_write: false,
            portlist: VecDeque::new(),
            values: VecDeque::new(),
            hist_values: VecDeque::new(),
            device: "".to_owned(),
            settings_open: false,
            is_init: false,
            curr_range: 0,
            pending_mode_change: None,
            last_graph_update: Double { bits: ZERO },
            last_hist_collect_time: Double { bits: ZERO },
            connection_state: ConnectionState::Disconnected,
            connection_error: None,
            meas_count: 0,
            last_record_time: Double { bits: ZERO },
            ps: PsPanel::default(),
        }
    }
}

/// The values with one more, of which the newest `depth` are kept.
pub open spec fn appended(values: Seq<Double>, value: Double, depth: int) -> Seq<Double> {
    let grown = values.push(value);
    if grown.len() > depth {
        grown.skip(grown.len() - depth)
    } else {
        grown
    }
}

/// Adds a value and keeps the newest `depth`.
pub fn append(values: &mut VecDeque<Double>, value: Double, depth: usize)
    ensures
        final(values)@ == appended(old(values)@, value, depth as int),
{
    values.push_back(value);
    let ghost grown = values@;
    let ghost mut dropped: int = 0;
    assert(values@ =~= grown.skip(0));
    while values.len() > depth
        invariant
            0 <= dropped <= grown.len(),
            values@ == grown.skip(dropped),
            dropped == 0 || grown.len() - dropped >= depth,
        decreases values@.len(),
    {
        values.pop_front();
        proof {
            dropped = dropped + 1;
            assert(values@ =~= grown.skip(dropped));
        }
    }
}

impl Session {
    // -----------------------------------------------------------------------------------------
    // Reports of the instrument
    // -----------------------------------------------------------------------------------------

    /// Takes a measurement over.
    pub fn note_measurement(&mut self, meas: Double, precision: Double)
        ensures
            *final(self) == old(self).measuring(meas, precision),
    {
        self.curr_meas = meas;
        self.curr_precision = precision;
    }

    /// Takes the mode over that the instrument is in. What was collected in another mode is
    /// dropped. A mode change to this mode is settled.
    pub fn note_mode(&mut self, mode: MeterMode, plugin: &Plugin, pending: &mut PendingChanges)
        ensures
            mode_noted(*old(self), *final(self), old(pending)@, final(pending)@, mode),
    {
        if mode != self.metermode {
            self.metermode = mode;
            self.values = VecDeque::with_capacity(self.settings.mem_depth);
            self.hist_values = VecDeque::with_capacity(self.settings.hist_mem_depth);
            self.curr_unit = plugin.mode_unit(mode).to_owned();
            self.curr_range = 0;
        }
        let settled: bool = match self.pending_mode_change {
            Some(target) => target == mode,
            None => false,
        };
        if settled {
            self.pending_mode_change = None;
            confirm_mode(pending, mode);
        }
    }

    /// Takes the range over that the instrument is in, if it belongs to the current mode. While a
    /// mode change is pending it is ignored; while a range change is pending only its target is
    /// taken over, and settles the change.
    pub fn note_range(&mut self, mode: MeterMode, range_idx: usize, pending: &mut PendingChanges)
        ensures
            range_noted(*old(self), *final(self), old(pending)@, final(pending)@, mode, range_idx),
    {
        if self.pending_mode_change.is_some() || mode != self.metermode {
            return ;
        }
        let expected: Option<usize> = match &pending.range {
            Some((expected, _)) => Some(*expected),
            None => None,
        };
        match expected {
            Some(expected) => {
                if expected == range_idx {
                    pending.range = None;
                    self.curr_range = range_idx;
                }
            },
            None => {
                self.curr_range = range_idx;
            },
        }
    }

    /// Notes that a connected instrument has no power supply, once it is identified.
    pub fn note_capabilities(&mut self, plugin: &Plugin)
        ensures
            *final(self) == old(self).knowing(plugin.family()),
    {
        if self.connection_state == ConnectionState::Connected {
            if !self.device.as_str().is_empty() {
                if !plugin.capabilities().has_power_supply {
                    self.ps.confirmed_non_ps = true;
                }
            }
        }
    }

    // -----------------------------------------------------------------------------------------
    // Graph and recording
    // -----------------------------------------------------------------------------------------

    /// Adds the current measurement to the graph when an update is due, unless the display is on
    /// hold or nothing was measured yet. The graph keeps the newest values. `record_due` tells
    /// whether the recording interval has passed.
    pub fn update_graph(&mut self, now: Double, due: bool, record_due: bool) -> (pass: GraphPass)
        ensures
            graph_updated(*old(self), *final(self), now, due, record_due, pass),
    {
        let mut pass: GraphPass = GraphPass { sampled: false, record: false };
        if !self.settings.hold_enabled && due {
            if !self.curr_meas.is_nan() {
                append(&mut self.values, self.curr_meas, self.settings.mem_depth);
                pass.sampled = true;
                let fixed: bool = match self.settings.recording_mode {
                    RecordingMode::FixedInterval => true,
                    RecordingMode::Manual => false,
                };
                if self.settings.recording_active && fixed && record_due {
                    pass.record = true;
                    self.last_record_time = now;
                }
            }
            self.last_graph_update = now;
        }
        pass
    }

    /// Whether the last value in the graph is at or below the threshold of the continuity or diode
    /// test.
    pub fn below_threshold(&self) -> (b: bool)
        ensures
            b == self.tripped(),
    {
        if self.values.len() == 0 {
            return false;
        }
        let last: Double = self.values[self.values.len() - 1];
        match self.metermode {
            MeterMode::Cont => last.le(from_u32(self.settings.cont_threshold)),
            MeterMode::Diod => last.le(self.settings.diod_threshold),
            _ => false,
        }
    }

    // -----------------------------------------------------------------------------------------
    // Actions of the user
    // -----------------------------------------------------------------------------------------

    /// The session with hold turned on or off. When hold ends, the next graph update is due at
    /// once.
    pub open spec fn hold_toggled(self) -> Session {
        let on = !self.settings.hold_enabled;
        Session {
            settings: Settings { hold_enabled: on, ..self.settings },
            last_graph_update: if on {
                self.last_graph_update
            } else {
                Double { bits: ZERO }
            },
            ..self
        }
    }

    /// Turns hold on or off. Yields the command for an instrument with hardware hold.
    pub fn toggle_hold(&mut self, plugin: &Plugin) -> (command: Option<String>)
        ensures
            *final(self) == old(self).hold_toggled(),
            string(command) == old(self).hold_asked(plugin.family()),
    {
        self.settings.hold_enabled = !self.settings.hold_enabled;
        if !self.settings.hold_enabled {
            self.last_graph_update = Double { bits: ZERO };
        }
        if plugin.capabilities().has_hold {
            plugin.hold_command(self.settings.hold_enabled)
        } else {
            None
        }
    }

    /// Changes the mode. The change is pending until the instrument confirms it. Yields the
    /// beeper and threshold commands that a diode or continuity test needs; `diod_threshold` is
    /// the diode threshold in decimal notation.
    pub fn set_mode(
        &mut self,
        mode: MeterMode,
        plugin: &Plugin,
        pending: &mut PendingChanges,
        diod_threshold: &str,
    ) -> (commands: ModeCommands)
        ensures
            mode_set(
                *old(self),
                *final(self),
                old(pending)@,
                final(pending)@,
                mode,
                plugin.family(),
                diod_threshold@,
                string(commands.beeper),
                string(commands.threshold),
            ),
    {
        let mode_cmd: String = plugin.mode_command(mode);
        self.pending_mode_change = Some(mode);
        self.metermode = mode;
        self.curr_unit = plugin.mode_unit(mode).to_owned();
        self.curr_range = 0;
        self.confstring = mode_cmd.clone();
        pending.mode = Some((mode, mode_cmd, MODE_RETRIES));
        let mut commands: ModeCommands = ModeCommands { beeper: None, threshold: None };
        if mode == MeterMode::Diod || mode == MeterMode::Cont {
            if plugin.capabilities().has_beeper {
                commands.beeper = plugin.beeper_command(self.settings.beeper_enabled);
            }
            if plugin.capabilities().has_threshold {
                commands.threshold = if mode == MeterMode::Cont {
                    plugin.cont_threshold_command(self.settings.cont_threshold)
                } else {
                    plugin.diod_threshold_command(diod_threshold)
                };
            }
        }
        self.values = VecDeque::with_capacity(self.settings.mem_depth);
        self.hist_values = VecDeque::with_capacity(self.settings.hist_mem_depth);
        commands
    }

    /// The drop-down list of the current mode's ranges, if it has any. A range index beyond them
    /// falls back to the first.
    pub fn range_choice(&mut self, plugin: &Plugin) -> (r: Option<RangeChoice>)
        ensures
            range_offered(*old(self), *final(self), plugin.family(), r),
    {
        match plugin.range_info(self.metermode) {
            Some(info) => {
                let names: Vec<&'static str> = info.ranges;
                assert(texts(names@).len() == names@.len());
                if self.curr_range >= names.len() {
                    self.curr_range = 0;
                }
                let selected: &'static str = if self.curr_range < names.len() {
                    names[self.curr_range]
                } else {
                    "auto"
                };
                let enabled: bool = names.len() > 1;
                Some(RangeChoice { names, selected, enabled })
            },
            None => None,
        }
    }

    /// Changes the range. The change is pending until the instrument confirms it. Yields the
    /// commands to send at once.
    pub fn choose_range(
        &mut self,
        index: usize,
        plugin: &Plugin,
        pending: &mut PendingChanges,
    ) -> (commands: Vec<String>)
        ensures
            range_chosen(
                *old(self),
                *final(self),
                old(pending)@,
                final(pending)@,
                index,
                plugin.family(),
                strings(commands@),
            ),
    {
        self.curr_range = index;
        match plugin.range_command(self.metermode, index) {
            Some(command) => {
                let commands: Vec<String> = split_commands(command.as_str());
                pending.range = Some((index, command));
                commands
            },
            None => {
                let commands: Vec<String> = Vec::new();
                assert(strings(commands@) =~= seq![]);
                commands
            },
        }
    }

    /// Takes note of a configuration command.
    fn remember(&mut self, command: &Option<String>)
        ensures
            final(self).confstring@ == (match *command {
                Some(text) => text@,
                None => old(self).confstring@,
            }),
            *final(self) == (Session { confstring: final(self).confstring, ..*old(self) }),
    {
        if let Some(text) = command {
            self.confstring = text.clone();
        }
    }

    /// Changes the sampling rate. Yields the command.
    pub fn choose_rate(&mut self, index: usize, plugin: &Plugin) -> (command: Option<String>)
        ensures
            rate_chosen(*old(self), *final(self), index, plugin.family(), string(command)),
    {
        let command: Option<String> = plugin.rate_command(index);
        self.settings.curr_rate = index;
        self.remember(&command);
        command
    }

    /// Turns the beeper on or off. Yields the command.
    pub fn choose_beeper(&mut self, on: bool, plugin: &Plugin) -> (command: Option<String>)
        ensures
            beeper_chosen(*old(self), *final(self), on, plugin.family(), string(command)),
    {
        self.settings.beeper_enabled = on;
        plugin.beeper_command(on)
    }

    /// The command that sets the threshold of the current test: that of the continuity test in
    /// ohms, that of the diode test in volts. `diod_threshold` is the diode threshold in decimal
    /// notation. There is none in other modes, nor for an instrument without thresholds.
    pub fn threshold_command(&self, plugin: &Plugin, diod_threshold: &str) -> (command: Option<
        String,
    >)
        ensures
            string(command) == self.threshold_request(plugin.family(), diod_threshold@),
    {
        if !plugin.capabilities().has_threshold {
            return None;
        }
        match self.metermode {
            MeterMode::Cont => plugin.cont_threshold_command(self.settings.cont_threshold),
            MeterMode::Diod => plugin.diod_threshold_command(diod_threshold),
            _ => None,
        }
    }

    /// The buttons for the modes that the instrument supports, with their labels.
    pub fn mode_buttons(&self, plugin: &Plugin) -> (r: Vec<(MeterMode, String)>)
        ensures
            labelled(r@) == buttons(plugin.family()),
    {
        let modes: &Vec<MeterMode> = &plugin.capabilities().supported_modes;
        let ghost supported = plugin.family().capabilities().supported_modes;
        assert(modes@ == supported);
        let mut r: Vec<(MeterMode, String)> = Vec::new();
        let mut i: usize = 0;
        while i < modes.len()
            invariant
                i <= modes@.len(),
                modes@ == supported,
                r@.len() == i,
                forall|j: int|
                    0 <= j < i ==> (#[trigger] r@[j]).0 == supported[j] && r@[j].1@ == label_text(
                        supported[j],
                    ),
            decreases modes@.len() - i,
        {
            let mode: MeterMode = modes[i];
            r.push((mode, plugin.mode_label(mode).to_owned()));
            i += 1;
        }
        assert(labelled(r@) =~= buttons(plugin.family()));
        r
    }

    // -----------------------------------------------------------------------------------------
    // Connection
    // -----------------------------------------------------------------------------------------

    /// Does once what is to be done at startup: lists the serial ports, the last one first. Tells
    /// whether to connect.
    pub fn start_up(&mut self, ports: Vec<String>) -> (connect: bool)
        ensures
            started(*old(self), *final(self), strings(ports@), connect),
    {
        if self.is_init {
            return false;
        }
        let ghost start = *self;
        let mut i: usize = 0;
        assert(strings(self.portlist@) =~= strings(ports@).take(0).reverse() + strings(
            start.portlist@,
        ));
        while i < ports.len()
            invariant
                i <= ports@.len(),
                strings(self.portlist@) == strings(ports@).take(i as int).reverse() + strings(
                    start.portlist@,
                ),
                *self == (Session { portlist: self.portlist, ..start }),
            decreases ports@.len() - i,
        {
            let ghost before = self.portlist@;
            let port: String = ports[i].clone();
            self.portlist.push_front(port);
            proof {
                assert(strings(self.portlist@) =~= seq![port@] + strings(before));
                assert(strings(ports@).take(i + 1).reverse() =~= seq![port@] + strings(ports@).take(
                    i as int,
                ).reverse());
                assert(seq![port@] + (strings(ports@).take(i as int).reverse() + strings(
                    start.portlist@,
                )) =~= strings(ports@).take(i + 1).reverse() + strings(start.portlist@));
            }
            i += 1;
        }
        assert(strings(ports@).take(i as int) =~= strings(ports@));
        let connect: bool = self.settings.connect_on_startup
            && !self.settings.serial_port.as_str().is_empty();
        if connect {
            self.begin_connecting();
        }
        self.is_init = true;
        connect
    }

    /// Notes that a connection is being made.
    pub fn begin_connecting(&mut self)
        ensures
            *final(self) == old(self).connecting(),
    {
        self.connection_state = ConnectionState::Connecting;
        self.connection_error = None;
    }

    /// Notes that the connection was made.
    pub fn connected(&mut self)
        ensures
            *final(self) == old(self).linked(),
    {
        self.connection_state = ConnectionState::Connected;
    }

    /// Notes that the connection could not be made, and why.
    pub fn connection_failed(&mut self, context: &str, reason: &str)
        ensures
            failed(*old(self), *final(self), context@, reason@),
    {
        self.connection_state = ConnectionState::Disconnected;
        self.connection_error = Some(join(context, reason));
    }

    /// Forgets the instrument: what it reported, what is pending, and which one it is.
    pub fn disconnect(&mut self, plugin: &mut Plugin, pending: &mut PendingChanges)
        ensures
            disconnected(*old(self), *final(self), final(plugin).family(), final(pending)@),
    {
        self.connection_state = ConnectionState::Disconnected;
        self.connection_error = None;
        self.device = "".to_owned();
        *plugin = default_plugin();
        self.curr_meas = Double { bits: NAN };
        self.values.clear();
        self.hist_values.clear();
        self.meas_count = 0;
        self.ps.forget();
        *pending = PendingChanges::default();
    }

    /// What the connection line says.
    pub fn connection_text<'a>(&'a self) -> (r: ConnectionText<'a>)
        ensures
            says(*self, r),
    {
        match self.connection_state {
            ConnectionState::Disconnected => match &self.connection_error {
                Some(error) => ConnectionText::Failed(error.as_str()),
                None => ConnectionText::NotConnected,
            },
            ConnectionState::Connecting => ConnectionText::Connecting,
            ConnectionState::Connected => if self.device.as_str().is_empty() {
                ConnectionText::AwaitingDevice
            } else {
                ConnectionText::ConnectedTo(self.device.as_str())
            },
        }
    }
}

/// The pending changes with a setting asked for.
pub open spec fn asked(pending: Pending, setting: PsSetting, value: Double) -> Pending {
    match setting {
        PsSetting::Voltage => Pending { voltage_set: Some(value), ..pending },
        PsSetting::Current => Pending { current_set: Some(value), ..pending },
        PsSetting::Ovp => Pending { ovp: Some(value), ..pending },
        PsSetting::Ocp => Pending { ocp: Some(value), ..pending },
    }
}

/// The largest value that the steps of a setting go up to, in thousandths.
pub open spec fn largest_step(setting: PsSetting) -> u32 {
    match setting {
        PsSetting::Voltage => 60000,
        PsSetting::Current => 3200,
        PsSetting::Ovp => 63000,
        PsSetting::Ocp => 3500,
    }
}

/// Looks up the largest value that the steps of a setting go up to.
pub fn step_limit(setting: PsSetting) -> (n: u32)
    ensures
        n == largest_step(setting),
{
    match setting {
        PsSetting::Voltage => 60000,
        PsSetting::Current => 3200,
        PsSetting::Ovp => 63000,
        PsSetting::Ocp => 3500,
    }
}

// ---------------------------------------------------------------------------------------------
// What holds of a session
// ---------------------------------------------------------------------------------------------

/// The graph never holds more values than its depth; it ends in the newest value, and what else it
/// holds are the newest of those that it held before.
pub proof fn law_graph_keeps_the_newest(values: Seq<Double>, value: Double, depth: int)
    requires
        depth >= 0,
    ensures
        ({
            let after = appended(values, value, depth);
            &&& after.len() <= depth
            &&& after.len() == values.len() + 1 || after.len() == depth
            &&& after.len() > 0 ==> after.last() == value
            &&& forall|k: int|
                0 <= k < after.len() - 1 ==> after[k] == #[trigger] values[values.len() + 1
                    - after.len() + k]
        }),
{
}

/// A report never takes the place of what the user asked for and the instrument did not confirm:
/// value, input box and pending change stay.
pub proof fn law_unconfirmed_setting_stays(
    before: PsField,
    after: PsField,
    asked: Double,
    report: SettingReport,
    editing: bool,
)
    requires
        synced(before, after, Some(asked), report, editing),
        !report.near_pending,
    ensures
        after.value == before.value,
        after.input@ == before.input@,
        still_pending(Some(asked), report) == Some(asked),
{
}

/// A report that confirms what the user asked for settles it: the reported value is taken over and
/// nothing is pending any more.
pub proof fn law_confirmed_setting_is_settled(
    before: PsField,
    after: PsField,
    pending: Option<Double>,
    report: SettingReport,
    editing: bool,
)
    requires
        synced(before, after, pending, report, editing),
        report.near_pending,
    ensures
        after.value == report.value,
        still_pending(pending, report) is None,
{
}

/// What the user is typing is never overwritten by a report.
pub proof fn law_editing_is_undisturbed(
    before: PsPanel,
    after: PsPanel,
    pending: Pending,
    report: PsReport,
)
    requires
        reported(before, after, pending, report),
        before.input_has_focus,
    ensures
        forall|setting: PsSetting|
            (#[trigger] after.field(setting)).input@ == before.field(setting).input@,
{
    assert forall|setting: PsSetting|
        (#[trigger] after.field(setting)).input@ == before.field(setting).input@ by {
        match setting {
            PsSetting::Voltage => {},
            PsSetting::Current => {},
            PsSetting::Ovp => {},
            PsSetting::Ocp => {},
        }
    }
}

/// A report that confirms the output state that the user asked for settles it; another one changes
/// neither what is shown nor what is pending.
pub proof fn law_output_request_stays_until_confirmed(
    before: PsPanel,
    after: PsPanel,
    pending: Pending,
    report: PsReport,
    on: bool,
)
    requires
        reported(before, after, pending, report),
        pending.output_on == Some(on),
    ensures
        report.output_on == on ==> after.output_on == on && pending_reported(
            pending,
            report,
        ).output_on is None,
        report.output_on != on ==> after.output_on == before.output_on && pending_reported(
            pending,
            report,
        ).output_on == Some(on),
{
}

/// A fast report, which tells no settings, leaves the settings and what is pending of them alone.
pub proof fn law_fast_report_spares_settings(
    before: PsPanel,
    after: PsPanel,
    pending: Pending,
    report: PsReport,
    setting: PsSetting,
)
    requires
        reported(before, after, pending, report),
        !report.includes_settings,
    ensures
        after.field(setting) == before.field(setting),
        pending_reported(pending, report) == (Pending {
            output_on: pending_reported(pending, report).output_on,
            ..pending
        }),
{
}

/// The latest request of a setting wins, and requests of different settings do not disturb each
/// other.
pub proof fn law_latest_request_wins(
    pending: Pending,
    setting: PsSetting,
    first: Double,
    other: PsSetting,
    second: Double,
)
    ensures
        asked(asked(pending, setting, first), setting, second) == asked(pending, setting, second),
        setting != other ==> asked(asked(pending, setting, first), other, second) == asked(
            asked(pending, other, second),
            setting,
            first,
        ),
{
}

/// A mode change is settled by seeing the instrument in its target mode, and by no other mode.
pub proof fn law_mode_change_is_settled_by_its_target(
    pending: Pending,
    mode: MeterMode,
    command: Seq<char>,
    retries: u32,
    seen: MeterMode,
)
    requires
        pending.mode == Some((mode, command, retries)),
    ensures
        confirmed(pending, seen) == (if seen == mode {
            Pending { mode: None, ..pending }
        } else {
            pending
        }),
{
}

/// Turning hold on or off twice restores every setting.
pub proof fn law_hold_toggles_back(session: Session)
    ensures
        session.hold_toggled().hold_toggled().settings == session.settings,
        session.hold_toggled().settings.hold_enabled != session.settings.hold_enabled,
{
}

} // verus!
