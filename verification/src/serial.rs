//! The serial conversation with an instrument: what to send next, and what each line that comes
//! back means.
//!
//! A [`SerialTask`] holds the state of one connection. Reading and writing the port is up to its
//! owner, who reports what was sent, hands over the lines that were received and passes on what
//! the task makes of them.

use crate::multimeter::MeterMode;
use crate::plugins::family::DeviceFamily;
use crate::plugins::registry::recognised;
use crate::plugins::{
    initial_ps_state, output_state, ps_meas_all, ps_value, resolve_plugin, DevicePlugin,
    ParseResult, Parsed, Pending, PendingChanges, Plugin, PowerSupplyState, PsMeasurement, PsOutput,
    PsSetting, PsState,
};
use crate::ranges::{Matching, RangeMatch};
use crate::replies::{Precision, Reading, ReadingText, SiPrefix};
use crate::text::{
    ascii_bytes, ascii_text, contains, contains_char, ends, ends_with, from_utf8_lossy,
    inhabited_lines, join, lossy_text, occurs, same, split_lines, string, strings, strip, texts,
    trim_end, trimmed, without_trailing, CharClass,
};
use std::collections::VecDeque;
use vstd::prelude::*;

verus! {

/// Polls without an answer after which a power supply query is given up.
pub const PS_TIMEOUT: u32 = 50;

/// Idle passes per power supply poll.
pub const PS_POLL_PERIOD: u32 = 5;

/// Power supply polls per full poll.
pub const PS_FULL_POLL_PERIOD: u32 = 10;

/// Measurements after which the function is queried instead.
pub const FUNCTION_QUERY_PERIOD: u32 = 10;

/// Whether the instrument has identified itself.
#[derive(PartialEq, Eq, Clone, Copy, Debug, Structural)]
pub enum ScpiMode {
    /// Waiting for the answer to `*IDN?`.
    Idn,
    /// Polling measurements.
    Meas,
}

/// Power supply query phase: which answer is awaited.
#[derive(PartialEq, Eq, Clone, Copy, Debug, Structural)]
pub enum PsPhase {
    Idle,
    WaitOutp,
    WaitVolt,
    WaitCurr,
    WaitVoltLim,
    WaitCurrLim,
    WaitMeasAll,
    WaitMeasAllFast,
}

/// Settings that are sent to an instrument once it is identified.
#[derive(Debug)]
pub struct SerialConfig {
    /// Whether to lock the instrument in remote mode.
    pub lock_remote: bool,
    pub beeper_enabled: bool,
    /// Continuity threshold in ohms.
    pub cont_threshold: u32,
    /// Diode threshold in volts, in decimal notation.
    pub diod_threshold: String,
    /// Index of the sampling rate.
    pub curr_rate: usize,
}

/// What a `SerialConfig` holds, as pure data.
#[verifier::ext_equal]
pub struct Config {
    pub lock_remote: bool,
    pub beeper_enabled: bool,
    pub cont_threshold: u32,
    pub diod_threshold: Seq<char>,
    pub curr_rate: usize,
}

impl View for SerialConfig {
    type V = Config;

    open spec fn view(&self) -> Config {
        Config {
            lock_remote: self.lock_remote,
            beeper_enabled: self.beeper_enabled,
            cont_threshold: self.cont_threshold,
            diod_threshold: self.diod_threshold@,
            curr_rate: self.curr_rate,
        }
    }
}

/// The state of the conversation.
#[derive(Debug)]
pub struct SerialTask {
    pub config: SerialConfig,
    pub scpimode: ScpiMode,
    pub command_queue: VecDeque<String>,
    pub shutting_down: bool,
    pub drop_serial: bool,
    /// Measurements since the last function query.
    pub meas_count: u32,
    pub last_mode: MeterMode,
    pub expecting_range_response: bool,
    pub ps_phase: PsPhase,
    pub ps_state: PowerSupplyState,
    pub ps_poll_counter: u32,
    pub ps_full_poll_counter: u32,
    pub ps_timeout: u32,
    pub has_power_supply: bool,
}

/// What a `SerialTask` holds, as pure data.
#[verifier::ext_equal]
pub struct Serial {
    pub config: Config,
    pub scpimode: ScpiMode,
    pub queue: Seq<Seq<char>>,
    pub shutting_down: bool,
    pub drop_serial: bool,
    pub meas_count: u32,
    pub last_mode: MeterMode,
    pub expecting_range_response: bool,
    pub ps_phase: PsPhase,
    pub ps_state: PsState,
    pub ps_poll_counter: u32,
    pub ps_full_poll_counter: u32,
    pub ps_timeout: u32,
    pub has_power_supply: bool,
}

impl View for SerialTask {
    type V = Serial;

    open spec fn view(&self) -> Serial {
        Serial {
            config: self.config@,
            scpimode: self.scpimode,
            queue: strings(self.command_queue@),
            shutting_down: self.shutting_down,
            drop_serial: self.drop_serial,
            meas_count: self.meas_count,
            last_mode: self.last_mode,
            expecting_range_response: self.expecting_range_response,
            ps_phase: self.ps_phase,
            ps_state: self.ps_state@,
            ps_poll_counter: self.ps_poll_counter,
            ps_full_poll_counter: self.ps_full_poll_counter,
            ps_timeout: self.ps_timeout,
            has_power_supply: self.has_power_supply,
        }
    }
}

/// What a line from the instrument brings, for the rest of the application.
#[derive(Debug)]
pub struct LineOutcome {
    /// The instrument identified itself.
    pub device: Option<String>,
    /// The power supply's state is complete.
    pub power_supply: Option<PowerSupplyState>,
    /// The instrument is in another mode than before.
    pub mode: Option<MeterMode>,
    /// A measurement.
    pub measurement: Option<(Reading, Precision)>,
    /// The range that the instrument is in, with the mode that it belongs to.
    pub range: Option<(MeterMode, RangeMatch)>,
}

/// What a `LineOutcome` holds, as pure data.
#[verifier::ext_equal]
pub struct Outcome {
    pub device: Option<Seq<char>>,
    pub power_supply: Option<PsState>,
    pub mode: Option<MeterMode>,
    pub measurement: Option<(ReadingText, Precision)>,
    pub range: Option<(MeterMode, Matching)>,
}

impl View for LineOutcome {
    type V = Outcome;

    open spec fn view(&self) -> Outcome {
        Outcome {
            device: string(self.device),
            power_supply: match self.power_supply {
                Some(state) => Some(state@),
                None => None,
            },
            mode: self.mode,
            measurement: match self.measurement {
                Some((reading, precision)) => Some((reading@, precision)),
                None => None,
            },
            range: match self.range {
                Some((mode, matched)) => Some((mode, matched@)),
                None => None,
            },
        }
    }
}

/// Pending power supply settings in decimal notation with three decimals.
#[derive(Debug)]
pub struct PsAmounts {
    pub voltage_set: Option<String>,
    pub current_set: Option<String>,
    pub ovp: Option<String>,
    pub ocp: Option<String>,
}

/// What `PsAmounts` holds, as pure data.
#[verifier::ext_equal]
pub struct Amounts {
    pub voltage_set: Option<Seq<char>>,
    pub current_set: Option<Seq<char>>,
    pub ovp: Option<Seq<char>>,
    pub ocp: Option<Seq<char>>,
}

impl View for PsAmounts {
    type V = Amounts;

    open spec fn view(&self) -> Amounts {
        Amounts {
            voltage_set: string(self.voltage_set),
            current_set: string(self.current_set),
            ovp: string(self.ovp),
            ocp: string(self.ocp),
        }
    }
}

// ---------------------------------------------------------------------------------------------
// Model
// ---------------------------------------------------------------------------------------------

/// A queue with one more command, if there is one.
pub open spec fn enqueued(queue: Seq<Seq<char>>, command: Option<Seq<char>>) -> Seq<Seq<char>> {
    match command {
        Some(command) => queue.push(command),
        None => queue,
    }
}

/// The lines of a command string that hold something, each as a command of its own.
pub open spec fn command_lines(command: Seq<char>) -> Seq<Seq<char>> {
    Seq::new(
        inhabited_lines(command).len(),
        |i: int| inhabited_lines(command)[i] + "\n"@,
    )
}

/// The lines of received text that carry a reply: neither empty nor `ERR`.
pub open spec fn reply_lines(content: Seq<char>) -> Seq<Seq<char>> {
    without_errors(inhabited_lines(content))
}

/// The lines that are not `ERR`.
pub open spec fn without_errors(lines: Seq<Seq<char>>) -> Seq<Seq<char>>
    decreases lines.len(),
{
    if lines.len() == 0 {
        seq![]
    } else {
        let rest = without_errors(lines.drop_last());
        if lines.last() == "ERR"@ {
            rest
        } else {
            rest.push(lines.last())
        }
    }
}

/// Whether a command asks for a range.
pub open spec fn is_range_query(command: Seq<char>) -> bool {
    occurs(command, "RANG?"@) || (occurs(command, "CONF:"@) && ends(command, "?\n"@))
}

/// Whether a command is a query: it ends in a question mark, white space aside.
pub open spec fn is_query(command: Seq<char>) -> bool {
    ends(trim_end(command, CharClass::Space), "?"@)
}

/// What an event leads to that tells nothing to the rest of the application.
pub open spec fn silent() -> Outcome {
    Outcome { device: None, power_supply: None, mode: None, measurement: None, range: None }
}

/// A range that is told to the rest of the application, if there is one.
pub open spec fn told_range(mode: MeterMode, matched: Matching) -> Option<(MeterMode, Matching)> {
    if matched == Matching::Settled(None) {
        None
    } else {
        Some((mode, matched))
    }
}

impl Serial {
    /// The start of a conversation: the instrument is asked who it is.
    pub open spec fn start(config: Config, mode: MeterMode) -> Serial {
        Serial {
            config,
            scpimode: ScpiMode::Idn,
            queue: seq!["*IDN?\n"@],
            shutting_down: false,
            drop_serial: false,
            meas_count: 0,
            last_mode: mode,
            expecting_range_response: false,
            ps_phase: PsPhase::Idle,
            ps_state: initial_ps_state(),
            ps_poll_counter: 0,
            ps_full_poll_counter: 0,
            ps_timeout: 0,
            has_power_supply: false,
        }
    }

    /// What always holds: the counters stay below their periods, a power supply is queried only if
    /// there is one and the instrument is known, and the port is let go only in a shutdown.
    pub open spec fn wf(self) -> bool {
        &&& self.ps_poll_counter < PS_POLL_PERIOD
        &&& self.ps_full_poll_counter < PS_FULL_POLL_PERIOD
        &&& self.ps_timeout <= PS_TIMEOUT
        &&& self.ps_phase != PsPhase::Idle ==> self.has_power_supply && self.scpimode
            == ScpiMode::Meas
        &&& self.drop_serial ==> self.shutting_down
    }

    /// With one more command at the end of the queue, if there is one.
    pub open spec fn queueing(self, command: Option<Seq<char>>) -> Serial {
        Serial { queue: enqueued(self.queue, command), ..self }
    }

    /// A shutdown is asked for: queries of the power supply end, its output is turned off, and the
    /// instrument is returned to local control and reset.
    pub open spec fn shutdown(self, family: DeviceFamily) -> Serial {
        let quiet = Serial { shutting_down: true, ps_phase: PsPhase::Idle, ..self };
        (if self.has_power_supply {
            quiet.queueing(family.ps_output_command(false))
        } else {
            quiet
        }).queueing(Some("SYST:LOC\n"@)).queueing(Some("*RST\n"@))
    }

    /// A command comes from the user: hold commands go first, all others last.
    pub open spec fn requested(self, command: Seq<char>) -> Serial {
        if occurs(command, "MULT:HOLD"@) {
            Serial { queue: seq![command] + self.queue, ..self }
        } else {
            Serial { queue: self.queue.push(command), ..self }
        }
    }

    /// The command to send next: the first in the queue.
    pub open spec fn next(self) -> Option<Seq<char>> {
        if self.queue.len() > 0 {
            Some(self.queue[0])
        } else {
            None
        }
    }

    /// Whether another command may follow the first at once: only one query is sent at a time.
    pub open spec fn goes_on(self) -> bool {
        !is_query(self.queue[0])
    }

    /// The first command in the queue could not be sent.
    pub open spec fn dropped(self) -> Serial {
        Serial { queue: self.queue.skip(1), ..self }
    }

    /// Whether the port may be let go.
    pub open spec fn over(self) -> bool {
        self.shutting_down && self.drop_serial
    }

    /// The first command in the queue was sent.
    pub open spec fn sent(self) -> Serial {
        let command = self.queue[0];
        Serial {
            queue: enqueued(
                self.queue.skip(1),
                if command == "*IDN?\n"@ && !self.shutting_down && self.config.lock_remote {
                    Some("SYST:REM\n"@)
                } else {
                    None
                },
            ),
            expecting_range_response: self.expecting_range_response || is_range_query(command),
            drop_serial: self.drop_serial || (self.shutting_down && trimmed(command) == "*RST"@),
            ..self
        }
    }

    /// The power supply is asked something, if there is a way to ask it. The count of polls
    /// without an answer starts over.
    pub open spec fn asking(self, query: Option<Seq<char>>, phase: PsPhase) -> Serial {
        Serial {
            ps_timeout: 0,
            ps_phase: if query is Some {
                phase
            } else {
                self.ps_phase
            },
            ..self.queueing(query)
        }
    }

    /// A line from which the instrument is identified: the plugin is chosen, and rate, beeper,
    /// thresholds and the power supply query are queued as far as the instrument has them.
    pub open spec fn identified(self, line: Seq<char>) -> Serial {
        let family = recognised(line).configured(line);
        let caps = family.capabilities();
        let known = Serial {
            scpimode: ScpiMode::Meas,
            has_power_supply: caps.has_power_supply,
            ..self
        };
        let rated = if caps.rate_options.len() > 0 {
            known.queueing(family.rate_command(self.config.curr_rate as int))
        } else {
            known
        };
        let beeping = if caps.has_beeper {
            rated.queueing(family.beeper_command(self.config.beeper_enabled))
        } else {
            rated
        };
        let set_up = if caps.has_threshold {
            beeping.queueing(
                family.cont_threshold_command(self.config.cont_threshold),
            ).queueing(family.diod_threshold_command(self.config.diod_threshold))
        } else {
            beeping
        };
        if caps.has_power_supply && family.ps_query_output() is Some {
            set_up.asking(family.ps_query_output(), PsPhase::WaitOutp)
        } else {
            set_up
        }
    }

    /// Whether a line may answer the pending power supply query. Measurements hold a comma or a
    /// colon, answers to most power supply queries neither.
    pub open spec fn ps_candidate(self, line: Seq<char>) -> bool {
        &&& self.ps_phase != PsPhase::Idle
        &&& self.ps_phase == PsPhase::WaitMeasAll || self.ps_phase == PsPhase::WaitMeasAllFast || (
        !line.contains(',') && !line.contains(':'))
    }

    /// The output was measured: the poll is complete.
    pub open spec fn measured(self, output: PsOutput, includes_settings: bool) -> Serial {
        Serial {
            ps_state: PsState {
                voltage_readback: output.voltage,
                current_readback: output.current,
                power_readback: output.power,
                includes_settings,
                ..self.ps_state
            },
            ps_phase: PsPhase::Idle,
            ps_timeout: 0,
            ..self
        }
    }

    /// With a power supply state that differs.
    pub open spec fn with_ps_state(self, ps_state: PsState) -> Serial {
        Serial { ps_state, ..self }
    }

    /// What an answer to the pending power supply query leads to: it is recorded and the next
    /// query goes out. `None` if the line is no such answer.
    ///
    /// A full poll asks for output state, voltage, current, protection limits and measured output
    /// in turn, a fast one only for output state and measured output.
    pub open spec fn ps_answered(self, line: Seq<char>, family: DeviceFamily) -> Option<Serial> {
        match self.ps_phase {
            PsPhase::Idle => None,
            PsPhase::WaitOutp => match output_state(line) {
                Some(on) => {
                    let noted = self.with_ps_state(PsState { output_on: on, ..self.ps_state });
                    Some(
                        if self.ps_full_poll_counter > 0 {
                            noted.asking(family.ps_query_meas_all(), PsPhase::WaitMeasAllFast)
                        } else {
                            noted.asking(family.ps_query(PsSetting::Voltage), PsPhase::WaitVolt)
                        },
                    )
                },
                None => None,
            },
            PsPhase::WaitVolt => match ps_value(line) {
                Some(v) => Some(
                    self.with_ps_state(PsState { voltage_set: v, ..self.ps_state }).asking(
                        family.ps_query(PsSetting::Current),
                        PsPhase::WaitCurr,
                    ),
                ),
                None => None,
            },
            PsPhase::WaitCurr => match ps_value(line) {
                Some(v) => Some(
                    self.with_ps_state(PsState { current_set: v, ..self.ps_state }).asking(
                        family.ps_query(PsSetting::Ovp),
                        PsPhase::WaitVoltLim,
                    ),
                ),
                None => None,
            },
            PsPhase::WaitVoltLim => match ps_value(line) {
                Some(v) => Some(
                    self.with_ps_state(PsState { ovp: v, ..self.ps_state }).asking(
                        family.ps_query(PsSetting::Ocp),
                        PsPhase::WaitCurrLim,
                    ),
                ),
                None => None,
            },
            PsPhase::WaitCurrLim => match ps_value(line) {
                Some(v) => Some(
                    self.with_ps_state(PsState { ocp: v, ..self.ps_state }).asking(
                        family.ps_query_meas_all(),
                        PsPhase::WaitMeasAll,
                    ),
                ),
                None => None,
            },
            PsPhase::WaitMeasAll => match ps_meas_all(line) {
                Some(output) => Some(self.measured(output, true)),
                None => None,
            },
            PsPhase::WaitMeasAllFast => match ps_meas_all(line) {
                Some(output) => Some(self.measured(output, false)),
                None => None,
            },
        }
    }

    /// The instrument is seen in a mode. If that is a change, what belongs to the mode is set up
    /// again and the function is queried for its range.
    pub open spec fn in_mode(self, mode: MeterMode, family: DeviceFamily) -> Serial {
        if mode == self.last_mode {
            self
        } else {
            let caps = family.capabilities();
            let changed = Serial { last_mode: mode, ..self };
            let sounding = mode == MeterMode::Cont || mode == MeterMode::Diod;
            let beeping = if sounding && caps.has_beeper {
                changed.queueing(family.beeper_command(self.config.beeper_enabled))
            } else {
                changed
            };
            let set_up = if sounding && caps.has_threshold {
                beeping.queueing(
                    if mode == MeterMode::Cont {
                        family.cont_threshold_command(self.config.cont_threshold)
                    } else {
                        family.diod_threshold_command(self.config.diod_threshold)
                    },
                )
            } else {
                beeping
            };
            set_up.queueing(Some(family.function_query_command()))
        }
    }

    /// The state after a measurement or function reply.
    pub open spec fn read(self, parsed: Parsed, family: DeviceFamily) -> Serial {
        let seen = match parsed.mode {
            Some(mode) => self.in_mode(mode, family),
            None => self,
        };
        if parsed.measurement is Some {
            Serial { meas_count: (seen.meas_count + 1) as u32, ..seen }
        } else {
            seen
        }
    }

    /// What a measurement or function reply brings.
    pub open spec fn read_outcome(self, parsed: Parsed) -> Outcome {
        let mode = match parsed.mode {
            Some(mode) => mode,
            None => self.last_mode,
        };
        Outcome {
            mode: if mode != self.last_mode {
                Some(mode)
            } else {
                None
            },
            measurement: match parsed.measurement {
                Some(reading) => Some(
                    (
                        reading,
                        match parsed.precision {
                            Some(precision) => precision,
                            None => default_precision(),
                        },
                    ),
                ),
                None => None,
            },
            range: told_range(mode, parsed.range_index),
            ..silent()
        }
    }

    /// The state after a line.
    pub open spec fn after_line(self, line: Seq<char>, family: DeviceFamily) -> Serial {
        if self.scpimode == ScpiMode::Idn {
            self.identified(line)
        } else if self.ps_candidate(line) && self.ps_answered(line, family) is Some {
            self.ps_answered(line, family)->0
        } else if self.expecting_range_response && !line.contains(',') {
            Serial { expecting_range_response: false, ..self }
        } else {
            self.read(family.parse_measurement(line), family)
        }
    }

    /// What a line brings.
    pub open spec fn line_outcome(self, line: Seq<char>, family: DeviceFamily) -> Outcome {
        if self.scpimode == ScpiMode::Idn {
            Outcome { device: Some(line), ..silent() }
        } else if self.ps_candidate(line) && self.ps_answered(line, family) is Some {
            Outcome {
                power_supply: if self.ps_phase == PsPhase::WaitMeasAll || self.ps_phase
                    == PsPhase::WaitMeasAllFast {
                    Some((self.ps_answered(line, family)->0).ps_state)
                } else {
                    None
                },
                ..silent()
            }
        } else if self.expecting_range_response && !line.contains(',') {
            Outcome {
                range: told_range(
                    self.last_mode,
                    family.parse_range_response(line, self.last_mode),
                ),
                ..silent()
            }
        } else {
            self.read_outcome(family.parse_measurement(line))
        }
    }

    /// The instrument's family after a line: identification settles it.
    pub open spec fn family_after(self, line: Seq<char>, family: DeviceFamily) -> DeviceFamily {
        if self.scpimode == ScpiMode::Idn {
            recognised(line).configured(line)
        } else {
            family
        }
    }

    /// The pending changes after a line: a mode change is settled once the instrument is seen in
    /// the target mode.
    pub open spec fn pending_after(
        self,
        line: Seq<char>,
        family: DeviceFamily,
        pending: Pending,
    ) -> Pending {
        if self.scpimode == ScpiMode::Idn || (self.ps_candidate(line) && self.ps_answered(
            line,
            family,
        ) is Some) || (self.expecting_range_response && !line.contains(',')) {
            pending
        } else {
            match family.parse_measurement(line).mode {
                Some(mode) => confirmed(pending, mode),
                None => pending,
            }
        }
    }

    /// One more poll without an answer from the power supply; too many end the query.
    pub open spec fn timed(self) -> Serial {
        if self.ps_phase == PsPhase::Idle {
            self
        } else if self.ps_timeout >= PS_TIMEOUT {
            Serial { ps_phase: PsPhase::Idle, ps_timeout: 0, ..self }
        } else {
            Serial { ps_timeout: (self.ps_timeout + 1) as u32, ..self }
        }
    }

    /// Whether there is nothing to send and nothing to wait for.
    pub open spec fn resting(self) -> bool {
        &&& !self.shutting_down
        &&& self.scpimode == ScpiMode::Meas
        &&& self.queue.len() == 0
        &&& self.ps_phase == PsPhase::Idle
    }

    /// The commands for the meter that a resting conversation goes on with: the pending mode change
    /// while retries are left, the pending range change, and a query.
    pub open spec fn meter_commands(
        self,
        family: DeviceFamily,
        pending: Pending,
    ) -> Seq<Seq<char>> {
        let retry = match pending.mode {
            Some((_, command, retries)) => if retries > 0 {
                seq![command]
            } else {
                seq![]
            },
            None => seq![],
        };
        let range = match pending.range {
            Some((_, command)) => command_lines(command),
            None => seq![],
        };
        (retry + range).push(
            if self.meas_count >= FUNCTION_QUERY_PERIOD {
                family.function_query_command()
            } else {
                family.measurement_command()
            },
        )
    }

    /// With every pending change of the power supply sent to it.
    pub open spec fn applying(
        self,
        family: DeviceFamily,
        output_on: Option<bool>,
        amounts: Amounts,
    ) -> Serial {
        let switched = match output_on {
            Some(on) => self.queueing(family.ps_output_command(on)),
            None => self,
        };
        switched.setting(family, PsSetting::Voltage, amounts.voltage_set).setting(
            family,
            PsSetting::Current,
            amounts.current_set,
        ).setting(family, PsSetting::Ovp, amounts.ovp).setting(family, PsSetting::Ocp, amounts.ocp)
    }

    /// With one setting sent to the power supply, if it is pending.
    pub open spec fn setting(
        self,
        family: DeviceFamily,
        setting: PsSetting,
        amount: Option<Seq<char>>,
    ) -> Serial {
        match amount {
            Some(amount) => self.queueing(family.ps_set(setting, amount)),
            None => self,
        }
    }

    /// How a resting conversation goes on: the meter's commands, and every few passes a poll of
    /// the power supply, before which all pending changes are sent to it.
    pub open spec fn resumed(
        self,
        family: DeviceFamily,
        pending: Pending,
        amounts: Amounts,
    ) -> Serial {
        let polled = Serial {
            queue: self.meter_commands(family, pending),
            meas_count: if self.meas_count >= FUNCTION_QUERY_PERIOD {
                0
            } else {
                self.meas_count
            },
            ..self
        };
        if !self.resting() {
            self
        } else if !self.has_power_supply {
            polled
        } else if self.ps_poll_counter + 1 < PS_POLL_PERIOD {
            Serial { ps_poll_counter: (self.ps_poll_counter + 1) as u32, ..polled }
        } else {
            Serial {
                ps_poll_counter: 0,
                ps_phase: PsPhase::WaitOutp,
                ps_timeout: 0,
                ps_full_poll_counter: if self.ps_full_poll_counter + 1 < PS_FULL_POLL_PERIOD {
                    (self.ps_full_poll_counter + 1) as u32
                } else {
                    0
                },
                ..polled.applying(family, pending.output_on, amounts).queueing(
                    family.ps_query_output(),
                )
            }
        }
    }

    /// The pending changes after a resting conversation goes on: one retry of the mode change is
    /// used up.
    pub open spec fn pending_resumed(self, pending: Pending) -> Pending {
        if self.resting() {
            retried(pending)
        } else {
            pending
        }
    }
}

/// The pending changes once the instrument is seen in a mode.
pub open spec fn confirmed(pending: Pending, mode: MeterMode) -> Pending {
    match pending.mode {
        Some((target, _, _)) => if target == mode {
            Pending { mode: None, ..pending }
        } else {
            pending
        },
        None => pending,
    }
}

/// The pending changes with one retry of the mode change used up.
pub open spec fn retried(pending: Pending) -> Pending {
    match pending.mode {
        Some((target, command, retries)) => if retries > 0 {
            Pending { mode: Some((target, command, (retries - 1) as u32)), ..pending }
        } else {
            pending
        },
        None => pending,
    }
}

/// The precision that is assumed of a measurement that tells none: four decimal places.
pub open spec fn default_precision() -> Precision {
    Precision { decimals: 4, prefix: SiPrefix::One }
}

// ---------------------------------------------------------------------------------------------
// Text of commands and replies
// ---------------------------------------------------------------------------------------------

/// Splits a command string into commands.
pub fn split_commands(command: &str) -> (r: Vec<String>)
    ensures
        strings(r@) == command_lines(command@),
{
    let lines: Vec<&str> = split_lines(command);
    let mut r: Vec<String> = Vec::new();
    let mut i: usize = 0;
    assert(texts(lines@).len() == lines@.len());
    while i < lines.len()
        invariant
            i <= lines@.len(),
            texts(lines@) == inhabited_lines(command@),
            r@.len() == i,
            forall|j: int| 0 <= j < i ==> (#[trigger] r@[j])@ == texts(lines@)[j] + "\n"@,
        decreases lines@.len() - i,
    {
        let line: String = join(lines[i], "\n");
        r.push(line);
        i += 1;
    }
    assert(strings(r@) =~= command_lines(command@));
    r
}

/// Splits received text into the lines that carry a reply.
pub fn split_replies(content: &str) -> (r: Vec<String>)
    ensures
        strings(r@) == reply_lines(content@),
{
    let lines: Vec<&str> = split_lines(content);
    let mut r: Vec<String> = Vec::new();
    let mut i: usize = 0;
    assert(strings(r@) =~= without_errors(texts(lines@).take(0)));
    while i < lines.len()
        invariant
            i <= lines@.len(),
            strings(r@) == without_errors(texts(lines@).take(i as int)),
        decreases lines@.len() - i,
    {
        let ghost before = r@;
        proof {
            let upto = texts(lines@).take(i + 1);
            assert(upto.drop_last() =~= texts(lines@).take(i as int));
            assert(upto.last() == lines@[i as int]@);
        }
        if !same(lines[i], "ERR") {
            let line: String = lines[i].to_owned();
            r.push(line);
            assert(strings(r@) =~= strings(before).push(lines@[i as int]@));
        }
        i += 1;
    }
    assert(texts(lines@).take(i as int) =~= texts(lines@));
    r
}

/// Splits received bytes into the lines that carry a reply.
pub fn split_received(bytes: &[u8]) -> (r: Vec<String>)
    ensures
        strings(r@) == reply_lines(lossy_text(bytes@)),
        ascii_bytes(bytes@) ==> strings(r@) == reply_lines(ascii_text(bytes@)),
{
    let content: String = from_utf8_lossy(bytes);
    split_replies(content.as_str())
}

// ---------------------------------------------------------------------------------------------
// The conversation
// ---------------------------------------------------------------------------------------------

impl SerialTask {
    /// Starts a conversation with an instrument that is believed to be in a mode.
    pub fn new(config: SerialConfig, curr_mode: MeterMode) -> (r: SerialTask)
        ensures
            r@ == Serial::start(config@, curr_mode),
            r@.wf(),
    {
        let mut command_queue: VecDeque<String> = VecDeque::new();
        command_queue.push_back("*IDN?\n".to_owned());
        let r: SerialTask = SerialTask {
            config,
            scpimode: ScpiMode::Idn,
            command_queue,
            shutting_down: false,
            drop_serial: false,
            meas_count: 0,
            last_mode: curr_mode,
            expecting_range_response: false,
            ps_phase: PsPhase::Idle,
            ps_state: PowerSupplyState::default(),
            ps_poll_counter: 0,
            ps_full_poll_counter: 0,
            ps_timeout: 0,
            has_power_supply: false,
        };
        assert(r@.queue =~= seq!["*IDN?\n"@]);
        r
    }

    /// Adds a command to the end of the queue.
    fn push(&mut self, command: String)
        ensures
            final(self)@ == old(self)@.queueing(Some(command@)),
    {
        let ghost before = self.command_queue@;
        self.command_queue.push_back(command);
        assert(strings(self.command_queue@) =~= strings(before).push(command@));
    }

    /// Adds a command to the end of the queue, if there is one.
    fn push_some(&mut self, command: Option<String>)
        ensures
            final(self)@ == old(self)@.queueing(string(command)),
    {
        match command {
            Some(command) => self.push(command),
            None => {},
        }
    }

    /// Queues a query of the power supply, if there is one, and awaits its answer.
    fn ask(&mut self, query: Option<&str>, phase: PsPhase)
        ensures
            final(self)@ == old(self)@.asking(crate::plugins::opt_text(query), phase),
    {
        match query {
            Some(query) => {
                self.push(query.to_owned());
                self.ps_phase = phase;
            },
            None => {},
        }
        self.ps_timeout = 0;
    }

    /// Asks for a shutdown: the power supply's output is turned off and the instrument is reset.
    pub fn request_shutdown(&mut self, plugin: &Plugin)
        requires
            old(self)@.wf(),
        ensures
            final(self)@ == old(self)@.shutdown(plugin.family()),
            final(self)@.wf(),
    {
        self.shutting_down = true;
        self.ps_phase = PsPhase::Idle;
        if self.has_power_supply {
            self.push_some(plugin.ps_output_command(false));
        }
        match plugin.local_command() {
            Some(command) => self.push(command.to_owned()),
            None => {},
        }
        self.push(plugin.reset_command().to_owned());
    }

    /// Queues a command that the user asked for.
    pub fn queue_command(&mut self, command: String)
        requires
            old(self)@.wf(),
        ensures
            final(self)@ == old(self)@.requested(command@),
            final(self)@.wf(),
    {
        let ghost before = self.command_queue@;
        if contains(command.as_str(), "MULT:HOLD") {
            self.command_queue.push_front(command);
            assert(strings(self.command_queue@) =~= seq![command@] + strings(before));
        } else {
            self.command_queue.push_back(command);
            assert(strings(self.command_queue@) =~= strings(before).push(command@));
        }
    }

    /// The command to send next.
    pub fn next_command(&self) -> (r: Option<&String>)
        ensures
            (match r {
                Some(command) => Some(command@),
                None => None,
            }) == self@.next(),
    {
        if self.command_queue.len() > 0 {
            Some(&self.command_queue[0])
        } else {
            None
        }
    }

    /// Notes that the next command was sent. Tells whether another may follow at once: only one
    /// query is sent at a time.
    pub fn command_sent(&mut self, plugin: &Plugin) -> (go_on: bool)
        requires
            old(self)@.wf(),
            old(self)@.queue.len() > 0,
        ensures
            final(self)@ == old(self)@.sent(),
            final(self)@.wf(),
            go_on == old(self)@.goes_on(),
    {
        let ghost before = self.command_queue@;
        match self.command_queue.pop_front() {
            Some(command) => {
                assert(strings(self.command_queue@) =~= strings(before).skip(1));
                let text: &str = command.as_str();
                if contains(text, "RANG?") || (contains(text, "CONF:") && ends_with(text, "?\n")) {
                    self.expecting_range_response = true;
                }
                if same(text, "*IDN?\n") && !self.shutting_down && self.config.lock_remote {
                    match plugin.remote_command() {
                        Some(command) => self.push(command.to_owned()),
                        None => {},
                    }
                }
                if self.shutting_down && same(strip(text), "*RST") {
                    self.drop_serial = true;
                }
                !ends_with(without_trailing(text, CharClass::Space), "?")
            },
            None => true,
        }
    }

    /// Notes that the next command could not be sent, and drops it.
    pub fn command_failed(&mut self)
        requires
            old(self)@.wf(),
            old(self)@.queue.len() > 0,
        ensures
            final(self)@ == old(self)@.dropped(),
            final(self)@.wf(),
    {
        let ghost before = self.command_queue@;
        let dropped: Option<String> = self.command_queue.pop_front();
        assert(strings(self.command_queue@) =~= strings(before).skip(1));
    }

    /// Whether the port may be let go.
    pub fn finished(&self) -> (b: bool)
        ensures
            b == self@.over(),
    {
        self.shutting_down && self.drop_serial
    }

    /// Takes the line by which the instrument identifies itself. Yields its plugin.
    fn identify(&mut self, line: &str) -> (plugin: Plugin)
        requires
            old(self)@.wf(),
            old(self)@.scpimode == ScpiMode::Idn,
        ensures
            plugin.family() == recognised(line@).configured(line@),
            final(self)@ == old(self)@.identified(line@),
            final(self)@.wf(),
    {
        let plugin: Plugin = resolve_plugin(line);
        let has_power_supply: bool = plugin.capabilities().has_power_supply;
        let has_rates: bool = plugin.capabilities().rate_options.len() > 0;
        let has_beeper: bool = plugin.capabilities().has_beeper;
        let has_threshold: bool = plugin.capabilities().has_threshold;
        proof {
            let caps = plugin.family().capabilities();
            assert(has_rates == (caps.rate_options.len() > 0));
        }
        self.has_power_supply = has_power_supply;
        self.scpimode = ScpiMode::Meas;
        if has_rates {
            let command: Option<String> = plugin.rate_command(self.config.curr_rate);
            self.push_some(command);
        }
        if has_beeper {
            let command: Option<String> = plugin.beeper_command(self.config.beeper_enabled);
            self.push_some(command);
        }
        if has_threshold {
            let command: Option<String> = plugin.cont_threshold_command(self.config.cont_threshold);
            self.push_some(command);
            let command: Option<String> = plugin.diod_threshold_command(
                self.config.diod_threshold.as_str(),
            );
            self.push_some(command);
        }
        if has_power_supply {
            let query: Option<&str> = plugin.ps_query_output();
            if query.is_some() {
                self.ask(query, PsPhase::WaitOutp);
            }
        }
        plugin
    }

    /// Takes a line as the answer to the pending power supply query, if it is one.
    fn take_ps_answer(&mut self, line: &str, plugin: &Plugin) -> (consumed: bool)
        requires
            old(self)@.wf(),
        ensures
            consumed == old(self)@.ps_answered(line@, plugin.family()) is Some,
            consumed ==> final(self)@ == old(self)@.ps_answered(line@, plugin.family())->0,
            !consumed ==> final(self)@ == old(self)@,
            final(self)@.wf(),
    {
        match self.ps_phase {
            PsPhase::Idle => false,
            PsPhase::WaitOutp => {
                match plugin.parse_output_state(line) {
                    Some(on) => {
                        self.ps_state.output_on = on;
                        if self.ps_full_poll_counter > 0 {
                            self.ask(plugin.ps_query_meas_all(), PsPhase::WaitMeasAllFast);
                        } else {
                            self.ask(plugin.ps_query_voltage(), PsPhase::WaitVolt);
                        }
                        true
                    },
                    None => false,
                }
            },
            PsPhase::WaitVolt => {
                match plugin.parse_ps_value(line) {
                    Some(v) => {
                        self.ps_state.voltage_set = v;
                        self.ask(plugin.ps_query_current(), PsPhase::WaitCurr);
                        true
                    },
                    None => false,
                }
            },
            PsPhase::WaitCurr => {
                match plugin.parse_ps_value(line) {
                    Some(v) => {
                        self.ps_state.current_set = v;
                        self.ask(plugin.ps_query_ovp(), PsPhase::WaitVoltLim);
                        true
                    },
                    None => false,
                }
            },
            PsPhase::WaitVoltLim => {
                match plugin.parse_ps_value(line) {
                    Some(v) => {
                        self.ps_state.ovp = v;
                        self.ask(plugin.ps_query_ocp(), PsPhase::WaitCurrLim);
                        true
                    },
                    None => false,
                }
            },
            PsPhase::WaitCurrLim => {
                match plugin.parse_ps_value(line) {
                    Some(v) => {
                        self.ps_state.ocp = v;
                        self.ask(plugin.ps_query_meas_all(), PsPhase::WaitMeasAll);
                        true
                    },
                    None => false,
                }
            },
            PsPhase::WaitMeasAll => {
                match plugin.parse_ps_meas_all(line) {
                    Some(output) => {
                        self.note_output(output, true);
                        true
                    },
                    None => false,
                }
            },
            PsPhase::WaitMeasAllFast => {
                match plugin.parse_ps_meas_all(line) {
                    Some(output) => {
                        self.note_output(output, false);
                        true
                    },
                    None => false,
                }
            },
        }
    }

    /// Records the measured output, which completes a poll.
    fn note_output(&mut self, output: PsMeasurement, includes_settings: bool)
        ensures
            final(self)@ == old(self)@.measured(output@, includes_settings),
    {
        self.ps_state.voltage_readback = output.voltage;
        self.ps_state.current_readback = output.current;
        self.ps_state.power_readback = output.power;
        self.ps_state.includes_settings = includes_settings;
        self.ps_phase = PsPhase::Idle;
        self.ps_timeout = 0;
    }

    /// Notes the mode that the instrument is in. Tells whether it changed.
    fn note_mode(&mut self, mode: MeterMode, plugin: &Plugin) -> (changed: bool)
        requires
            old(self)@.wf(),
        ensures
            final(self)@ == old(self)@.in_mode(mode, plugin.family()),
            final(self)@.wf(),
            changed == (mode != old(self)@.last_mode),
            final(self)@.meas_count == old(self)@.meas_count,
    {
        if mode == self.last_mode {
            return false;
        }
        let has_beeper: bool = plugin.capabilities().has_beeper;
        let has_threshold: bool = plugin.capabilities().has_threshold;
        self.last_mode = mode;
        if mode == MeterMode::Cont || mode == MeterMode::Diod {
            if has_beeper {
                let command: Option<String> = plugin.beeper_command(self.config.beeper_enabled);
                self.push_some(command);
            }
            if has_threshold {
                let command: Option<String> = if mode == MeterMode::Cont {
                    plugin.cont_threshold_command(self.config.cont_threshold)
                } else {
                    plugin.diod_threshold_command(self.config.diod_threshold.as_str())
                };
                self.push_some(command);
            }
        }
        self.push(plugin.function_query_command().to_owned());
        true
    }

    /// Takes a line as the answer to a measurement or function query.
    fn take_reading(
        &mut self,
        line: &str,
        plugin: &Plugin,
        pending: &mut PendingChanges,
    ) -> (outcome: LineOutcome)
        requires
            old(self)@.wf(),
            old(self)@.meas_count < u32::MAX,
        ensures
            final(self)@ == old(self)@.read(
                plugin.family().parse_measurement(line@),
                plugin.family(),
            ),
            final(self)@.wf(),
            outcome@ == old(self)@.read_outcome(plugin.family().parse_measurement(line@)),
            final(pending)@ == (match plugin.family().parse_measurement(line@).mode {
                Some(mode) => confirmed(old(pending)@, mode),
                None => old(pending)@,
            }),
    {
        let parsed: ParseResult = plugin.parse_measurement(line);
        let ghost shown = parsed@;
        let mut changed: Option<MeterMode> = None;
        match parsed.mode {
            Some(mode) => {
                confirm_mode(pending, mode);
                if self.note_mode(mode, plugin) {
                    changed = Some(mode);
                }
            },
            None => {},
        }
        let measurement: Option<(Reading, Precision)> = match parsed.measurement {
            Some(reading) => {
                self.meas_count = self.meas_count + 1;
                let precision: Precision = match parsed.precision {
                    Some(precision) => precision,
                    None => Precision { decimals: 4, prefix: SiPrefix::One },
                };
                Some((reading, precision))
            },
            None => None,
        };
        let range: Option<(MeterMode, RangeMatch)> = tell_range(
            self.last_mode,
            parsed.range_index,
        );
        LineOutcome { device: None, power_supply: None, mode: changed, measurement, range }
    }

    /// Takes a line from the instrument.
    pub fn take_line(
        &mut self,
        line: &str,
        plugin: &mut Plugin,
        pending: &mut PendingChanges,
    ) -> (outcome: LineOutcome)
        requires
            old(self)@.wf(),
            old(self)@.meas_count < u32::MAX,
        ensures
            final(self)@ == old(self)@.after_line(line@, old(plugin).family()),
            final(self)@.wf(),
            final(plugin).family() == old(self)@.family_after(line@, old(plugin).family()),
            final(pending)@ == old(self)@.pending_after(
                line@,
                old(plugin).family(),
                old(pending)@,
            ),
            outcome@ == old(self)@.line_outcome(line@, old(plugin).family()),
    {
        if self.scpimode == ScpiMode::Idn {
            *plugin = self.identify(line);
            return LineOutcome {
                device: Some(line.to_owned()),
                power_supply: None,
                mode: None,
                measurement: None,
                range: None,
            };
        }
        let awaited: PsPhase = self.ps_phase;
        let complete: bool = awaited == PsPhase::WaitMeasAll || awaited == PsPhase::WaitMeasAllFast;
        let candidate: bool = awaited != PsPhase::Idle && (complete || (!contains_char(line, ',')
            && !contains_char(line, ':')));
        if candidate && self.take_ps_answer(line, &*plugin) {
            let power_supply: Option<PowerSupplyState> = if complete {
                Some(self.ps_state.duplicate())
            } else {
                None
            };
            return LineOutcome {
                device: None,
                power_supply,
                mode: None,
                measurement: None,
                range: None,
            };
        }
        if self.expecting_range_response && !contains_char(line, ',') {
            self.expecting_range_response = false;
            let matched: RangeMatch = plugin.parse_range_response(line, self.last_mode);
            return LineOutcome {
                device: None,
                power_supply: None,
                mode: None,
                measurement: None,
                range: tell_range(self.last_mode, matched),
            };
        }
        self.take_reading(line, &*plugin, pending)
    }

    /// Counts a poll without an answer from the power supply, and gives up after too many.
    pub fn count_timeout(&mut self)
        requires
            old(self)@.wf(),
        ensures
            final(self)@ == old(self)@.timed(),
            final(self)@.wf(),
    {
        if self.ps_phase != PsPhase::Idle {
            self.ps_timeout = self.ps_timeout + 1;
            if self.ps_timeout > PS_TIMEOUT {
                self.ps_phase = PsPhase::Idle;
                self.ps_timeout = 0;
            }
        }
    }

    /// Queues what comes next once there is nothing left to send and nothing to wait for.
    pub fn resume(
        &mut self,
        plugin: &Plugin,
        pending: &mut PendingChanges,
        amounts: &PsAmounts,
    )
        requires
            old(self)@.wf(),
        ensures
            final(self)@ == old(self)@.resumed(plugin.family(), old(pending)@, amounts@),
            final(self)@.wf(),
            final(pending)@ == old(self)@.pending_resumed(old(pending)@),
    {
        if self.shutting_down || self.scpimode != ScpiMode::Meas || self.command_queue.len() > 0
            || self.ps_phase != PsPhase::Idle {
            return ;
        }
        let ghost start = self@;
        let ghost wanted = pending@;
        assert(self@.queue =~= Seq::<Seq<char>>::empty());
        self.push_retry(pending);
        self.push_range(&*pending);
        if self.meas_count >= FUNCTION_QUERY_PERIOD {
            self.push(plugin.function_query_command().to_owned());
            self.meas_count = 0;
        } else {
            self.push(plugin.measurement_command().to_owned());
        }
        assert(self@.queue =~= start.meter_commands(plugin.family(), wanted));
        if self.has_power_supply {
            self.ps_poll_counter = self.ps_poll_counter + 1;
            if self.ps_poll_counter >= PS_POLL_PERIOD {
                self.ps_poll_counter = 0;
                self.ps_phase = PsPhase::WaitOutp;
                self.ps_timeout = 0;
                self.push_changes(plugin, pending.output_on, amounts);
                match plugin.ps_query_output() {
                    Some(query) => self.push(query.to_owned()),
                    None => {},
                }
                self.ps_full_poll_counter = self.ps_full_poll_counter + 1;
                if self.ps_full_poll_counter >= PS_FULL_POLL_PERIOD {
                    self.ps_full_poll_counter = 0;
                }
            }
        }
    }

    /// Queues the pending mode change while retries are left, and uses one up.
    fn push_retry(&mut self, pending: &mut PendingChanges)
        ensures
            final(self)@ == old(self)@.queueing(
                match old(pending)@.mode {
                    Some((_, command, retries)) => if retries > 0 {
                        Some(command)
                    } else {
                        None
                    },
                    None => None,
                },
            ),
            final(pending)@ == retried(old(pending)@),
    {
        match &mut pending.mode {
            Some((_, command, retries)) => {
                if *retries > 0 {
                    self.push(command.clone());
                    *retries = *retries - 1;
                }
            },
            None => {},
        }
    }

    /// Queues the pending range change, line by line.
    fn push_range(&mut self, pending: &PendingChanges)
        ensures
            final(self)@ == (Serial {
                queue: old(self)@.queue + (match pending@.range {
                    Some((_, command)) => command_lines(command),
                    None => seq![],
                }),
                ..old(self)@
            }),
    {
        match &pending.range {
            Some((_, command)) => {
                let lines: Vec<String> = split_commands(command.as_str());
                let ghost start = self@;
                let mut i: usize = 0;
                while i < lines.len()
                    invariant
                        i <= lines@.len(),
                        self@ == (Serial {
                            queue: start.queue + strings(lines@).take(i as int),
                            ..start
                        }),
                    decreases lines@.len() - i,
                {
                    self.push(lines[i].clone());
                    assert(self@.queue =~= start.queue + strings(lines@).take(i + 1));
                    i += 1;
                }
                assert(strings(lines@).take(i as int) =~= strings(lines@));
            },
            None => {},
        }
        assert(self@.queue =~= self@.queue + Seq::<Seq<char>>::empty());
    }

    /// Queues the pending changes of the power supply.
    fn push_changes(&mut self, plugin: &Plugin, output_on: Option<bool>, amounts: &PsAmounts)
        ensures
            final(self)@ == old(self)@.applying(plugin.family(), output_on, amounts@),
    {
        match output_on {
            Some(on) => self.push_some(plugin.ps_output_command(on)),
            None => {},
        }
        match &amounts.voltage_set {
            Some(v) => self.push_some(plugin.ps_set_voltage(v.as_str())),
            None => {},
        }
        match &amounts.current_set {
            Some(a) => self.push_some(plugin.ps_set_current(a.as_str())),
            None => {},
        }
        match &amounts.ovp {
            Some(v) => self.push_some(plugin.ps_set_ovp(v.as_str())),
            None => {},
        }
        match &amounts.ocp {
            Some(a) => self.push_some(plugin.ps_set_ocp(a.as_str())),
            None => {},
        }
    }
}

/// A range to tell to the rest of the application, if there is one.
fn tell_range(mode: MeterMode, matched: RangeMatch) -> (r: Option<(MeterMode, RangeMatch)>)
    ensures
        (match r {
            Some((m, matched)) => Some((m, matched@)),
            None => None,
        }) == told_range(mode, matched@),
{
    match matched {
        RangeMatch::Settled(None) => None,
        matched => Some((mode, matched)),
    }
}

/// Settles a pending mode change once the instrument is seen in the target mode.
pub fn confirm_mode(pending: &mut PendingChanges, mode: MeterMode)
    ensures
        final(pending)@ == confirmed(old(pending)@, mode),
{
    let settled: bool = match &pending.mode {
        Some((target, _, _)) => *target == mode,
        None => false,
    };
    if settled {
        pending.mode = None;
    }
}

} // verus!
