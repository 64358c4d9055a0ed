//! Settings that outlast a session, and the types of the application's choices.

use crate::double::Double;
use vstd::prelude::*;

verus! {

/// File format of a recording.
#[derive(Clone, Copy, Debug, PartialEq, Eq, Structural)]
pub enum RecordingFormat {
    Csv,
    Json,
    Xlsx,
}

/// When measurements are recorded.
#[derive(Clone, Copy, Debug, PartialEq, Eq, Structural)]
pub enum RecordingMode {
    FixedInterval,
    Manual,
}

/// How a recording writes points in time.
#[derive(Clone, Copy, Debug, PartialEq, Eq, Structural)]
pub enum TimestampFormat {
    Rfc3339,
    Unix,
}

/// A recorded measurement.
#[derive(Clone, Debug)]
pub struct Record {
    /// Index of the measurement.
    pub index: usize,
    /// Seconds since the Unix epoch.
    pub timestamp: i64,
    pub unit: String,
    pub value: Double,
}

/// The tabs of the plot area.
#[derive(Clone, Copy, Debug, PartialEq, Eq, Structural)]
pub enum PlotTab {
    Graph,
    Histogram,
}

impl PlotTab {
    /// The title of the tab.
    pub fn title(self) -> (r: &'static str)
        ensures
            r@ == (match self {
                PlotTab::Graph => "Graph"@,
                PlotTab::Histogram => "Histogram"@,
            }),
    {
        match self {
            PlotTab::Graph => "Graph",
            PlotTab::Histogram => "Histogram",
        }
    }
}

/// A color with its opacity.
#[derive(Clone, Copy, Debug, PartialEq, Eq, Structural)]
pub struct Color {
    pub r: u8,
    pub g: u8,
    pub b: u8,
    pub a: u8,
}

/// The bits of two.
pub const DIOD_THRESHOLD_DEFAULT: u64 = 0x4000_0000_0000_0000;

/// Default depth of the graph.
pub const MEM_DEPTH_DEFAULT: usize = 100;

/// Default maximum depth of the graph.
pub const MEM_DEPTH_MAX_DEFAULT: usize = 2000;

/// Default depth of the histogram.
pub const HIST_MEM_DEPTH_DEFAULT: usize = 1000;

/// Default maximum depth of the histogram.
pub const HIST_MEM_DEPTH_MAX_DEFAULT: usize = 10000;

/// Settings that are kept from one run of the application to the next.
#[derive(Debug)]
pub struct Settings {
    pub serial_port: String,
    pub baud_rate: u32,
    pub bits: u32,
    pub stop_bits: u32,
    pub parity: bool,
    /// Number of values in the graph, and its maximum.
    pub mem_depth: usize,
    pub mem_depth_max: usize,
    /// Number of values in the histogram, and its maximum.
    pub hist_mem_depth: usize,
    pub hist_mem_depth_max: usize,
    pub hist_collect_interval_ms: u64,
    pub hist_collect_active: bool,
    pub connect_on_startup: bool,
    pub value_debug: bool,
    pub poll_interval_ms: u64,
    pub graph_update_interval_ms: u64,
    pub graph_update_interval_max: u64,
    pub beeper_enabled: bool,
    /// Continuity threshold in ohms.
    pub cont_threshold: u32,
    /// Diode threshold in volts.
    pub diod_threshold: Double,
    /// Whether to lock the meter in remote mode.
    pub lock_remote: bool,
    pub hold_enabled: bool,
    /// Index of the sampling rate.
    pub curr_rate: usize,
    pub reverse_graph: bool,
    pub graph_line_color: Color,
    pub hist_bar_color: Color,
    pub measurement_font_color: Color,
    pub box_background_color: Color,
    pub always_on_top: bool,
    pub recording_format: RecordingFormat,
    pub recording_file_path: String,
    pub recording_mode: RecordingMode,
    pub recording_interval_ms: u64,
    pub recording_active: bool,
    pub recording_timestamp_format: TimestampFormat,
}

impl Default for Settings {
    fn default() -> (r: Settings)
        ensures
            r.serial_port@ == ""@,
            r.recording_file_path@ == ""@,
            r == (Settings {
                serial_port: r.serial_port,
                baud_rate: 115200,
                bits: 8,
                stop_bits: 1,
                parity: false,
                mem_depth: 100,
                mem_depth_max: 2000,
                hist_mem_depth: 1000,
                hist_mem_depth_max: 10000,
                hist_collect_interval_ms: 100,
                hist_collect_active: false,
                connect_on_startup: false,
                value_debug: false,
                poll_interval_ms: 20,
                graph_update_interval_ms: 20,
                graph_update_interval_max: 1000,
                beeper_enabled: true,
                cont_threshold: 50,
                diod_threshold: Double { bits: DIOD_THRESHOLD_DEFAULT },
                lock_remote: true,
                hold_enabled: false,
                curr_rate: 0,
                reverse_graph: false,
                graph_line_color: Color { r: 0, g: 255, b: 255, a: 255 },
                hist_bar_color: Color { r: 0, g: 255, b: 0, a: 255 },
                measurement_font_color: Color { r: 0, g: 255, b: 255, a: 255 },
                box_background_color: Color { r: 0, g: 0, b: 0, a: 255 },
                always_on_top: false,
                recording_format: RecordingFormat::Csv,
                recording_file_path: r.recording_file_path,
                recording_mode: RecordingMode::FixedInterval,
                recording_interval_ms: 1000,
                recording_active: false,
                recording_timestamp_format: TimestampFormat::Rfc3339,
            }),
    {
        Settings {
            serial_port: "".to_owned(),
            baud_rate: 115200,
            bits: 8,
            stop_bits: 1,
            parity: false,
            mem_depth: MEM_DEPTH_DEFAULT,
            mem_depth_max: MEM_DEPTH_MAX_DEFAULT,
            hist_mem_depth: HIST_MEM_DEPTH_DEFAULT,
            hist_mem_depth_max: HIST_MEM_DEPTH_MAX_DEFAULT,
            hist_collect_interval_ms: 100,
            hist_collect_active: false,
            connect_on_startup: false,
            value_debug: false,
            poll_interval_ms: 20,
            graph_update_interval_ms: 20,
            graph_update_interval_max: 1000,
            beeper_enabled: true,
            cont_threshold: 50,
            diod_threshold: Double { bits: DIOD_THRESHOLD_DEFAULT },
            lock_remote: true,
            hold_enabled: false,
            curr_rate: 0,
            reverse_graph: false,
            graph_line_color: Color { r: 0, g: 255, b: 255, a: 255 },
            hist_bar_color: Color { r: 0, g: 255, b: 0, a: 255 },
            measurement_font_color: Color { r: 0, g: 255, b: 255, a: 255 },
            box_background_color: Color { r: 0, g: 0, b: 0, a: 255 },
            always_on_top: false,
            recording_format: RecordingFormat::Csv,
            recording_file_path: "".to_owned(),
            recording_mode: RecordingMode::FixedInterval,
            recording_interval_ms: 1000,
            recording_active: false,
            recording_timestamp_format: TimestampFormat::Rfc3339,
        }
    }
}

} // verus!
