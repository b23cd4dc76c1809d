//! Host-side value types shared by the scanner and plugin instances.

use vstd::prelude::*;

verus! {

/// Errors reported by the host.
#[derive(Debug, Clone, PartialEq, Eq)]
pub enum Error {
    /// The plugin (or its bundle) could not be found or instantiated.
    PluginNotFound(String),
    /// The operation needs an initialized plugin.
    NotInitialized,
    /// Any other failure, with a human-readable description.
    Other(String),
}

/// The mathematical value of an [`Error`]: the variant and its message.
pub enum ErrorView {
    PluginNotFound(Seq<char>),
    NotInitialized,
    Other(Seq<char>),
}

impl View for Error {
    type V = ErrorView;

    open spec fn view(&self) -> ErrorView {
        match self {
            Error::PluginNotFound(m) => ErrorView::PluginNotFound(m@),
            Error::NotInitialized => ErrorView::NotInitialized,
            Error::Other(m) => ErrorView::Other(m@),
        }
    }
}

/// Kind of audio plugin.
#[derive(Debug, Clone, Copy, PartialEq, Eq, Structural)]
pub enum PluginType {
    Effect,
    Instrument,
    Analyzer,
    Spatial,
    Other,
}

/// Metadata describing an installed plugin.
#[derive(Debug, Clone, PartialEq, Eq)]
pub struct PluginInfo {
    pub name: String,
    pub manufacturer: String,
    pub version: u32,
    pub plugin_type: PluginType,
    /// Filesystem path of the plugin bundle.
    pub path: String,
    pub unique_id: String,
}

/// The mathematical value of a [`PluginInfo`].
pub struct PluginInfoView {
    pub name: Seq<char>,
    pub manufacturer: Seq<char>,
    pub version: u32,
    pub plugin_type: PluginType,
    pub path: Seq<char>,
    pub unique_id: Seq<char>,
}

impl View for PluginInfo {
    type V = PluginInfoView;

    open spec fn view(&self) -> PluginInfoView {
        PluginInfoView {
            name: self.name@,
            manufacturer: self.manufacturer@,
            version: self.version,
            plugin_type: self.plugin_type,
            path: self.path@,
            unique_id: self.unique_id@,
        }
    }
}

impl PluginInfo {
    /// Builds plugin metadata from its parts.
    pub fn new(
        name: String,
        manufacturer: String,
        version: u32,
        plugin_type: PluginType,
        path: String,
        unique_id: String,
    ) -> (r: PluginInfo)
        ensures
            r@ == (PluginInfoView {
                name: name@,
                manufacturer: manufacturer@,
                version,
                plugin_type,
                path: path@,
                unique_id: unique_id@,
            }),
    {
        PluginInfo { name, manufacturer, version, plugin_type, path, unique_id }
    }
}

/// A factory preset of a plugin.
#[derive(Debug, Clone, PartialEq, Eq)]
pub struct PresetInfo {
    pub index: usize,
    pub name: String,
    pub preset_number: i32,
}

/// A MIDI message, as the host hands it to a plugin.
#[derive(Debug, Clone, Copy, PartialEq, Eq, Structural)]
#[allow(inconsistent_fields)]
pub enum MidiEventKind {
    NoteOn { note: u8, velocity: u8, channel: u8 },
    NoteOff { note: u8, velocity: u8, channel: u8 },
    PolyphonicAftertouch { note: u8, pressure: u8, channel: u8 },
    ControlChange { controller: u8, value: u8, channel: u8 },
    ProgramChange { program: u8, channel: u8 },
    ChannelAftertouch { pressure: u8, channel: u8 },
    /// 14-bit pitch bend value (0..=16383, centre 8192).
    PitchBend { value: u16, channel: u8 },
    TimingClock,
    Start,
    Continue,
    Stop,
    ActiveSensing,
    SystemReset,
}

/// A MIDI message at a sample offset within the next processed block.
#[derive(Debug, Clone, Copy, PartialEq, Eq, Structural)]
pub struct MidiEvent {
    pub sample_offset: u32,
    pub kind: MidiEventKind,
}

} // verus!
