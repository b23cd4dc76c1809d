//! Plain data shapes of the rack VST3 C API: opaque handle markers, the
//! plugin-type tag, the fixed-size info records and the status codes.

use vstd::prelude::*;

verus! {

/// Marker for the C scanner object (only ever seen behind a pointer).
pub struct RackVST3Scanner {
    _private: [u8; 0],
}

/// Marker for the C plugin-instance object (only ever seen behind a pointer).
pub struct RackVST3Plugin {
    _private: [u8; 0],
}

/// Marker for the C editor object (only ever seen behind a pointer).
pub struct RackVST3Gui {
    _private: [u8; 0],
}

/// Plugin category tag as reported by the C API.
#[derive(Debug, Clone, Copy, PartialEq, Eq, Structural)]
pub enum RackVST3PluginType {
    Effect,
    Instrument,
    Analyzer,
    Spatial,
    Other,
}

impl RackVST3PluginType {
    /// The C integer code of each tag.
    pub open spec fn spec_code(self) -> i32 {
        match self {
            RackVST3PluginType::Effect => 0,
            RackVST3PluginType::Instrument => 1,
            RackVST3PluginType::Analyzer => 2,
            RackVST3PluginType::Spatial => 3,
            RackVST3PluginType::Other => 4,
        }
    }

    /// Reads the tag from its C integer code; `None` for codes outside `0..=4`.
    pub fn from_code(code: i32) -> (r: Option<RackVST3PluginType>)
        ensures
            r is Some <==> 0 <= code <= 4,
            r matches Some(t) ==> t.spec_code() == code,
            code == 0 ==> r == Some(RackVST3PluginType::Effect),
            code == 1 ==> r == Some(RackVST3PluginType::Instrument),
            code == 2 ==> r == Some(RackVST3PluginType::Analyzer),
            code == 3 ==> r == Some(RackVST3PluginType::Spatial),
            code == 4 ==> r == Some(RackVST3PluginType::Other),
    {
        match code {
            0 => Some(RackVST3PluginType::Effect),
            1 => Some(RackVST3PluginType::Instrument),
            2 => Some(RackVST3PluginType::Analyzer),
            3 => Some(RackVST3PluginType::Spatial),
            4 => Some(RackVST3PluginType::Other),
            _ => None,
        }
    }

    /// The C integer code of this tag.
    pub fn code(&self) -> (c: i32)
        ensures
            c == self.spec_code(),
            *self == RackVST3PluginType::Effect ==> c == 0,
            *self == RackVST3PluginType::Instrument ==> c == 1,
            *self == RackVST3PluginType::Analyzer ==> c == 2,
            *self == RackVST3PluginType::Spatial ==> c == 3,
            *self == RackVST3PluginType::Other ==> c == 4,
    {
        match self {
            RackVST3PluginType::Effect => 0,
            RackVST3PluginType::Instrument => 1,
            RackVST3PluginType::Analyzer => 2,
            RackVST3PluginType::Spatial => 3,
            RackVST3PluginType::Other => 4,
        }
    }
}

/// The C API fixes the code of each plugin-type tag: effect 0, instrument 1,
/// analyzer 2, spatial 3, other 4; distinct tags have distinct codes.
pub proof fn lemma_plugin_type_codes(t: RackVST3PluginType, u: RackVST3PluginType)
    ensures
        RackVST3PluginType::Effect.spec_code() == 0,
        RackVST3PluginType::Instrument.spec_code() == 1,
        RackVST3PluginType::Analyzer.spec_code() == 2,
        RackVST3PluginType::Spatial.spec_code() == 3,
        RackVST3PluginType::Other.spec_code() == 4,
        t.spec_code() == u.spec_code() ==> t == u,
{
}

/// Plugin record filled in by the C scanner; strings are fixed-size,
/// NUL-terminated C character buffers.
#[derive(Clone, Copy)]
pub struct RackVST3PluginInfo {
    pub name: [i8; 256],
    pub manufacturer: [i8; 256],
    pub path: [i8; 1024],
    pub unique_id: [i8; 64],
    pub version: u32,
    pub plugin_type: RackVST3PluginType,
    pub category: [i8; 128],
}

/// Preset record as laid out by the C API.
#[derive(Clone, Copy)]
pub struct RackVST3PresetInfo {
    pub name: [i8; 256],
    pub preset_number: i32,
}

/// One MIDI event in the form the C API consumes.
#[derive(Debug, Clone, Copy, PartialEq, Eq, Structural)]
pub struct RackVST3MidiEvent {
    pub sample_offset: u32,
    pub status: u8,
    pub data1: u8,
    pub data2: u8,
    pub channel: u8,
}

/// Success.
pub const RACK_VST3_OK: i32 = 0;
/// Unspecified failure.
pub const RACK_VST3_ERROR_GENERIC: i32 = -1;
/// Plugin or bundle not found.
pub const RACK_VST3_ERROR_NOT_FOUND: i32 = -2;
/// An argument was rejected.
pub const RACK_VST3_ERROR_INVALID_PARAM: i32 = -3;
/// The plugin has not been initialized.
pub const RACK_VST3_ERROR_NOT_INITIALIZED: i32 = -4;
/// The plugin module could not be loaded.
pub const RACK_VST3_ERROR_LOAD_FAILED: i32 = -5;
/// The plugin does not support the requested feature.
pub const RACK_VST3_ERROR_NOT_SUPPORTED: i32 = -6;

} // verus!
