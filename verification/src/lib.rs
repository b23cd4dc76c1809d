//! Verified core of a VST3 plugin host: error-code mapping, bounded C-string
//! decoding, plugin-info conversion, scan bookkeeping, audio-buffer checks and
//! MIDI event encoding.

pub mod ara;
pub mod ffi;
pub mod instance;
pub mod midi;
pub mod text;
pub mod types;
pub mod scanner;
pub mod util;
