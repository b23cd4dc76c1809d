# rack

The core of a VST3 plugin host, written in Verus.

- `src/` is the verified library. It holds the status-code mapping, bounded
  decoding of C character buffers, conversion of scanner records, the two-pass
  scan bookkeeping, and validation of audio buffers and block sizes. It also
  holds the state-buffer handling, MIDI event encoding and the ARA role flags.
- `app/` owns the C objects of the rack VST3 C API: scanner, plugin instance
  and ARA document model. It makes the C calls and hands every decision to the
  library.
- `tests/` exercises the library on concrete values.
