//! Encoding host MIDI events into the C event records handed to a plugin.

use vstd::prelude::*;

use smallvec::SmallVec;

use crate::ffi::RackVST3MidiEvent;
use crate::types::{Error, ErrorView, MidiEvent, MidiEventKind};

verus! {

/// The event records handed to the plugin, kept in a `smallvec::SmallVec`
/// with room for 16 events inline (no heap allocation for typical batches).
/// The vector itself is opaque to verification; its contents are
/// [`midi_buffer_items`].
#[verifier::external_body]
pub struct MidiBuffer {
    events: SmallVec<[RackVST3MidiEvent; 16]>,
}

/// The events held by a MIDI event buffer, in order.
pub uninterp spec fn midi_buffer_items(buf: MidiBuffer) -> Seq<RackVST3MidiEvent>;

/// `SmallVec::with_capacity`. Claimed: the new buffer is empty. It panics
/// when the byte size of `n` events overflows, which `requires` rules out;
/// an allocation failure aborts the process, which nothing here rules out.
#[verifier::external_body]
fn midi_buffer_with_capacity(n: usize) -> (buf: MidiBuffer)
    requires
        n <= (isize::MAX as usize) / 16,
    ensures
        midi_buffer_items(buf) == Seq::<RackVST3MidiEvent>::empty(),
{
    MidiBuffer { events: SmallVec::with_capacity(n) }
}

/// `SmallVec::push`. Claimed: the event is appended after the existing ones.
/// Growth doubles the capacity, and panics when that overflows, which
/// `requires` rules out; an allocation failure aborts the process, which
/// nothing here rules out.
#[verifier::external_body]
fn midi_buffer_push(buf: &mut MidiBuffer, event: RackVST3MidiEvent)
    requires
        midi_buffer_items(*old(buf)).len() < (isize::MAX as usize) / 16,
    ensures
        midi_buffer_items(*final(buf)) == midi_buffer_items(*old(buf)).push(event),
{
    buf.events.push(event)
}

/// `SmallVec::as_slice`. Claimed: the slice holds the buffer's events in order.
#[verifier::external_body]
fn midi_buffer_as_slice(buf: &MidiBuffer) -> (s: &[RackVST3MidiEvent])
    ensures
        s@ == midi_buffer_items(*buf),
{
    buf.events.as_slice()
}

impl MidiBuffer {
    /// The records, in order, ready to be passed to the plugin.
    pub fn events(&self) -> (s: &[RackVST3MidiEvent])
        ensures
            s@ == midi_buffer_items(*self),
    {
        midi_buffer_as_slice(self)
    }
}

/// The C record for one host event: channel messages map to their MIDI status
/// byte and data bytes (a pitch bend is split into its low and high 7 bits);
/// system messages have no C form.
pub open spec fn c_midi_event(e: MidiEvent) -> Option<RackVST3MidiEvent> {
    match e.kind {
        MidiEventKind::NoteOn { note, velocity, channel } => Some(
            RackVST3MidiEvent { sample_offset: e.sample_offset, status: 0x90, data1: note, data2: velocity, channel },
        ),
        MidiEventKind::NoteOff { note, velocity, channel } => Some(
            RackVST3MidiEvent { sample_offset: e.sample_offset, status: 0x80, data1: note, data2: velocity, channel },
        ),
        MidiEventKind::PolyphonicAftertouch { note, pressure, channel } => Some(
            RackVST3MidiEvent { sample_offset: e.sample_offset, status: 0xA0, data1: note, data2: pressure, channel },
        ),
        MidiEventKind::ControlChange { controller, value, channel } => Some(
            RackVST3MidiEvent { sample_offset: e.sample_offset, status: 0xB0, data1: controller, data2: value, channel },
        ),
        MidiEventKind::ProgramChange { program, channel } => Some(
            RackVST3MidiEvent { sample_offset: e.sample_offset, status: 0xC0, data1: program, data2: 0, channel },
        ),
        MidiEventKind::ChannelAftertouch { pressure, channel } => Some(
            RackVST3MidiEvent { sample_offset: e.sample_offset, status: 0xD0, data1: pressure, data2: 0, channel },
        ),
        MidiEventKind::PitchBend { value, channel } => Some(
            RackVST3MidiEvent {
                sample_offset: e.sample_offset,
                status: 0xE0,
                data1: (value & 0x7F) as u8,
                data2: ((value >> 7) & 0x7F) as u8,
                channel,
            },
        ),
        _ => None,
    }
}

/// The C records for a list of host events: the encodable events, in order.
pub open spec fn c_midi_events(events: Seq<MidiEvent>) -> Seq<RackVST3MidiEvent>
    decreases events.len(),
{
    if events.len() == 0 {
        Seq::empty()
    } else {
        match c_midi_event(events.last()) {
            Some(c) => c_midi_events(events.drop_last()).push(c),
            None => c_midi_events(events.drop_last()),
        }
    }
}

/// The C record for one host event, `None` for system messages.
pub fn encode_midi_event(event: &MidiEvent) -> (r: Option<RackVST3MidiEvent>)
    ensures
        r == c_midi_event(*event),
        event.kind matches MidiEventKind::NoteOn { note, velocity, channel } ==> r == Some(
            RackVST3MidiEvent { sample_offset: event.sample_offset, status: 0x90, data1: note, data2: velocity, channel },
        ),
        event.kind matches MidiEventKind::NoteOff { note, velocity, channel } ==> r == Some(
            RackVST3MidiEvent { sample_offset: event.sample_offset, status: 0x80, data1: note, data2: velocity, channel },
        ),
        event.kind matches MidiEventKind::PolyphonicAftertouch { note, pressure, channel } ==> r == Some(
            RackVST3MidiEvent { sample_offset: event.sample_offset, status: 0xA0, data1: note, data2: pressure, channel },
        ),
        event.kind matches MidiEventKind::ControlChange { controller, value, channel } ==> r == Some(
            RackVST3MidiEvent { sample_offset: event.sample_offset, status: 0xB0, data1: controller, data2: value, channel },
        ),
        event.kind matches MidiEventKind::ProgramChange { program, channel } ==> r == Some(
            RackVST3MidiEvent { sample_offset: event.sample_offset, status: 0xC0, data1: program, data2: 0, channel },
        ),
        event.kind matches MidiEventKind::ChannelAftertouch { pressure, channel } ==> r == Some(
            RackVST3MidiEvent { sample_offset: event.sample_offset, status: 0xD0, data1: pressure, data2: 0, channel },
        ),
        event.kind matches MidiEventKind::PitchBend { value, channel } ==> (r matches Some(c) && {
            &&& c.sample_offset == event.sample_offset
            &&& c.status == 0xE0
            &&& c.channel == channel
            &&& c.data1 < 128
            &&& c.data2 < 128
            &&& c.data1 + 128 * c.data2 == value % 16384
        }),
        is_system_message(*event) <==> r is None,
{
    proof {
        if let MidiEventKind::PitchBend { value, channel } = event.kind {
            lemma_pitch_bend_bytes(event.sample_offset, value, channel);
        }
    }
    let (status, data1, data2, channel): (u8, u8, u8, u8) = match event.kind {
        MidiEventKind::NoteOn { note, velocity, channel } => (0x90, note, velocity, channel),
        MidiEventKind::NoteOff { note, velocity, channel } => (0x80, note, velocity, channel),
        MidiEventKind::PolyphonicAftertouch { note, pressure, channel } => (0xA0, note, pressure, channel),
        MidiEventKind::ControlChange { controller, value, channel } => (0xB0, controller, value, channel),
        MidiEventKind::ProgramChange { program, channel } => (0xC0, program, 0, channel),
        MidiEventKind::ChannelAftertouch { pressure, channel } => (0xD0, pressure, 0, channel),
        MidiEventKind::PitchBend { value, channel } => {
            let lsb = (value & 0x7F) as u8;
            let msb = ((value >> 7) & 0x7F) as u8;
            (0xE0, lsb, msb, channel)
        },
        MidiEventKind::TimingClock
        | MidiEventKind::Start
        | MidiEventKind::Continue
        | MidiEventKind::Stop
        | MidiEventKind::ActiveSensing
        | MidiEventKind::SystemReset => {
            return None;
        },
    };
    Some(RackVST3MidiEvent { sample_offset: event.sample_offset, status, data1, data2, channel })
}

/// Every channel message keeps its sample offset, channel and data bytes,
/// under its MIDI status byte: note on 0x90 (note, velocity), note off 0x80
/// (note, velocity), polyphonic aftertouch 0xA0 (note, pressure), control
/// change 0xB0 (controller, value), program change 0xC0 (program, 0) and
/// channel aftertouch 0xD0 (pressure, 0).
pub proof fn lemma_channel_message_bytes(sample_offset: u32, a: u8, b: u8, channel: u8)
    ensures
        c_midi_event(MidiEvent { sample_offset, kind: MidiEventKind::NoteOn { note: a, velocity: b, channel } })
            == Some(RackVST3MidiEvent { sample_offset, status: 0x90, data1: a, data2: b, channel }),
        c_midi_event(MidiEvent { sample_offset, kind: MidiEventKind::NoteOff { note: a, velocity: b, channel } })
            == Some(RackVST3MidiEvent { sample_offset, status: 0x80, data1: a, data2: b, channel }),
        c_midi_event(MidiEvent { sample_offset, kind: MidiEventKind::PolyphonicAftertouch { note: a, pressure: b, channel } })
            == Some(RackVST3MidiEvent { sample_offset, status: 0xA0, data1: a, data2: b, channel }),
        c_midi_event(MidiEvent { sample_offset, kind: MidiEventKind::ControlChange { controller: a, value: b, channel } })
            == Some(RackVST3MidiEvent { sample_offset, status: 0xB0, data1: a, data2: b, channel }),
        c_midi_event(MidiEvent { sample_offset, kind: MidiEventKind::ProgramChange { program: a, channel } })
            == Some(RackVST3MidiEvent { sample_offset, status: 0xC0, data1: a, data2: 0, channel }),
        c_midi_event(MidiEvent { sample_offset, kind: MidiEventKind::ChannelAftertouch { pressure: a, channel } })
            == Some(RackVST3MidiEvent { sample_offset, status: 0xD0, data1: a, data2: 0, channel }),
{
}

/// At most one record per event.
pub proof fn lemma_c_midi_events_len(events: Seq<MidiEvent>)
    ensures
        c_midi_events(events).len() <= events.len(),
    decreases events.len(),
{
    if events.len() > 0 {
        lemma_c_midi_events_len(events.drop_last());
    }
}

/// Encodes host events into the buffer handed to the plugin, skipping system
/// messages.
pub fn encode_midi_events(events: &[MidiEvent]) -> (buf: MidiBuffer)
    requires
        events@.len() <= (isize::MAX as usize) / 16,
    ensures
        midi_buffer_items(buf) == c_midi_events(events@),
{
    let mut buf = midi_buffer_with_capacity(events.len());
    let mut i: usize = 0;
    assert(events@.take(0) =~= Seq::<MidiEvent>::empty());
    while i < events.len()
        invariant
            i <= events@.len(),
            events@.len() <= (isize::MAX as usize) / 16,
            midi_buffer_items(buf) == c_midi_events(events@.take(i as int)),
        decreases events.len() - i,
    {
        proof {
            lemma_c_midi_events_len(events@.take(i as int));
            assert(events@.take(i + 1).drop_last() =~= events@.take(i as int));
            assert(events@.take(i + 1).last() == events@[i as int]);
        }
        match encode_midi_event(&events[i]) {
            Some(c) => midi_buffer_push(&mut buf, c),
            None => {},
        }
        i = i + 1;
    }
    assert(events@.take(events@.len() as int) =~= events@);
    buf
}

/// What sending a batch of events amounts to: nothing to send when the batch
/// is empty, otherwise its encoding.
pub enum MidiBatch {
    /// No events: the plugin is not called.
    Nothing,
    /// Send these records.
    Send(MidiBuffer),
}

/// Decides a `send_midi` request: the plugin must be initialized; an empty
/// batch needs no call; otherwise the encoded events are sent.
pub fn plan_midi_batch(initialized: bool, events: &[MidiEvent]) -> (r: core::result::Result<MidiBatch, Error>)
    requires
        events@.len() <= (isize::MAX as usize) / 16,
    ensures
        !initialized ==> (r matches Err(e) && e@ == ErrorView::NotInitialized),
        initialized && events@.len() == 0 ==> r matches Ok(MidiBatch::Nothing),
        initialized && events@.len() > 0 ==> (r matches Ok(MidiBatch::Send(buf))
            && midi_buffer_items(buf) == c_midi_events(events@)),
{
    if !initialized {
        return Err(Error::NotInitialized);
    }
    if events.len() == 0 {
        return Ok(MidiBatch::Nothing);
    }
    Ok(MidiBatch::Send(encode_midi_events(events)))
}

proof fn lemma_split_14_bits(value: u16)
    by (bit_vector)
    ensures
        (value & 0x7F) < 128,
        ((value >> 7) & 0x7F) < 128,
        (value & 0x7F) + 128 * ((value >> 7) & 0x7F) == value % 16384,
{
}

/// A pitch bend is sent as two 7-bit data bytes, low then high, that
/// together carry the low 14 bits of the bend value.
pub proof fn lemma_pitch_bend_bytes(sample_offset: u32, value: u16, channel: u8)
    ensures
        c_midi_event(MidiEvent { sample_offset, kind: MidiEventKind::PitchBend { value, channel } }) matches Some(c) && {
            &&& c.status == 0xE0
            &&& c.data1 < 128
            &&& c.data2 < 128
            &&& c.data1 + 128 * c.data2 == value % 16384
            &&& c.channel == channel
            &&& c.sample_offset == sample_offset
        },
{
    lemma_split_14_bits(value);
}

/// `e` is a system message (no channel), which has no C form.
pub open spec fn is_system_message(e: MidiEvent) -> bool {
    match e.kind {
        MidiEventKind::TimingClock | MidiEventKind::Start | MidiEventKind::Continue
        | MidiEventKind::Stop | MidiEventKind::ActiveSensing | MidiEventKind::SystemReset => true,
        _ => false,
    }
}

/// Exactly the system messages are dropped; every channel message keeps its
/// sample offset and channel.
pub proof fn lemma_system_messages_dropped(e: MidiEvent)
    ensures
        c_midi_event(e) is None <==> is_system_message(e),
        c_midi_event(e) matches Some(c) ==> c.sample_offset == e.sample_offset,
{
}

/// Encoding a batch equals encoding its two halves one after the other: the
/// order of events is kept and each is encoded on its own.
pub proof fn lemma_c_midi_events_concat(a: Seq<MidiEvent>, b: Seq<MidiEvent>)
    ensures
        c_midi_events(a + b) == c_midi_events(a) + c_midi_events(b),
    decreases b.len(),
{
    if b.len() == 0 {
        assert(a + b =~= a);
        assert(c_midi_events(b) =~= Seq::<RackVST3MidiEvent>::empty());
        assert(c_midi_events(a) + c_midi_events(b) =~= c_midi_events(a));
    } else {
        lemma_c_midi_events_concat(a, b.drop_last());
        assert((a + b).drop_last() =~= a + b.drop_last());
        assert((a + b).last() == b.last());
        match c_midi_event(b.last()) {
            Some(c) => {
                assert(c_midi_events(a) + c_midi_events(b) =~= (c_midi_events(a) + c_midi_events(b.drop_last())).push(c));
            },
            None => {},
        }
    }
}

} // verus!
