use crate::voice::MAX_VELOCITY;
use vstd::prelude::*;

verus! {

/// Number of MIDI channels.
pub const CHANNEL_COUNT: u8 = 16;

/// Number of note numbers; every note number is below it.
pub const NOTE_COUNT: u8 = 128;

/// A note event as the engine reads it.
#[derive(Clone, Copy, Debug, PartialEq, Eq)]
pub enum NoteEvent {
    /// A key was pressed.
    NoteOn { channel: u8, note: u8, velocity: u8 },
    /// A key was let go.
    NoteOff { channel: u8, note: u8 },
    /// Any other message; the engine ignores it.
    Other,
}

impl NoteEvent {
    /// The event's fields are in the ranges that MIDI gives them: channels
    /// below 16, note numbers and velocities below 128.
    pub open spec fn valid(self) -> bool {
        match self {
            NoteEvent::NoteOn { channel, note, velocity } => {
                &&& channel < CHANNEL_COUNT
                &&& note < NOTE_COUNT
                &&& velocity <= MAX_VELOCITY
            },
            NoteEvent::NoteOff { channel, note } => channel < CHANNEL_COUNT && note < NOTE_COUNT,
            NoteEvent::Other => true,
        }
    }

    /// Tells whether the fields are in range.
    pub fn is_valid(&self) -> (ok: bool)
        ensures
            ok == self.valid(),
    {
        match self {
            NoteEvent::NoteOn { channel, note, velocity } => {
                *channel < CHANNEL_COUNT && *note < NOTE_COUNT && *velocity <= MAX_VELOCITY
            },
            NoteEvent::NoteOff { channel, note } => *channel < CHANNEL_COUNT && *note < NOTE_COUNT,
            NoteEvent::Other => true,
        }
    }
}

/// `wmidi::MidiMessage`, opaque here: a message is only handed on to be
/// decoded.
#[verifier::external_type_specification]
#[verifier::external_body]
pub struct ExMidiMessage<'a>(wmidi::MidiMessage<'a>);

/// The note event that a MIDI message stands for, as `wmidi` decodes it.
pub uninterp spec fn message_event(message: wmidi::MidiMessage) -> NoteEvent;

/// Tells the variants of `wmidi::MidiMessage` apart and reads the fields of a
/// note-on or note-off with `wmidi::Channel::index` and the conversions of
/// `wmidi::Note` and `wmidi::U7` to `u8`. Trusted: the result depends on the
/// message alone, and its fields are in range, since a channel index is below
/// 16 and a note number and a seven-bit value are below 128.
#[verifier::external_body]
pub(crate) fn event_from_message(message: &wmidi::MidiMessage) -> (event: NoteEvent)
    ensures
        event == message_event(*message),
        event.valid(),
{
    match message {
        wmidi::MidiMessage::NoteOn(channel, note, velocity) => NoteEvent::NoteOn {
            channel: channel.index(),
            note: u8::from(*note),
            velocity: u8::from(*velocity),
        },
        wmidi::MidiMessage::NoteOff(channel, note, _) => {
            NoteEvent::NoteOff { channel: channel.index(), note: u8::from(*note) }
        },
        _ => NoteEvent::Other,
    }
}

/// What can be wrong with a control value.
#[derive(Clone, Copy, Debug, PartialEq, Eq)]
pub enum ConfigError {
    /// The channel selector does not name one of the sixteen channels.
    ChannelOutOfRange,
}

/// `wmidi::Error`, opaque here: only its presence is read.
#[verifier::external_type_specification]
#[verifier::external_body]
pub struct ExMidiError(wmidi::Error);

/// Calls `wmidi::Channel::from_index` and reads the channel back with
/// `wmidi::Channel::index`. Trusted: an index from 0 to 15 names a channel
/// and comes back unchanged; any other index is an error.
#[verifier::external_body]
fn channel_from_index(index: u8) -> (r: Result<u8, wmidi::Error>)
    ensures
        (r is Ok) == (index < CHANNEL_COUNT),
        r is Ok ==> r->Ok_0 == index,
{
    wmidi::Channel::from_index(index).map(|channel| channel.index())
}

/// The channel that a selector names: selectors count from one, channels
/// from zero.
pub open spec fn selected_channel(selector: u8) -> Option<u8> {
    if 1 <= selector && selector <= CHANNEL_COUNT {
        Some((selector - 1) as u8)
    } else {
        None
    }
}

/// Maps a channel selector, which counts from one, to the channel's index.
/// A selector outside 1 to 16 is rejected.
pub fn channel_from_selector(selector: u8) -> (r: Result<u8, ConfigError>)
    ensures
        match selected_channel(selector) {
            Some(channel) => r is Ok && r->Ok_0 == channel,
            None => r is Err && r->Err_0 == ConfigError::ChannelOutOfRange,
        },
{
    if selector == 0 {
        return Err(ConfigError::ChannelOutOfRange);
    }
    match channel_from_index(selector - 1) {
        Ok(channel) => Ok(channel),
        Err(_) => Err(ConfigError::ChannelOutOfRange),
    }
}

} // verus!
