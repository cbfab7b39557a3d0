use crate::engine::EngineState;
use crate::midi::{NoteEvent, NOTE_COUNT};
use crate::voice::{EnvelopeStage, Tone};
use vstd::prelude::*;
use vstd::set_lib::{lemma_int_range, lemma_len_subset, lemma_map_size_bound, set_int_range};

verus! {

/// A note-off for a note that is already releasing, or that has no voice,
/// changes nothing: two note-offs in a row leave the state that one leaves.
pub proof fn note_off_is_idempotent(state: EngineState, note: u8)
    ensures
        state.note_off(note).note_off(note) == state.note_off(note),
{
    let once = state.note_off(note);
    assert(once.note_off(note).voices =~= once.voices);
}

/// Sending the same note-off event twice leaves the state that sending it
/// once leaves, whatever channel it is on.
pub proof fn repeated_note_off_event_changes_nothing(state: EngineState, channel: u8, note: u8)
    ensures
        state.apply(NoteEvent::NoteOff { channel, note }).apply(NoteEvent::NoteOff { channel, note })
            == state.apply(NoteEvent::NoteOff { channel, note }),
{
    note_off_is_idempotent(state, note);
}

/// A note-off neither creates nor removes a voice, and it leaves the voices
/// of all other notes as they were.
pub proof fn note_off_keeps_the_pool(state: EngineState, note: u8)
    ensures
        state.note_off(note).voices.dom() == state.voices.dom(),
        forall|other: u8|
            other != note && state.voices.dom().contains(other) ==> #[trigger] state.note_off(
                note,
            ).voices[other] == state.voices[other],
{
    assert(state.note_off(note).voices.dom() =~= state.voices.dom());
}

/// A note-on restarts the voice of its note, whatever went before: the voice
/// is held, pressed at the current frame, and its oscillator has taken no
/// step, so its phase is zero. The voices of all other notes stay.
pub proof fn note_on_restarts_the_voice(state: EngineState, note: u8, velocity: u8)
    ensures
        ({
            let after = state.note_on(note, velocity);
            let frame = after.current_frame as int;
            &&& after.current_frame == state.current_frame
            &&& after.voices.dom().contains(note)
            &&& after.voices[note] == Tone::spec_pressed(state.current_frame, velocity)
            &&& after.voices[note].time_released is None
            &&& after.voices[note].steps_at(frame) == 0
            &&& after.voices[note].stage_at(frame) == (EnvelopeStage::Held { elapsed: 0 })
            &&& forall|other: u8|
                other != note ==> {
                    &&& after.voices.dom().contains(other) == state.voices.dom().contains(other)
                    &&& #[trigger] after.voices[other] == state.voices[other]
                }
        }),
{
}

/// A voice that is held at one frame and pressed again later counts its
/// steps from the second press: right after it the count is zero again,
/// however many frames the first voice had sounded.
pub proof fn retrigger_resets_the_steps(
    state: EngineState,
    note: u8,
    first: u8,
    second: u8,
    frames: u32,
)
    requires
        state.current_frame + frames <= u32::MAX,
    ensures
        ({
            let before = state.note_on(note, first).advanced(frames);
            let after = before.note_on(note, second);
            &&& before.voices[note].steps_at(before.current_frame as int) == frames
            &&& after.voices[note].steps_at(after.current_frame as int) == 0
            &&& after.voices[note].time_released is None
        }),
{
}

/// An event in range keeps a valid state valid.
pub proof fn apply_keeps_valid(state: EngineState, event: NoteEvent)
    requires
        state.valid(),
        event.valid(),
    ensures
        state.apply(event).valid(),
        state.apply(event).current_frame == state.current_frame,
        state.apply(event).input_channel == state.input_channel,
{
}

/// A run of events in range keeps a valid state valid, and moves neither the
/// clock nor the channel.
pub proof fn apply_all_keeps_valid(state: EngineState, events: Seq<NoteEvent>)
    requires
        state.valid(),
        forall|i: int| 0 <= i < events.len() ==> (#[trigger] events[i]).valid(),
    ensures
        state.apply_all(events).valid(),
        state.apply_all(events).current_frame == state.current_frame,
        state.apply_all(events).input_channel == state.input_channel,
    decreases events.len(),
{
    if events.len() > 0 {
        apply_all_keeps_valid(state, events.drop_last());
        apply_keeps_valid(state.apply_all(events.drop_last()), events.last());
    }
}

/// Applying two runs of events one after the other is applying their
/// concatenation.
pub proof fn apply_all_concatenates(state: EngineState, head: Seq<NoteEvent>, tail: Seq<NoteEvent>)
    ensures
        state.apply_all(head + tail) == state.apply_all(head).apply_all(tail),
    decreases tail.len(),
{
    if tail.len() == 0 {
        assert(head + tail =~= head);
    } else {
        apply_all_concatenates(state, head, tail.drop_last());
        assert((head + tail).drop_last() =~= head + tail.drop_last());
        assert((head + tail).last() == tail.last());
    }
}

/// Removing voices and moving the clock forward keep a valid state valid.
pub proof fn removal_and_time_keep_valid(state: EngineState, finished: Set<u8>, frames: u32)
    requires
        state.valid(),
        state.current_frame + frames <= u32::MAX,
    ensures
        state.without(finished).valid(),
        state.advanced(frames).valid(),
{
}

/// A valid state never holds more voices than there are note numbers.
pub proof fn pool_is_bounded(state: EngineState)
    requires
        state.valid(),
    ensures
        state.voices.dom().finite(),
        state.voices.dom().len() <= NOTE_COUNT,
{
    let numbers = set_int_range(0, NOTE_COUNT as int);
    let narrow = |i: int| i as u8;
    let notes = numbers.map(narrow);
    lemma_int_range(0, NOTE_COUNT as int);
    lemma_map_size_bound(numbers, notes, narrow);
    assert forall|note: u8| state.voices.dom().contains(note) implies notes.contains(note) by {
        assert(numbers.contains(note as int));
        assert(narrow(note as int) == note);
    }
    lemma_len_subset(state.voices.dom(), notes);
}

/// Once every voice of the pool has finished and has been removed, the pool
/// is empty.
pub proof fn finished_voices_leave_silence(state: EngineState, finished: Set<u8>)
    requires
        state.voices.dom().subset_of(finished),
    ensures
        state.without(finished).silent(),
        state.without(finished).voices == Map::<u8, Tone>::empty(),
{
    assert(state.without(finished).voices =~= Map::<u8, Tone>::empty());
}

/// A voice that was removed does not come back with a note-off; only a
/// note-on starts a voice.
pub proof fn removed_voice_stays_away(state: EngineState, finished: Set<u8>, note: u8)
    requires
        finished.contains(note),
    ensures
        !state.without(finished).voices.dom().contains(note),
        !state.without(finished).note_off(note).voices.dom().contains(note),
{
}

/// A released voice keeps its release frame: neither a further note-off nor
/// the passing of time moves it.
pub proof fn release_frame_is_kept(state: EngineState, note: u8, frames: u32)
    requires
        state.voices.dom().contains(note),
        state.voices[note].time_released is Some,
    ensures
        state.note_off(note).voices[note] == state.voices[note],
        state.advanced(frames).note_off(note).voices[note] == state.voices[note],
{
}

} // verus!
