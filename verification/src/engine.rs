use crate::midi::{channel_from_selector, event_from_message, message_event, selected_channel, ConfigError, NoteEvent};
use crate::midi::{CHANNEL_COUNT, NOTE_COUNT};
use crate::voice::Tone;
use vstd::prelude::*;

verus! {

/// The engine as its contracts see it: the voices by note number, the sample
/// clock and the channel it listens on.
pub struct EngineState {
    pub voices: Map<u8, Tone>,
    pub current_frame: u32,
    pub input_channel: u8,
}

impl EngineState {
    /// Every voice belongs to a note number below 128 and its timing is
    /// consistent with the clock; the channel is one of the sixteen.
    pub open spec fn valid(self) -> bool {
        &&& self.input_channel < CHANNEL_COUNT
        &&& forall|note: u8| #[trigger]
            self.voices.dom().contains(note) ==> note < NOTE_COUNT && self.voices[note].valid_at(
                self.current_frame as int,
            )
    }

    /// No voices, the clock at zero, listening on the first channel.
    pub open spec fn initial() -> EngineState {
        EngineState { voices: Map::empty(), current_frame: 0, input_channel: 0 }
    }

    /// All notes off and the clock back at zero; the channel stays.
    pub open spec fn reset(self) -> EngineState {
        EngineState { voices: Map::empty(), current_frame: 0, ..self }
    }

    /// The engine listening on `channel`.
    pub open spec fn with_channel(self, channel: u8) -> EngineState {
        EngineState { input_channel: channel, ..self }
    }

    /// A note-on starts a fresh voice for `note` at the current frame and
    /// replaces whatever voice the note had.
    pub open spec fn note_on(self, note: u8, velocity: u8) -> EngineState {
        EngineState {
            voices: self.voices.insert(note, Tone::spec_pressed(self.current_frame, velocity)),
            ..self
        }
    }

    /// A note-off releases the voice of `note` at the current frame, if the
    /// note has one.
    pub open spec fn note_off(self, note: u8) -> EngineState {
        if self.voices.dom().contains(note) {
            EngineState {
                voices: self.voices.insert(
                    note,
                    self.voices[note].spec_release(self.current_frame),
                ),
                ..self
            }
        } else {
            self
        }
    }

    /// The effect of one event: note-ons and note-offs on the input channel
    /// act on the pool, everything else is ignored.
    pub open spec fn apply(self, event: NoteEvent) -> EngineState {
        match event {
            NoteEvent::NoteOn { channel, note, velocity } => if channel == self.input_channel {
                self.note_on(note, velocity)
            } else {
                self
            },
            NoteEvent::NoteOff { channel, note } => if channel == self.input_channel {
                self.note_off(note)
            } else {
                self
            },
            NoteEvent::Other => self,
        }
    }

    /// The effect of a run of events, applied in order.
    pub open spec fn apply_all(self, events: Seq<NoteEvent>) -> EngineState
        decreases events.len(),
    {
        if events.len() == 0 {
            self
        } else {
            self.apply_all(events.drop_last()).apply(events.last())
        }
    }

    /// The engine without the voices of the notes in `finished`.
    pub open spec fn without(self, finished: Set<u8>) -> EngineState {
        EngineState { voices: self.voices.remove_keys(finished), ..self }
    }

    /// The engine with the clock moved on by `frames`.
    pub open spec fn advanced(self, frames: u32) -> EngineState {
        EngineState { current_frame: (self.current_frame + frames) as u32, ..self }
    }

    /// No voice is sounding.
    pub open spec fn silent(self) -> bool {
        forall|note: u8| !self.voices.dom().contains(note)
    }
}

/// The synthesizer's voice pool and sample clock.
pub struct Dsfsynth {
    /// One slot per note number.
    tones: Vec<Option<Tone>>,
    current_frame: u32,
    input_channel: u8,
}

impl View for Dsfsynth {
    type V = EngineState;

    closed spec fn view(&self) -> EngineState {
        EngineState {
            voices: Map::new(
                |note: u8| (note as int) < self.tones@.len() && self.tones@[note as int] is Some,
                |note: u8| self.tones@[note as int].unwrap(),
            ),
            current_frame: self.current_frame,
            input_channel: self.input_channel,
        }
    }
}

impl Dsfsynth {
    /// The pool has its 128 slots and the state is valid.
    pub closed spec fn wf(&self) -> bool {
        &&& self.tones@.len() == NOTE_COUNT
        &&& self@.valid()
    }

    /// A well-formed engine shows a valid state.
    pub proof fn wf_is_valid(&self)
        requires
            self.wf(),
        ensures
            self@.valid(),
    {
    }

    /// Creates an engine with no voices, the clock at zero, listening on the
    /// first channel.
    pub fn new() -> (engine: Dsfsynth)
        ensures
            engine.wf(),
            engine@ == EngineState::initial(),
    {
        let mut tones: Vec<Option<Tone>> = Vec::new();
        let mut i: u8 = 0;
        while i < NOTE_COUNT
            invariant
                i <= NOTE_COUNT,
                tones@.len() == i,
                forall|k: int| 0 <= k < i ==> tones@[k] is None,
            decreases NOTE_COUNT - i,
        {
            tones.push(None);
            i += 1;
        }
        let engine = Dsfsynth { tones, current_frame: 0, input_channel: 0 };
        proof {
            assert(engine@.voices =~= Map::empty());
        }
        engine
    }

    /// The frame at which the next block starts.
    pub fn current_frame(&self) -> (frame: u32)
        ensures
            frame == self@.current_frame,
    {
        self.current_frame
    }

    /// The channel whose notes the engine plays, counted from zero.
    pub fn input_channel(&self) -> (channel: u8)
        ensures
            channel == self@.input_channel,
    {
        self.input_channel
    }

    /// Selects the input channel from a selector that counts from one. A
    /// selector outside 1 to 16 is rejected and changes nothing.
    pub fn select_channel(&mut self, selector: u8) -> (r: Result<(), ConfigError>)
        requires
            old(self).wf(),
        ensures
            final(self).wf(),
            match selected_channel(selector) {
                Some(channel) => r is Ok && final(self)@ == old(self)@.with_channel(channel),
                None => {
                    &&& r is Err
                    &&& r->Err_0 == ConfigError::ChannelOutOfRange
                    &&& final(self)@ == old(self)@
                },
            },
    {
        match channel_from_selector(selector) {
            Ok(channel) => {
                self.input_channel = channel;
                proof {
                    assert(self@.voices =~= old(self)@.voices);
                }
                Ok(())
            },
            Err(e) => Err(e),
        }
    }

    /// Drops every voice and sets the clock to zero.
    fn clear(&mut self)
        requires
            old(self).wf(),
        ensures
            final(self).wf(),
            final(self)@ == old(self)@.reset(),
    {
        let mut i: usize = 0;
        while i < self.tones.len()
            invariant
                i <= self.tones@.len(),
                self.tones@.len() == NOTE_COUNT,
                self.input_channel == old(self).input_channel,
                forall|k: int| 0 <= k < i ==> self.tones@[k] is None,
            decreases self.tones@.len() - i,
        {
            self.tones.set(i, None);
            i += 1;
        }
        self.current_frame = 0;
        proof {
            assert(self@.voices =~= Map::empty());
        }
    }

    /// Starts a stream: all notes off, the clock at zero.
    pub fn activate(&mut self)
        requires
            old(self).wf(),
        ensures
            final(self).wf(),
            final(self)@ == old(self)@.reset(),
    {
        self.clear();
    }

    /// Stops a stream: all notes off, the clock at zero.
    pub fn deactivate(&mut self)
        requires
            old(self).wf(),
        ensures
            final(self).wf(),
            final(self)@ == old(self)@.reset(),
    {
        self.clear();
    }

    /// Applies one event to the pool.
    pub fn handle_event(&mut self, event: NoteEvent)
        requires
            old(self).wf(),
            event.valid(),
        ensures
            final(self).wf(),
            final(self)@ == old(self)@.apply(event),
    {
        match event {
            NoteEvent::NoteOn { channel, note, velocity } => {
                if channel == self.input_channel {
                    let tone = Tone::pressed(self.current_frame, velocity);
                    self.tones.set(note as usize, Some(tone));
                    proof {
                        assert(self@.voices =~= old(self)@.note_on(note, velocity).voices);
                    }
                }
            },
            NoteEvent::NoteOff { channel, note } => {
                if channel == self.input_channel {
                    let slot: Option<Tone> = self.tones[note as usize];
                    match slot {
                        Some(tone) => {
                            let released = tone.release(self.current_frame);
                            self.tones.set(note as usize, Some(released));
                            proof {
                                assert(old(self)@.voices.dom().contains(note));
                                assert(self@.voices =~= old(self)@.note_off(note).voices);
                            }
                        },
                        None => {
                            proof {
                                assert(!old(self)@.voices.dom().contains(note));
                            }
                        },
                    }
                }
            },
            NoteEvent::Other => {},
        }
    }

    /// Applies the note event that a MIDI message carries.
    pub fn handle_message(&mut self, message: &wmidi::MidiMessage)
        requires
            old(self).wf(),
        ensures
            final(self).wf(),
            final(self)@ == old(self)@.apply(message_event(*message)),
    {
        let event: NoteEvent = event_from_message(message);
        self.handle_event(event);
    }

    /// Applies the events of a block in the order in which they came.
    pub fn handle_events(&mut self, events: &Vec<NoteEvent>)
        requires
            old(self).wf(),
            forall|i: int| 0 <= i < events@.len() ==> (#[trigger] events@[i]).valid(),
        ensures
            final(self).wf(),
            final(self)@ == old(self)@.apply_all(events@),
    {
        let mut i: usize = 0;
        while i < events.len()
            invariant
                i <= events@.len(),
                self.wf(),
                forall|j: int| 0 <= j < events@.len() ==> (#[trigger] events@[j]).valid(),
                self@ == old(self)@.apply_all(events@.take(i as int)),
            decreases events@.len() - i,
        {
            let event: NoteEvent = events[i];
            self.handle_event(event);
            proof {
                let next = events@.take(i + 1);
                assert(next.drop_last() =~= events@.take(i as int));
                assert(next.last() == events@[i as int]);
            }
            i += 1;
        }
        proof {
            assert(events@.take(i as int) =~= events@);
        }
    }

    /// The voice of `note`, if the note has one.
    pub fn tone(&self, note: u8) -> (r: Option<Tone>)
        requires
            self.wf(),
        ensures
            match r {
                Some(tone) => {
                    &&& self@.voices.dom().contains(note)
                    &&& self@.voices[note] == tone
                    &&& tone.valid_at(self@.current_frame as int)
                },
                None => !self@.voices.dom().contains(note),
            },
    {
        if note < NOTE_COUNT {
            self.tones[note as usize]
        } else {
            None
        }
    }

    /// The notes that have a voice, in ascending order.
    pub fn active_notes(&self) -> (notes: Vec<u8>)
        requires
            self.wf(),
        ensures
            forall|i: int, j: int| 0 <= i < j < notes@.len() ==> notes@[i] < notes@[j],
            forall|note: u8| notes@.contains(note) <==> self@.voices.dom().contains(note),
    {
        let mut notes: Vec<u8> = Vec::new();
        let mut n: u8 = 0;
        while n < NOTE_COUNT
            invariant
                n <= NOTE_COUNT,
                self.wf(),
                forall|i: int| 0 <= i < notes@.len() ==> (#[trigger] notes@[i]) < n,
                forall|i: int, j: int| 0 <= i < j < notes@.len() ==> notes@[i] < notes@[j],
                forall|note: u8|
                    notes@.contains(note) <==> note < n && self@.voices.dom().contains(note),
            decreases NOTE_COUNT - n,
        {
            if self.tones[n as usize].is_some() {
                let ghost before = notes@;
                notes.push(n);
                proof {
                    assert(notes@.last() == n);
                    assert forall|note: u8|
                        notes@.contains(note) <==> note < n + 1 && self@.voices.dom().contains(
                            note,
                        ) by {
                        if notes@.contains(note) {
                            let i = choose|i: int| 0 <= i < notes@.len() && notes@[i] == note;
                            if i < before.len() {
                                assert(before[i] == note);
                                assert(before.contains(note));
                            }
                        }
                        if note < n && self@.voices.dom().contains(note) {
                            assert(before.contains(note));
                            let i = choose|i: int| 0 <= i < before.len() && before[i] == note;
                            assert(notes@[i] == note);
                        }
                        if note == n {
                            assert(notes@[notes@.len() - 1] == note);
                        }
                    }
                }
            }
            n += 1;
        }
        notes
    }

    /// The lowest note from `from` upwards that has a voice. Walking the pool
    /// with it visits the voices in ascending order without allocating.
    pub fn next_active(&self, from: u8) -> (r: Option<u8>)
        requires
            self.wf(),
        ensures
            match r {
                Some(note) => {
                    &&& from <= note
                    &&& self@.voices.dom().contains(note)
                    &&& forall|other: u8|
                        from <= other < note ==> !self@.voices.dom().contains(other)
                },
                None => forall|other: u8| from <= other ==> !self@.voices.dom().contains(other),
            },
    {
        let mut n: u8 = from;
        while n < NOTE_COUNT
            invariant
                from <= n,
                self.wf(),
                forall|other: u8| from <= other < n ==> !self@.voices.dom().contains(other),
            decreases NOTE_COUNT - n,
        {
            if self.tones[n as usize].is_some() {
                return Some(n);
            }
            n += 1;
        }
        None
    }

    /// Tells whether no voice is sounding.
    pub fn is_silent(&self) -> (silent: bool)
        requires
            self.wf(),
        ensures
            silent == self@.silent(),
    {
        let mut n: u8 = 0;
        while n < NOTE_COUNT
            invariant
                n <= NOTE_COUNT,
                self.wf(),
                forall|note: u8| note < n ==> !self@.voices.dom().contains(note),
            decreases NOTE_COUNT - n,
        {
            if self.tones[n as usize].is_some() {
                proof {
                    assert(self@.voices.dom().contains(n));
                }
                return false;
            }
            n += 1;
        }
        true
    }

    /// Removes the voices of the notes in `finished`; notes without a voice
    /// are passed over.
    pub fn remove_finished(&mut self, finished: &Vec<u8>)
        requires
            old(self).wf(),
        ensures
            final(self).wf(),
            final(self)@ == old(self)@.without(finished@.to_set()),
    {
        let mut i: usize = 0;
        while i < finished.len()
            invariant
                i <= finished@.len(),
                self.tones@.len() == NOTE_COUNT,
                self.current_frame == old(self).current_frame,
                self.input_channel == old(self).input_channel,
                forall|k: int|
                    0 <= k < NOTE_COUNT ==> #[trigger] self.tones@[k] == if exists|j: int|
                        0 <= j < i && finished@[j] == k {
                        None
                    } else {
                        old(self).tones@[k]
                    },
            decreases finished@.len() - i,
        {
            let note: u8 = finished[i];
            if note < NOTE_COUNT {
                self.tones.set(note as usize, None);
            }
            proof {
                assert forall|k: int| 0 <= k < NOTE_COUNT implies #[trigger] self.tones@[k]
                    == if exists|j: int| 0 <= j < i + 1 && finished@[j] == k {
                    None
                } else {
                    old(self).tones@[k]
                } by {
                    if k == note {
                        assert(finished@[i as int] == k);
                    }
                    if exists|j: int| 0 <= j < i && finished@[j] == k {
                        let j = choose|j: int| 0 <= j < i && finished@[j] == k;
                        assert(0 <= j < i + 1 && finished@[j] == k);
                    }
                }
            }
            i += 1;
        }
        proof {
            let target = old(self)@.without(finished@.to_set());
            assert forall|note: u8| self@.voices.dom().contains(note) <==> target.voices.dom().contains(
                note,
            ) by {
                if finished@.to_set().contains(note) {
                    assert(finished@.contains(note));
                    let j = choose|j: int| 0 <= j < finished@.len() && finished@[j] == note;
                    assert(0 <= j < i && finished@[j] == note as int);
                }
                if note < NOTE_COUNT && (exists|j: int| 0 <= j < i && finished@[j] == note as int) {
                    let j = choose|j: int| 0 <= j < i && finished@[j] == note as int;
                    assert(finished@[j] == note);
                    assert(finished@.contains(note));
                }
            }
            assert(self@.voices =~= target.voices);
        }
    }

    /// Moves the clock on by the length of a block.
    pub fn advance(&mut self, sample_count: u32)
        requires
            old(self).wf(),
            old(self)@.current_frame + sample_count <= u32::MAX,
        ensures
            final(self).wf(),
            final(self)@ == old(self)@.advanced(sample_count),
    {
        self.current_frame = self.current_frame + sample_count;
        proof {
            assert(self@.voices =~= old(self)@.voices);
        }
    }
}

} // verus!
