use vstd::prelude::*;

verus! {

/// Highest velocity a note event can carry.
pub const MAX_VELOCITY: u8 = 127;

/// One sounding instance of a note: when it was pressed, when it was let go,
/// and how hard it was struck.
#[derive(Clone, Copy, Debug, PartialEq, Eq)]
pub struct Tone {
    /// Frame at which the note-on was applied.
    pub time_pressed: u32,
    /// Frame at which the note-off was applied; `None` while the note is held.
    pub time_released: Option<u32>,
    /// Velocity of the note-on, at most `MAX_VELOCITY`.
    pub velocity: u8,
}

/// Where a voice stands in its envelope at some frame, in whole frames.
#[derive(Clone, Copy, Debug, PartialEq, Eq)]
pub enum EnvelopeStage {
    /// The note is held; `elapsed` frames have passed since it was pressed.
    Held { elapsed: u32 },
    /// The note was held for `held` frames and let go `elapsed` frames ago.
    Released { held: u32, elapsed: u32 },
}

impl Tone {
    /// The voice's timing is consistent with a clock that stands at `frame`:
    /// it was pressed no later than `frame`, and if it was released, that
    /// happened between the press and `frame`.
    pub open spec fn valid_at(self, frame: int) -> bool {
        &&& self.velocity <= MAX_VELOCITY
        &&& self.time_pressed <= frame
        &&& match self.time_released {
            Some(released) => self.time_pressed <= released && released <= frame,
            None => true,
        }
    }

    /// The voice that a note-on at `frame` creates.
    pub open spec fn spec_pressed(frame: u32, velocity: u8) -> Tone {
        Tone { time_pressed: frame, time_released: None, velocity }
    }

    /// The voice after a note-off at `frame`: the first note-off sets the
    /// release frame, a later one changes nothing.
    pub open spec fn spec_release(self, frame: u32) -> Tone {
        match self.time_released {
            Some(_) => self,
            None => Tone { time_released: Some(frame), ..self },
        }
    }

    /// The envelope stage of the voice at `frame`.
    pub open spec fn stage_at(self, frame: int) -> EnvelopeStage {
        match self.time_released {
            Some(released) => EnvelopeStage::Released {
                held: (released - self.time_pressed) as u32,
                elapsed: (frame - released) as u32,
            },
            None => EnvelopeStage::Held { elapsed: (frame - self.time_pressed) as u32 },
        }
    }

    /// How many times the oscillator of this voice has stepped when the clock
    /// stands at `frame`: once per frame since the press.
    pub open spec fn steps_at(self, frame: int) -> int {
        frame - self.time_pressed
    }

    /// Creates the voice for a note pressed at `frame`.
    pub fn pressed(frame: u32, velocity: u8) -> (tone: Tone)
        ensures
            tone == Tone::spec_pressed(frame, velocity),
    {
        Tone { time_pressed: frame, time_released: None, velocity }
    }

    /// Applies a note-off at `frame`. Only the first note-off counts.
    pub fn release(self, frame: u32) -> (tone: Tone)
        ensures
            tone == self.spec_release(frame),
    {
        match self.time_released {
            Some(_) => self,
            None => Tone {
                time_pressed: self.time_pressed,
                time_released: Some(frame),
                velocity: self.velocity,
            },
        }
    }

    /// Tells whether a note-off has been applied to the voice.
    pub fn is_released(&self) -> (released: bool)
        ensures
            released == (self.time_released is Some),
    {
        self.time_released.is_some()
    }

    /// Computes the envelope stage at `frame_index`. None of the differences
    /// can underflow, because the voice is valid at that frame.
    pub fn stage(&self, frame_index: u32) -> (stage: EnvelopeStage)
        requires
            self.valid_at(frame_index as int),
        ensures
            stage == self.stage_at(frame_index as int),
            match stage {
                EnvelopeStage::Held { elapsed } => {
                    &&& self.time_released is None
                    &&& elapsed == frame_index - self.time_pressed
                },
                EnvelopeStage::Released { held, elapsed } => {
                    &&& self.time_released == Some((self.time_pressed + held) as u32)
                    &&& self.time_pressed + held + elapsed == frame_index
                },
            },
    {
        match self.time_released {
            Some(released) => EnvelopeStage::Released {
                held: released - self.time_pressed,
                elapsed: frame_index - released,
            },
            None => EnvelopeStage::Held { elapsed: frame_index - self.time_pressed },
        }
    }

    /// Counts the oscillator steps taken up to `frame_index`. A voice that
    /// was pressed at this very frame has taken none, so its phase is zero.
    pub fn steps(&self, frame_index: u32) -> (steps: u32)
        requires
            self.valid_at(frame_index as int),
        ensures
            steps == self.steps_at(frame_index as int),
    {
        frame_index - self.time_pressed
    }
}

} // verus!
