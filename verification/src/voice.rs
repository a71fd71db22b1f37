//! Playback of one key's waveform with fade-in and fade-out.

use vstd::prelude::*;

verus! {

/// A sounding key: a cursor that loops over one cycle of the key's waveform,
/// and the progress of the ramps that fade the sound in and out.
#[derive(Clone)]
pub struct Voice<T> {
    /// One cycle of the waveform.
    pub buffer: Vec<T>,
    /// Position in `buffer` of the sample to play next.
    pub idx: usize,
    /// Whether the voice is still fading in.
    pub fade_in_active: bool,
    /// Samples played since the fade-in began.
    pub fade_in_pos: usize,
    /// Whether the voice is fading out.
    pub fade_out_active: bool,
    /// Samples played since the fade-out began.
    pub fade_out_pos: usize,
}

/// Where a ramp stands after one more sample: it advances until it reaches
/// the fade duration and stays there.
pub open spec fn ramp_after_sample(pos: usize, fade_duration: usize) -> usize {
    if pos < fade_duration {
        (pos + 1) as usize
    } else {
        pos
    }
}

impl<T> Voice<T> {
    /// Whether the voice is as `new` makes it: at the start of its buffer,
    /// and at the start of its fade-in.
    pub open spec fn is_fresh(&self) -> bool {
        &&& self.idx == 0
        &&& self.fade_in_active
        &&& self.fade_in_pos == 0
        &&& !self.fade_out_active
        &&& self.fade_out_pos == 0
    }

    /// Whether either ramp is in progress.
    pub open spec fn fading(&self) -> bool {
        self.fade_in_active || self.fade_out_active
    }

    /// The voice with its fade-out started from the beginning.
    pub open spec fn with_fade_out_started(self) -> Self {
        Voice { fade_out_active: true, fade_out_pos: 0, ..self }
    }

    /// The position after `idx` in a buffer that is played in a loop.
    pub open spec fn next_idx(&self) -> usize {
        if self.idx + 1 < self.buffer.len() {
            (self.idx + 1) as usize
        } else {
            0
        }
    }

    /// Whether the fade-out has run its full length after one more sample.
    pub open spec fn ends_after_sample(&self, fade_duration: usize) -> bool {
        self.fade_out_active && ramp_after_sample(self.fade_out_pos, fade_duration)
            >= fade_duration
    }

    /// The voice after one sample has been played. The cursor moves on and
    /// wraps at the end of the buffer; each ramp in progress advances; the
    /// fade-in is over once its ramp has run its full length.
    pub open spec fn after_sample(self, fade_duration: usize) -> Self {
        Voice {
            buffer: self.buffer,
            idx: self.next_idx(),
            fade_in_active: self.fade_in_active && ramp_after_sample(
                self.fade_in_pos,
                fade_duration,
            ) < fade_duration,
            fade_in_pos: if self.fade_in_active {
                ramp_after_sample(self.fade_in_pos, fade_duration)
            } else {
                self.fade_in_pos
            },
            fade_out_active: self.fade_out_active,
            fade_out_pos: if self.fade_out_active {
                ramp_after_sample(self.fade_out_pos, fade_duration)
            } else {
                self.fade_out_pos
            },
        }
    }

    /// A voice at the start of `buffer` that begins to fade in.
    pub fn new(buffer: Vec<T>) -> (voice: Self)
        ensures
            voice.buffer == buffer,
            voice.is_fresh(),
    {
        Self {
            buffer,
            idx: 0,
            fade_in_active: true,
            fade_in_pos: 0,
            fade_out_active: false,
            fade_out_pos: 0,
        }
    }

    /// Whether the voice is fading in or out.
    pub fn is_fading(&self) -> (fading: bool)
        ensures
            fading == self.fading(),
    {
        self.fade_in_active || self.fade_out_active
    }

    /// Starts the fade-out, or starts it over if it was under way.
    pub fn start_fade_out(&mut self)
        ensures
            *final(self) == old(self).with_fade_out_started(),
    {
        self.fade_out_active = true;
        self.fade_out_pos = 0;
    }

    /// The sample under the cursor, if the cursor is inside the buffer.
    pub fn current_sample(&self) -> (sample: Option<&T>)
        ensures
            self.idx < self.buffer.len() ==> sample == Some(&self.buffer@[self.idx as int]),
            self.idx >= self.buffer.len() ==> sample.is_none(),
    {
        if self.idx < self.buffer.len() {
            Some(&self.buffer[self.idx])
        } else {
            None
        }
    }

    /// Moves the voice on by one sample and tells whether it goes on
    /// sounding: it does not once its fade-out has run its full length.
    pub fn advance(&mut self, fade_duration: usize) -> (sounding: bool)
        ensures
            *final(self) == old(self).after_sample(fade_duration),
            sounding == !old(self).ends_after_sample(fade_duration),
    {
        let len: usize = self.buffer.len();
        if self.idx < len && self.idx + 1 < len {
            self.idx = self.idx + 1;
        } else {
            self.idx = 0;
        }
        if self.fade_in_active {
            if self.fade_in_pos < fade_duration {
                self.fade_in_pos = self.fade_in_pos + 1;
            }
            self.fade_in_active = self.fade_in_pos < fade_duration;
        }
        let mut sounding: bool = true;
        if self.fade_out_active {
            if self.fade_out_pos < fade_duration {
                self.fade_out_pos = self.fade_out_pos + 1;
            }
            sounding = self.fade_out_pos < fade_duration;
        }
        sounding
    }
}

/// A new voice is fading, and goes on fading when its fade-out starts: the
/// fade-out is then active and at its start.
pub proof fn lemma_fresh_voice_fades<T>(voice: Voice<T>)
    requires
        voice.is_fresh(),
    ensures
        voice.fading(),
        voice.with_fade_out_started().fading(),
        voice.with_fade_out_started().fade_out_active,
        voice.with_fade_out_started().fade_out_pos == 0,
{
}

/// In a buffer that holds the cursor, the cursor advances modulo the
/// buffer's length.
pub proof fn lemma_cursor_wraps<T>(voice: Voice<T>)
    requires
        voice.idx < voice.buffer.len(),
    ensures
        voice.next_idx() == (voice.idx + 1) % (voice.buffer.len() as int),
{
    let len = voice.buffer.len() as int;
    if voice.idx + 1 < len {
        vstd::arithmetic::div_mod::lemma_small_mod((voice.idx + 1) as nat, len as nat);
    } else {
        vstd::arithmetic::div_mod::lemma_mod_self_0(len);
    }
}

} // verus!
