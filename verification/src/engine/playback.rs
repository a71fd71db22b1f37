//! The voice player: which keys sound, and how their voices begin, move on
//! and end.

use vstd::prelude::*;
use crate::constants::NUM_KEYS;
use crate::engine::shared_params::SharedParams;
use crate::voice::Voice;

verus! {

/// A copy of `source`.
fn copy_of<T: Copy>(source: &Vec<T>) -> (copy: Vec<T>)
    ensures
        copy@ == source@,
{
    let mut copy: Vec<T> = Vec::with_capacity(source.len());
    let mut i: usize = 0;
    while i < source.len()
        invariant
            i <= source@.len(),
            copy@ == source@.subrange(0, i as int),
        decreases source@.len() - i,
    {
        copy.push(source[i]);
        i = i + 1;
    }
    copy
}

impl<T> SharedParams<T> {
    /// Whether this store is `before` but for the voices.
    pub open spec fn same_but_voices(&self, before: &Self) -> bool {
        *self == (SharedParams { voices: self.voices, ..*before })
    }

    /// Whether `key` is a key of the keyboard that has a voice slot.
    pub open spec fn has_voice_slot(&self, key: usize) -> bool {
        key < NUM_KEYS && key < self.voices@.len()
    }

    /// Whether `key` is a key of the keyboard that is sounding.
    pub open spec fn has_voice(&self, key: usize) -> bool {
        self.has_voice_slot(key) && self.voices@[key as int].is_some()
    }

    /// Whether `key` is a key of the keyboard that has a waveform to play.
    pub open spec fn has_buffer(&self, key: usize) -> bool {
        key < NUM_KEYS && key < self.key_buffers@.len() && self.key_buffers@[key as int].is_some()
    }

    /// The voice of a key that is sounding.
    pub open spec fn voice(&self, key: usize) -> Voice<T>
        recommends
            self.has_voice(key),
    {
        self.voices@[key as int].unwrap()
    }

    /// The waveform of a key that has one.
    pub open spec fn buffer(&self, key: usize) -> Seq<T>
        recommends
            self.has_buffer(key),
    {
        self.key_buffers@[key as int].unwrap()@
    }

    /// The key is released: its voice, if it has one, starts to fade out.
    pub fn note_off(&mut self, key: usize)
        ensures
            final(self).same_but_voices(old(self)),
            final(self).voices@ == if old(self).has_voice(key) {
                old(self).voices@.update(
                    key as int,
                    Some(old(self).voice(key).with_fade_out_started()),
                )
            } else {
                old(self).voices@
            },
            old(self).wf() ==> final(self).wf(),
    {
        if key < NUM_KEYS && key < self.voices.len() {
            match &mut self.voices[key] {
                Some(voice) => {
                    voice.start_fade_out();
                },
                None => {},
            }
        }
    }

    /// The voice of `key`, if it has one, ends at once.
    pub fn stop_voice(&mut self, key: usize)
        ensures
            final(self).same_but_voices(old(self)),
            final(self).voices@ == if old(self).has_voice_slot(key) {
                old(self).voices@.update(key as int, None)
            } else {
                old(self).voices@
            },
            old(self).wf() ==> final(self).wf(),
    {
        if key < NUM_KEYS && key < self.voices.len() {
            self.voices.set(key, None);
        }
    }

    /// Moves the voice of `key` on by one sample and tells whether the key
    /// goes on sounding. A voice whose fade-out has run its full length
    /// ends; a key without a voice is not sounding.
    pub fn advance_voice(&mut self, key: usize) -> (sounding: bool)
        ensures
            final(self).same_but_voices(old(self)),
            sounding == (old(self).has_voice(key) && !old(self).voice(key).ends_after_sample(
                old(self).fade_duration,
            )),
            final(self).voices@ == if !old(self).has_voice(key) {
                old(self).voices@
            } else if sounding {
                old(self).voices@.update(
                    key as int,
                    Some(old(self).voice(key).after_sample(old(self).fade_duration)),
                )
            } else {
                old(self).voices@.update(key as int, None)
            },
            old(self).wf() ==> final(self).wf(),
    {
        let fade_duration: usize = self.fade_duration;
        if key < NUM_KEYS && key < self.voices.len() {
            let sounding: bool = match &mut self.voices[key] {
                Some(voice) => voice.advance(fade_duration),
                None => {
                    return false;
                },
            };
            if !sounding {
                self.voices.set(key, None);
            }
            sounding
        } else {
            false
        }
    }
}

impl<T: Copy> SharedParams<T> {
    /// The key is pressed: if it has a waveform, a new voice begins to play
    /// a copy of it, in place of any voice that the key had. A key without a
    /// waveform stays as it is.
    pub fn note_on(&mut self, key: usize) -> (started: bool)
        ensures
            started == (old(self).has_voice_slot(key) && old(self).has_buffer(key)),
            final(self).same_but_voices(old(self)),
            final(self).voices@.len() == old(self).voices@.len(),
            forall|other: int|
                0 <= other < old(self).voices@.len() && !(started && other == key)
                    ==> final(self).voices@[other] == old(self).voices@[other],
            started ==> final(self).has_voice(key),
            started ==> final(self).voice(key).is_fresh(),
            started ==> final(self).voice(key).buffer@ == old(self).buffer(key),
            old(self).wf() ==> final(self).wf(),
    {
        if key < NUM_KEYS && key < self.voices.len() && key < self.key_buffers.len() {
            match &self.key_buffers[key] {
                Some(buffer) => {
                    let voice: Voice<T> = Voice::new(copy_of(buffer));
                    self.voices.set(key, Some(voice));
                    true
                },
                None => false,
            }
        } else {
            false
        }
    }
}

} // verus!
