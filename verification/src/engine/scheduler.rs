//! The buffer state machine: how a stale buffer is claimed for computation
//! and how the result is taken in or thrown away.

use vstd::prelude::*;
use crate::constants::NUM_KEYS;
use crate::engine::shared_params::{BufferState, SharedParams};

verus! {

impl<T> SharedParams<T> {
    /// Whether `key` is a key of the keyboard whose buffer is in `state`.
    pub open spec fn has_state(&self, key: usize, state: BufferState) -> bool {
        &&& self.has_buffer_state(key)
        &&& self.buffer_states@[key as int] == state
    }

    /// Whether the result of a computation for `key` can be taken in: the
    /// key's buffer is being computed, the key has a buffer slot, and the
    /// computations have not been told to give up.
    pub open spec fn accepts_buffer(&self, key: usize) -> bool {
        &&& self.has_state(key, BufferState::Computing)
        &&& key < self.key_buffers@.len()
        &&& !self.computation_cancel
    }

    /// Whether this store is `before` but for the buffers and their states.
    pub open spec fn same_but_buffers(&self, before: &Self) -> bool {
        *self == (SharedParams {
            key_buffers: self.key_buffers,
            buffer_states: self.buffer_states,
            ..*before
        })
    }

    /// Begins a new pass over the stale buffers: computations are no longer
    /// told to give up.
    pub fn begin_computation_pass(&mut self)
        ensures
            *final(self) == (SharedParams { computation_cancel: false, ..*old(self) }),
    {
        self.computation_cancel = false;
    }

    /// Claims the buffer of `key` for computation. The claim succeeds when
    /// the buffer is `Dirty`; it is then `Computing`, so that no second claim
    /// succeeds until the computation is over. Otherwise nothing changes.
    pub fn try_claim_buffer(&mut self, key: usize) -> (claimed: bool)
        ensures
            claimed == old(self).has_state(key, BufferState::Dirty),
            final(self).same_but_states(old(self)),
            final(self).buffer_states@ == if claimed {
                old(self).buffer_states@.update(key as int, BufferState::Computing)
            } else {
                old(self).buffer_states@
            },
            old(self).wf() ==> final(self).wf(),
    {
        if key < NUM_KEYS && key < self.buffer_states.len() {
            match self.buffer_states[key] {
                BufferState::Dirty => {
                    self.buffer_states.set(key, BufferState::Computing);
                    true
                },
                _ => false,
            }
        } else {
            false
        }
    }

    /// Whether `key` is the lowest key whose buffer is `Dirty`.
    pub open spec fn is_first_dirty(&self, key: usize) -> bool {
        &&& self.has_state(key, BufferState::Dirty)
        &&& forall|lower: usize| lower < key ==> !self.has_state(lower, BufferState::Dirty)
    }

    /// Whether no key has a buffer that is `Dirty`.
    pub open spec fn none_dirty(&self) -> bool {
        forall|key: usize| !self.has_state(key, BufferState::Dirty)
    }

    /// Claims the next buffer to compute: the buffer of the lowest key whose
    /// buffer is `Dirty`, which is then `Computing`. No buffer is claimed
    /// once the computations have been told to give up, nor when no buffer
    /// is `Dirty`; nothing changes then.
    pub fn claim_next_dirty_buffer(&mut self) -> (claimed: Option<usize>)
        ensures
            final(self).same_but_states(old(self)),
            match claimed {
                Some(key) => {
                    &&& !old(self).computation_cancel
                    &&& old(self).is_first_dirty(key)
                    &&& final(self).buffer_states@ == old(self).buffer_states@.update(
                        key as int,
                        BufferState::Computing,
                    )
                },
                None => {
                    &&& old(self).computation_cancel || old(self).none_dirty()
                    &&& final(self).buffer_states@ == old(self).buffer_states@
                },
            },
            old(self).wf() ==> final(self).wf(),
    {
        if self.computation_cancel {
            return None;
        }
        let mut key: usize = 0;
        while key < NUM_KEYS && key < self.buffer_states.len()
            invariant
                key <= NUM_KEYS,
                self.same_but_states(old(self)),
                self.buffer_states@ == old(self).buffer_states@,
                !self.computation_cancel,
                forall|lower: int|
                    0 <= lower < key ==> old(self).buffer_states@[lower] != BufferState::Dirty,
            decreases NUM_KEYS - key,
        {
            if self.try_claim_buffer(key) {
                return Some(key);
            }
            key = key + 1;
        }
        None
    }

    /// Ends the computation of the buffer of `key` with its result. The
    /// result is taken in when the buffer is still `Computing` and the
    /// computations have not been told to give up: it replaces the key's
    /// buffer, which is then `Clean`. Otherwise the result is thrown away,
    /// and a buffer that was `Computing` is `Dirty` again.
    pub fn complete_buffer(&mut self, key: usize, buffer: Vec<T>) -> (accepted: bool)
        ensures
            accepted == old(self).accepts_buffer(key),
            final(self).same_but_buffers(old(self)),
            final(self).key_buffers@ == if accepted {
                old(self).key_buffers@.update(key as int, Some(buffer))
            } else {
                old(self).key_buffers@
            },
            final(self).buffer_states@ == if accepted {
                old(self).buffer_states@.update(key as int, BufferState::Clean)
            } else if old(self).has_state(key, BufferState::Computing) {
                old(self).buffer_states@.update(key as int, BufferState::Dirty)
            } else {
                old(self).buffer_states@
            },
            old(self).wf() ==> final(self).wf(),
    {
        if key < NUM_KEYS && key < self.buffer_states.len() {
            match self.buffer_states[key] {
                BufferState::Computing => {
                    if key < self.key_buffers.len() && !self.computation_cancel {
                        self.key_buffers.set(key, Some(buffer));
                        self.buffer_states.set(key, BufferState::Clean);
                        true
                    } else {
                        self.buffer_states.set(key, BufferState::Dirty);
                        false
                    }
                },
                _ => false,
            }
        } else {
            false
        }
    }

    /// Ends the computation of the buffer of `key` without a result: a
    /// buffer that was `Computing` is `Dirty` again. Otherwise nothing
    /// changes.
    pub fn abandon_buffer(&mut self, key: usize)
        ensures
            final(self).same_but_states(old(self)),
            final(self).buffer_states@ == if old(self).has_state(key, BufferState::Computing) {
                old(self).buffer_states@.update(key as int, BufferState::Dirty)
            } else {
                old(self).buffer_states@
            },
            old(self).wf() ==> final(self).wf(),
    {
        if key < NUM_KEYS && key < self.buffer_states.len() {
            match self.buffer_states[key] {
                BufferState::Computing => {
                    self.buffer_states.set(key, BufferState::Dirty);
                },
                _ => {},
            }
        }
    }
}

} // verus!
