//! The audio cue gate: whether start/stop cues are played at all.
//!
//! Tone synthesis itself is an external collaborator; the library only
//! decides whether a cue is due and keeps the enabled flag.

use vstd::prelude::*;

verus! {

#[derive(Clone, Copy, Debug, PartialEq, Eq)]
pub struct AudioManager {
    pub enabled: bool,
}

impl AudioManager {
    pub fn new(enabled: bool) -> (r: AudioManager)
        ensures
            r.enabled == enabled,
    {
        AudioManager { enabled }
    }

    pub fn toggle_sound(&mut self)
        ensures
            final(self).enabled == !old(self).enabled,
    {
        self.enabled = !self.enabled;
    }
}

} // verus!
