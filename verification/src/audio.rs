//! The sound cues that the recognizer and the backup pipeline ask for.
//! Playing them is left to the caller.

use vstd::prelude::*;

verus! {

/// One of the six sounds the application can play.
#[derive(Clone, Copy, Debug, PartialEq, Eq, Structural)]
pub enum SoundCue {
    Arm,
    Cancel,
    Trigger,
    Error,
    Heartbeat,
    Success,
}

} // verus!
