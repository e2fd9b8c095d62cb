use vstd::prelude::*;

verus! {

/// A discrete event consumed by the player motion state machine. Events are
/// transient: constructed and dispatched within a single tick.
#[derive(Clone, Copy, Debug)]
pub enum PlayerEvent {
    /// The fixed-tick loop advanced one frame; carries the frame counter.
    AdvanceFrame { frame_count: u32 },
    /// The player touched down on a surface.
    Land,
}

} // verus!
