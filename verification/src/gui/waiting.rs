//! The screen shown while there is no connection.

use vstd::prelude::*;
use crate::gui::{next_tick, tick_after};

verus! {

/// The waiting widget.
#[derive(Debug)]
pub struct Waiting {
    /// The tick count, which drives the animation.
    pub tick: usize,
}

impl Default for Waiting {
    fn default() -> (waiting: Waiting)
        ensures
            waiting.tick == 0,
    {
        Waiting { tick: 0 }
    }
}

impl Waiting {
    /// Moves the animation one tick on.
    pub fn advance(&mut self)
        requires
            old(self).tick < usize::MAX,
        ensures
            final(self).tick == next_tick(old(self).tick),
    {
        self.tick = tick_after(self.tick);
    }

    /// How many dots follow the message at this tick: one more every third
    /// tick, starting over after seven.
    pub fn dots(&self) -> (count: usize)
        ensures
            count == self.tick / 3 % 8,
    {
        self.tick / 3 % 8
    }
}

} // verus!
