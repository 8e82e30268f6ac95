//! Dialogue that is revealed a character at a time.

use vstd::prelude::*;
use vstd::utf8::encode_utf8;
use crate::timer::{Countdown, CountdownModel, TimerMode};

verus! {

/// The nanoseconds between two characters.
pub const CHARACTER_PERIOD: u64 = 25_000_000;

/// A line of dialogue and how much of it shows.
#[derive(Debug)]
pub struct Dialogue {
    pub current_dialogue: String,
    /// The number of bytes of the line that show.
    pub character_index: usize,
    pub character_timer: Countdown,
}

impl Dialogue {
    /// A line of which nothing shows yet.
    pub fn new(line: String) -> (r: Dialogue)
        ensures
            r.current_dialogue == line,
            r.character_index == 0,
            r.character_timer@ == CountdownModel::fresh(CHARACTER_PERIOD as nat, TimerMode::Once),
    {
        Dialogue {
            current_dialogue: line,
            character_index: 0,
            character_timer: Countdown::new(CHARACTER_PERIOD, TimerMode::Once),
        }
    }

    /// Whether part of the line, counted in bytes, is still hidden.
    pub open spec fn hidden(self) -> bool {
        self.character_index < encode_utf8(self.current_dialogue@).len() as usize
    }

    /// Lets `delta` nanoseconds pass. While part of the line is hidden, the
    /// timer runs, and each time it runs out one more byte shows and the
    /// timer starts again. A line that shows in full stays as it is.
    pub fn tick(&mut self, delta: u64)
        ensures
            final(self).current_dialogue == old(self).current_dialogue,
            !old(self).hidden() ==> *final(self) == *old(self),
            old(self).hidden() ==> ({
                let timer = old(self).character_timer@.ticked(delta as nat);
                if timer.just_finished {
                    &&& final(self).character_index == old(self).character_index + 1
                    &&& final(self).character_timer@ == timer.rewound()
                } else {
                    &&& final(self).character_index == old(self).character_index
                    &&& final(self).character_timer@ == timer
                }
            }),
    {
        if self.character_index < self.current_dialogue.as_str().len() {
            self.character_timer.tick(delta);
            if self.character_timer.just_finished() {
                self.character_timer.reset();
                self.character_index += 1;
            }
        }
    }
}

} // verus!
