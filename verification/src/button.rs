//! A debounced push button.
//!
//! The button never touches a pin or a clock: each poll is handed the level
//! that was sampled and the time it was sampled at.

use vstd::prelude::*;

verus! {

/// Everything a button remembers between polls. Times are in milliseconds.
#[derive(Clone, Copy, Debug, PartialEq, Eq)]
pub struct ButtonState {
    /// The accepted state: whether the button counts as pressed.
    pub state: bool,
    /// The accepted state before the last accepted sample.
    pub last_state: bool,
    /// Whether the last poll changed the accepted state.
    pub changed: bool,
    /// When the last poll happened.
    pub time: u32,
    /// When the poll before it happened.
    pub last_time: u32,
    /// When the accepted state last changed.
    pub last_change: u32,
    /// When the button was last accepted as pressed.
    pub press_time: u32,
}

/// Whether a raw level means "pressed" for a button with the given
/// polarity.
pub open spec fn pressed_level(level: bool, invert: bool) -> bool {
    level != invert
}

/// The state a button starts in when first sampled at `now`.
pub open spec fn initial(level: bool, invert: bool, now: u32) -> ButtonState {
    ButtonState {
        state: pressed_level(level, invert),
        last_state: pressed_level(level, invert),
        changed: false,
        time: now,
        last_time: now,
        last_change: now,
        press_time: now,
    }
}

/// Whether a sample taken at `now` falls inside the debounce window that the
/// last change opened.
pub open spec fn bouncing(s: ButtonState, db_time: u32, now: u32) -> bool {
    now - s.last_change < db_time
}

/// The state after a poll that sampled `level` at `now`.
///
/// Inside the debounce window the sample is ignored. Outside it the sample
/// becomes the accepted state; if that differs from the state before, the
/// change is stamped, and a press is stamped as well.
pub open spec fn polled(
    s: ButtonState,
    invert: bool,
    db_time: u32,
    level: bool,
    now: u32,
) -> ButtonState {
    if bouncing(s, db_time, now) {
        ButtonState { changed: false, time: now, last_time: s.time, ..s }
    } else {
        let sample = pressed_level(level, invert);
        let flipped = sample != s.state;
        ButtonState {
            state: sample,
            last_state: s.state,
            changed: flipped,
            time: now,
            last_time: s.time,
            last_change: if flipped {
                now
            } else {
                s.last_change
            },
            press_time: if flipped && sample {
                now
            } else {
                s.press_time
            },
        }
    }
}

/// One debounced button.
#[derive(Clone, Copy, Debug, PartialEq, Eq)]
pub struct Button {
    invert: bool,
    db_time: u32,
    now: ButtonState,
}

impl Button {
    /// Whether a low level means "pressed".
    pub closed spec fn invert(&self) -> bool {
        self.invert
    }

    /// The debounce window in milliseconds.
    pub closed spec fn db_time(&self) -> u32 {
        self.db_time
    }

    /// What the button remembers.
    pub closed spec fn memory(&self) -> ButtonState {
        self.now
    }

    /// No stamp lies after the last poll.
    #[verifier::type_invariant]
    closed spec fn stamps_in_order(&self) -> bool {
        &&& self.now.last_change <= self.now.time
        &&& self.now.last_time <= self.now.time
        &&& self.now.press_time <= self.now.time
    }

    /// A button first sampled at `now` with `level` on its pin. `invert`
    /// says that a low level means "pressed"; `db_time` is the debounce
    /// window in milliseconds.
    pub fn new(level: bool, invert: bool, db_time: u32, now: u32) -> (button: Self)
        ensures
            button.invert() == invert,
            button.db_time() == db_time,
            button.memory() == initial(level, invert, now),
    {
        let state = level != invert;
        Button {
            invert,
            db_time,
            now: ButtonState {
                state,
                last_state: state,
                changed: false,
                time: now,
                last_time: now,
                last_change: now,
                press_time: now,
            },
        }
    }

    /// Polls the button with the level sampled at `now` and returns the
    /// accepted state. The clock must not have run backwards since the last
    /// poll.
    pub fn read(&mut self, level: bool, now: u32) -> (pressed: bool)
        requires
            old(self).memory().time <= now,
        ensures
            final(self).invert() == old(self).invert(),
            final(self).db_time() == old(self).db_time(),
            final(self).memory() == polled(
                old(self).memory(),
                old(self).invert(),
                old(self).db_time(),
                level,
                now,
            ),
            pressed == final(self).memory().state,
            bouncing(old(self).memory(), old(self).db_time(), now) ==> ({
                &&& pressed == old(self).memory().state
                &&& !final(self).memory().changed
            }),
    {
        proof {
            use_type_invariant(&*self);
        }
        let before = self.now;
        let mut after = before;
        after.last_time = before.time;
        after.time = now;
        if now - before.last_change < self.db_time {
            after.changed = false;
        } else {
            after.last_state = before.state;
            after.state = level != self.invert;
            after.changed = after.state != after.last_state;
            if after.changed {
                after.last_change = now;
                if after.state {
                    after.press_time = now;
                }
            }
        }
        self.now = after;
        after.state
    }

    /// The accepted state, as of the last poll.
    pub fn pressed(&self) -> (pressed: bool)
        ensures
            pressed == self.memory().state,
    {
        self.now.state
    }

    /// Everything the button remembers, as of the last poll.
    pub fn snapshot(&self) -> (memory: ButtonState)
        ensures
            memory == self.memory(),
    {
        self.now
    }
}

} // verus!
