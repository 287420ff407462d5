// Window events as the engine reads them, and the debounced key detector.

use crate::clock::nanos_between;
use std::time::Instant;
use vstd::prelude::*;

verus! {

/// The code of the F11 key.
pub const KEY_F11: u32 = 47;

/// What the windowing system reports, reduced to what the engine decides on.
#[derive(Clone, Copy, Debug, PartialEq, Eq, Structural)]
pub enum Event {
    /// A key changed state. `key` is `None` where the windowing system could
    /// not name the key.
    KeyboardInput { key: Option<u32>, pressed: bool },
    /// The user asked to close the window.
    CloseRequested,
    /// The window wants its contents drawn.
    RedrawRequested,
    /// Anything else.
    Other,
}

impl Event {
    /// The event reports that the key `key_code` went down.
    pub open spec fn spec_is_press_of(&self, key_code: u32) -> bool {
        *self == (Event::KeyboardInput { key: Some(key_code), pressed: true })
    }

    pub fn is_press_of(&self, key_code: u32) -> (press: bool)
        ensures
            press == self.spec_is_press_of(key_code),
    {
        match self {
            Event::KeyboardInput { key: Some(code), pressed } => *code == key_code && *pressed,
            _ => false,
        }
    }
}

/// A key with a cooldown: a press counts only if at least `cooldown`
/// nanoseconds have passed since the last press that counted.
pub struct Key {
    last_press: Instant,
    cooldown: u64,
    key_code: u32,
}

impl Key {
    /// The cooldown in nanoseconds.
    pub closed spec fn spec_cooldown(&self) -> u64 {
        self.cooldown
    }

    pub closed spec fn spec_key_code(&self) -> u32 {
        self.key_code
    }

    /// The clock reading from which the cooldown runs: that of the key's
    /// creation, and then that of the last press that counted.
    pub closed spec fn spec_last_press(&self) -> Instant {
        self.last_press
    }

    /// Whether an event that arrives `elapsed_nanos` after the last counted
    /// press counts as a press of this key.
    pub open spec fn spec_accepts(&self, event: Event, elapsed_nanos: u128) -> bool {
        elapsed_nanos >= self.spec_cooldown() && event.spec_is_press_of(self.spec_key_code())
    }

    /// A key whose cooldown starts at the reading `now`.
    pub fn new_at(cooldown: u64, key_code: u32, now: Instant) -> (key: Key)
        ensures
            key.spec_cooldown() == cooldown,
            key.spec_key_code() == key_code,
            key.spec_last_press() == now,
    {
        Key { last_press: now, cooldown, key_code }
    }

    /// A key whose cooldown starts now: at the reading that the clock gives
    /// during the call.
    pub fn new(cooldown: u64, key_code: u32) -> (key: Key)
        ensures
            key.spec_cooldown() == cooldown,
            key.spec_key_code() == key_code,
    {
        Key::new_at(cooldown, key_code, Instant::now())
    }

    pub fn last_press(&self) -> (reading: Instant)
        ensures
            reading == self.spec_last_press(),
    {
        self.last_press
    }

    pub fn cooldown(&self) -> (cooldown: u64)
        ensures
            cooldown == self.spec_cooldown(),
    {
        self.cooldown
    }

    pub fn key_code(&self) -> (key_code: u32)
        ensures
            key_code == self.spec_key_code(),
    {
        self.key_code
    }

    pub fn accepts(&self, event: &Event, elapsed_nanos: u128) -> (accepted: bool)
        ensures
            accepted == self.spec_accepts(*event, elapsed_nanos),
    {
        if elapsed_nanos < self.cooldown as u128 {
            return false;
        }
        event.is_press_of(self.key_code)
    }

    /// Decides whether `event`, which arrives at the reading `now`,
    /// `elapsed_nanos` after the last counted press, is a press of this key
    /// that counts. A press that counts restarts the cooldown at `now`; any
    /// other event leaves the key as it was.
    pub fn press_at(&mut self, event: &Event, elapsed_nanos: u128, now: Instant) -> (accepted: bool)
        ensures
            accepted == old(self).spec_accepts(*event, elapsed_nanos),
            final(self).spec_last_press() == (if accepted {
                now
            } else {
                old(self).spec_last_press()
            }),
            final(self).spec_cooldown() == old(self).spec_cooldown(),
            final(self).spec_key_code() == old(self).spec_key_code(),
    {
        let accepted = self.accepts(event, elapsed_nanos);
        if accepted {
            self.last_press = now;
        }
        accepted
    }

    /// Reads the clock once and decides, by `press_at`, whether `event` is
    /// a press of this key that counts now: the time since the stored
    /// reading is measured up to the new reading, and a press that counts
    /// stores the new reading. The answer depends on the clock, but never
    /// says yes to an event that is no press of this key, and with a
    /// cooldown of zero it says yes to every press of it. An event that
    /// does not count leaves the key as it was.
    pub fn is_pressed(&mut self, event: &Event) -> (accepted: bool)
        ensures
            accepted ==> event.spec_is_press_of(old(self).spec_key_code()),
            old(self).spec_cooldown() == 0 ==> accepted == event.spec_is_press_of(
                old(self).spec_key_code(),
            ),
            !accepted ==> *final(self) == *old(self),
            final(self).spec_cooldown() == old(self).spec_cooldown(),
            final(self).spec_key_code() == old(self).spec_key_code(),
    {
        let now = Instant::now();
        let elapsed = nanos_between(self.last_press, now);
        self.press_at(event, elapsed, now)
    }
}

} // verus!
