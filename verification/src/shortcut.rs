//! The shortcut's press filter and the clock's unit.

use vstd::prelude::*;

verus! {

/// Shortest time, in milliseconds, between two presses of the shortcut that both count.
pub const DEBOUNCE_MS: u64 = 500;

/// Filters the presses of the shortcut: a press counts unless the key is
/// being held or the last press that counted is too recent.
#[derive(Clone, Copy, Debug, PartialEq, Eq)]
pub struct ShortcutGate {
    pub is_down: bool,
    pub last_press_ms: u64,
}

impl ShortcutGate {
    /// Whether a press at `now_ms` comes too soon after the last press that counted.
    pub open spec fn too_soon(self, now_ms: u64) -> bool {
        self.last_press_ms <= now_ms < self.last_press_ms + DEBOUNCE_MS
    }

    /// Whether a press at `now_ms` counts.
    pub open spec fn accepts(self, now_ms: u64) -> bool {
        !self.is_down && !self.too_soon(now_ms)
    }

    /// A gate with the key up and no press seen.
    pub fn new() -> (gate: ShortcutGate)
        ensures
            gate == (ShortcutGate { is_down: false, last_press_ms: 0 }),
    {
        ShortcutGate { is_down: false, last_press_ms: 0 }
    }

    /// The key went down at `now_ms`. Says whether the press counts; if it
    /// does, its time is remembered. The key is down afterwards either way.
    pub fn on_pressed(&mut self, now_ms: u64) -> (accepted: bool)
        ensures
            accepted == old(self).accepts(now_ms),
            final(self).is_down,
            final(self).last_press_ms == (if accepted {
                now_ms
            } else {
                old(self).last_press_ms
            }),
    {
        if self.is_down {
            return false;
        }
        self.is_down = true;
        if now_ms >= self.last_press_ms && now_ms - self.last_press_ms < DEBOUNCE_MS {
            return false;
        }
        self.last_press_ms = now_ms;
        true
    }

    /// The key went up.
    pub fn on_released(&mut self)
        ensures
            *final(self) == (ShortcutGate { is_down: false, ..*old(self) }),
    {
        self.is_down = false;
    }
}

/// Milliseconds in a time span of `secs` seconds and `subsec_nanos`
/// nanoseconds, reduced to 64 bits.
pub open spec fn millis_of(secs: u64, subsec_nanos: u32) -> int {
    (secs * 1000 + subsec_nanos / 1_000_000) % 0x1_0000_0000_0000_0000
}

/// Converts a time since the epoch to the milliseconds that timestamps are kept in.
pub fn millis_since_epoch(secs: u64, subsec_nanos: u32) -> (millis: u64)
    ensures
        millis == millis_of(secs, subsec_nanos),
{
    let whole: u128 = secs as u128 * 1000 + (subsec_nanos / 1_000_000) as u128;
    (whole % 0x1_0000_0000_0000_0000u128) as u64
}

/// A later time gives no smaller count of milliseconds, as long as the count
/// of the later time fits 64 bits.
pub proof fn lemma_millis_monotonic(secs: u64, subsec_nanos: u32, later_secs: u64, later_nanos: u32)
    requires
        subsec_nanos < 1_000_000_000,
        later_nanos < 1_000_000_000,
        secs < later_secs || (secs == later_secs && subsec_nanos <= later_nanos),
        later_secs * 1000 + later_nanos / 1_000_000 <= u64::MAX,
    ensures
        millis_of(secs, subsec_nanos) <= millis_of(later_secs, later_nanos),
{
}

} // verus!
