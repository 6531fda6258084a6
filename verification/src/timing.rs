//! Time-related events of the interface, on a millisecond clock that the host
//! keeps.

use vstd::prelude::*;

verus! {

/// How long after the window gains focus page switches are ignored, in milliseconds.
pub const TIMEOUT_FOCUS: u64 = 200;

/// When the window last gained focus and when an address was last copied.
pub struct TimingEvents {
    /// Time the window last gained focus.
    pub focus: u64,
    /// Time an address was last copied, and that address.
    pub copy_ip: (u64, String),
}

/// Milliseconds from `since` to `now`; zero if `now` is not later.
pub open spec fn elapsed(since: u64, now: u64) -> int {
    if now >= since {
        now - since
    } else {
        0
    }
}

impl TimingEvents {
    pub fn new() -> (r: TimingEvents)
        ensures
            r.focus == 0,
            r.copy_ip.0 == 0,
            r.copy_ip.1@.len() == 0,
    {
        TimingEvents { focus: 0, copy_ip: (0, String::new()) }
    }

    /// The window gained focus at `now`.
    pub fn focus_now(&mut self, now: u64)
        ensures
            final(self).focus == now,
            final(self).copy_ip == old(self).copy_ip,
    {
        self.focus = now;
    }

    /// Whether, at `now`, the window gained focus less than `TIMEOUT_FOCUS` ago.
    pub open spec fn just_focused(&self, now: u64) -> bool {
        elapsed(self.focus, now) < TIMEOUT_FOCUS
    }

    pub fn was_just_focus(&self, now: u64) -> (r: bool)
        ensures
            r == self.just_focused(now),
    {
        if now >= self.focus {
            now - self.focus < TIMEOUT_FOCUS
        } else {
            true
        }
    }

    /// The address `ip` was copied at `now`.
    pub fn copy_ip_now(&mut self, ip: String, now: u64)
        ensures
            final(self).copy_ip.0 == now,
            final(self).copy_ip.1 == ip,
            final(self).focus == old(self).focus,
    {
        self.copy_ip = (now, ip);
    }
}

} // verus!
