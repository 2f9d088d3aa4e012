use vstd::prelude::*;

verus! {

/// Milliseconds between two polls for the manual trigger.
pub const POLL_INTERVAL_MS: u64 = 100;

/// The wait between two cycles of continuous mode, counted in polls.
pub struct WaitClock {
    pub waited_ms: u64,
    pub limit_ms: u64,
}

/// The key that starts the next cycle at once.
pub open spec fn is_trigger_key(c: char) -> bool {
    c == 'r' || c == 'R'
}

impl WaitClock {
    /// A wait of `seconds` (saturating at the largest count of milliseconds).
    pub fn new(seconds: u64) -> (r: WaitClock)
        ensures
            r.waited_ms == 0,
            r.limit_ms == if seconds <= u64::MAX / 1000 { seconds * 1000 } else { u64::MAX as int },
    {
        let limit_ms = if seconds <= u64::MAX / 1000 { seconds * 1000 } else { u64::MAX };
        WaitClock { waited_ms: 0, limit_ms }
    }

    /// The wait is over.
    pub fn is_over(&self) -> (r: bool)
        ensures
            r == (self.waited_ms >= self.limit_ms),
    {
        self.waited_ms >= self.limit_ms
    }

    /// Takes what one poll saw: a trigger key ends the wait at once (`true`);
    /// anything else counts one poll interval of waiting (`false`).
    pub fn on_poll(&mut self, key: Option<char>) -> (r: bool)
        ensures
            r == (key matches Some(c) && is_trigger_key(c)),
            final(self).limit_ms == old(self).limit_ms,
            r ==> final(self).waited_ms == old(self).waited_ms,
            !r ==> final(self).waited_ms == if old(self).waited_ms <= u64::MAX - POLL_INTERVAL_MS {
                old(self).waited_ms + POLL_INTERVAL_MS
            } else {
                u64::MAX as int
            },
    {
        match key {
            Some(c) => if c == 'r' || c == 'R' {
                return true;
            },
            None => {},
        }
        self.waited_ms = if self.waited_ms <= u64::MAX - POLL_INTERVAL_MS {
            self.waited_ms + POLL_INTERVAL_MS
        } else {
            u64::MAX
        };
        false
    }
}

} // verus!
