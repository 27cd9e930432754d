use vstd::prelude::*;

verus! {

/// Seconds of inactivity after which a shared cluster shuts itself down.
pub const TASK_EXPIRATION_SEC: i64 = 300;

/// Seconds between two checks of the idle-shutdown ticker.
pub const TICK_INTERVAL_SEC: u64 = 1;

/// True when `now` lies at least `window` seconds after `last_touch`.
pub open spec fn lease_expired(last_touch: int, now: int, window: int) -> bool {
    now - last_touch >= window
}

/// Decides whether the idle-shutdown ticker terminates, given the time of the
/// last touch and the current time, both in seconds.
pub fn idle_expired(last_touch: i64, now: i64, window: i64) -> (r: bool)
    ensures
        r == lease_expired(last_touch as int, now as int, window as int),
{
    (now as i128) - (last_touch as i128) >= window as i128
}

/// The liveness lease of a shared cluster: the last time a client asked about
/// it, and how long it may stay idle.
#[derive(Debug)]
pub struct IdleLease {
    pub last_touch: i64,
    pub window: i64,
}

/// What the ticker does after one check.
#[derive(Debug)]
pub enum TickAction {
    /// The lease is still fresh: check again after the tick interval.
    Continue,
    /// The lease ran out: shut the process down.
    Terminate,
}

impl IdleLease {
    /// A lease touched at `now`.
    pub fn new(now: i64, window: i64) -> (r: IdleLease)
        ensures
            r.last_touch == now,
            r.window == window,
    {
        IdleLease { last_touch: now, window }
    }

    /// Refreshes the lease at time `now`.
    pub fn touch(&mut self, now: i64)
        ensures
            final(self).last_touch == now,
            final(self).window == old(self).window,
    {
        self.last_touch = now;
    }

    /// True when the lease has not been touched for a whole window at time `now`.
    pub fn is_expired(&self, now: i64) -> (r: bool)
        ensures
            r == lease_expired(self.last_touch as int, now as int, self.window as int),
    {
        idle_expired(self.last_touch, now, self.window)
    }

    /// One check of the ticker at time `now`.
    pub fn tick(&self, now: i64) -> (r: TickAction)
        ensures
            r is Terminate <==> lease_expired(self.last_touch as int, now as int, self.window as int),
    {
        if self.is_expired(now) {
            TickAction::Terminate
        } else {
            TickAction::Continue
        }
    }
}

/// Relies on chrono::Utc::now and DateTime::timestamp: the current Unix time
/// in whole seconds. Nothing is known of the value.
#[verifier::external_body]
fn unix_now() -> (r: i64) {
    chrono::Utc::now().timestamp()
}

impl IdleLease {
    /// A lease touched now.
    pub fn start(window: i64) -> (r: IdleLease)
        ensures
            r.window == window,
    {
        IdleLease::new(unix_now(), window)
    }

    /// Refreshes the lease at the current time.
    pub fn touch_now(&mut self)
        ensures
            final(self).window == old(self).window,
    {
        let now = unix_now();
        self.touch(now);
    }

    /// One check of the ticker at the current time: the action is the one
    /// that `tick` takes at some time.
    pub fn tick_now(&self) -> (r: TickAction)
        ensures
            exists|now: i64|
                (r is Terminate) == lease_expired(
                    self.last_touch as int,
                    now as int,
                    self.window as int,
                ),
    {
        let now = unix_now();
        self.tick(now)
    }
}

/// A lease never ends before a whole window has passed since its last touch,
/// and always ends once it has; a touch at `t` moves the end to `t + window`,
/// so a touch strictly after the previous one outlives the previous deadline.
pub proof fn lemma_touch_defers_expiry(last_touch: int, window: int, touched_at: int)
    requires
        last_touch < touched_at,
    ensures
        !lease_expired(last_touch, last_touch + window - 1, window),
        lease_expired(last_touch, last_touch + window, window),
        !lease_expired(touched_at, last_touch + window, window),
        lease_expired(touched_at, touched_at + window, window),
{
}

} // verus!
