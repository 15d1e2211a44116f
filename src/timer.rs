use vstd::prelude::*;

verus! {

/// The spawn timer's period: two seconds, in nanoseconds.
pub const SPAWN_PERIOD_NANOS: u64 = 2_000_000_000;

/// Whether ticking a timer that has run `elapsed` nanoseconds by `delta` more
/// keeps the count of finished periods within a `u32`, as bevy's timer counts them.
pub open spec fn tick_fits(elapsed: nat, delta: nat) -> bool {
    elapsed + delta < SPAWN_PERIOD_NANOS as nat * 0x1_0000_0000
}

/// Relies on bevy_time's repeating `Timer` (`new`, `set_elapsed`, `tick`,
/// `times_finished_this_tick`, `elapsed`): a tick adds `delta` to the elapsed
/// time, counts the whole periods passed and keeps the remainder.
#[verifier::external_body]
fn repeating_tick(period: u64, elapsed: u64, delta: u64) -> (r: (u64, u32))
    requires
        period > 0,
        elapsed < period,
        elapsed + delta <= u64::MAX,
        (elapsed + delta) / (period as int) <= u32::MAX,
    ensures
        r.0 == (elapsed + delta) % (period as int),
        r.1 == (elapsed + delta) / (period as int),
{
    let mut t = bevy_time::Timer::new(std::time::Duration::from_nanos(period), true);
    t.set_elapsed(std::time::Duration::from_nanos(elapsed));
    let finished = t.tick(std::time::Duration::from_nanos(delta)).times_finished_this_tick();
    (t.elapsed().as_nanos() as u64, finished)
}

/// A repeating countdown of period `SPAWN_PERIOD_NANOS`.
pub struct SpawnTimer {
    /// Time run since the period began, in nanoseconds.
    pub elapsed_nanos: u64,
}

impl SpawnTimer {
    pub open spec fn wf(&self) -> bool {
        self.elapsed_nanos < SPAWN_PERIOD_NANOS
    }

    /// A timer at the start of its period.
    pub fn new() -> (r: SpawnTimer)
        ensures
            r.wf(),
            r.elapsed_nanos == 0,
    {
        SpawnTimer { elapsed_nanos: 0 }
    }

    /// Advances the timer by `delta_nanos` and returns how many periods
    /// completed during this tick.
    pub fn tick(&mut self, delta_nanos: u64) -> (finished: u32)
        requires
            old(self).wf(),
            tick_fits(old(self).elapsed_nanos as nat, delta_nanos as nat),
        ensures
            final(self).wf(),
            final(self).elapsed_nanos == (old(self).elapsed_nanos + delta_nanos) % (SPAWN_PERIOD_NANOS as int),
            finished == (old(self).elapsed_nanos + delta_nanos) / (SPAWN_PERIOD_NANOS as int),
    {
        let (elapsed, finished) = repeating_tick(SPAWN_PERIOD_NANOS, self.elapsed_nanos, delta_nanos);
        self.elapsed_nanos = elapsed;
        finished
    }

    /// Advances the timer by `delta_nanos` and tells whether a period
    /// completed during this tick.
    pub fn just_finished(&mut self, delta_nanos: u64) -> (r: bool)
        requires
            old(self).wf(),
            tick_fits(old(self).elapsed_nanos as nat, delta_nanos as nat),
        ensures
            final(self).wf(),
            final(self).elapsed_nanos == (old(self).elapsed_nanos + delta_nanos) % (SPAWN_PERIOD_NANOS as int),
            r == (old(self).elapsed_nanos + delta_nanos >= SPAWN_PERIOD_NANOS),
    {
        let finished = self.tick(delta_nanos);
        finished > 0
    }
}

} // verus!
