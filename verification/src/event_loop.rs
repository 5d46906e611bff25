//! The tick scheduler. It decides; its driver acts: the driver reads the
//! clock, invokes the callback and sleeps, and reports each outcome back.
//! All times are in nanoseconds on the driver's monotonic clock.

use vstd::prelude::*;

verus! {

/// How the scheduler is paced and how much it reports.
#[derive(Debug, Clone, Copy, PartialEq, Eq, Structural)]
pub struct EventLoopConfig {
    /// The interval between two ticks, in milliseconds.
    pub tick_rate_ms: u64,
    /// Whether the duration of each tick is reported.
    pub verbose_timing: bool,
}

impl Default for EventLoopConfig {
    /// Two ticks per second, without timing reports.
    fn default() -> (res: Self)
        ensures
            res.tick_rate_ms == 500,
            res.verbose_timing == false,
    {
        EventLoopConfig { tick_rate_ms: 500, verbose_timing: false }
    }
}

impl EventLoopConfig {
    /// The interval between two ticks, in nanoseconds.
    pub open spec fn interval_nanos_spec(self) -> int {
        self.tick_rate_ms * 1_000_000
    }

    pub fn interval_nanos(&self) -> (res: u128)
        ensures
            res == self.interval_nanos_spec(),
    {
        (self.tick_rate_ms as u128) * 1_000_000
    }

    /// The number of whole ticks per second.
    pub fn frequency_hz(&self) -> (res: u64)
        requires
            self.tick_rate_ms > 0,
        ensures
            res == 1000int / (self.tick_rate_ms as int),
    {
        1000 / self.tick_rate_ms
    }
}

/// Where the scheduler stands in its life: never started, between `start`
/// and `stop`, or stopped.
#[derive(Debug, Clone, Copy, PartialEq, Eq, Structural)]
pub enum LoopPhase {
    Idle,
    Running,
    Stopped,
}

/// What the driver of a loop does next.
#[derive(Debug, Clone, Copy, PartialEq, Eq, Structural)]
pub enum Directive {
    /// Invoke the callback with this tick number, then report with `tick`.
    Invoke { tick: u64 },
    /// Leave the loop and call `stop`.
    Finish,
}

/// How the driver spends the rest of the interval after a tick.
#[derive(Debug, Clone, Copy, PartialEq, Eq, Structural)]
pub enum Pacing {
    /// Sleep for this long.
    Sleep { nanos: u128 },
    /// The tick used up its interval: do not sleep, and report that the
    /// loop cannot keep up.
    Overrun { took: u128, target_ms: u64 },
}

/// What one tick leaves to report.
#[derive(Debug, PartialEq)]
pub struct TickReport {
    /// The number that the callback was invoked with.
    pub tick: u64,
    /// The failure that the callback returned, if it failed.
    pub error: Option<String>,
    /// How long the callback took.
    pub took: u128,
    /// Whether the duration is to be shown.
    pub show_timing: bool,
}

/// The totals that `stop` reports.
#[derive(Debug, Clone, Copy, PartialEq, Eq, Structural)]
pub struct StopReport {
    pub total_ticks: u64,
    pub elapsed: u128,
}

/// The scheduler as a mathematical value.
pub struct LoopModel {
    pub running: bool,
    pub config: EventLoopConfig,
    pub tick_count: u64,
    pub start_time: Option<u128>,
}

impl LoopModel {
    pub open spec fn phase(self) -> LoopPhase {
        if self.running {
            LoopPhase::Running
        } else if self.start_time is Some {
            LoopPhase::Stopped
        } else {
            LoopPhase::Idle
        }
    }

    /// The scheduler after `start` at the time `now`.
    pub open spec fn started(self, now: u128) -> LoopModel {
        LoopModel { running: true, config: self.config, tick_count: 0, start_time: Some(now) }
    }

    /// The scheduler after one tick, whatever the callback returned.
    pub open spec fn ticked(self) -> LoopModel {
        LoopModel { tick_count: (self.tick_count + 1) as u64, ..self }
    }

    /// The scheduler after `count` ticks.
    pub open spec fn after_ticks(self, count: nat) -> LoopModel
        decreases count,
    {
        if count == 0 {
            self
        } else {
            self.after_ticks((count - 1) as nat).ticked()
        }
    }

    /// The scheduler after `stop`.
    pub open spec fn stopped(self) -> LoopModel {
        LoopModel { running: false, ..self }
    }

    /// The time since `start`, as far as the scheduler was started.
    pub open spec fn elapsed(self, now: u128) -> Option<u128> {
        match self.start_time {
            Some(start) => Some(
                if now >= start {
                    (now - start) as u128
                } else {
                    0
                },
            ),
            None => None,
        }
    }

    /// The next step of the continuous loop: a tick while the scheduler is
    /// running.
    pub open spec fn continuous_directive(self) -> Directive {
        if self.running {
            Directive::Invoke { tick: self.tick_count }
        } else {
            Directive::Finish
        }
    }

    /// The next step of the loop that is bounded by `num_ticks`.
    pub open spec fn bounded_directive(self, num_ticks: u64) -> Directive {
        if self.running && self.tick_count < num_ticks {
            Directive::Invoke { tick: self.tick_count }
        } else {
            Directive::Finish
        }
    }

    /// The pause of the continuous loop after a tick that took `took`:
    /// what is left of the interval, or none at all after an overrun.
    pub open spec fn pacing(self, took: u128) -> Pacing {
        if took < self.config.interval_nanos_spec() {
            Pacing::Sleep { nanos: (self.config.interval_nanos_spec() - took) as u128 }
        } else {
            Pacing::Overrun { took, target_ms: self.config.tick_rate_ms }
        }
    }

    /// What `stop` reports at the time `now`.
    pub open spec fn stop_report(self, now: u128) -> Option<StopReport> {
        match self.elapsed(now) {
            Some(elapsed) => Some(StopReport { total_ticks: self.tick_count, elapsed }),
            None => None,
        }
    }
}

/// The failure in the outcome of a callback, if it failed.
pub open spec fn failure_of(outcome: Result<(), String>) -> Option<String> {
    match outcome {
        Ok(_) => None,
        Err(e) => Some(e),
    }
}

/// A scheduler that runs a callback at a fixed rate.
pub struct EventLoop {
    running: bool,
    config: EventLoopConfig,
    tick_count: u64,
    start_time: Option<u128>,
}

impl View for EventLoop {
    type V = LoopModel;

    closed spec fn view(&self) -> LoopModel {
        LoopModel {
            running: self.running,
            config: self.config,
            tick_count: self.tick_count,
            start_time: self.start_time,
        }
    }
}

impl EventLoop {
    /// An idle scheduler.
    pub fn new(config: EventLoopConfig) -> (res: Self)
        ensures
            res@ == (LoopModel { running: false, config, tick_count: 0, start_time: None }),
    {
        EventLoop { running: false, config, tick_count: 0, start_time: None }
    }

    /// An idle scheduler with two ticks per second and no timing reports.
    pub fn default() -> (res: Self)
        ensures
            res@ == (LoopModel {
                running: false,
                config: EventLoopConfig { tick_rate_ms: 500, verbose_timing: false },
                tick_count: 0,
                start_time: None,
            }),
    {
        EventLoop::new(EventLoopConfig { tick_rate_ms: 500, verbose_timing: false })
    }

    pub fn config(&self) -> (res: EventLoopConfig)
        ensures
            res == self@.config,
    {
        self.config
    }

    pub fn is_running(&self) -> (res: bool)
        ensures
            res == self@.running,
    {
        self.running
    }

    /// The number of ticks since the last `start`.
    pub fn tick_count(&self) -> (res: u64)
        ensures
            res == self@.tick_count,
    {
        self.tick_count
    }

    pub fn phase(&self) -> (res: LoopPhase)
        ensures
            res == self@.phase(),
    {
        if self.running {
            LoopPhase::Running
        } else if self.start_time.is_some() {
            LoopPhase::Stopped
        } else {
            LoopPhase::Idle
        }
    }

    /// The time from the last `start` to `now`; `None` before the first
    /// `start`.
    pub fn elapsed(&self, now: u128) -> (res: Option<u128>)
        ensures
            res == self@.elapsed(now),
    {
        match self.start_time {
            Some(start) => Some(
                if now >= start {
                    now - start
                } else {
                    0
                },
            ),
            None => None,
        }
    }

    /// Starts the scheduler at the time `now`: it runs, and counts its
    /// ticks from zero.
    pub fn start(&mut self, now: u128)
        ensures
            final(self)@ == old(self)@.started(now),
    {
        self.running = true;
        self.start_time = Some(now);
        self.tick_count = 0;
    }

    /// Stops the scheduler and reports the number of ticks and the time
    /// since `start`. The stop takes effect at the next decision of a loop,
    /// never within a tick.
    pub fn stop(&mut self, now: u128) -> (res: Option<StopReport>)
        ensures
            final(self)@ == old(self)@.stopped(),
            res == old(self)@.stop_report(now),
    {
        self.running = false;
        match self.elapsed(now) {
            Some(elapsed) => Some(StopReport { total_ticks: self.tick_count, elapsed }),
            None => None,
        }
    }

    /// Records one tick: the callback was invoked with the current tick
    /// number, returned `outcome` and took `took`. A failure is reported and
    /// changes nothing else: the scheduler counts the tick and goes on.
    pub fn tick(&mut self, outcome: Result<(), String>, took: u128) -> (res: TickReport)
        requires
            old(self)@.tick_count < u64::MAX,
        ensures
            final(self)@ == old(self)@.ticked(),
            res == (TickReport {
                tick: old(self)@.tick_count,
                error: failure_of(outcome),
                took,
                show_timing: old(self)@.config.verbose_timing,
            }),
    {
        let tick = self.tick_count;
        let error = match outcome {
            Ok(_) => None,
            Err(e) => Some(e),
        };
        self.tick_count += 1;
        TickReport { tick, error, took, show_timing: self.config.verbose_timing }
    }

    /// The next step of the continuous loop: another tick as long as the
    /// scheduler is running.
    pub fn run(&self) -> (res: Directive)
        ensures
            res == self@.continuous_directive(),
    {
        if self.running {
            Directive::Invoke { tick: self.tick_count }
        } else {
            Directive::Finish
        }
    }

    /// The pause of the continuous loop after a tick that took `took`: the
    /// rest of the interval, or, when the tick used up the interval, no
    /// sleep but an overrun to report.
    pub fn pace(&self, took: u128) -> (res: Pacing)
        ensures
            res == self@.pacing(took),
    {
        let target = self.config.interval_nanos();
        if took < target {
            Pacing::Sleep { nanos: target - took }
        } else {
            Pacing::Overrun { took, target_ms: self.config.tick_rate_ms }
        }
    }

    /// The next step of the loop that ends after `num_ticks` ticks: another
    /// tick as long as the scheduler is running and has ticks left.
    pub fn run_for(&self, num_ticks: u64) -> (res: Directive)
        ensures
            res == self@.bounded_directive(num_ticks),
    {
        if self.running && self.tick_count < num_ticks {
            Directive::Invoke { tick: self.tick_count }
        } else {
            Directive::Finish
        }
    }
}

/// Tick count: a bounded loop that is started and never stopped from
/// outside invokes the callback once for each tick number below
/// `num_ticks`, in order, and then finishes. The outcomes of the callback
/// play no part in it: a tick is counted whether it failed or not.
pub proof fn lemma_bounded_loop_ticks(before: LoopModel, now: u128, num_ticks: u64, done: nat)
    requires
        done <= num_ticks,
    ensures
        ({
            let at = before.started(now).after_ticks(done);
            &&& at.running
            &&& at.tick_count == done
            &&& at.config == before.config
            &&& at.start_time == Some(now)
            &&& done < num_ticks ==> at.bounded_directive(num_ticks) == (Directive::Invoke {
                tick: done as u64,
            })
            &&& done == num_ticks ==> at.bounded_directive(num_ticks) == Directive::Finish
        }),
    decreases done,
{
    if done > 0 {
        lemma_bounded_loop_ticks(before, now, num_ticks, (done - 1) as nat);
    }
}

/// The tick numbers with which a driver that follows the bounded loop's
/// directives invokes the callback, from the scheduler's present state to
/// the directive to finish.
pub open spec fn bounded_invocations(at: LoopModel, num_ticks: u64) -> Seq<u64>
    decreases num_ticks - at.tick_count,
{
    if at.running && at.tick_count < num_ticks {
        seq![at.tick_count] + bounded_invocations(at.ticked(), num_ticks)
    } else {
        Seq::empty()
    }
}

/// Tick count, for the whole loop: from `start` to the directive to finish
/// the callback is invoked exactly `num_ticks` times, with the tick numbers
/// from zero upwards.
pub proof fn lemma_bounded_loop_invokes_each_tick_once(
    before: LoopModel,
    now: u128,
    num_ticks: u64,
)
    ensures
        bounded_invocations(before.started(now), num_ticks) == Seq::new(
            num_ticks as nat,
            |i: int| i as u64,
        ),
{
    lemma_invocations_from(before.started(now), num_ticks);
}

/// A running scheduler that has counted some of the ticks of a bounded
/// loop is invoked once for each tick that is left, in order.
pub proof fn lemma_invocations_from(at: LoopModel, num_ticks: u64)
    requires
        at.running,
        at.tick_count <= num_ticks,
    ensures
        bounded_invocations(at, num_ticks) == Seq::new(
            (num_ticks - at.tick_count) as nat,
            |i: int| (at.tick_count + i) as u64,
        ),
    decreases num_ticks - at.tick_count,
{
    if at.tick_count < num_ticks {
        lemma_invocations_from(at.ticked(), num_ticks);
        assert(bounded_invocations(at, num_ticks) =~= Seq::new(
            (num_ticks - at.tick_count) as nat,
            |i: int| (at.tick_count + i) as u64,
        ));
    } else {
        assert(bounded_invocations(at, num_ticks) =~= Seq::new(
            (num_ticks - at.tick_count) as nat,
            |i: int| (at.tick_count + i) as u64,
        ));
    }
}

/// A failed tick does not end the continuous loop: after any tick a
/// running scheduler is still running, and asks for the next tick.
pub proof fn lemma_tick_keeps_the_loop_running(at: LoopModel)
    requires
        at.running,
        at.tick_count < u64::MAX,
    ensures
        at.ticked().running,
        at.ticked().continuous_directive() == (Directive::Invoke {
            tick: (at.tick_count + 1) as u64,
        }),
{
}

/// A stop ends every loop at its next decision, and stays in force: the
/// scheduler is not running, keeps its tick count, and both loops finish.
pub proof fn lemma_stop_ends_the_loop(at: LoopModel, num_ticks: u64)
    ensures
        !at.stopped().running,
        at.stopped().tick_count == at.tick_count,
        at.stopped().bounded_directive(num_ticks) == Directive::Finish,
        at.stopped().continuous_directive() == Directive::Finish,
        at.stopped().stopped() == at.stopped(),
{
}

/// Overrun: after a tick that took the whole interval or more the loop
/// does not sleep; after a shorter one it sleeps for exactly the rest of
/// the interval.
pub proof fn lemma_pacing_fills_the_interval(at: LoopModel, took: u128)
    ensures
        took >= at.config.interval_nanos_spec() ==> at.pacing(took) == (Pacing::Overrun {
            took,
            target_ms: at.config.tick_rate_ms,
        }),
        took < at.config.interval_nanos_spec() ==> at.pacing(took) is Sleep && at.pacing(
            took,
        )->nanos > 0 && at.pacing(took)->nanos + took == at.config.interval_nanos_spec(),
{
    assert(at.config.interval_nanos_spec() <= 0xffff_ffff_ffff_ffff * 1_000_000);
}

} // verus!
