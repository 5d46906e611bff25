use car_system::event_loop::{
    Directive, EventLoop, EventLoopConfig, LoopPhase, Pacing, StopReport, TickReport,
};

const MS: u128 = 1_000_000;

/// Drives the bounded loop as its driver does, with a callback that fails
/// on the ticks listed in `failing`. Returns the tick numbers the callback
/// saw and the number of stops.
fn drive_bounded(
    event_loop: &mut EventLoop,
    num_ticks: u64,
    failing: &[u64],
) -> (Vec<u64>, u32, Vec<TickReport>) {
    let mut seen = Vec::new();
    let mut reports = Vec::new();
    let mut stops = 0;
    event_loop.start(1000);
    loop {
        match event_loop.run_for(num_ticks) {
            Directive::Invoke { tick } => {
                seen.push(tick);
                let outcome = if failing.contains(&tick) {
                    Err(format!("tick {} failed", tick))
                } else {
                    Ok(())
                };
                reports.push(event_loop.tick(outcome, 3 * MS));
            }
            Directive::Finish => break,
        }
    }
    event_loop.stop(2000);
    stops += 1;
    (seen, stops, reports)
}

#[test]
fn default_config_is_two_hertz() {
    let config = EventLoopConfig::default();
    assert_eq!(config.tick_rate_ms, 500);
    assert!(!config.verbose_timing);
    assert_eq!(config.frequency_hz(), 2);
    assert_eq!(config.interval_nanos(), 500 * MS);
}

#[test]
fn new_loop_is_idle() {
    let event_loop = EventLoop::new(EventLoopConfig { tick_rate_ms: 20, verbose_timing: true });
    assert!(!event_loop.is_running());
    assert_eq!(event_loop.tick_count(), 0);
    assert_eq!(event_loop.elapsed(12345), None);
    assert_eq!(event_loop.phase(), LoopPhase::Idle);
    assert_eq!(event_loop.config(), EventLoopConfig { tick_rate_ms: 20, verbose_timing: true });
    assert_eq!(event_loop.run(), Directive::Finish);
    assert_eq!(event_loop.run_for(3), Directive::Finish);
}

#[test]
fn default_loop_has_default_config() {
    let event_loop = EventLoop::default();
    assert_eq!(event_loop.config(), EventLoopConfig::default());
    assert_eq!(event_loop.phase(), LoopPhase::Idle);
}

#[test]
fn bounded_loop_invokes_each_tick_once() {
    let mut event_loop = EventLoop::default();
    let (seen, stops, _) = drive_bounded(&mut event_loop, 7, &[]);
    assert_eq!(seen, vec![0, 1, 2, 3, 4, 5, 6]);
    assert_eq!(stops, 1);
    assert_eq!(event_loop.tick_count(), 7);
    assert!(!event_loop.is_running());
    assert_eq!(event_loop.phase(), LoopPhase::Stopped);
}

#[test]
fn failures_do_not_end_the_bounded_loop() {
    let mut event_loop = EventLoop::default();
    let (seen, stops, reports) = drive_bounded(&mut event_loop, 5, &[1, 3, 4]);
    assert_eq!(seen, vec![0, 1, 2, 3, 4]);
    assert_eq!(stops, 1);
    assert_eq!(event_loop.tick_count(), 5);
    assert_eq!(reports[0].error, None);
    assert_eq!(reports[1].error, Some("tick 1 failed".to_string()));
    assert_eq!(reports[2].error, None);
    assert_eq!(reports[3].error, Some("tick 3 failed".to_string()));
    assert_eq!(reports[4].error, Some("tick 4 failed".to_string()));
}

#[test]
fn bounded_loop_of_no_ticks_finishes_at_once() {
    let mut event_loop = EventLoop::default();
    let (seen, stops, _) = drive_bounded(&mut event_loop, 0, &[]);
    assert!(seen.is_empty());
    assert_eq!(stops, 1);
    assert_eq!(event_loop.tick_count(), 0);
}

#[test]
fn external_stop_ends_the_loop_at_the_next_decision() {
    let mut event_loop = EventLoop::default();
    event_loop.start(0);
    assert_eq!(event_loop.run_for(10), Directive::Invoke { tick: 0 });
    event_loop.tick(Ok(()), MS);
    assert_eq!(event_loop.run_for(10), Directive::Invoke { tick: 1 });
    event_loop.tick(Ok(()), MS);
    let report = event_loop.stop(5 * MS);
    assert_eq!(report, Some(StopReport { total_ticks: 2, elapsed: 5 * MS }));
    assert_eq!(event_loop.run_for(10), Directive::Finish);
    assert_eq!(event_loop.run(), Directive::Finish);
    assert_eq!(event_loop.tick_count(), 2);
}

#[test]
fn continuous_loop_runs_until_stopped() {
    let mut event_loop = EventLoop::default();
    event_loop.start(0);
    for expected in 0..25u64 {
        assert_eq!(event_loop.run(), Directive::Invoke { tick: expected });
        event_loop.tick(Err("again".to_string()), MS);
    }
    assert!(event_loop.is_running());
    event_loop.stop(0);
    assert_eq!(event_loop.run(), Directive::Finish);
}

#[test]
fn tick_reports_what_happened() {
    let mut quiet = EventLoop::new(EventLoopConfig { tick_rate_ms: 10, verbose_timing: false });
    quiet.start(0);
    assert_eq!(
        quiet.tick(Ok(()), 42),
        TickReport { tick: 0, error: None, took: 42, show_timing: false }
    );
    let mut verbose = EventLoop::new(EventLoopConfig { tick_rate_ms: 10, verbose_timing: true });
    verbose.start(0);
    verbose.tick(Ok(()), 1);
    assert_eq!(
        verbose.tick(Err("sensor".to_string()), 43),
        TickReport { tick: 1, error: Some("sensor".to_string()), took: 43, show_timing: true }
    );
    assert_eq!(verbose.tick_count(), 2);
}

#[test]
fn pacing_sleeps_for_the_rest_of_the_interval() {
    let event_loop = EventLoop::new(EventLoopConfig { tick_rate_ms: 500, verbose_timing: false });
    assert_eq!(event_loop.pace(0), Pacing::Sleep { nanos: 500 * MS });
    assert_eq!(event_loop.pace(120 * MS), Pacing::Sleep { nanos: 380 * MS });
    assert_eq!(event_loop.pace(500 * MS - 1), Pacing::Sleep { nanos: 1 });
}

#[test]
fn overrun_does_not_sleep() {
    let event_loop = EventLoop::new(EventLoopConfig { tick_rate_ms: 500, verbose_timing: false });
    assert_eq!(
        event_loop.pace(500 * MS),
        Pacing::Overrun { took: 500 * MS, target_ms: 500 }
    );
    assert_eq!(
        event_loop.pace(730 * MS),
        Pacing::Overrun { took: 730 * MS, target_ms: 500 }
    );
    assert_eq!(event_loop.pace(u128::MAX), Pacing::Overrun { took: u128::MAX, target_ms: 500 });
}

#[test]
fn zero_interval_always_overruns() {
    let event_loop = EventLoop::new(EventLoopConfig { tick_rate_ms: 0, verbose_timing: false });
    assert_eq!(event_loop.pace(0), Pacing::Overrun { took: 0, target_ms: 0 });
}

#[test]
fn largest_interval_does_not_overflow() {
    let config = EventLoopConfig { tick_rate_ms: u64::MAX, verbose_timing: false };
    assert_eq!(config.interval_nanos(), (u64::MAX as u128) * 1_000_000);
    let event_loop = EventLoop::new(config);
    assert_eq!(
        event_loop.pace(1),
        Pacing::Sleep { nanos: (u64::MAX as u128) * 1_000_000 - 1 }
    );
}

#[test]
fn start_resets_the_counter() {
    let mut event_loop = EventLoop::default();
    event_loop.start(10);
    event_loop.tick(Ok(()), 1);
    event_loop.tick(Ok(()), 1);
    event_loop.stop(20);
    assert_eq!(event_loop.tick_count(), 2);
    event_loop.start(30);
    assert_eq!(event_loop.tick_count(), 0);
    assert!(event_loop.is_running());
    assert_eq!(event_loop.phase(), LoopPhase::Running);
    assert_eq!(event_loop.elapsed(45), Some(15));
}

#[test]
fn elapsed_never_runs_backwards() {
    let mut event_loop = EventLoop::default();
    event_loop.start(100);
    assert_eq!(event_loop.elapsed(100), Some(0));
    assert_eq!(event_loop.elapsed(350), Some(250));
    assert_eq!(event_loop.elapsed(40), Some(0));
}

#[test]
fn stop_before_start_reports_nothing() {
    let mut event_loop = EventLoop::default();
    assert_eq!(event_loop.stop(5), None);
    assert_eq!(event_loop.phase(), LoopPhase::Idle);
}

#[test]
fn frequency_of_slow_and_fast_loops() {
    assert_eq!(EventLoopConfig { tick_rate_ms: 1, verbose_timing: false }.frequency_hz(), 1000);
    assert_eq!(EventLoopConfig { tick_rate_ms: 3, verbose_timing: false }.frequency_hz(), 333);
    assert_eq!(EventLoopConfig { tick_rate_ms: 1001, verbose_timing: false }.frequency_hz(), 0);
}
