use crab8::{ClockTick, CycleClock, Timer};

#[test]
fn timer_fires_once_the_interval_has_passed() {
    let mut timer = Timer::new(100, 1_000);
    assert!(!timer.tick(1_050));
    assert!(!timer.tick(1_099));
    assert!(timer.tick(1_100));
    assert_eq!(timer.last_tick, 1_100);
    assert!(!timer.tick(1_150));
}

#[test]
fn timer_reschedules_from_due_time_not_from_now() {
    let mut timer = Timer::new(100, 0);
    assert!(timer.tick(130));
    assert_eq!(timer.last_tick, 100);
    assert!(timer.tick(200));
    assert_eq!(timer.last_tick, 200);
}

#[test]
fn late_timer_fires_once_per_call_for_each_missed_tick() {
    let mut timer = Timer::new(100, 0);
    assert!(timer.tick(350));
    assert!(timer.tick(350));
    assert!(timer.tick(350));
    assert!(!timer.tick(350));
    assert_eq!(timer.last_tick, 300);
}

#[test]
fn timer_before_its_start_does_not_fire() {
    let mut timer = Timer::new(100, 1_000);
    assert!(!timer.tick(0));
    assert_eq!(timer.last_tick, 1_000);
}

#[test]
fn cycle_clock_budget_from_clock_speed() {
    let clock = CycleClock::new(700, 5);
    assert_eq!(clock.cycle_nanos, 1_428_000);
    assert_eq!(clock.next_cycle, 1_428_005);
    assert_eq!(clock.timer.interval, 16_666_667);
    assert_eq!(clock.timer.last_tick, 5);
    assert_eq!(CycleClock::new(1, 0).cycle_nanos, 1_000_000_000);
    assert_eq!(CycleClock::new(2_000_000, 0).cycle_nanos, 0);
}

#[test]
fn cycle_clock_idles_for_the_rest_of_the_budget() {
    let mut clock = CycleClock::new(1000, 0);
    assert_eq!(clock.advance(250_500), ClockTick { timer_fired: false, idle_micros: 749 });
    assert_eq!(clock.next_cycle, 2_000_000);
    // A late cycle gets no idle time, and the schedule does not move with it.
    assert_eq!(clock.advance(3_500_000), ClockTick { timer_fired: false, idle_micros: 0 });
    assert_eq!(clock.next_cycle, 3_000_000);
    assert_eq!(clock.advance(3_600_000), ClockTick { timer_fired: false, idle_micros: 0 });
    assert_eq!(clock.advance(3_600_000), ClockTick { timer_fired: false, idle_micros: 400 });
}

#[test]
fn cycle_clock_fires_the_timer_at_sixty_hertz() {
    let mut clock = CycleClock::new(1000, 0);
    let mut fired = 0;
    for cycle in 1..=1000u64 {
        if clock.advance(cycle * 1_000_000).timer_fired {
            fired += 1;
        }
    }
    assert_eq!(fired, 59);
}

#[test]
fn cycle_clock_saturates_at_the_end_of_time() {
    let mut clock = CycleClock::new(1, u64::MAX - 10);
    assert_eq!(clock.next_cycle, u64::MAX);
    let tick = clock.advance(u64::MAX);
    assert_eq!(tick.idle_micros, 0);
    assert_eq!(clock.next_cycle, u64::MAX);
}
