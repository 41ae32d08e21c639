use std::cell::Cell;

use throttle_timer::ThrottleTimer;

const SEC: u64 = 1_000_000_000;
const MIN: u64 = 60 * 1_000_000_000;

#[test]
fn lib_test() {
    let mut break_timer: ThrottleTimer = ThrottleTimer::new(45 * MIN, &"Break");
    let do_run_flag = break_timer.do_run();

    // timers always run when no previous runs
    assert!(do_run_flag == true);
    if do_run_flag {
        println!("timer do run flag is set to true")
    }
}

#[test]
fn test_run() {
    let mut break_timer: ThrottleTimer = ThrottleTimer::new(45_000 * SEC, &"Break");
    let run_flag = break_timer.run(&mut || {});

    // timers always run when no previous runs
    assert!(run_flag);
    if run_flag {
        println!("timer do run flag is set to true")
    }
    break_timer.event_name();
    break_timer.total_calls();
    break_timer.max_frequency();
    break_timer.created_date();
}

#[test]
fn test_can_run() {
    let mut break_timer: ThrottleTimer = ThrottleTimer::new(1 * SEC, &"Break");

    assert!(break_timer.run(&mut || {}));
    for _ in 0..100 {
        assert!(!break_timer.can_run());
        assert!(!break_timer.run(&mut || {}));
    }

    // timers always run when no previous runs
    assert_eq!(break_timer.total_calls(), &1);
    break_timer.report();
}

#[test]
fn test_print_debug() {
    println!("{:?}", ThrottleTimer::new(1, &"Break"));
}

#[test]
fn test_in_loop() {
    let mut break_timer = ThrottleTimer::new(10 * SEC, &"Break");

    // timers always run when no previous runs
    assert!(break_timer.run(&mut || {}));
    for _ in 0..100 {
        // timer will not run as 10 secs has not passed
        // do run will return false
        assert!(!break_timer.run(&mut || {}));
    }
    assert_eq!(break_timer.total_calls(), &1);
}

#[test]
fn first_call_always_fires() {
    for interval in [0u64, 1, 10 * SEC, u64::MAX] {
        let mut timer = ThrottleTimer::new(interval, &"first");
        assert!(timer.do_run());
        assert_eq!(timer.total_calls(), &1);
    }
}

#[test]
fn throttled_within_interval() {
    let mut timer = ThrottleTimer::new(100, &"within");
    assert!(timer.do_run_at(50));
    // every call before 100 ticks have elapsed is denied and not counted
    for now in [50u64, 51, 99, 149, 0, 7] {
        assert!(!timer.can_run_at(now));
        assert!(!timer.do_run_at(now));
        assert_eq!(timer.total_calls(), &1);
    }
}

#[test]
fn fires_again_after_interval() {
    let mut timer = ThrottleTimer::new(100, &"after");
    assert!(timer.do_run_at(50));
    assert!(!timer.do_run_at(149));
    // exactly at the boundary the timer permits again
    assert!(timer.can_run_at(150));
    assert!(timer.do_run_at(150));
    assert_eq!(timer.total_calls(), &2);
    assert!(timer.do_run_at(10_000));
    assert_eq!(timer.total_calls(), &3);
}

#[test]
fn count_matches_permitted_calls() {
    let mut timer = ThrottleTimer::new(10, &"count");
    let times: [u64; 8] = [0, 1, 9, 10, 15, 20, 30, 31];
    let mut permitted: usize = 0;
    let mut last_count: usize = 0;
    for now in times {
        if timer.do_run_at(now) {
            permitted += 1;
        }
        // the count never decreases
        assert!(*timer.total_calls() >= last_count);
        last_count = *timer.total_calls();
    }
    // fires at 0, 10, 20, 30; throttled at 1, 9, 15, 31
    assert_eq!(permitted, 4);
    assert_eq!(timer.total_calls(), &4);
}

#[test]
fn callback_runs_exactly_on_permitted_calls() {
    let fired = Cell::new(0u32);
    let mut timer = ThrottleTimer::new(10 * MIN, &"cb");

    assert!(timer.run(|| fired.set(fired.get() + 1)));
    assert_eq!(fired.get(), 1);

    // a throttled call must not run the callback
    assert!(!timer.run(|| fired.set(fired.get() + 1)));
    assert_eq!(fired.get(), 1);
}

#[test]
fn exactly_one_branch_runs() {
    let on_fire = Cell::new(0u32);
    let on_throttle = Cell::new(0u32);
    let mut timer = ThrottleTimer::new(10 * MIN, &"branch");

    assert!(timer.run_throttle_cb(
        || on_fire.set(on_fire.get() + 1),
        || on_throttle.set(on_throttle.get() + 1),
    ));
    assert_eq!((on_fire.get(), on_throttle.get()), (1, 0));

    assert!(!timer.run_throttle_cb(
        || on_fire.set(on_fire.get() + 1),
        || on_throttle.set(on_throttle.get() + 1),
    ));
    assert_eq!((on_fire.get(), on_throttle.get()), (1, 1));
}

#[test]
fn wait_time_clamps_at_zero() {
    let mut timer = ThrottleTimer::new(100, &"wait");
    // before the first permitted call there is nothing to wait for
    assert_eq!(timer.wait_time(), 0);
    assert_eq!(timer.wait_time_at(0), 0);

    assert!(timer.do_run_at(50));
    assert_eq!(timer.wait_time_at(50), 100);
    assert_eq!(timer.wait_time_at(80), 70);
    assert_eq!(timer.wait_time_at(149), 1);
    // once the interval has fully elapsed the wait is exactly zero
    assert_eq!(timer.wait_time_at(150), 0);
    assert_eq!(timer.wait_time_at(10_000), 0);
    // a reading before the last firing saturates to no elapsed time
    assert_eq!(timer.wait_time_at(10), 100);
}

#[test]
fn scenario_break_interval_ten() {
    let mut timer = ThrottleTimer::new(10, &"Break");
    assert!(timer.do_run_at(0));
    assert_eq!(timer.total_calls(), &1);
    for _ in 0..100 {
        assert!(!timer.do_run_at(0));
    }
    assert_eq!(timer.total_calls(), &1);
}

#[test]
fn scenario_snack_interval_one() {
    let mut timer = ThrottleTimer::new(1 * SEC, &"Snack");
    assert!(timer.do_run_at(0));
    // immediately again: denied
    assert!(!timer.do_run_at(1));
    // a full interval later: permitted
    assert!(timer.do_run_at(1 * SEC + 1));
    assert_eq!(timer.total_calls(), &2);
    // 100ms later, less than the interval: denied
    assert!(!timer.do_run_at(1 * SEC + 1 + 100_000_000));
    // one more interval later: permitted
    assert!(timer.do_run_at(2 * SEC + 1 + 100_000_000));
    assert_eq!(timer.total_calls(), &3);
}

#[test]
fn scenario_zero_interval_never_throttles() {
    let mut timer = ThrottleTimer::new(0, &"zero");
    for _ in 0..50 {
        assert!(timer.do_run());
    }
    assert_eq!(timer.total_calls(), &50);
    // even readings that jump backwards are permitted
    for now in [5u64, 3, 100, 0] {
        assert!(timer.do_run_at(now));
    }
    assert_eq!(timer.total_calls(), &54);
}

#[test]
fn accessors_report_construction_values() {
    let timer = ThrottleTimer::new(45 * MIN, &"Break");
    assert_eq!(timer.event_name(), "Break");
    assert_eq!(timer.max_frequency(), 45 * MIN);
    assert_eq!(timer.frequency(), 45 * MIN);
    assert_eq!(timer.total_calls(), &0);
}

#[test]
fn report_guards_division_by_zero() {
    let mut timer = ThrottleTimer::new(10, &"report");
    let empty = timer.report_with_elapsed(5_000);
    assert_eq!(empty.elapsed_nanos, 5_000);
    assert_eq!(empty.total_calls, 0);
    assert_eq!(empty.mean_nanos_per_call, None);

    assert!(timer.do_run_at(0));
    assert!(timer.do_run_at(10));
    let two = timer.report_with_elapsed(101);
    assert_eq!(two.total_calls, 2);
    assert_eq!(two.mean_nanos_per_call, Some(50));

    // through the wall clock: whenever a report comes back it carries the
    // same guarded numbers
    if let Some(rep) = timer.report() {
        assert_eq!(rep.total_calls, 2);
        assert!(rep.mean_nanos_per_call.is_some());
    }
}
