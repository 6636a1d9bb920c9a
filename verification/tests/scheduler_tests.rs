use waybar_data_provider::scheduler::get_last_modified_or_default;
use waybar_data_provider::scheduler::start_scheduler;
use waybar_data_provider::scheduler::Action;
use waybar_data_provider::scheduler::Event;
use waybar_data_provider::scheduler::Job;
use waybar_data_provider::scheduler::Outcome;
use waybar_data_provider::scheduler::Phase;
use waybar_data_provider::scheduler::DEFAULT_RETRIES;
use waybar_data_provider::scheduler::NEVER_RUN;
use waybar_data_provider::scheduler::WEATHER_INTERVAL;

/// Runs one tick in which every fetch fails, and returns the number of
/// fetches, the sleeps in order, and the action that ended the tick.
fn run_failing_tick(job: &mut Job, now: i64) -> (u64, Vec<u64>, Action) {
    let mut fetches = 0;
    let mut sleeps = Vec::new();
    let mut action = job.step(Event::Tick { now });
    for _ in 0..1000 {
        match action {
            Action::Fetch => {
                fetches += 1;
                action = job.step(Event::Fetched { payload: None });
            }
            Action::Sleep { secs } => {
                sleeps.push(secs);
                action = job.step(Event::Slept);
            }
            other => return (fetches, sleeps, other),
        }
    }
    panic!("the tick did not end");
}

#[test]
fn last_modified_defaults_to_one_second_after_epoch() {
    assert_eq!(NEVER_RUN, 1);
    assert_eq!(get_last_modified_or_default(None), 1);
    assert_eq!(get_last_modified_or_default(Some(1_700_000_000)), 1_700_000_000);
    assert_eq!(get_last_modified_or_default(Some(-5)), -5);
}

#[test]
fn new_job_starts_idle_with_three_retries() {
    let job = Job::new("weather", 600, Some(1000));
    assert_eq!(job.name(), "weather");
    assert_eq!(job.interval(), 600);
    assert_eq!(job.last_run(), 1000);
    assert_eq!(job.retries(), 3);
    assert_eq!(DEFAULT_RETRIES, 3);
    assert_eq!(job.phase(), Phase::Idle);
    let fresh = Job::new("crypto", 60, None);
    assert_eq!(fresh.last_run(), 1);
    assert_eq!(Job::with_retries("x", 5, None, 7).retries(), 7);
}

#[test]
fn thread_name_appends_job() {
    assert_eq!(Job::new("weather", 600, None).thread_name(), "weather-job");
}

#[test]
fn due_exactly_when_interval_has_elapsed() {
    let job = Job::new("weather", 600, Some(1000));
    assert!(!job.is_due(1599));
    assert!(job.is_due(1600));
    assert!(job.is_due(1601));
    assert!(!job.is_due(i64::MIN));
    let huge = Job::new("weather", usize::MAX, Some(i64::MAX));
    assert!(!huge.is_due(i64::MAX));
}

#[test]
fn time_till_next_run_is_the_rest_of_the_interval() {
    let job = Job::new("weather", 600, Some(1000));
    assert_eq!(job.time_till_next_run_at(1000), 600);
    assert_eq!(job.time_till_next_run_at(1001), 599);
    assert_eq!(job.time_till_next_run_at(1599), 1);
    assert_eq!(job.time_till_next_run_at(1600), 0);
    assert_eq!(job.time_till_next_run_at(5000), 0);
    assert_eq!(job.time_till_next_run_at(0), 1600);
}

#[test]
fn time_till_next_run_stops_at_the_largest_number() {
    let job = Job::new("weather", usize::MAX, Some(i64::MAX));
    assert_eq!(job.time_till_next_run_at(i64::MIN), u64::MAX);
    let near = Job::new("weather", 0, Some(i64::MAX));
    assert_eq!(near.time_till_next_run_at(i64::MIN), u64::MAX);
    assert_eq!(near.time_till_next_run_at(0), i64::MAX as u64);
}

#[test]
fn tick_before_the_interval_fetches_nothing() {
    let mut job = Job::new("weather", 600, Some(1000));
    let action = job.step(Event::Tick { now: 1599 });
    assert!(matches!(action, Action::Rest { outcome: Outcome::NotDue }));
    assert_eq!(job.phase(), Phase::Idle);
    assert_eq!(job.last_run(), 1000);
}

#[test]
fn successful_tick_advances_last_run_and_hands_payload_on() {
    let mut job = Job::new("weather", 600, Some(1000));
    assert!(matches!(job.step(Event::Tick { now: 1600 }), Action::Fetch));
    assert_eq!(job.phase(), Phase::Running { started: 1600, failures: 0 });
    assert_eq!(job.last_run(), 1000);
    match job.step(Event::Fetched { payload: Some("{\"a\":1}".to_string()) }) {
        Action::Persist { payload } => assert_eq!(payload, "{\"a\":1}"),
        other => panic!("unexpected action {:?}", other),
    }
    assert_eq!(job.phase(), Phase::Persisting { started: 1600 });
    assert_eq!(job.last_run(), 1000);
    let done = job.step(Event::Persisted { ok: true });
    assert!(matches!(done, Action::Rest { outcome: Outcome::Succeeded }));
    assert_eq!(job.phase(), Phase::Idle);
    assert_eq!(job.last_run(), 1600);
    assert!(job.last_run() - 1000 >= 600);
    assert_eq!(job.time_till_next_run_at(1600), 600);
}

#[test]
fn failed_write_still_advances_last_run() {
    let mut job = Job::new("weather", 600, None);
    assert!(matches!(job.step(Event::Tick { now: 5000 }), Action::Fetch));
    assert!(matches!(
        job.step(Event::Fetched { payload: Some("x".to_string()) }),
        Action::Persist { .. }
    ));
    let done = job.step(Event::Persisted { ok: false });
    assert!(matches!(done, Action::Rest { outcome: Outcome::Succeeded }));
    assert_eq!(job.last_run(), 5000);
    assert!(matches!(
        job.step(Event::Tick { now: 5599 }),
        Action::Rest { outcome: Outcome::NotDue }
    ));
}

#[test]
fn three_failures_give_up_after_sleeping_one_and_two_seconds() {
    let mut job = Job::with_retries("weather", 600, Some(1000), 3);
    let (fetches, sleeps, last) = run_failing_tick(&mut job, 2000);
    assert_eq!(fetches, 3);
    assert_eq!(sleeps, vec![1, 2]);
    assert!(matches!(last, Action::Rest { outcome: Outcome::Exhausted }));
    assert_eq!(job.phase(), Phase::Idle);
    assert_eq!(job.last_run(), 2000);
    assert!(matches!(
        job.step(Event::Tick { now: 2599 }),
        Action::Rest { outcome: Outcome::NotDue }
    ));
    assert!(matches!(job.step(Event::Tick { now: 2600 }), Action::Fetch));
}

#[test]
fn retry_budget_bounds_the_fetches_of_a_tick() {
    for budget in [0u64, 1, 2, 5, 10] {
        let mut job = Job::with_retries("weather", 60, None, budget);
        let (fetches, sleeps, last) = run_failing_tick(&mut job, 100);
        let attempts = if budget == 0 { 1 } else { budget };
        assert_eq!(fetches, attempts);
        let expected: Vec<u64> = (1..attempts).collect();
        assert_eq!(sleeps, expected);
        assert!(matches!(last, Action::Rest { outcome: Outcome::Exhausted }));
        assert_eq!(job.last_run(), 100);
    }
}

#[test]
fn retry_within_a_tick_can_still_succeed() {
    let mut job = Job::new("weather", 600, None);
    assert!(matches!(job.step(Event::Tick { now: 700 }), Action::Fetch));
    assert!(matches!(job.step(Event::Fetched { payload: None }), Action::Sleep { secs: 1 }));
    assert_eq!(job.phase(), Phase::Retrying { started: 700, failures: 1 });
    assert!(matches!(job.step(Event::Slept), Action::Fetch));
    assert_eq!(job.phase(), Phase::Running { started: 700, failures: 1 });
    assert!(matches!(
        job.step(Event::Fetched { payload: Some("ok".to_string()) }),
        Action::Persist { .. }
    ));
    assert!(matches!(
        job.step(Event::Persisted { ok: true }),
        Action::Rest { outcome: Outcome::Succeeded }
    ));
    assert_eq!(job.last_run(), 700);
}

#[test]
fn events_out_of_turn_are_ignored() {
    let mut job = Job::new("weather", 600, Some(1000));
    assert!(matches!(job.step(Event::Slept), Action::Ignore));
    assert!(matches!(job.step(Event::Fetched { payload: None }), Action::Ignore));
    assert!(matches!(job.step(Event::Persisted { ok: true }), Action::Ignore));
    assert_eq!(job.phase(), Phase::Idle);
    assert_eq!(job.last_run(), 1000);
    assert!(matches!(job.step(Event::Tick { now: 2000 }), Action::Fetch));
    assert!(matches!(job.step(Event::Tick { now: 3000 }), Action::Ignore));
    assert!(matches!(job.step(Event::Slept), Action::Ignore));
    assert_eq!(job.phase(), Phase::Running { started: 2000, failures: 0 });
}

#[test]
fn tick_by_the_clock_runs_a_job_that_never_ran() {
    let mut job = Job::new("weather", 600, None);
    assert_eq!(job.time_till_next_run(), 0);
    assert!(matches!(job.tick(), Action::Fetch));
    match job.phase() {
        Phase::Running { started, failures } => {
            assert!(started > 1_600_000_000);
            assert_eq!(failures, 0);
        }
        other => panic!("unexpected phase {:?}", other),
    }
}

#[test]
fn tick_by_the_clock_waits_for_a_job_that_just_ran() {
    let mut job = Job::new("weather", 600, Some(i64::MAX - 1000));
    assert!(matches!(job.tick(), Action::Rest { outcome: Outcome::NotDue }));
    assert!(job.time_till_next_run() > 0);
}

#[test]
fn scheduler_starts_the_weather_job_every_ten_minutes() {
    assert_eq!(WEATHER_INTERVAL, 600);
    let jobs = start_scheduler(Some(42));
    assert_eq!(jobs.len(), 1);
    assert_eq!(jobs[0].name(), "weather");
    assert_eq!(jobs[0].interval(), 600);
    assert_eq!(jobs[0].last_run(), 42);
    assert_eq!(jobs[0].retries(), 3);
    assert_eq!(jobs[0].phase(), Phase::Idle);
    assert_eq!(start_scheduler(None)[0].last_run(), 1);
}
