//! Periodic jobs: one per source, each with its own interval, retry budget
//! and record of its last run.
//!
//! A job decides; it does not fetch, sleep or write. Its owner hands it what
//! happened as an [`Event`] and carries out the [`Action`] that comes back.

use vstd::prelude::*;
use vstd::string::StringSliceAdditionalSpecFns;
use vstd::utf8::encode_utf8;
use crate::cache::artifact_path;
use crate::cache::completed_write_reads_back;
use crate::cache::perform_all;
use crate::cache::read;
use crate::cache::Disk;
use crate::cache::FileOp;
use crate::cache::steps;
use crate::cache::write_plan;
use crate::cache::write_steps;
use crate::clock::unix_now;

verus! {

/// Timestamp given to a job whose artifact was never written: one second
/// after the Unix epoch, so that the job is due at once.
pub const NEVER_RUN: i64 = 1;

/// The number of failed fetches after which a job gives a tick up, unless
/// it was made with another.
pub const DEFAULT_RETRIES: u64 = 3;

/// Seconds between two runs of the weather job.
pub const WEATHER_INTERVAL: usize = 600;

/// The time of the last run that a job starts from: the modification time of
/// its artifact in seconds since the Unix epoch, or [`NEVER_RUN`] where
/// there is no artifact yet.
pub fn get_last_modified_or_default(modified: Option<i64>) -> (last_run: i64)
    ensures
        last_run == match modified {
            Some(t) => t,
            None => NEVER_RUN,
        },
{
    match modified {
        Some(t) => t,
        None => NEVER_RUN,
    }
}

/// Where a job stands within a tick.
#[derive(Clone, Copy, Debug, PartialEq, Eq, Structural)]
pub enum Phase {
    /// Between two ticks.
    Idle,
    /// A fetch is under way, in the tick that began at `started`, after
    /// `failures` failed fetches.
    Running { started: i64, failures: u64 },
    /// Backing off after failure number `failures`, before the next fetch.
    Retrying { started: i64, failures: u64 },
    /// The payload is fetched and its write is under way.
    Persisting { started: i64 },
}

/// How a tick ended.
#[derive(Clone, Copy, Debug, PartialEq, Eq, Structural)]
pub enum Outcome {
    /// The interval had not elapsed: nothing was fetched.
    NotDue,
    /// A payload was fetched and its write attempted.
    Succeeded,
    /// Every fetch of the retry budget failed.
    Exhausted,
}

/// What happened, as the owner of a job reports it.
#[derive(Debug)]
pub enum Event {
    /// The job is asked to run; `now` is the time in seconds since the Unix
    /// epoch.
    Tick { now: i64 },
    /// The fetch has returned: a payload, or `None` for a failure.
    Fetched { payload: Option<String> },
    /// The backoff sleep is over.
    Slept,
    /// The write of the payload has been attempted; `ok` tells whether it
    /// succeeded.
    Persisted { ok: bool },
}

/// An [`Event`] as plain values.
pub enum EventView {
    Tick { now: i64 },
    Fetched { payload: Option<Seq<char>> },
    Slept,
    Persisted { ok: bool },
}

impl View for Event {
    type V = EventView;

    open spec fn view(&self) -> EventView {
        match *self {
            Event::Tick { now } => EventView::Tick { now },
            Event::Fetched { payload } => EventView::Fetched {
                payload: match payload {
                    Some(text) => Some(text@),
                    None => None,
                },
            },
            Event::Slept => EventView::Slept,
            Event::Persisted { ok } => EventView::Persisted { ok },
        }
    }
}

/// What the owner of a job is to do next.
#[derive(Debug)]
pub enum Action {
    /// Call the fetch and report [`Event::Fetched`].
    Fetch,
    /// Sleep for `secs` seconds and report [`Event::Slept`].
    Sleep { secs: u64 },
    /// Write `payload` as the artifact of the job and report
    /// [`Event::Persisted`].
    Persist { payload: String },
    /// The tick is over. Sleep until the job is due again and report
    /// [`Event::Tick`].
    Rest { outcome: Outcome },
    /// The event has no meaning in the phase the job is in; the job is
    /// unchanged.
    Ignore,
}

/// An [`Action`] as plain values.
pub enum ActionView {
    Fetch,
    Sleep { secs: u64 },
    Persist { payload: Seq<char> },
    Rest { outcome: Outcome },
    Ignore,
}

impl View for Action {
    type V = ActionView;

    open spec fn view(&self) -> ActionView {
        match *self {
            Action::Fetch => ActionView::Fetch,
            Action::Sleep { secs } => ActionView::Sleep { secs },
            Action::Persist { payload } => ActionView::Persist { payload: payload@ },
            Action::Rest { outcome } => ActionView::Rest { outcome },
            Action::Ignore => ActionView::Ignore,
        }
    }
}

/// One periodic unit of work: the name of its source, the seconds between
/// two runs, the time of the last run, and the retry budget of a tick.
#[derive(Debug)]
pub struct Job {
    name: String,
    interval: usize,
    last_run: i64,
    retries: u64,
    phase: Phase,
}

/// A [`Job`] as plain values.
pub struct JobView {
    pub name: Seq<char>,
    pub interval: usize,
    pub last_run: i64,
    pub retries: u64,
    pub phase: Phase,
}

impl JobView {
    /// Whether the interval has elapsed at `now`.
    pub open spec fn due(self, now: i64) -> bool {
        self.last_run + self.interval <= now
    }

    /// Seconds from `now` until the job is due: none where it is due.
    pub open spec fn wait(self, now: i64) -> int {
        if self.due(now) {
            0
        } else {
            self.last_run + self.interval - now
        }
    }

    /// Whether failure number `failures + 1` uses the retry budget up. A
    /// budget of zero allows one fetch, as a budget of one does.
    pub open spec fn spent(self, failures: u64) -> bool {
        failures + 1 >= self.retries
    }

    /// The job after `event`, and what its owner is to do next.
    pub open spec fn step(self, event: EventView) -> (JobView, ActionView) {
        match (self.phase, event) {
            (Phase::Idle, EventView::Tick { now }) => if self.due(now) {
                (
                    JobView { phase: Phase::Running { started: now, failures: 0 }, ..self },
                    ActionView::Fetch,
                )
            } else {
                (self, ActionView::Rest { outcome: Outcome::NotDue })
            },
            (Phase::Running { started, failures }, EventView::Fetched { payload: Some(text) }) => (
                JobView { phase: Phase::Persisting { started }, ..self },
                ActionView::Persist { payload: text },
            ),
            (Phase::Running { started, failures }, EventView::Fetched { payload: None }) => if self.spent(
                failures,
            ) {
                (
                    JobView { phase: Phase::Idle, last_run: started, ..self },
                    ActionView::Rest { outcome: Outcome::Exhausted },
                )
            } else {
                (
                    JobView {
                        phase: Phase::Retrying { started, failures: (failures + 1) as u64 },
                        ..self
                    },
                    ActionView::Sleep { secs: (failures + 1) as u64 },
                )
            },
            (Phase::Retrying { started, failures }, EventView::Slept) => (
                JobView { phase: Phase::Running { started, failures }, ..self },
                ActionView::Fetch,
            ),
            (Phase::Persisting { started }, EventView::Persisted { ok }) => (
                JobView { phase: Phase::Idle, last_run: started, ..self },
                ActionView::Rest { outcome: Outcome::Succeeded },
            ),
            _ => (self, ActionView::Ignore),
        }
    }
}

impl View for Job {
    type V = JobView;

    closed spec fn view(&self) -> JobView {
        JobView {
            name: self.name@,
            interval: self.interval,
            last_run: self.last_run,
            retries: self.retries,
            phase: self.phase,
        }
    }
}

impl Job {
    /// A job for the source `name` that runs every `interval` seconds, with
    /// the default retry budget. `modified` is the modification time of the
    /// artifact that the cache holds for `name`, if it holds one: a job
    /// without an artifact is due at once.
    pub fn new(name: &str, interval: usize, modified: Option<i64>) -> (job: Job)
        ensures
            job@ == (JobView {
                name: name@,
                interval,
                last_run: match modified {
                    Some(t) => t,
                    None => NEVER_RUN,
                },
                retries: DEFAULT_RETRIES,
                phase: Phase::Idle,
            }),
    {
        Job::with_retries(name, interval, modified, DEFAULT_RETRIES)
    }

    /// As [`Job::new`], with a retry budget of `retries` fetches in a tick.
    pub fn with_retries(name: &str, interval: usize, modified: Option<i64>, retries: u64) -> (job:
        Job)
        ensures
            job@ == (JobView {
                name: name@,
                interval,
                last_run: match modified {
                    Some(t) => t,
                    None => NEVER_RUN,
                },
                retries,
                phase: Phase::Idle,
            }),
    {
        Job {
            name: name.to_owned(),
            interval,
            last_run: get_last_modified_or_default(modified),
            retries,
            phase: Phase::Idle,
        }
    }

    /// The name of the source.
    pub fn name(&self) -> (name: &str)
        ensures
            name@ == self@.name,
    {
        self.name.as_str()
    }

    /// Seconds between two runs.
    pub fn interval(&self) -> (interval: usize)
        ensures
            interval == self@.interval,
    {
        self.interval
    }

    /// The time at which the last tick that fetched began.
    pub fn last_run(&self) -> (last_run: i64)
        ensures
            last_run == self@.last_run,
    {
        self.last_run
    }

    /// The number of failed fetches after which a tick is given up.
    pub fn retries(&self) -> (retries: u64)
        ensures
            retries == self@.retries,
    {
        self.retries
    }

    /// Where the job stands.
    pub fn phase(&self) -> (phase: Phase)
        ensures
            phase == self@.phase,
    {
        self.phase
    }

    /// The name of the thread on which the job runs: `{name}-job`.
    pub fn thread_name(&self) -> (thread: String)
        ensures
            thread@ == self@.name + "-job"@,
    {
        let mut thread = self.name.clone();
        thread.append("-job");
        thread
    }

    /// Whether the interval has elapsed at `now`.
    pub fn is_due(&self, now: i64) -> (due: bool)
        ensures
            due == self@.due(now),
    {
        self.last_run as i128 + self.interval as i128 <= now as i128
    }

    /// Takes `event` in and says what to do next.
    pub fn step(&mut self, event: Event) -> (action: Action)
        ensures
            (final(self)@, action@) == old(self)@.step(event@),
    {
        match event {
            Event::Tick { now } => match self.phase {
                Phase::Idle => {
                    if self.is_due(now) {
                        self.phase = Phase::Running { started: now, failures: 0 };
                        Action::Fetch
                    } else {
                        Action::Rest { outcome: Outcome::NotDue }
                    }
                },
                _ => Action::Ignore,
            },
            Event::Fetched { payload } => match self.phase {
                Phase::Running { started, failures } => match payload {
                    Some(text) => {
                        self.phase = Phase::Persisting { started };
                        Action::Persist { payload: text }
                    },
                    None => {
                        if self.retries <= 1 || failures >= self.retries - 1 {
                            self.last_run = started;
                            self.phase = Phase::Idle;
                            Action::Rest { outcome: Outcome::Exhausted }
                        } else {
                            self.phase = Phase::Retrying { started, failures: failures + 1 };
                            Action::Sleep { secs: failures + 1 }
                        }
                    },
                },
                _ => Action::Ignore,
            },
            Event::Slept => match self.phase {
                Phase::Retrying { started, failures } => {
                    self.phase = Phase::Running { started, failures };
                    Action::Fetch
                },
                _ => Action::Ignore,
            },
            Event::Persisted { ok } => match self.phase {
                Phase::Persisting { started } => {
                    self.last_run = started;
                    self.phase = Phase::Idle;
                    Action::Rest { outcome: Outcome::Succeeded }
                },
                _ => Action::Ignore,
            },
        }
    }

    /// Asks the job to run now, by the system clock.
    pub fn tick(&mut self) -> (action: Action)
        ensures
            exists|now: i64|
                (final(self)@, action@) == #[trigger] old(self)@.step(EventView::Tick { now }),
    {
        let now = unix_now();
        self.step(Event::Tick { now })
    }

    /// Seconds from `now` until the job is due, at most `u64::MAX`.
    pub fn time_till_next_run_at(&self, now: i64) -> (secs: u64)
        ensures
            secs == if self@.wait(now) <= u64::MAX {
                self@.wait(now)
            } else {
                u64::MAX as int
            },
    {
        let left: i128 = self.last_run as i128 + self.interval as i128 - now as i128;
        if left <= 0 {
            0
        } else if left > u64::MAX as i128 {
            u64::MAX
        } else {
            left as u64
        }
    }

    /// Seconds until the job is due, by the system clock.
    pub fn time_till_next_run(&self) -> (secs: u64)
        ensures
            exists|now: i64|
                secs == if #[trigger] self@.wait(now) <= u64::MAX {
                    self@.wait(now)
                } else {
                    u64::MAX as int
                },
    {
        let now = unix_now();
        self.time_till_next_run_at(now)
    }

    /// The steps by which `payload` becomes the artifact of this job, in
    /// the cache below `home_dir`.
    pub fn persist_plan(&self, home_dir: &str, payload: &str) -> (plan: Vec<FileOp>)
        ensures
            steps(plan@) == write_steps(home_dir@, self@.name, payload.spec_bytes()),
    {
        write_plan(home_dir, self.name.as_str(), payload.as_bytes_vec())
    }
}

/// The jobs of the provider, each to be run on a thread of its own: the
/// weather job, every ten minutes. `weather_modified` is the modification
/// time of the weather artifact, if there is one.
pub fn start_scheduler(weather_modified: Option<i64>) -> (jobs: Vec<Job>)
    ensures
        jobs@.len() == 1,
        jobs@[0]@ == (JobView {
            name: "weather"@,
            interval: WEATHER_INTERVAL,
            last_run: match weather_modified {
                Some(t) => t,
                None => NEVER_RUN,
            },
            retries: DEFAULT_RETRIES,
            phase: Phase::Idle,
        }),
{
    let mut jobs = Vec::new();
    jobs.push(Job::new("weather", WEATHER_INTERVAL, weather_modified));
    jobs
}

/// What the owner of a job reports after `action` while every fetch fails,
/// or `None` where the action ends the tick.
pub open spec fn report_while_failing(action: ActionView) -> Option<EventView> {
    match action {
        ActionView::Fetch => Some(EventView::Fetched { payload: None }),
        ActionView::Sleep { secs } => Some(EventView::Slept),
        _ => None,
    }
}

/// A tick in which every fetch fails: the job at its end, and the actions
/// that it asked for, in order, from `event` on. At most `limit` reports
/// follow the first event.
pub open spec fn failing_run(job: JobView, event: EventView, limit: nat) -> (
    JobView,
    Seq<ActionView>,
)
    decreases limit,
{
    let (next, action) = job.step(event);
    match report_while_failing(action) {
        Some(report) => if limit > 0 {
            let (last, rest) = failing_run(next, report, (limit - 1) as nat);
            (last, seq![action] + rest)
        } else {
            (next, seq![action])
        },
        None => (next, seq![action]),
    }
}

/// How many of `actions` are fetches.
pub open spec fn fetches(actions: Seq<ActionView>) -> nat
    decreases actions.len(),
{
    if actions.len() == 0 {
        0
    } else if actions[0] is Fetch {
        1 + fetches(actions.drop_first())
    } else {
        fetches(actions.drop_first())
    }
}

/// The seconds of the sleeps among `actions`, in order.
pub open spec fn delays(actions: Seq<ActionView>) -> Seq<u64>
    decreases actions.len(),
{
    if actions.len() == 0 {
        Seq::empty()
    } else {
        match actions[0] {
            ActionView::Sleep { secs } => seq![secs] + delays(actions.drop_first()),
            _ => delays(actions.drop_first()),
        }
    }
}

/// The fetches of a tick in which every fetch fails: the retry budget, and
/// one where the budget is zero.
pub open spec fn attempts(retries: u64) -> int {
    if retries == 0 {
        1
    } else {
        retries as int
    }
}

proof fn failing_run_from_running(job: JobView, started: i64, failures: u64, limit: nat)
    requires
        job.phase == (Phase::Running { started, failures }),
        failures < attempts(job.retries),
        limit >= 2 * (attempts(job.retries) - failures) - 1,
    ensures
        failing_run(job, EventView::Fetched { payload: None }, limit).0 == (JobView {
            phase: Phase::Idle,
            last_run: started,
            ..job
        }),
        fetches(failing_run(job, EventView::Fetched { payload: None }, limit).1) == attempts(
            job.retries,
        ) - failures - 1,
        delays(failing_run(job, EventView::Fetched { payload: None }, limit).1) == Seq::new(
            (attempts(job.retries) - failures - 1) as nat,
            |k: int| (failures + 1 + k) as u64,
        ),
        failing_run(job, EventView::Fetched { payload: None }, limit).1.last() == (
        ActionView::Rest { outcome: Outcome::Exhausted }),
    decreases attempts(job.retries) - failures,
{
    let event = EventView::Fetched { payload: None };
    let (after, actions) = failing_run(job, event, limit);
    let (next, action) = job.step(event);
    reveal_with_fuel(fetches, 2);
    reveal_with_fuel(delays, 2);
    if job.spent(failures) {
        assert(actions == seq![action]);
        assert(actions[0] == action);
        assert(actions.drop_first() =~= Seq::<ActionView>::empty());
        assert(fetches(actions) == 0);
        assert(delays(actions) =~= Seq::<u64>::empty());
    } else {
        let more = (failures + 1) as u64;
        let (running, fetch) = next.step(EventView::Slept);
        assert(running == JobView { phase: Phase::Running { started, failures: more }, ..job });
        assert(fetch == ActionView::Fetch);
        failing_run_from_running(running, started, more, (limit - 2) as nat);
        let (last, tail) = failing_run(running, event, (limit - 2) as nat);
        let (_, middle) = failing_run(next, EventView::Slept, (limit - 1) as nat);
        assert(middle == seq![fetch] + tail);
        assert(actions == seq![action] + middle);
        assert(actions.drop_first() =~= middle);
        assert(middle.drop_first() =~= tail);
        assert(fetches(middle) == 1 + fetches(tail));
        assert(fetches(actions) == fetches(middle));
        assert(delays(middle) == delays(tail));
        assert(delays(actions) == seq![more] + delays(tail));
        assert(delays(actions) =~= Seq::new(
            (attempts(job.retries) - failures - 1) as nat,
            |k: int| (failures + 1 + k) as u64,
        ));
        assert(actions.last() == tail.last());
    }
}

/// A tick in which every fetch fails asks for as many fetches as the retry
/// budget holds, sleeps one second after the first failure, two after the
/// second and so on, never after the last, and then gives up: the job is idle
/// again, its last run is the time at which the tick began, and no tick
/// fetches before a full interval has elapsed since.
pub proof fn failing_tick_gives_up(job: JobView, now: i64, limit: nat)
    requires
        job.phase == Phase::Idle,
        job.due(now),
        limit >= 2 * attempts(job.retries),
    ensures
        failing_run(job, EventView::Tick { now }, limit).0 == (JobView { last_run: now, ..job }),
        fetches(failing_run(job, EventView::Tick { now }, limit).1) == attempts(job.retries),
        delays(failing_run(job, EventView::Tick { now }, limit).1) == Seq::new(
            (attempts(job.retries) - 1) as nat,
            |k: int| (k + 1) as u64,
        ),
        failing_run(job, EventView::Tick { now }, limit).1.last() == (ActionView::Rest {
            outcome: Outcome::Exhausted,
        }),
        forall|later: i64|
            later - now < job.interval ==> #[trigger] (JobView { last_run: now, ..job }).step(
                EventView::Tick { now: later },
            ) == (JobView { last_run: now, ..job }, ActionView::Rest { outcome: Outcome::NotDue }),
{
    let (running, fetch) = job.step(EventView::Tick { now });
    let event = EventView::Fetched { payload: None };
    failing_run_from_running(running, now, 0, (limit - 1) as nat);
    let (last, tail) = failing_run(running, event, (limit - 1) as nat);
    let (after, actions) = failing_run(job, EventView::Tick { now }, limit);
    assert(actions == seq![fetch] + tail);
    assert(actions.drop_first() =~= tail);
    assert(fetches(actions) == 1 + fetches(tail));
    assert(delays(actions) == delays(tail));
    assert(delays(tail) =~= Seq::new((attempts(job.retries) - 1) as nat, |k: int| (k + 1) as u64));
    assert(actions.last() == tail.last());
}

/// Once the interval has elapsed, a tick whose fetch succeeds hands the
/// payload on to be written as the artifact of the job and, when the write
/// has been attempted, leaves the job idle with its last run advanced by at
/// least the interval, to the time at which the tick began, whether or not
/// the write succeeded. Where the steps of the write are all carried out,
/// on whatever disk, the artifact of the job is the payload.
pub proof fn successful_tick_advances(
    job: JobView,
    now: i64,
    payload: Seq<char>,
    ok: bool,
    home: Seq<char>,
    disk: Disk,
)
    requires
        job.phase == Phase::Idle,
        now - job.last_run >= job.interval,
    ensures
        job.step(EventView::Tick { now }).1 == ActionView::Fetch,
        job.step(EventView::Tick { now }).0.step(EventView::Fetched { payload: Some(payload) }).1
            == (ActionView::Persist { payload }),
        job.step(EventView::Tick { now }).0.step(
            EventView::Fetched { payload: Some(payload) },
        ).0.step(EventView::Persisted { ok }) == (
            JobView { last_run: now, ..job },
            ActionView::Rest { outcome: Outcome::Succeeded },
        ),
        (JobView { last_run: now, ..job }).last_run - job.last_run >= job.interval,
        read(
            perform_all(disk, write_steps(home, job.name, encode_utf8(payload))),
            artifact_path(home, job.name),
        ) == Some(encode_utf8(payload)),
{
    completed_write_reads_back(disk, home, job.name, encode_utf8(payload));
}

} // verus!
