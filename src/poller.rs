use vstd::prelude::*;
use crate::duration::{duration_split, parse_duration_with_units, split_secs, DurationError};
use crate::probe::ProbeError;

verus! {

/// Nanoseconds in one second.
pub const NANOS_PER_SEC: u128 = 1_000_000_000;

/// Why waiting for a file to settle ended without an age.
#[derive(Debug, Clone, Copy, PartialEq, Eq, Structural)]
pub enum SettleError {
    /// The source file's age could not be told.
    Probe(ProbeError),
    /// The ceiling on waiting was reached before the file settled.
    TimeoutExceeded,
}

/// The waiting state of one settle run: the file is still being polled.
///
/// On each tick the caller invalidates the file's mirror, probes the file's
/// age, and hands the probe to `on_probe`; it sleeps one interval whenever
/// polling goes on.
#[derive(Debug, Clone, Copy, PartialEq, Eq, Structural)]
pub struct Poller {
    /// Ages strictly below this many nanoseconds count as settled.
    pub window_nanos: u128,
    /// How many more sleeps the ceiling allows.
    pub sleeps_left: u64,
}

/// What follows one probe.
#[derive(Debug, Clone, Copy, PartialEq, Eq, Structural)]
pub enum Step {
    /// Still polling: sleep one interval, then tick again in this state.
    Polling(Poller),
    /// The file settled with this age, in nanoseconds.
    Settled(u128),
    /// Polling ended with this error.
    Aborted(SettleError),
}

/// The step that a probe leads to from `p`.
pub open spec fn next_step(p: Poller, probe: Result<u128, ProbeError>) -> Step {
    match probe {
        Err(e) => Step::Aborted(SettleError::Probe(e)),
        Ok(age) => if age < p.window_nanos {
            Step::Settled(age)
        } else if p.sleeps_left == 0 {
            Step::Aborted(SettleError::TimeoutExceeded)
        } else {
            Step::Polling(Poller { window_nanos: p.window_nanos, sleeps_left: (p.sleeps_left - 1) as u64 })
        },
    }
}

/// Where polling from `p` stands after the probes `probes`, taken in order:
/// the terminal step once one is reached, else the last polling step.
pub open spec fn run(p: Poller, probes: Seq<Result<u128, ProbeError>>) -> Step
    decreases probes.len(),
{
    if probes.len() == 0 {
        Step::Polling(p)
    } else {
        match next_step(p, probes[0]) {
            Step::Polling(q) => run(q, probes.drop_first()),
            other => other,
        }
    }
}

/// A probe that finds the file younger than the window ends polling at
/// once, with that age.
pub proof fn lemma_settles_at_once(p: Poller, probes: Seq<Result<u128, ProbeError>>, age: u128)
    requires
        probes.len() > 0,
        probes[0] == Ok::<u128, ProbeError>(age),
        age < p.window_nanos,
    ensures
        run(p, probes) == Step::Settled(age),
{
}

/// Polling never goes on past the ceiling: once more probes have been
/// taken than sleeps were left, the run has ended, settled or aborted.
pub proof fn lemma_ends_within_ceiling(p: Poller, probes: Seq<Result<u128, ProbeError>>)
    requires
        probes.len() > p.sleeps_left,
    ensures
        !(run(p, probes) is Polling),
    decreases probes.len(),
{
    if let Step::Polling(q) = next_step(p, probes[0]) {
        lemma_ends_within_ceiling(q, probes.drop_first());
    }
}

/// A file that stays at least as old as the window is never settled: the
/// run ends with a timeout once the ceiling is reached.
pub proof fn lemma_times_out_when_unsettled(p: Poller, probes: Seq<Result<u128, ProbeError>>)
    requires
        probes.len() > p.sleeps_left,
        forall|i: int|
            0 <= i < probes.len() ==> (#[trigger] probes[i]) is Ok && probes[i]->Ok_0
                >= p.window_nanos,
    ensures
        run(p, probes) == Step::Aborted(SettleError::TimeoutExceeded),
    decreases probes.len(),
{
    if let Step::Polling(q) = next_step(p, probes[0]) {
        let rest = probes.drop_first();
        assert forall|i: int| 0 <= i < rest.len() implies (#[trigger] rest[i]) is Ok
            && rest[i]->Ok_0 >= q.window_nanos by {
            assert(rest[i] == probes[i + 1]);
        }
        lemma_times_out_when_unsettled(q, rest);
    }
}

impl Poller {
    /// A poller that counts ages below `window_secs` seconds as settled, and
    /// sleeps at most `max_sleeps` times.
    pub fn new(window_secs: u64, max_sleeps: u64) -> (r: Poller)
        ensures
            r.window_nanos == window_secs * NANOS_PER_SEC,
            r.sleeps_left == max_sleeps,
    {
        Poller { window_nanos: window_secs as u128 * NANOS_PER_SEC, sleeps_left: max_sleeps }
    }

    /// Starts a settle run from the window's text (`20s`, `5min`, ...),
    /// sleeping `interval_ms` between ticks and no more than `max_wait_ms` in
    /// all. The window is checked before any polling.
    pub fn start(window: &str, interval_ms: u64, max_wait_ms: u64) -> (r: Result<
        Poller,
        DurationError,
    >)
        requires
            interval_ms > 0,
        ensures
            match r {
                Ok(p) => (exists|k: int, w: int| duration_split(window@, k, w)) && (forall|
                    k: int,
                    w: int,
                |
                    duration_split(window@, k, w) ==> split_secs(window@, k, w) <= u64::MAX
                        && p.window_nanos == split_secs(window@, k, w) * NANOS_PER_SEC) && p.sleeps_left == max_wait_ms / interval_ms,
                Err(e) => e == DurationError::InvalidDurationFormat && forall|k: int, w: int|
                    duration_split(window@, k, w) ==> split_secs(window@, k, w) > u64::MAX,
            },
    {
        match parse_duration_with_units(window) {
            Ok(secs) => Ok(Poller::new(secs, max_wait_ms / interval_ms)),
            Err(e) => Err(e),
        }
    }

    /// Decides what follows one probe of the source file's age.
    pub fn on_probe(self, probe: Result<u128, ProbeError>) -> (r: Step)
        ensures
            r == next_step(self, probe),
    {
        match probe {
            Err(e) => Step::Aborted(SettleError::Probe(e)),
            Ok(age) => if age < self.window_nanos {
                Step::Settled(age)
            } else if self.sleeps_left == 0 {
                Step::Aborted(SettleError::TimeoutExceeded)
            } else {
                Step::Polling(Poller { window_nanos: self.window_nanos, sleeps_left: self.sleeps_left - 1 })
            },
        }
    }
}

} // verus!
