//! Readiness polling: the decisions of a poll loop that probes an endpoint
//! at a fixed interval until it answers with success or the attempts run
//! out. The caller performs the probes and the pauses; the prober says what
//! to do next, which progress event to publish, and how the wait ended.

use crate::probe::ProbeOutcome;
use vstd::prelude::*;
use vstd::string::*;

verus! {

/// Progress reported before the first probe has been counted.
pub const PROGRESS_BASE: u32 = 10;

/// Progress gained with each failed probe.
pub const PROGRESS_STEP: u32 = 3;

/// The most that is reported while the service has not answered.
pub const PROGRESS_CAP: u32 = 95;

/// Progress reported when the service has answered.
pub const PROGRESS_READY: u32 = 100;

/// Attempts made when the caller asks for the usual wait.
pub const DEFAULT_MAX_ATTEMPTS: u32 = 30;

/// Pause between attempts, in milliseconds, for the usual wait.
pub const DEFAULT_INTERVAL_MS: u64 = 300;

/// The percentage reported after the `attempt`-th probe has failed: a linear
/// ramp from the base, capped.
pub open spec fn ramp(attempt: nat) -> nat {
    if 10 + 3 * attempt > 95 {
        95
    } else {
        10 + 3 * attempt
    }
}

/// The percentage to report after the `attempt`-th probe has failed.
pub fn progress_percent(attempt: u32) -> (r: u32)
    ensures
        r == ramp(attempt as nat),
        PROGRESS_BASE <= r <= PROGRESS_CAP,
{
    if attempt >= 29 {
        PROGRESS_CAP
    } else {
        PROGRESS_BASE + PROGRESS_STEP * attempt
    }
}

/// The ramp never goes down as attempts go up, and stays under the value
/// that is kept for success.
pub proof fn lemma_ramp_monotone(a: nat, b: nat)
    requires
        a <= b,
    ensures
        ramp(a) <= ramp(b),
        10 <= ramp(a) <= 95,
{
}

/// A progress report for whoever watches the start.
#[derive(Debug)]
pub struct ReadinessEvent {
    /// Between 0 and 100; 100 only when the service has answered.
    pub percent: u32,
    /// What is going on, for display.
    pub message: String,
}

/// A progress report as a mathematical value.
pub ghost struct ReadinessEventView {
    pub percent: nat,
    pub message: Seq<char>,
}

impl View for ReadinessEvent {
    type V = ReadinessEventView;

    open spec fn view(&self) -> ReadinessEventView {
        ReadinessEventView { percent: self.percent as nat, message: self.message@ }
    }
}

/// The report published after the `attempt`-th probe has failed.
pub open spec fn waiting_event(attempt: nat) -> ReadinessEventView {
    ReadinessEventView { percent: ramp(attempt), message: "Starting engine..."@ }
}

/// The report published when a probe has succeeded.
pub open spec fn ready_event() -> ReadinessEventView {
    ReadinessEventView { percent: 100, message: "Engine ready"@ }
}

/// How a wait for readiness stands.
#[derive(Clone, Copy, Debug, PartialEq, Eq, Structural)]
pub enum Readiness {
    /// Attempts remain and none has succeeded yet.
    Pending,
    /// A probe has succeeded.
    Ready,
    /// Every attempt has been used and none succeeded.
    TimedOut,
}

/// The error of a wait in which every attempt failed.
#[derive(Clone, Copy, Debug, PartialEq, Eq, Structural)]
pub struct TimeoutError {
    /// How many probes were made, all of them in vain.
    pub attempts: u32,
}

/// The state of a poll loop as a mathematical value.
pub ghost struct ProberModel {
    pub url: Seq<char>,
    pub interval_ms: nat,
    pub max_attempts: nat,
    /// Probes whose outcome has been counted.
    pub attempts: nat,
    /// Whether the last counted probe succeeded.
    pub ready: bool,
}

impl ProberModel {
    /// The state before any probe.
    pub open spec fn initial(url: Seq<char>, max_attempts: nat, interval_ms: nat) -> ProberModel {
        ProberModel { url, interval_ms, max_attempts, attempts: 0, ready: false }
    }

    /// No more probes are counted than were allowed, and readiness comes
    /// only from a probe.
    pub open spec fn wf(self) -> bool {
        &&& self.attempts <= self.max_attempts
        &&& self.ready ==> self.attempts >= 1
    }

    /// How the wait stands: ready once a probe has succeeded, pending while
    /// attempts remain, timed out otherwise.
    pub open spec fn readiness(self) -> Readiness {
        if self.ready {
            Readiness::Ready
        } else if self.attempts < self.max_attempts {
            Readiness::Pending
        } else {
            Readiness::TimedOut
        }
    }

    /// Whether another probe is due.
    pub open spec fn polling(self) -> bool {
        self.readiness() == Readiness::Pending
    }

    /// The state after a probe's outcome has been handed in. Once the wait
    /// has ended, outcomes change nothing.
    pub open spec fn observe(self, outcome: ProbeOutcome) -> ProberModel {
        if self.polling() {
            ProberModel { attempts: self.attempts + 1, ready: outcome.is_success(), ..self }
        } else {
            self
        }
    }

    /// The report that handing in `outcome` publishes, if any.
    pub open spec fn emitted(self, outcome: ProbeOutcome) -> Option<ReadinessEventView> {
        if !self.polling() {
            None
        } else if outcome.is_success() {
            Some(ready_event())
        } else {
            Some(waiting_event(self.attempts + 1))
        }
    }

    /// The state after the outcomes have been handed in, one after another.
    pub open spec fn run(self, outcomes: Seq<ProbeOutcome>) -> ProberModel
        decreases outcomes.len(),
    {
        if outcomes.len() == 0 {
            self
        } else {
            self.run(outcomes.drop_last()).observe(outcomes.last())
        }
    }

    /// The reports published while the outcomes are handed in, in order.
    pub open spec fn trace(self, outcomes: Seq<ProbeOutcome>) -> Seq<ReadinessEventView>
        decreases outcomes.len(),
    {
        if outcomes.len() == 0 {
            Seq::empty()
        } else {
            let before = self.trace(outcomes.drop_last());
            match self.run(outcomes.drop_last()).emitted(outcomes.last()) {
                Some(event) => before.push(event),
                None => before,
            }
        }
    }
}

/// What handing in one probe's outcome led to.
#[derive(Debug)]
pub struct Observation {
    /// The report to publish.
    pub event: ReadinessEvent,
    /// How long to pause before asking the prober again, in milliseconds;
    /// absent when the probe succeeded.
    pub pause_ms: Option<u64>,
}

/// What the caller of a poll loop does next.
#[derive(Clone, Copy, Debug, PartialEq, Eq)]
pub enum ProberStep {
    /// Probe the endpoint and hand the outcome in.
    Probe,
    /// Stop: the wait has ended as given.
    Finished(Result<(), TimeoutError>),
}

/// A poll loop's state: which endpoint, how often, and how far it has come.
#[derive(Debug)]
pub struct ReadinessProber {
    url: String,
    interval_ms: u64,
    max_attempts: u32,
    attempts: u32,
    ready: bool,
}

impl View for ReadinessProber {
    type V = ProberModel;

    closed spec fn view(&self) -> ProberModel {
        ProberModel {
            url: self.url@,
            interval_ms: self.interval_ms as nat,
            max_attempts: self.max_attempts as nat,
            attempts: self.attempts as nat,
            ready: self.ready,
        }
    }
}

impl ReadinessProber {
    #[verifier::type_invariant]
    spec fn inv(self) -> bool {
        &&& self.attempts <= self.max_attempts
        &&& self.ready ==> self.attempts >= 1
    }

    /// A wait for `url` of at most `max_attempts` probes, `interval_ms`
    /// apart, of which none has been made yet.
    pub fn new(url: String, max_attempts: u32, interval_ms: u64) -> (r: Self)
        ensures
            r@ == ProberModel::initial(url@, max_attempts as nat, interval_ms as nat),
    {
        ReadinessProber { url, interval_ms, max_attempts, attempts: 0, ready: false }
    }

    /// The endpoint that is probed.
    pub fn url(&self) -> (r: &str)
        ensures
            r@ == self@.url,
    {
        self.url.as_str()
    }

    /// The pause between two probes, in milliseconds.
    pub fn interval_ms(&self) -> (r: u64)
        ensures
            r == self@.interval_ms,
    {
        self.interval_ms
    }

    /// The number of probes allowed.
    pub fn max_attempts(&self) -> (r: u32)
        ensures
            r == self@.max_attempts,
    {
        self.max_attempts
    }

    /// The number of probes counted so far.
    pub fn attempts(&self) -> (r: u32)
        ensures
            r == self@.attempts,
            self@.wf(),
    {
        proof {
            use_type_invariant(self);
        }
        self.attempts
    }

    /// How the wait stands.
    pub fn readiness(&self) -> (r: Readiness)
        ensures
            r == self@.readiness(),
    {
        if self.ready {
            Readiness::Ready
        } else if self.attempts < self.max_attempts {
            Readiness::Pending
        } else {
            Readiness::TimedOut
        }
    }

    /// What the caller does next: probe while the wait is pending, stop with
    /// success once a probe has succeeded, stop with the timeout once every
    /// attempt has been used in vain.
    pub fn step(&self) -> (r: ProberStep)
        ensures
            r == match self@.readiness() {
                Readiness::Pending => ProberStep::Probe,
                Readiness::Ready => ProberStep::Finished(Ok(())),
                Readiness::TimedOut => ProberStep::Finished(
                    Err(TimeoutError { attempts: self@.max_attempts as u32 }),
                ),
            },
    {
        proof {
            use_type_invariant(self);
        }
        match self.readiness() {
            Readiness::Pending => ProberStep::Probe,
            Readiness::Ready => ProberStep::Finished(Ok(())),
            Readiness::TimedOut => ProberStep::Finished(
                Err(TimeoutError { attempts: self.attempts }),
            ),
        }
    }

    /// Counts the outcome of one probe. While the wait is pending this
    /// publishes one report: the ready report for a success, after which no
    /// pause is due, or else the ramp's report for this attempt, after which
    /// the interval is due. Once the wait has ended the outcome is dropped:
    /// nothing changes and nothing is published.
    pub fn observe(&mut self, outcome: ProbeOutcome) -> (r: Option<Observation>)
        ensures
            final(self)@ == old(self)@.observe(outcome),
            final(self)@.wf(),
            match r {
                Some(seen) => old(self)@.emitted(outcome) == Some(seen.event@) && seen.pause_ms
                    == if outcome.is_success() {
                    None
                } else {
                    Some(old(self)@.interval_ms as u64)
                },
                None => old(self)@.emitted(outcome) is None,
            },
    {
        proof {
            use_type_invariant(&*self);
        }
        if self.ready || self.attempts >= self.max_attempts {
            return None;
        }
        self.attempts = self.attempts + 1;
        if outcome.succeeded() {
            self.ready = true;
            Some(
                Observation {
                    event: ReadinessEvent {
                        percent: PROGRESS_READY,
                        message: String::from_str("Engine ready"),
                    },
                    pause_ms: None,
                },
            )
        } else {
            Some(
                Observation {
                    event: ReadinessEvent {
                        percent: progress_percent(self.attempts),
                        message: String::from_str("Starting engine..."),
                    },
                    pause_ms: Some(self.interval_ms),
                },
            )
        }
    }
}

/// Counting an outcome keeps a state well formed.
pub proof fn law_observe_keeps_wf(state: ProberModel, outcome: ProbeOutcome)
    requires
        state.wf(),
    ensures
        state.observe(outcome).wf(),
{
}

/// Handing in `first` and then `second` is handing in `first + second`.
pub proof fn lemma_run_split(state: ProberModel, first: Seq<ProbeOutcome>, second: Seq<ProbeOutcome>)
    ensures
        state.run(first + second) == state.run(first).run(second),
        state.trace(first + second) == state.trace(first) + state.run(first).trace(second),
    decreases second.len(),
{
    if second.len() == 0 {
        assert(first + second =~= first);
        assert(state.trace(first) + state.run(first).trace(second) =~= state.trace(first));
    } else {
        assert((first + second).drop_last() =~= first + second.drop_last());
        assert((first + second).last() == second.last());
        lemma_run_split(state, first, second.drop_last());
        let mid = state.run(first).run(second.drop_last());
        match mid.emitted(second.last()) {
            Some(event) => {
                assert((state.trace(first) + state.run(first).trace(second.drop_last())).push(event)
                    =~= state.trace(first) + state.run(first).trace(second.drop_last()).push(
                    event,
                ));
            },
            None => {},
        }
    }
}

/// Once a wait has ended, further outcomes change nothing and publish
/// nothing.
pub proof fn lemma_finished_absorbs(state: ProberModel, outcomes: Seq<ProbeOutcome>)
    requires
        !state.polling(),
    ensures
        state.run(outcomes) == state,
        state.trace(outcomes) == Seq::<ReadinessEventView>::empty(),
    decreases outcomes.len(),
{
    if outcomes.len() > 0 {
        lemma_finished_absorbs(state, outcomes.drop_last());
    }
}

/// The reports of `n` failed probes in a row, counted from the first.
pub open spec fn waiting_events(n: nat) -> Seq<ReadinessEventView> {
    Seq::new(n, |j: int| waiting_event((j + 1) as nat))
}

/// While probes fail and attempts remain, each is counted and each
/// publishes the ramp's report for its attempt.
pub proof fn lemma_failures_counted(start: ProberModel, outcomes: Seq<ProbeOutcome>, n: nat)
    requires
        start.attempts == 0,
        !start.ready,
        n <= outcomes.len(),
        n <= start.max_attempts,
        forall|j: int| 0 <= j < n ==> !outcomes[j].is_success(),
    ensures
        start.run(outcomes.take(n as int)) == (ProberModel { attempts: n, ..start }),
        start.trace(outcomes.take(n as int)) == waiting_events(n),
    decreases n,
{
    let prefix = outcomes.take(n as int);
    if n == 0 {
        assert(start.trace(prefix) =~= waiting_events(n));
    } else {
        lemma_failures_counted(start, outcomes, (n - 1) as nat);
        assert(prefix.drop_last() =~= outcomes.take(n - 1));
        assert(prefix.last() == outcomes[n - 1]);
        assert(waiting_events((n - 1) as nat).push(waiting_event(n)) =~= waiting_events(n));
    }
}

/// The wait succeeds at the first probe that succeeds within the allowed
/// attempts: the probes before it each publish the ramp's report, that probe
/// publishes the one report of 100 percent, and whatever outcomes follow are
/// not counted and publish nothing.
pub proof fn law_ready_at_first_success(
    start: ProberModel,
    outcomes: Seq<ProbeOutcome>,
    k: int,
)
    requires
        start.attempts == 0,
        !start.ready,
        0 <= k < outcomes.len(),
        k < start.max_attempts,
        outcomes[k].is_success(),
        forall|j: int| 0 <= j < k ==> !outcomes[j].is_success(),
    ensures
        start.run(outcomes).readiness() == Readiness::Ready,
        start.run(outcomes).attempts == k + 1,
        start.run(outcomes) == start.run(outcomes.take(k + 1)),
        start.trace(outcomes) == waiting_events(k as nat).push(ready_event()),
        start.trace(outcomes).len() == k + 1,
        forall|j: int|
            0 <= j < start.trace(outcomes).len() ==> (#[trigger] start.trace(outcomes)[j].percent
                == 100 <==> j == k),
{
    let upto = outcomes.take(k + 1);
    let rest = outcomes.skip(k + 1);
    lemma_failures_counted(start, outcomes, k as nat);
    assert(upto.drop_last() =~= outcomes.take(k));
    assert(upto.last() == outcomes[k]);
    assert(start.run(upto).ready);
    assert(start.trace(upto) == waiting_events(k as nat).push(ready_event()));
    assert(outcomes =~= upto + rest);
    lemma_run_split(start, upto, rest);
    lemma_finished_absorbs(start.run(upto), rest);
    assert(start.trace(upto) + Seq::<ReadinessEventView>::empty() =~= start.trace(upto));
}

/// The wait times out when every allowed attempt fails: each of them
/// publishes the ramp's report, none publishes 100 percent, and outcomes
/// beyond the allowed attempts are not counted.
pub proof fn law_timeout_when_exhausted(start: ProberModel, outcomes: Seq<ProbeOutcome>)
    requires
        start.attempts == 0,
        !start.ready,
        start.max_attempts <= outcomes.len(),
        forall|j: int| 0 <= j < start.max_attempts ==> !outcomes[j].is_success(),
    ensures
        start.run(outcomes).readiness() == Readiness::TimedOut,
        start.run(outcomes).attempts == start.max_attempts,
        start.trace(outcomes) == waiting_events(start.max_attempts),
        forall|j: int|
            0 <= j < start.trace(outcomes).len() ==> #[trigger] start.trace(outcomes)[j].percent
                <= 95,
{
    let n = start.max_attempts;
    let upto = outcomes.take(n as int);
    let rest = outcomes.skip(n as int);
    lemma_failures_counted(start, outcomes, n);
    assert(outcomes =~= upto + rest);
    lemma_run_split(start, upto, rest);
    lemma_finished_absorbs(start.run(upto), rest);
    assert(start.trace(upto) + Seq::<ReadinessEventView>::empty() =~= start.trace(upto));
}

/// The position of the first success among the first `bound` outcomes, or
/// `bound` where there is none.
pub open spec fn first_success(outcomes: Seq<ProbeOutcome>, bound: nat) -> nat
    decreases bound,
{
    if bound == 0 {
        0
    } else {
        let before = first_success(outcomes, (bound - 1) as nat);
        if before < bound - 1 || outcomes[bound - 1].is_success() {
            before
        } else {
            bound
        }
    }
}

proof fn lemma_first_success(outcomes: Seq<ProbeOutcome>, bound: nat)
    requires
        bound <= outcomes.len(),
    ensures
        first_success(outcomes, bound) <= bound,
        forall|j: int| 0 <= j < first_success(outcomes, bound) ==> !outcomes[j].is_success(),
        first_success(outcomes, bound) < bound ==> outcomes[first_success(
            outcomes,
            bound,
        ) as int].is_success(),
    decreases bound,
{
    if bound > 0 {
        lemma_first_success(outcomes, (bound - 1) as nat);
    }
}

/// Whatever the probes come back with, the published percentages never go
/// down, and at most the last report is of 100 percent.
pub proof fn law_progress_never_decreases(
    start: ProberModel,
    outcomes: Seq<ProbeOutcome>,
    i: int,
    j: int,
)
    requires
        start.attempts == 0,
        !start.ready,
        0 <= i <= j < start.trace(outcomes).len(),
    ensures
        start.trace(outcomes)[i].percent <= start.trace(outcomes)[j].percent,
        start.trace(outcomes)[i].percent == 100 ==> i == start.trace(outcomes).len() - 1,
        start.trace(outcomes).len() <= start.max_attempts,
        start.trace(outcomes).len() <= outcomes.len(),
{
    let bound = if outcomes.len() <= start.max_attempts {
        outcomes.len()
    } else {
        start.max_attempts
    };
    lemma_first_success(outcomes, bound);
    let k = first_success(outcomes, bound);
    if k < bound {
        law_ready_at_first_success(start, outcomes, k as int);
        lemma_ramp_monotone((i + 1) as nat, (j + 1) as nat);
    } else {
        let upto = outcomes.take(bound as int);
        let rest = outcomes.skip(bound as int);
        lemma_failures_counted(start, outcomes, bound);
        assert(outcomes =~= upto + rest);
        lemma_run_split(start, upto, rest);
        if bound == outcomes.len() {
            assert(rest.len() == 0);
        } else {
            lemma_finished_absorbs(start.run(upto), rest);
        }
        assert(start.trace(upto) + Seq::<ReadinessEventView>::empty() =~= start.trace(upto));
        lemma_ramp_monotone((i + 1) as nat, (j + 1) as nat);
    }
}

} // verus!
