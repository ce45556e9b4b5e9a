//! Health state machine: classify probe statuses, keep a consecutive-failure
//! count per service, and detect edge-triggered down/up transitions.

use vstd::prelude::*;

verus! {

/// A service is considered down once strictly more than this many consecutive
/// probe failures have been observed (the third consecutive failure trips it).
pub const FAILURE_THRESHOLD: u64 = 2;

/// The outcome of one evaluation cycle for one service: a transition to the
/// down state, a transition back up, or no change.
#[derive(PartialEq, Eq, Structural, Clone, Copy, Debug)]
pub enum AlertEvent {
    ServiceDown,
    ServiceUp,
    NoEvent,
}

/// The durable per-service record: the rolling count of consecutive probe
/// failures, and the sticky down latch.
#[derive(PartialEq, Eq, Structural, Clone, Copy, Debug)]
pub struct ServiceState {
    pub consecutive_failure_count: u64,
    pub is_down: bool,
}

/// A status code in `[500, 600)` (a server error) counts as a failure for the
/// rolling counter; everything else — 2xx, 4xx, and probe-failure sentinels
/// alike — resets the counter. The asymmetry is deliberate.
pub open spec fn spec_is_failure_status(status: int) -> bool {
    500 <= status < 600
}

/// Failure classification of one probe result.
pub fn is_failure_status(status: i32) -> (r: bool)
    ensures
        r == spec_is_failure_status(status as int),
{
    500 <= status && status < 600
}

/// The status recorded for one probe outcome: the reported code as it
/// stands, or the sentinel `0` when the probe itself could not report one.
/// The sentinel is not a server error, so by policy an unreachable probe
/// resets the rolling counter instead of counting towards an outage.
pub fn probe_outcome_status(outcome: Result<i32, crate::errors::MonitorError>) -> (status: i32)
    ensures
        outcome matches Ok(code) ==> status == code,
        outcome is Err ==> status == 0 && !spec_is_failure_status(status as int),
{
    match outcome {
        Ok(code) => code,
        Err(_) => 0,
    }
}

/// The rolling counter after one probe: incremented on a failure status,
/// reset to zero on anything else.
pub open spec fn spec_next_count(count: nat, status: int) -> nat {
    if spec_is_failure_status(status) {
        count + 1
    } else {
        0
    }
}

/// The down verdict computed from the rolling counter alone.
pub open spec fn spec_current_is_down(count: nat) -> bool {
    count > FAILURE_THRESHOLD
}

/// The transition table: an event fires exactly on an edge between the stored
/// down latch and the freshly computed verdict.
pub open spec fn spec_transition_event(last_is_down: bool, current_is_down: bool) -> AlertEvent {
    if !last_is_down && current_is_down {
        AlertEvent::ServiceDown
    } else if last_is_down && !current_is_down {
        AlertEvent::ServiceUp
    } else {
        AlertEvent::NoEvent
    }
}

/// One whole evaluation cycle on the mathematical model: the state after
/// consuming one status.
pub open spec fn spec_step(count: nat, is_down: bool, status: int) -> (nat, bool) {
    (spec_next_count(count, status), spec_current_is_down(spec_next_count(count, status)))
}

/// The event that one evaluation cycle emits.
pub open spec fn spec_event_of(count: nat, is_down: bool, status: int) -> AlertEvent {
    spec_transition_event(is_down, spec_current_is_down(spec_next_count(count, status)))
}

/// The state after consuming a whole sequence of statuses, first one first.
pub open spec fn spec_run(count: nat, is_down: bool, statuses: Seq<int>) -> (nat, bool)
    decreases statuses.len(),
{
    if statuses.len() == 0 {
        (count, is_down)
    } else {
        let next = spec_step(count, is_down, statuses[0]);
        spec_run(next.0, next.1, statuses.skip(1))
    }
}

/// The events emitted while consuming a whole sequence of statuses.
pub open spec fn spec_run_events(count: nat, is_down: bool, statuses: Seq<int>) -> Seq<AlertEvent>
    decreases statuses.len(),
{
    if statuses.len() == 0 {
        Seq::empty()
    } else {
        let next = spec_step(count, is_down, statuses[0]);
        seq![spec_event_of(count, is_down, statuses[0])] + spec_run_events(
            next.0,
            next.1,
            statuses.skip(1),
        )
    }
}

/// How many statuses at the tail of the sequence form an unbroken run of
/// failure statuses.
pub open spec fn spec_trailing_failures(statuses: Seq<int>) -> nat
    decreases statuses.len(),
{
    if statuses.len() == 0 {
        0
    } else if spec_is_failure_status(statuses.last()) {
        spec_trailing_failures(statuses.drop_last()) + 1
    } else {
        0
    }
}

/// How many times a given event occurs in a sequence of emitted events.
pub open spec fn spec_count_event(events: Seq<AlertEvent>, event: AlertEvent) -> nat
    decreases events.len(),
{
    if events.len() == 0 {
        0
    } else {
        (if events[0] == event {
            1nat
        } else {
            0nat
        }) + spec_count_event(events.skip(1), event)
    }
}

/// Every status in the sequence is a failure status.
pub open spec fn spec_all_failures(statuses: Seq<int>) -> bool {
    forall|i: int| 0 <= i < statuses.len() ==> spec_is_failure_status(statuses[i])
}

/// No status in the sequence is a failure status.
pub open spec fn spec_no_failures(statuses: Seq<int>) -> bool {
    forall|i: int| 0 <= i < statuses.len() ==> !spec_is_failure_status(statuses[i])
}

/// Consuming one more status at the end of a run is one further step.
pub proof fn lemma_run_snoc(count: nat, is_down: bool, statuses: Seq<int>, status: int)
    ensures
        spec_run(count, is_down, statuses.push(status)) == spec_step(
            spec_run(count, is_down, statuses).0,
            spec_run(count, is_down, statuses).1,
            status,
        ),
    decreases statuses.len(),
{
    let pushed = statuses.push(status);
    if statuses.len() == 0 {
        let next0 = spec_step(count, is_down, status);
        assert(pushed.skip(1) =~= Seq::<int>::empty());
        assert(pushed[0] == status);
        assert(spec_run(count, is_down, pushed) == spec_run(next0.0, next0.1, pushed.skip(1)));
        assert(spec_run(next0.0, next0.1, Seq::<int>::empty()) == (next0.0, next0.1));
    } else {
        let next = spec_step(count, is_down, statuses[0]);
        assert(pushed[0] == statuses[0]);
        assert(spec_run(count, is_down, pushed) == spec_run(next.0, next.1, pushed.skip(1)));
        assert(pushed.skip(1) =~= statuses.skip(1).push(status));
        lemma_run_snoc(next.0, next.1, statuses.skip(1), status);
        assert(spec_run(count, is_down, statuses) == spec_run(next.0, next.1, statuses.skip(1)));
    }
}

/// The rolling counter is a pure function of the tail of the status history:
/// after any sequence of statuses, the count equals the length of the
/// unbroken run of failure statuses at its end (plus the starting count when
/// that run is the whole sequence), so N consecutive failures from a reset
/// counter yield exactly N, and the counter is 0 immediately after any
/// non-failure status.
pub proof fn lemma_count_is_trailing_failures(count: nat, is_down: bool, statuses: Seq<int>)
    ensures
        spec_run(count, is_down, statuses).0 == if spec_trailing_failures(statuses)
            == statuses.len() {
            count + statuses.len()
        } else {
            spec_trailing_failures(statuses)
        },
    decreases statuses.len(),
{
    if statuses.len() == 0 {
    } else {
        let front = statuses.drop_last();
        let last = statuses.last();
        assert(statuses =~= front.push(last));
        lemma_run_snoc(count, is_down, front, last);
        lemma_count_is_trailing_failures(count, is_down, front);
        assert(spec_run(count, is_down, statuses).0 == spec_next_count(
            spec_run(count, is_down, front).0,
            last,
        ));
    }
}

/// From a state already latched down, further failure statuses emit nothing:
/// the machine is edge-triggered, not level-triggered.
pub proof fn lemma_down_run_silent(count: nat, statuses: Seq<int>)
    requires
        spec_current_is_down(count),
        spec_all_failures(statuses),
    ensures
        spec_count_event(spec_run_events(count, true, statuses), AlertEvent::ServiceDown) == 0,
        spec_count_event(spec_run_events(count, true, statuses), AlertEvent::ServiceUp) == 0,
    decreases statuses.len(),
{
    if statuses.len() > 0 {
        let evs = spec_run_events(count, true, statuses);
        let next = spec_step(count, true, statuses[0]);
        assert(spec_is_failure_status(statuses[0]));
        assert(spec_all_failures(statuses.skip(1)));
        lemma_down_run_silent((count + 1) as nat, statuses.skip(1));
        assert(evs.skip(1) =~= spec_run_events(next.0, next.1, statuses.skip(1)));
        assert(evs[0] == spec_event_of(count, true, statuses[0]));
    }
}

/// From a state whose latch is clear, non-failure statuses emit nothing.
pub proof fn lemma_non_failure_run_silent(count: nat, statuses: Seq<int>)
    requires
        spec_no_failures(statuses),
    ensures
        spec_count_event(spec_run_events(count, false, statuses), AlertEvent::ServiceDown) == 0,
        spec_count_event(spec_run_events(count, false, statuses), AlertEvent::ServiceUp) == 0,
    decreases statuses.len(),
{
    if statuses.len() > 0 {
        let evs = spec_run_events(count, false, statuses);
        let next = spec_step(count, false, statuses[0]);
        assert(!spec_is_failure_status(statuses[0]));
        assert(spec_no_failures(statuses.skip(1)));
        lemma_non_failure_run_silent(0, statuses.skip(1));
        assert(evs.skip(1) =~= spec_run_events(next.0, next.1, statuses.skip(1)));
        assert(evs[0] == spec_event_of(count, false, statuses[0]));
    }
}

/// Over an unbroken run of failure statuses from a settled healthy state,
/// `ServiceDown` fires exactly once — when the counter first crosses the
/// threshold — and never again while the run continues; `ServiceUp` never
/// fires during such a run.
pub proof fn lemma_service_down_fires_once(count: nat, statuses: Seq<int>)
    requires
        !spec_current_is_down(count),
        spec_all_failures(statuses),
    ensures
        spec_count_event(spec_run_events(count, false, statuses), AlertEvent::ServiceDown) == (
        if count + statuses.len() > FAILURE_THRESHOLD {
            1nat
        } else {
            0nat
        }),
        spec_count_event(spec_run_events(count, false, statuses), AlertEvent::ServiceUp) == 0,
    decreases statuses.len(),
{
    if statuses.len() > 0 {
        let evs = spec_run_events(count, false, statuses);
        let next = spec_step(count, false, statuses[0]);
        assert(spec_is_failure_status(statuses[0]));
        assert(spec_all_failures(statuses.skip(1)));
        if spec_current_is_down((count + 1) as nat) {
            lemma_down_run_silent((count + 1) as nat, statuses.skip(1));
        } else {
            lemma_service_down_fires_once((count + 1) as nat, statuses.skip(1));
        }
        assert(evs.skip(1) =~= spec_run_events(next.0, next.1, statuses.skip(1)));
        assert(evs[0] == spec_event_of(count, false, statuses[0]));
    }
}

/// Over an unbroken run of non-failure statuses from a settled down state,
/// `ServiceUp` fires exactly once — on the first healthy probe — and never
/// again; `ServiceDown` never fires during such a run.
pub proof fn lemma_service_up_fires_once(count: nat, statuses: Seq<int>)
    requires
        spec_current_is_down(count),
        spec_no_failures(statuses),
    ensures
        spec_count_event(spec_run_events(count, true, statuses), AlertEvent::ServiceUp) == (
        if statuses.len() > 0 {
            1nat
        } else {
            0nat
        }),
        spec_count_event(spec_run_events(count, true, statuses), AlertEvent::ServiceDown) == 0,
{
    if statuses.len() > 0 {
        let evs = spec_run_events(count, true, statuses);
        let next = spec_step(count, true, statuses[0]);
        assert(!spec_is_failure_status(statuses[0]));
        assert(spec_no_failures(statuses.skip(1)));
        lemma_non_failure_run_silent(0, statuses.skip(1));
        assert(evs.skip(1) =~= spec_run_events(next.0, next.1, statuses.skip(1)));
        assert(evs[0] == spec_event_of(count, true, statuses[0]));
    }
}

/// Feeding the same status twice in a row to a settled state never repeats a
/// transition: if the first evaluation fired an event, the second evaluation
/// of the identical status is silent.
pub proof fn lemma_repeat_status_is_silent(count: nat, is_down: bool, status: int)
    requires
        is_down == spec_current_is_down(count),
    ensures
        spec_event_of(count, is_down, status) != AlertEvent::NoEvent ==> spec_event_of(
            spec_step(count, is_down, status).0,
            spec_step(count, is_down, status).1,
            status,
        ) == AlertEvent::NoEvent,
{
}

impl ServiceState {
    /// A state is settled when the down latch agrees with the verdict that
    /// the stored counter yields. Every state this machine writes is settled.
    pub open spec fn settled(self) -> bool {
        self.is_down == spec_current_is_down(self.consecutive_failure_count as nat)
    }

    /// If `is_failure`, atomically increment the stored count by one;
    /// otherwise reset it to zero. The down latch is untouched.
    pub fn increment_or_reset_failure_count(&mut self, is_failure: bool)
        requires
            old(self).consecutive_failure_count < u64::MAX,
        ensures
            final(self).consecutive_failure_count == if is_failure {
                old(self).consecutive_failure_count + 1
            } else {
                0
            },
            final(self).is_down == old(self).is_down,
    {
        if is_failure {
            self.consecutive_failure_count = self.consecutive_failure_count + 1;
        } else {
            self.consecutive_failure_count = 0;
        }
    }

    /// Current value of the rolling counter.
    pub fn read_failure_count(&self) -> (count: u64)
        ensures
            count == self.consecutive_failure_count,
    {
        self.consecutive_failure_count
    }

    /// Current value of the down latch.
    pub fn read_is_down(&self) -> (down: bool)
        ensures
            down == self.is_down,
    {
        self.is_down
    }

    /// Overwrite the down latch.
    pub fn write_is_down(&mut self, value: bool)
        ensures
            final(self).is_down == value,
            final(self).consecutive_failure_count == old(self).consecutive_failure_count,
    {
        self.is_down = value;
    }

    /// One evaluation cycle: update the rolling counter from this cycle's
    /// status, compute the fresh down verdict, compare it against the stored
    /// latch, update the latch on a transition, and report which transition
    /// fired. Alerting is edge-triggered: the event is `ServiceDown` iff the
    /// latch was clear and the counter has just crossed the threshold,
    /// `ServiceUp` iff the latch was set and the fresh count is back within
    /// the threshold, and `NoEvent` otherwise.
    pub fn evaluate(&mut self, status: i32) -> (event: AlertEvent)
        requires
            old(self).consecutive_failure_count < u64::MAX,
        ensures
            final(self).consecutive_failure_count as nat == spec_next_count(
                old(self).consecutive_failure_count as nat,
                status as int,
            ),
            final(self).is_down == spec_current_is_down(
                final(self).consecutive_failure_count as nat,
            ),
            final(self).settled(),
            event == spec_event_of(
                old(self).consecutive_failure_count as nat,
                old(self).is_down,
                status as int,
            ),
            event == AlertEvent::ServiceDown <==> !old(self).is_down && spec_current_is_down(
                final(self).consecutive_failure_count as nat,
            ),
            event == AlertEvent::ServiceUp <==> old(self).is_down && !spec_current_is_down(
                final(self).consecutive_failure_count as nat,
            ),
    {
        let failed = is_failure_status(status);
        self.increment_or_reset_failure_count(failed);
        let current_is_down = self.read_failure_count() > FAILURE_THRESHOLD;
        let last_is_down = self.read_is_down();
        if !last_is_down && current_is_down {
            self.write_is_down(true);
            AlertEvent::ServiceDown
        } else if last_is_down && !current_is_down {
            self.write_is_down(false);
            AlertEvent::ServiceUp
        } else {
            AlertEvent::NoEvent
        }
    }
}

} // verus!
