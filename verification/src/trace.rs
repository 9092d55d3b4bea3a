//! Whole waits: what a machine asks for over a sequence of reports, and
//! what holds of every wait of a given shape.

use vstd::prelude::*;
use crate::error::DuneError;
use crate::span::TimeSpan;
use crate::types::{ExecutionResultsResponse, ExecutionState, ExecutionStatusResponse};
use crate::wait::{in_phase, spec_step, WaitAction, WaitEvent, WaitMachine, WaitPhase, POLL_INTERVAL_SECS};

verus! {

/// The end state and the actions, in order, that a machine gives for a
/// sequence of reports.
pub open spec fn run(m: WaitMachine, events: Seq<WaitEvent>) -> (WaitMachine, Seq<WaitAction>)
    decreases events.len(),
{
    if events.len() == 0 {
        (m, Seq::empty())
    } else {
        let (before, actions) = run(m, events.drop_last());
        let (after, action) = spec_step(before, events.last());
        (
            after,
            match action {
                Some(a) => actions.push(a),
                None => actions,
            },
        )
    }
}

/// The reports of one round that ends in a pause.
pub open spec fn pending_round(elapsed: TimeSpan, status: ExecutionStatusResponse) -> Seq<
    WaitEvent,
> {
    seq![WaitEvent::Elapsed(elapsed), WaitEvent::Status(Ok(status)), WaitEvent::Woke]
}

/// The reports of as many rounds as there are clock readings, each ending
/// in a pause.
pub open spec fn pending_rounds(
    clocks: Seq<TimeSpan>,
    statuses: Seq<ExecutionStatusResponse>,
) -> Seq<WaitEvent>
    decreases clocks.len(),
{
    if clocks.len() == 0 || statuses.len() == 0 {
        Seq::empty()
    } else {
        pending_rounds(clocks.drop_last(), statuses.drop_last()) + pending_round(
            clocks.last(),
            statuses.last(),
        )
    }
}

/// What a round that ends in a pause asks of the driver: one poll, one
/// pause of the poll interval, one reading of the clock.
pub open spec fn pending_actions(execution_id: String) -> Seq<WaitAction> {
    seq![
        WaitAction::PollStatus(execution_id),
        WaitAction::Sleep(TimeSpan::spec_from_secs(POLL_INTERVAL_SECS)),
        WaitAction::ReadClock,
    ]
}

/// The actions of `n` rounds that each end in a pause.
pub open spec fn repeated_pending_actions(execution_id: String, n: nat) -> Seq<WaitAction>
    decreases n,
{
    if n == 0 {
        Seq::empty()
    } else {
        repeated_pending_actions(execution_id, (n - 1) as nat) + pending_actions(execution_id)
    }
}

/// Running two sequences of reports one after the other is running their
/// concatenation.
pub proof fn lemma_run_append(m: WaitMachine, first: Seq<WaitEvent>, second: Seq<WaitEvent>)
    ensures
        run(m, first + second).0 == run(run(m, first).0, second).0,
        run(m, first + second).1 == run(m, first).1 + run(run(m, first).0, second).1,
    decreases second.len(),
{
    if second.len() == 0 {
        assert(first + second =~= first);
        assert(run(m, first).1 + Seq::<WaitAction>::empty() =~= run(m, first).1);
    } else {
        assert((first + second).drop_last() =~= first + second.drop_last());
        assert((first + second).last() == second.last());
        lemma_run_append(m, first, second.drop_last());
        let mid = run(m, first).0;
        let head = run(m, first).1;
        let (before, actions) = run(mid, second.drop_last());
        let (after, action) = spec_step(before, second.last());
        match action {
            Some(a) => {
                assert((head + actions).push(a) =~= head + actions.push(a));
            },
            None => {},
        }
    }
}

/// A machine that has given its outcome answers no further report.
pub proof fn law_finished_is_silent(m: WaitMachine, event: WaitEvent)
    requires
        m.phase == WaitPhase::Finished,
    ensures
        spec_step(m, event) == (m, None::<WaitAction>),
{
}

/// The wait is given up exactly when the clock shows more than the time
/// allowed; the error names the whole seconds that were allowed. A reading
/// within the time allowed is followed by a poll.
pub proof fn law_timeout_iff_overrun(m: WaitMachine, elapsed: TimeSpan)
    requires
        m.phase == WaitPhase::CheckingClock,
    ensures
        elapsed.total_nanos() > m.timeout.total_nanos() ==> spec_step(
            m,
            WaitEvent::Elapsed(elapsed),
        ) == (
            in_phase(m, WaitPhase::Finished),
            Some(WaitAction::Finish(Err(DuneError::Timeout { seconds: m.timeout.spec_secs() }))),
        ),
        elapsed.total_nanos() <= m.timeout.total_nanos() ==> spec_step(
            m,
            WaitEvent::Elapsed(elapsed),
        ) == (in_phase(m, WaitPhase::AwaitingStatus), Some(WaitAction::PollStatus(m.execution_id))),
{
}

/// A status of failed ends the wait at once with the handle and the status
/// that was seen, and nothing is fetched then or later.
pub proof fn law_failed_never_fetches(
    m: WaitMachine,
    status: ExecutionStatusResponse,
    later: Seq<WaitEvent>,
)
    requires
        m.phase == WaitPhase::AwaitingStatus,
        status.state == ExecutionState::Failed,
    ensures
        spec_step(m, WaitEvent::Status(Ok(status))) == (
            in_phase(m, WaitPhase::Finished),
            Some(
                WaitAction::Finish(
                    Err(DuneError::ExecutionFailed { execution_id: m.execution_id, status }),
                ),
            ),
        ),
        run(in_phase(m, WaitPhase::Finished), later) == (
            in_phase(m, WaitPhase::Finished),
            Seq::<WaitAction>::empty(),
        ),
    decreases later.len(),
{
    if later.len() > 0 {
        law_failed_never_fetches(m, status, later.drop_last());
    }
}

/// A failed poll is not tried again: its error is the outcome.
pub proof fn law_poll_error_ends_the_wait(m: WaitMachine, error: DuneError)
    requires
        m.phase == WaitPhase::AwaitingStatus,
    ensures
        spec_step(m, WaitEvent::Status(Err(error))) == (
            in_phase(m, WaitPhase::Finished),
            Some(WaitAction::Finish(Err(error))),
        ),
{
}

/// One round in which the clock is within the time allowed and the status
/// is not yet terminal brings the machine back to where it was, and asks
/// for one poll, one pause of the poll interval and one reading of the
/// clock.
pub proof fn law_pending_round(m: WaitMachine, elapsed: TimeSpan, status: ExecutionStatusResponse)
    requires
        m.phase == WaitPhase::CheckingClock,
        elapsed.total_nanos() <= m.timeout.total_nanos(),
        !status.state.spec_is_terminal(),
    ensures
        run(m, pending_round(elapsed, status)) == (m, pending_actions(m.execution_id)),
{
    let events = pending_round(elapsed, status);
    let e0 = events.drop_last().drop_last();
    let e1 = events.drop_last();
    assert(e0.drop_last() =~= Seq::<WaitEvent>::empty());
    assert(run(m, e0.drop_last()) == (m, Seq::<WaitAction>::empty()));
    assert(e0.last() == WaitEvent::Elapsed(elapsed));
    let polling = in_phase(m, WaitPhase::AwaitingStatus);
    assert(run(m, e0) == (polling, seq![WaitAction::PollStatus(m.execution_id)])) by {
        assert(Seq::<WaitAction>::empty().push(WaitAction::PollStatus(m.execution_id))
            =~= seq![WaitAction::PollStatus(m.execution_id)]);
    }
    assert(e1.last() == WaitEvent::Status(Ok(status)));
    let sleeping = in_phase(m, WaitPhase::Sleeping);
    let pause = WaitAction::Sleep(TimeSpan::spec_from_secs(POLL_INTERVAL_SECS));
    assert(spec_step(polling, e1.last()) == (sleeping, Some(pause)));
    assert(run(m, e1) == (sleeping, seq![WaitAction::PollStatus(m.execution_id), pause])) by {
        assert(seq![WaitAction::PollStatus(m.execution_id)].push(pause)
            =~= seq![WaitAction::PollStatus(m.execution_id), pause]);
    }
    assert(events.last() == WaitEvent::Woke);
    assert(spec_step(sleeping, events.last()) == (m, Some(WaitAction::ReadClock)));
    assert(seq![WaitAction::PollStatus(m.execution_id), pause].push(WaitAction::ReadClock)
        =~= pending_actions(m.execution_id));
}

/// Any number of rounds in which the clock is within the time allowed and
/// the status is not yet terminal bring the machine back to where it was;
/// each round asks for exactly one poll, one pause of the poll interval and
/// one reading of the clock, in that order.
pub proof fn law_pending_rounds(
    m: WaitMachine,
    clocks: Seq<TimeSpan>,
    statuses: Seq<ExecutionStatusResponse>,
)
    requires
        m.phase == WaitPhase::CheckingClock,
        clocks.len() == statuses.len(),
        forall|i: int|
            0 <= i < clocks.len() ==> (#[trigger] clocks[i]).total_nanos()
                <= m.timeout.total_nanos(),
        forall|i: int| 0 <= i < statuses.len() ==> !(#[trigger] statuses[i]).state.spec_is_terminal(),
    ensures
        run(m, pending_rounds(clocks, statuses)) == (
            m,
            repeated_pending_actions(m.execution_id, clocks.len()),
        ),
    decreases clocks.len(),
{
    if clocks.len() > 0 {
        let earlier = pending_rounds(clocks.drop_last(), statuses.drop_last());
        let round = pending_round(clocks.last(), statuses.last());
        law_pending_rounds(m, clocks.drop_last(), statuses.drop_last());
        law_pending_round(m, clocks.last(), statuses.last());
        lemma_run_append(m, earlier, round);
    }
}

/// A wait that sees `n` statuses that are not yet terminal and then a
/// completed one, the clock always within the time allowed, polls `n + 1`
/// times, pauses `n` times for the poll interval, fetches once, and ends
/// with exactly what the fetch gave.
pub proof fn law_completed_after_pending(
    m: WaitMachine,
    clocks: Seq<TimeSpan>,
    statuses: Seq<ExecutionStatusResponse>,
    elapsed: TimeSpan,
    completed: ExecutionStatusResponse,
    outcome: Result<ExecutionResultsResponse, DuneError>,
)
    requires
        m.phase == WaitPhase::CheckingClock,
        clocks.len() == statuses.len(),
        forall|i: int|
            0 <= i < clocks.len() ==> (#[trigger] clocks[i]).total_nanos()
                <= m.timeout.total_nanos(),
        forall|i: int| 0 <= i < statuses.len() ==> !(#[trigger] statuses[i]).state.spec_is_terminal(),
        elapsed.total_nanos() <= m.timeout.total_nanos(),
        completed.state == ExecutionState::Completed,
    ensures
        run(
            m,
            pending_rounds(clocks, statuses) + seq![
                WaitEvent::Elapsed(elapsed),
                WaitEvent::Status(Ok(completed)),
                WaitEvent::Results(outcome),
            ],
        ) == (
            in_phase(m, WaitPhase::Finished),
            repeated_pending_actions(m.execution_id, clocks.len()) + seq![
                WaitAction::PollStatus(m.execution_id),
                WaitAction::FetchResults(m.execution_id),
                WaitAction::Finish(outcome),
            ],
        ),
{
    let closing = seq![
        WaitEvent::Elapsed(elapsed),
        WaitEvent::Status(Ok(completed)),
        WaitEvent::Results(outcome),
    ];
    law_pending_rounds(m, clocks, statuses);
    lemma_run_append(m, pending_rounds(clocks, statuses), closing);
    let e0 = closing.drop_last().drop_last();
    let e1 = closing.drop_last();
    let poll = WaitAction::PollStatus(m.execution_id);
    let fetch = WaitAction::FetchResults(m.execution_id);
    assert(e0.drop_last() =~= Seq::<WaitEvent>::empty());
    assert(run(m, e0.drop_last()) == (m, Seq::<WaitAction>::empty()));
    assert(e0.last() == WaitEvent::Elapsed(elapsed));
    let polling = in_phase(m, WaitPhase::AwaitingStatus);
    assert(run(m, e0) == (polling, seq![poll])) by {
        assert(Seq::<WaitAction>::empty().push(poll) =~= seq![poll]);
    }
    assert(e1.last() == WaitEvent::Status(Ok(completed)));
    let fetching = in_phase(m, WaitPhase::AwaitingResults);
    assert(spec_step(polling, e1.last()) == (fetching, Some(fetch)));
    assert(run(m, e1) == (fetching, seq![poll, fetch])) by {
        assert(seq![poll].push(fetch) =~= seq![poll, fetch]);
    }
    assert(closing.last() == WaitEvent::Results(outcome));
    assert(seq![poll, fetch].push(WaitAction::Finish(outcome)) =~= seq![
        poll,
        fetch,
        WaitAction::Finish(outcome),
    ]);
}

/// How many of the actions satisfy a condition.
pub open spec fn count(actions: Seq<WaitAction>, wanted: spec_fn(WaitAction) -> bool) -> nat
    decreases actions.len(),
{
    if actions.len() == 0 {
        0
    } else {
        count(actions.drop_last(), wanted) + if wanted(actions.last()) {
            1nat
        } else {
            0nat
        }
    }
}

/// Whether an action is a status poll.
pub open spec fn is_poll(action: WaitAction) -> bool {
    action is PollStatus
}

/// Whether an action is a fetch of results.
pub open spec fn is_fetch(action: WaitAction) -> bool {
    action is FetchResults
}

/// Whether an action is a pause of exactly the poll interval.
pub open spec fn is_interval_pause(action: WaitAction) -> bool {
    action matches WaitAction::Sleep(pause) && pause.total_nanos() == POLL_INTERVAL_SECS
        * 1_000_000_000
}

/// Whether an action is a pause of any length.
pub open spec fn is_pause(action: WaitAction) -> bool {
    action is Sleep
}

/// Counting over a concatenation is adding the two counts.
pub proof fn lemma_count_append(
    first: Seq<WaitAction>,
    second: Seq<WaitAction>,
    wanted: spec_fn(WaitAction) -> bool,
)
    ensures
        count(first + second, wanted) == count(first, wanted) + count(second, wanted),
    decreases second.len(),
{
    if second.len() == 0 {
        assert(first + second =~= first);
    } else {
        assert((first + second).drop_last() =~= first + second.drop_last());
        assert((first + second).last() == second.last());
        lemma_count_append(first, second.drop_last(), wanted);
    }
}

/// The count of a sequence of three actions.
proof fn lemma_count_three(
    a: WaitAction,
    b: WaitAction,
    c: WaitAction,
    wanted: spec_fn(WaitAction) -> bool,
)
    ensures
        count(seq![a, b, c], wanted) == (if wanted(a) {
            1nat
        } else {
            0nat
        }) + (if wanted(b) {
            1nat
        } else {
            0nat
        }) + (if wanted(c) {
            1nat
        } else {
            0nat
        }),
{
    let s3 = seq![a, b, c];
    let s2 = seq![a, b];
    let s1 = seq![a];
    assert(s3.drop_last() =~= s2);
    assert(s2.drop_last() =~= s1);
    assert(s1.drop_last() =~= Seq::<WaitAction>::empty());
    assert(count(Seq::<WaitAction>::empty(), wanted) == 0);
    assert(s1.last() == a);
    assert(s2.last() == b);
    assert(s3.last() == c);
    let one = |x: WaitAction| if wanted(x) { 1nat } else { 0nat };
    assert(count(s1, wanted) == one(a));
    assert(count(s2, wanted) == one(a) + one(b));
    assert(count(s3, wanted) == one(a) + one(b) + one(c));
}

/// Rounds that end in a pause hold one poll and one pause of the poll
/// interval each, no pause of another length, and no fetch.
pub proof fn lemma_repeated_pending_counts(execution_id: String, n: nat)
    ensures
        count(repeated_pending_actions(execution_id, n), |a: WaitAction| is_poll(a)) == n,
        count(repeated_pending_actions(execution_id, n), |a: WaitAction| is_interval_pause(a))
            == n,
        count(repeated_pending_actions(execution_id, n), |a: WaitAction| is_pause(a)) == n,
        count(repeated_pending_actions(execution_id, n), |a: WaitAction| is_fetch(a)) == 0,
    decreases n,
{
    if n > 0 {
        let earlier = repeated_pending_actions(execution_id, (n - 1) as nat);
        let poll = WaitAction::PollStatus(execution_id);
        let pause = WaitAction::Sleep(TimeSpan::spec_from_secs(POLL_INTERVAL_SECS));
        let read = WaitAction::ReadClock;
        assert(pending_actions(execution_id) == seq![poll, pause, read]);
        TimeSpan::lemma_from_secs(POLL_INTERVAL_SECS);
        lemma_repeated_pending_counts(execution_id, (n - 1) as nat);
        lemma_count_three(poll, pause, read, |a: WaitAction| is_poll(a));
        lemma_count_three(poll, pause, read, |a: WaitAction| is_interval_pause(a));
        lemma_count_three(poll, pause, read, |a: WaitAction| is_pause(a));
        lemma_count_three(poll, pause, read, |a: WaitAction| is_fetch(a));
        lemma_count_append(earlier, seq![poll, pause, read], |a: WaitAction| is_poll(a));
        lemma_count_append(earlier, seq![poll, pause, read], |a: WaitAction| is_interval_pause(a));
        lemma_count_append(earlier, seq![poll, pause, read], |a: WaitAction| is_pause(a));
        lemma_count_append(earlier, seq![poll, pause, read], |a: WaitAction| is_fetch(a));
    }
}

/// A wait that sees `n` statuses that are not yet terminal and then a
/// completed one, the clock always within the time allowed, asks for
/// exactly `n + 1` polls, `n` pauses, each of the poll interval, and one
/// fetch, and its last action gives exactly what the fetch gave.
pub proof fn law_completed_counts(
    m: WaitMachine,
    clocks: Seq<TimeSpan>,
    statuses: Seq<ExecutionStatusResponse>,
    elapsed: TimeSpan,
    completed: ExecutionStatusResponse,
    outcome: Result<ExecutionResultsResponse, DuneError>,
)
    requires
        m.phase == WaitPhase::CheckingClock,
        clocks.len() == statuses.len(),
        forall|i: int|
            0 <= i < clocks.len() ==> (#[trigger] clocks[i]).total_nanos()
                <= m.timeout.total_nanos(),
        forall|i: int| 0 <= i < statuses.len() ==> !(#[trigger] statuses[i]).state.spec_is_terminal(),
        elapsed.total_nanos() <= m.timeout.total_nanos(),
        completed.state == ExecutionState::Completed,
    ensures
        ({
            let actions = run(
                m,
                pending_rounds(clocks, statuses) + seq![
                    WaitEvent::Elapsed(elapsed),
                    WaitEvent::Status(Ok(completed)),
                    WaitEvent::Results(outcome),
                ],
            ).1;
            &&& count(actions, |a: WaitAction| is_poll(a)) == clocks.len() + 1
            &&& count(actions, |a: WaitAction| is_pause(a)) == clocks.len()
            &&& count(actions, |a: WaitAction| is_interval_pause(a)) == clocks.len()
            &&& count(actions, |a: WaitAction| is_fetch(a)) == 1
            &&& actions.len() > 0
            &&& actions.last() == WaitAction::Finish(outcome)
        }),
{
    let n = clocks.len();
    let poll = WaitAction::PollStatus(m.execution_id);
    let fetch = WaitAction::FetchResults(m.execution_id);
    let finish = WaitAction::Finish(outcome);
    let earlier = repeated_pending_actions(m.execution_id, n);
    law_completed_after_pending(m, clocks, statuses, elapsed, completed, outcome);
    lemma_repeated_pending_counts(m.execution_id, n);
    lemma_count_three(poll, fetch, finish, |a: WaitAction| is_poll(a));
    lemma_count_three(poll, fetch, finish, |a: WaitAction| is_pause(a));
    lemma_count_three(poll, fetch, finish, |a: WaitAction| is_interval_pause(a));
    lemma_count_three(poll, fetch, finish, |a: WaitAction| is_fetch(a));
    lemma_count_append(earlier, seq![poll, fetch, finish], |a: WaitAction| is_poll(a));
    lemma_count_append(earlier, seq![poll, fetch, finish], |a: WaitAction| is_pause(a));
    lemma_count_append(earlier, seq![poll, fetch, finish], |a: WaitAction| is_interval_pause(a));
    lemma_count_append(earlier, seq![poll, fetch, finish], |a: WaitAction| is_fetch(a));
    assert((earlier + seq![poll, fetch, finish]).last() == finish);
}

/// The run of a single report is its one step.
proof fn lemma_run_one(m: WaitMachine, event: WaitEvent)
    ensures
        run(m, seq![event]).0 == spec_step(m, event).0,
        run(m, seq![event]).1 == (match spec_step(m, event).1 {
            Some(a) => seq![a],
            None => Seq::<WaitAction>::empty(),
        }),
{
    let events = seq![event];
    assert(events.drop_last() =~= Seq::<WaitEvent>::empty());
    assert(run(m, events.drop_last()) == (m, Seq::<WaitAction>::empty()));
    assert(events.last() == event);
    match spec_step(m, event).1 {
        Some(a) => {
            assert(Seq::<WaitAction>::empty().push(a) =~= seq![a]);
        },
        None => {},
    }
}

/// A wait whose clock passes the time allowed after `n` rounds that ended
/// in a pause gives up with the whole seconds that were allowed: it has
/// polled `n` times, fetched nothing, and seen no terminal state.
pub proof fn law_timeout_after_pending(
    m: WaitMachine,
    clocks: Seq<TimeSpan>,
    statuses: Seq<ExecutionStatusResponse>,
    elapsed: TimeSpan,
)
    requires
        m.phase == WaitPhase::CheckingClock,
        clocks.len() == statuses.len(),
        forall|i: int|
            0 <= i < clocks.len() ==> (#[trigger] clocks[i]).total_nanos()
                <= m.timeout.total_nanos(),
        forall|i: int| 0 <= i < statuses.len() ==> !(#[trigger] statuses[i]).state.spec_is_terminal(),
        elapsed.total_nanos() > m.timeout.total_nanos(),
    ensures
        ({
            let (end, actions) = run(
                m,
                pending_rounds(clocks, statuses) + seq![WaitEvent::Elapsed(elapsed)],
            );
            &&& end == in_phase(m, WaitPhase::Finished)
            &&& actions == repeated_pending_actions(m.execution_id, clocks.len()).push(
                WaitAction::Finish(Err(DuneError::Timeout { seconds: m.timeout.spec_secs() })),
            )
            &&& count(actions, |a: WaitAction| is_poll(a)) == clocks.len()
            &&& count(actions, |a: WaitAction| is_fetch(a)) == 0
        }),
{
    let earlier = repeated_pending_actions(m.execution_id, clocks.len());
    let finish = WaitAction::Finish(Err(DuneError::Timeout { seconds: m.timeout.spec_secs() }));
    law_pending_rounds(m, clocks, statuses);
    lemma_run_one(m, WaitEvent::Elapsed(elapsed));
    lemma_run_append(m, pending_rounds(clocks, statuses), seq![WaitEvent::Elapsed(elapsed)]);
    assert(earlier + seq![finish] =~= earlier.push(finish));
    lemma_repeated_pending_counts(m.execution_id, clocks.len());
    assert(earlier.push(finish).drop_last() =~= earlier);
}

/// A wait that sees a failed status after `n` rounds that ended in a pause
/// ends with the handle and that status: it has polled `n + 1` times and
/// fetched nothing.
pub proof fn law_failed_after_pending(
    m: WaitMachine,
    clocks: Seq<TimeSpan>,
    statuses: Seq<ExecutionStatusResponse>,
    elapsed: TimeSpan,
    failed: ExecutionStatusResponse,
)
    requires
        m.phase == WaitPhase::CheckingClock,
        clocks.len() == statuses.len(),
        forall|i: int|
            0 <= i < clocks.len() ==> (#[trigger] clocks[i]).total_nanos()
                <= m.timeout.total_nanos(),
        forall|i: int| 0 <= i < statuses.len() ==> !(#[trigger] statuses[i]).state.spec_is_terminal(),
        elapsed.total_nanos() <= m.timeout.total_nanos(),
        failed.state == ExecutionState::Failed,
    ensures
        ({
            let (end, actions) = run(
                m,
                pending_rounds(clocks, statuses) + seq![
                    WaitEvent::Elapsed(elapsed),
                    WaitEvent::Status(Ok(failed)),
                ],
            );
            &&& end == in_phase(m, WaitPhase::Finished)
            &&& actions == repeated_pending_actions(m.execution_id, clocks.len()) + seq![
                WaitAction::PollStatus(m.execution_id),
                WaitAction::Finish(
                    Err(
                        DuneError::ExecutionFailed {
                            execution_id: m.execution_id,
                            status: failed,
                        },
                    ),
                ),
            ]
            &&& count(actions, |a: WaitAction| is_poll(a)) == clocks.len() + 1
            &&& count(actions, |a: WaitAction| is_fetch(a)) == 0
        }),
{
    let earlier = repeated_pending_actions(m.execution_id, clocks.len());
    let poll = WaitAction::PollStatus(m.execution_id);
    let finish = WaitAction::Finish(
        Err(DuneError::ExecutionFailed { execution_id: m.execution_id, status: failed }),
    );
    let closing = seq![WaitEvent::Elapsed(elapsed), WaitEvent::Status(Ok(failed))];
    let polling = in_phase(m, WaitPhase::AwaitingStatus);
    law_pending_rounds(m, clocks, statuses);
    lemma_run_append(m, pending_rounds(clocks, statuses), closing);
    lemma_run_one(m, WaitEvent::Elapsed(elapsed));
    assert(closing.drop_last() =~= seq![WaitEvent::Elapsed(elapsed)]);
    assert(closing.last() == WaitEvent::Status(Ok(failed)));
    assert(spec_step(polling, closing.last()) == (in_phase(m, WaitPhase::Finished), Some(finish)));
    assert(seq![poll].push(finish) =~= seq![poll, finish]);
    assert(run(m, closing) == (in_phase(m, WaitPhase::Finished), seq![poll, finish]));
    lemma_repeated_pending_counts(m.execution_id, clocks.len());
    let tail = seq![poll, finish];
    assert(tail.drop_last() =~= seq![poll]);
    assert(seq![poll].drop_last() =~= Seq::<WaitAction>::empty());
    assert(count(Seq::<WaitAction>::empty(), |a: WaitAction| is_poll(a)) == 0);
    assert(count(Seq::<WaitAction>::empty(), |a: WaitAction| is_fetch(a)) == 0);
    assert(count(seq![poll], |a: WaitAction| is_poll(a)) == 1);
    assert(count(seq![poll], |a: WaitAction| is_fetch(a)) == 0);
    assert(count(tail, |a: WaitAction| is_poll(a)) == 1);
    assert(count(tail, |a: WaitAction| is_fetch(a)) == 0);
    lemma_count_append(earlier, tail, |a: WaitAction| is_poll(a));
    lemma_count_append(earlier, tail, |a: WaitAction| is_fetch(a));
}

} // verus!
