use vstd::prelude::*;

verus! {

/// Seconds between two evaluations of the condition.
pub const POLL_INTERVAL_SEC: u64 = 1;

/// One pause of a wait: sleep `seconds`, then report that `elapsed` of `total`
/// seconds have gone by.
#[derive(Clone, Copy, Debug, PartialEq, Eq, Structural)]
pub struct Pause {
    pub seconds: u64,
    pub elapsed: u64,
    pub total: u64,
}

/// How a bounded wait ended.
#[derive(Clone, Copy, Debug, PartialEq, Eq, Structural)]
pub struct WaitOutcome {
    /// What the condition answered when it was asked for the last time.
    pub satisfied: bool,
    /// How many pauses were taken.
    pub sleeps: u64,
}

/// The answer the condition gave at its `i`-th evaluation, counting from zero.
/// An evaluation that never happened counts as `false`.
pub open spec fn answer(answers: Seq<bool>, i: int) -> bool {
    0 <= i < answers.len() && answers[i]
}

/// Number of pauses a wait with a budget of `timeout` seconds takes: the position
/// of the first `true` among the first `timeout` answers, or `timeout` where none
/// of them is `true`.
pub open spec fn pauses(answers: Seq<bool>, timeout: nat) -> nat
    decreases timeout,
{
    if timeout == 0 {
        0
    } else {
        let earlier = pauses(answers, (timeout - 1) as nat);
        if earlier < timeout - 1 || answer(answers, timeout - 1) {
            earlier
        } else {
            timeout
        }
    }
}

/// Number of times the condition is evaluated: once before each pause, once more
/// where it cut the pauses short, and a last time for the result.
pub open spec fn evaluations(answers: Seq<bool>, timeout: nat) -> nat {
    if pauses(answers, timeout) < timeout {
        pauses(answers, timeout) + 2
    } else {
        timeout + 1
    }
}

/// The outcome of a wait whose condition gives `answers`, in this order. The
/// result is always the last answer, never a guess from the pauses taken.
pub open spec fn wait_outcome(answers: Seq<bool>, timeout: u64) -> WaitOutcome {
    WaitOutcome {
        satisfied: answer(answers, evaluations(answers, timeout as nat) - 1),
        sleeps: pauses(answers, timeout as nat) as u64,
    }
}

/// Each of `answers` is an answer that `condition` may give.
pub open spec fn answers_of<C: Fn() -> bool>(condition: C, answers: Seq<bool>) -> bool {
    forall|i: int| 0 <= i < answers.len() ==> call_ensures(condition, (), #[trigger] answers[i])
}

/// The pauses of a wait with budget `timeout`, in the order in which they are taken.
pub open spec fn is_pause_of(pause: Pause, timeout: u64) -> bool {
    pause.seconds == POLL_INTERVAL_SEC && 1 <= pause.elapsed <= timeout && pause.total == timeout
}

/// The `elapsed`-th pause of a wait with a budget of `total` seconds.
pub open spec fn pause_at(elapsed: u64, total: u64) -> Pause {
    Pause { seconds: POLL_INTERVAL_SEC, elapsed, total }
}

/// What a wait does next, once its condition has answered.
#[derive(Clone, Copy, Debug, PartialEq, Eq, Structural)]
pub enum WaitAction {
    /// Take this pause, then ask the condition again.
    Pause(Pause),
    /// The condition holds: ask it once more, at once, for the result.
    AskAgain,
    /// The wait is over.
    Done(WaitOutcome),
}

/// The next action of a wait with a budget of `timeout_sec` seconds that has
/// taken `elapsed` pauses, on the answer `met`. `confirming` says that the
/// answer before this one was `true` and cut the pauses short.
///
/// The answer that follows an `AskAgain`, and the answer given when the budget
/// is used up, are final whatever they are. Before that, `true` stops the
/// pauses and `false` asks for one more.
pub open spec fn spec_wait_step(timeout_sec: u64, elapsed: u64, confirming: bool, met: bool) -> WaitAction {
    if confirming || elapsed >= timeout_sec {
        WaitAction::Done(WaitOutcome { satisfied: met, sleeps: elapsed })
    } else if met {
        WaitAction::AskAgain
    } else {
        WaitAction::Pause(pause_at((elapsed + 1) as u64, timeout_sec))
    }
}

/// The outcome of following `spec_wait_step` from the given state on, where the
/// next answer to come is the one at `asked`.
pub open spec fn outcome_of_steps(
    answers: Seq<bool>,
    timeout_sec: u64,
    elapsed: u64,
    confirming: bool,
    asked: int,
) -> WaitOutcome
    decreases
        (if elapsed < timeout_sec {
            timeout_sec - elapsed
        } else {
            0
        }) + (if confirming {
            0int
        } else {
            1int
        }),
{
    match spec_wait_step(timeout_sec, elapsed, confirming, answer(answers, asked)) {
        WaitAction::Pause(next) => outcome_of_steps(
            answers,
            timeout_sec,
            next.elapsed,
            false,
            asked + 1,
        ),
        WaitAction::AskAgain => outcome_of_steps(answers, timeout_sec, elapsed, true, asked + 1),
        WaitAction::Done(outcome) => outcome,
    }
}

/// What `pauses` counts: the answers before it are all `false`, it never exceeds
/// the budget, and where it stays below the budget the answer at it is `true`.
pub proof fn lemma_pauses(answers: Seq<bool>, timeout: nat)
    ensures
        pauses(answers, timeout) <= timeout,
        forall|i: int| 0 <= i < pauses(answers, timeout) ==> !answer(answers, i),
        pauses(answers, timeout) < timeout ==> answer(answers, pauses(answers, timeout) as int),
    decreases timeout,
{
    if timeout > 0 {
        lemma_pauses(answers, (timeout - 1) as nat);
    }
}

/// The properties stated by `lemma_pauses` hold of one number only.
pub proof fn lemma_pauses_unique(answers: Seq<bool>, timeout: nat, k: nat)
    requires
        k <= timeout,
        forall|i: int| 0 <= i < k ==> !answer(answers, i),
        k < timeout ==> answer(answers, k as int),
    ensures
        pauses(answers, timeout) == k,
{
    lemma_pauses(answers, timeout);
    let p = pauses(answers, timeout);
    if p < k {
        assert(!answer(answers, p as int));
    } else if k < p {
        assert(!answer(answers, k as int));
    }
}

/// A wait never pauses more often than its budget has seconds, and never asks the
/// condition more than twice on top of that.
pub proof fn lemma_wait_is_bounded(answers: Seq<bool>, timeout: nat)
    ensures
        pauses(answers, timeout) <= timeout,
        evaluations(answers, timeout) <= timeout + 1,
        evaluations(answers, timeout) >= 1,
{
    lemma_pauses(answers, timeout);
}

/// A condition that holds at some evaluation within the budget ends the wait
/// satisfied, after no more pauses than went before that evaluation. The
/// condition must not drop back at once: where it cut the pauses short, it was
/// asked again straight away, and that answer is the one reported.
pub proof fn lemma_wait_satisfied(answers: Seq<bool>, timeout: u64, t: nat)
    requires
        t <= timeout,
        answer(answers, t as int),
        pauses(answers, timeout as nat) < timeout ==> answer(
            answers,
            pauses(answers, timeout as nat) as int + 1,
        ),
    ensures
        wait_outcome(answers, timeout).satisfied,
        wait_outcome(answers, timeout).sleeps <= t <= timeout,
        wait_outcome(answers, timeout).sleeps == pauses(answers, timeout as nat),
{
    lemma_pauses(answers, timeout as nat);
    let p = pauses(answers, timeout as nat);
    if t < p {
        assert(!answer(answers, t as int));
    }
}

/// A condition that stays `false` through the whole budget ends the wait
/// unsatisfied, after exactly as many pauses as the budget has seconds: none at
/// all for a budget of zero.
pub proof fn lemma_wait_exhausted(answers: Seq<bool>, timeout: u64)
    requires
        forall|i: int| 0 <= i <= timeout ==> !answer(answers, i),
    ensures
        wait_outcome(answers, timeout) == (WaitOutcome { satisfied: false, sleeps: timeout }),
{
    lemma_pauses_unique(answers, timeout as nat, timeout as nat);
}

/// A condition that is `false` at its first `k` evaluations and `true` at every
/// later one ends the wait satisfied after exactly `k` pauses, for every `k`
/// within the budget.
pub proof fn lemma_wait_on_lasting_condition(answers: Seq<bool>, timeout: u64, k: nat)
    requires
        k <= timeout,
        forall|i: int| 0 <= i < k ==> !answer(answers, i),
        forall|i: int| k <= i <= timeout + 1 ==> answer(answers, i),
    ensures
        wait_outcome(answers, timeout) == (WaitOutcome { satisfied: true, sleeps: k as u64 }),
        evaluations(answers, timeout as nat) == (if k < timeout {
            k + 2
        } else {
            k + 1
        }),
{
    lemma_pauses_unique(answers, timeout as nat, k);
}

/// Taken one answer at a time, the steps of a wait lead to the outcome that
/// `wait_outcome` gives for the answers as a whole.
pub proof fn lemma_steps_give_outcome(answers: Seq<bool>, timeout_sec: u64)
    ensures
        outcome_of_steps(answers, timeout_sec, 0, false, 0) == wait_outcome(answers, timeout_sec),
{
    lemma_steps_from(answers, timeout_sec, 0);
}

/// The same from any point of the wait at which no answer has been `true` yet.
pub proof fn lemma_steps_from(answers: Seq<bool>, timeout_sec: u64, elapsed: u64)
    requires
        elapsed <= timeout_sec,
        forall|i: int| 0 <= i < elapsed ==> !answer(answers, i),
    ensures
        outcome_of_steps(answers, timeout_sec, elapsed, false, elapsed as int) == wait_outcome(
            answers,
            timeout_sec,
        ),
    decreases timeout_sec - elapsed,
{
    if elapsed == timeout_sec || answer(answers, elapsed as int) {
        lemma_pauses_unique(answers, timeout_sec as nat, elapsed as nat);
        if elapsed < timeout_sec {
            assert(outcome_of_steps(answers, timeout_sec, elapsed, true, elapsed + 1) == (
            WaitOutcome { satisfied: answer(answers, elapsed + 1), sleeps: elapsed }));
        }
    } else {
        lemma_steps_from(answers, timeout_sec, (elapsed + 1) as u64);
    }
}

/// Decides what a wait does next. See `spec_wait_step`.
pub fn wait_step(timeout_sec: u64, elapsed: u64, confirming: bool, met: bool) -> (action: WaitAction)
    ensures
        action == spec_wait_step(timeout_sec, elapsed, confirming, met),
{
    if confirming || elapsed >= timeout_sec {
        WaitAction::Done(WaitOutcome { satisfied: met, sleeps: elapsed })
    } else if met {
        WaitAction::AskAgain
    } else {
        WaitAction::Pause(Pause { seconds: POLL_INTERVAL_SEC, elapsed: elapsed + 1, total: timeout_sec })
    }
}

/// Polls `condition` until it holds or `timeout_sec` seconds have gone by, and
/// reports what it answered last.
///
/// The condition is asked before every pause. When it holds, the pauses stop.
/// Then it is asked one more time, and that answer is the result. Every answer
/// is handed to `wait_step`, which decides what comes next. `pause` is called
/// once for every second waited, with the count so far.
pub fn wait_for_condition_with_timeout<C: Fn() -> bool, P: Fn(Pause)>(
    condition: C,
    pause: P,
    timeout_sec: u64,
) -> (outcome: WaitOutcome)
    requires
        call_requires(condition, ()),
        forall|p: Pause| is_pause_of(p, timeout_sec) ==> call_requires(pause, (p,)),
    ensures
        exists|answers: Seq<bool>|
            {
                &&& #[trigger] answers_of(condition, answers)
                &&& answers.len() == evaluations(answers, timeout_sec as nat)
                &&& outcome == wait_outcome(answers, timeout_sec)
            },
        outcome.sleeps <= timeout_sec,
        forall|i: u64|
            1 <= i <= outcome.sleeps ==> call_ensures(
                pause,
                (#[trigger] pause_at(i, timeout_sec),),
                (),
            ),
{
    let mut elapsed: u64 = 0;
    let mut confirming = false;
    let ghost mut answers: Seq<bool> = Seq::empty();
    loop
        invariant
            elapsed <= timeout_sec,
            call_requires(condition, ()),
            forall|p: Pause| is_pause_of(p, timeout_sec) ==> call_requires(pause, (p,)),
            answers_of(condition, answers),
            forall|i: int| 0 <= i < elapsed ==> !answers[i],
            !confirming ==> answers.len() == elapsed,
            confirming ==> answers.len() == elapsed + 1 && elapsed < timeout_sec
                && answers[elapsed as int],
            forall|i: u64|
                1 <= i <= elapsed ==> call_ensures(pause, (#[trigger] pause_at(i, timeout_sec),), ()),
        decreases timeout_sec - elapsed + (if confirming {
                0int
            } else {
                1int
            }),
    {
        let met = condition();
        proof {
            answers = answers.push(met);
        }
        match wait_step(timeout_sec, elapsed, confirming, met) {
            WaitAction::Pause(next) => {
                assert(is_pause_of(next, timeout_sec));
                pause(next);
                assert(call_ensures(pause, (pause_at(next.elapsed, timeout_sec),), ()));
                elapsed = next.elapsed;
            },
            WaitAction::AskAgain => {
                confirming = true;
            },
            WaitAction::Done(outcome) => {
                proof {
                    lemma_pauses_unique(answers, timeout_sec as nat, elapsed as nat);
                    assert(answers_of(condition, answers));
                    assert(answers.len() == evaluations(answers, timeout_sec as nat));
                    assert(outcome == wait_outcome(answers, timeout_sec));
                }
                return outcome;
            },
        }
    }
}

/// Lets `seconds` seconds go by, one pause at a time: a wait on a condition that
/// never holds. It always runs its full time, taking every one of its pauses,
/// and ends unsatisfied.
pub fn countdown<P: Fn(Pause)>(pause: P, seconds: u64) -> (outcome: WaitOutcome)
    requires
        forall|p: Pause| is_pause_of(p, seconds) ==> call_requires(pause, (p,)),
    ensures
        outcome == (WaitOutcome { satisfied: false, sleeps: seconds }),
        forall|i: u64|
            1 <= i <= seconds ==> call_ensures(pause, (#[trigger] pause_at(i, seconds),), ()),
{
    let never = || -> (met: bool)
        ensures
            !met,
        { false };
    let outcome = wait_for_condition_with_timeout(never, pause, seconds);
    proof {
        let answers = choose|answers: Seq<bool>|
            {
                &&& #[trigger] answers_of(never, answers)
                &&& answers.len() == evaluations(answers, seconds as nat)
                &&& outcome == wait_outcome(answers, seconds)
            };
        assert forall|i: int| 0 <= i <= seconds implies !answer(answers, i) by {
            if 0 <= i < answers.len() {
                assert(call_ensures(never, (), answers[i]));
            }
        }
        lemma_wait_exhausted(answers, seconds);
    }
    outcome
}

} // verus!
