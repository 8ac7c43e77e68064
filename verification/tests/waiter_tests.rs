use sensor_node::waiter::{
    countdown, wait_for_condition_with_timeout, wait_step, Pause, WaitAction, WaitOutcome,
};
use std::cell::{Cell, RefCell};

/// Runs a wait on a condition that gives `answers` one after the other (and
/// `false` once they are used up). Returns the outcome, the pauses taken and
/// the number of evaluations.
fn run(answers: Vec<bool>, timeout_sec: u64) -> (WaitOutcome, Vec<Pause>, usize) {
    let asked = Cell::new(0usize);
    let taken: RefCell<Vec<Pause>> = RefCell::new(Vec::new());
    let outcome = wait_for_condition_with_timeout(
        || {
            let i = asked.get();
            asked.set(i + 1);
            i < answers.len() && answers[i]
        },
        |pause: Pause| taken.borrow_mut().push(pause),
        timeout_sec,
    );
    (outcome, taken.into_inner(), asked.get())
}

#[test]
fn zero_timeout_with_false_condition_returns_at_once() {
    let (outcome, pauses, asked) = run(vec![], 0);
    assert_eq!(outcome, WaitOutcome { satisfied: false, sleeps: 0 });
    assert!(pauses.is_empty());
    assert_eq!(asked, 1);
}

#[test]
fn zero_timeout_returns_the_immediate_value() {
    let (outcome, pauses, asked) = run(vec![true], 0);
    assert_eq!(outcome, WaitOutcome { satisfied: true, sleeps: 0 });
    assert!(pauses.is_empty());
    assert_eq!(asked, 1);
}

#[test]
fn condition_true_from_the_start_takes_no_pause() {
    let (outcome, pauses, asked) = run(vec![true, true], 5);
    assert_eq!(outcome, WaitOutcome { satisfied: true, sleeps: 0 });
    assert!(pauses.is_empty());
    assert_eq!(asked, 2);
}

#[test]
fn condition_true_after_three_cycles_takes_three_pauses() {
    let (outcome, pauses, asked) = run(vec![false, false, false, true, true], 5);
    assert_eq!(outcome, WaitOutcome { satisfied: true, sleeps: 3 });
    assert_eq!(
        pauses,
        vec![
            Pause { seconds: 1, elapsed: 1, total: 5 },
            Pause { seconds: 1, elapsed: 2, total: 5 },
            Pause { seconds: 1, elapsed: 3, total: 5 },
        ]
    );
    assert_eq!(asked, 5);
}

#[test]
fn condition_that_stays_false_uses_the_whole_budget() {
    let (outcome, pauses, asked) = run(vec![false; 10], 4);
    assert_eq!(outcome, WaitOutcome { satisfied: false, sleeps: 4 });
    assert_eq!(pauses.len(), 4);
    for (i, pause) in pauses.iter().enumerate() {
        assert_eq!(*pause, Pause { seconds: 1, elapsed: i as u64 + 1, total: 4 });
    }
    assert_eq!(asked, 5);
}

#[test]
fn condition_true_only_at_the_last_evaluation_is_reported_true() {
    let (outcome, pauses, asked) = run(vec![false, false, true], 2);
    assert_eq!(outcome, WaitOutcome { satisfied: true, sleeps: 2 });
    assert_eq!(pauses.len(), 2);
    assert_eq!(asked, 3);
}

#[test]
fn condition_that_drops_back_is_reported_false() {
    let (outcome, pauses, asked) = run(vec![true, false], 1);
    assert_eq!(outcome, WaitOutcome { satisfied: false, sleeps: 0 });
    assert!(pauses.is_empty());
    assert_eq!(asked, 2);
}

#[test]
fn condition_that_drops_back_after_two_pauses() {
    let (outcome, pauses, asked) = run(vec![false, false, true, false, true], 6);
    assert_eq!(outcome, WaitOutcome { satisfied: false, sleeps: 2 });
    assert_eq!(pauses.len(), 2);
    assert_eq!(asked, 4);
}

#[test]
fn countdown_runs_its_full_time() {
    let slept = Cell::new(0u64);
    let outcome = countdown(|pause: Pause| slept.set(slept.get() + pause.seconds), 7);
    assert_eq!(outcome, WaitOutcome { satisfied: false, sleeps: 7 });
    assert_eq!(slept.get(), 7);
}

#[test]
fn countdown_of_zero_seconds_does_not_sleep() {
    let slept = Cell::new(0u64);
    let outcome = countdown(|pause: Pause| slept.set(slept.get() + pause.seconds), 0);
    assert_eq!(outcome, WaitOutcome { satisfied: false, sleeps: 0 });
    assert_eq!(slept.get(), 0);
}

/// Follows `wait_step` over `answers`. Returns the outcome, the pauses asked
/// for and the number of answers used.
fn follow(answers: &[bool], timeout_sec: u64) -> (WaitOutcome, Vec<Pause>, usize) {
    let mut elapsed = 0u64;
    let mut confirming = false;
    let mut pauses = Vec::new();
    for (used, met) in answers.iter().enumerate() {
        match wait_step(timeout_sec, elapsed, confirming, *met) {
            WaitAction::Pause(pause) => {
                elapsed = pause.elapsed;
                pauses.push(pause);
            }
            WaitAction::AskAgain => confirming = true,
            WaitAction::Done(outcome) => return (outcome, pauses, used + 1),
        }
    }
    panic!("the answers ran out before the wait was over");
}

#[test]
fn steps_of_a_wait_that_is_satisfied_after_three_pauses() {
    let answers = [false, false, false, true, true];
    let (outcome, pauses, used) = follow(&answers, 5);
    assert_eq!(outcome, WaitOutcome { satisfied: true, sleeps: 3 });
    assert_eq!(used, 5);
    let lines: Vec<String> = pauses
        .iter()
        .map(|pause| format!("{:02}/{:02} second(s) elapsed", pause.elapsed, pause.total))
        .collect();
    assert_eq!(
        lines,
        vec!["01/05 second(s) elapsed", "02/05 second(s) elapsed", "03/05 second(s) elapsed"]
    );
    assert!(pauses.iter().all(|pause| pause.seconds == 1));
    assert_eq!(run(answers.to_vec(), 5), (outcome, pauses, used));
}

#[test]
fn steps_one_by_one() {
    assert_eq!(
        wait_step(5, 0, false, false),
        WaitAction::Pause(Pause { seconds: 1, elapsed: 1, total: 5 })
    );
    assert_eq!(wait_step(5, 3, false, true), WaitAction::AskAgain);
    assert_eq!(
        wait_step(5, 3, true, true),
        WaitAction::Done(WaitOutcome { satisfied: true, sleeps: 3 })
    );
    assert_eq!(
        wait_step(5, 3, true, false),
        WaitAction::Done(WaitOutcome { satisfied: false, sleeps: 3 })
    );
    assert_eq!(
        wait_step(5, 5, false, true),
        WaitAction::Done(WaitOutcome { satisfied: true, sleeps: 5 })
    );
    assert_eq!(
        wait_step(5, 5, false, false),
        WaitAction::Done(WaitOutcome { satisfied: false, sleeps: 5 })
    );
    assert_eq!(
        wait_step(0, 0, false, true),
        WaitAction::Done(WaitOutcome { satisfied: true, sleeps: 0 })
    );
    assert_eq!(
        wait_step(u64::MAX, u64::MAX - 1, false, false),
        WaitAction::Pause(Pause { seconds: 1, elapsed: u64::MAX, total: u64::MAX })
    );
}

#[test]
fn result_is_the_last_answer_not_a_remembered_one() {
    let (outcome, pauses, used) = follow(&[true, false, false, false], 3);
    assert_eq!(outcome, WaitOutcome { satisfied: false, sleeps: 0 });
    assert!(pauses.is_empty());
    assert_eq!(used, 2);

    let asked = Cell::new(0u32);
    let slept = Cell::new(0u64);
    let outcome = wait_for_condition_with_timeout(
        || {
            asked.set(asked.get() + 1);
            asked.get() == 1
        },
        |pause: Pause| slept.set(slept.get() + pause.seconds),
        3,
    );
    assert_eq!(outcome, WaitOutcome { satisfied: false, sleeps: 0 });
    assert_eq!(slept.get(), 0);
    assert_eq!(asked.get(), 2);
}

#[test]
fn first_true_at_the_third_evaluation_takes_two_pauses() {
    let (outcome, pauses, asked) = run(vec![false, false, true, true], 5);
    assert_eq!(outcome, WaitOutcome { satisfied: true, sleeps: 2 });
    assert_eq!(pauses.len(), 2);
    assert_eq!(asked, 4);
}

#[test]
fn false_throughout_takes_every_pause_and_one_more_evaluation() {
    for timeout in 0..6u64 {
        let (outcome, pauses, asked) = run(vec![], timeout);
        assert_eq!(outcome, WaitOutcome { satisfied: false, sleeps: timeout });
        assert_eq!(asked as u64, timeout + 1);
        let expected: Vec<Pause> =
            (1..=timeout).map(|i| Pause { seconds: 1, elapsed: i, total: timeout }).collect();
        assert_eq!(pauses, expected);
        assert_eq!(follow(&vec![false; timeout as usize + 1], timeout), (outcome, pauses, asked));
    }
}

#[test]
fn lasting_condition_takes_as_many_pauses_as_it_was_false() {
    for timeout in 0..5u64 {
        for k in 0..=timeout {
            let mut answers = vec![false; k as usize];
            answers.extend(vec![true; 2]);
            let (outcome, pauses, asked) = run(answers, timeout);
            assert_eq!(outcome, WaitOutcome { satisfied: true, sleeps: k });
            assert_eq!(pauses.len() as u64, k);
            assert_eq!(asked as u64, if k < timeout { k + 2 } else { k + 1 });
        }
    }
}
