use triad_runtime::{
    ContinuationBudget, ContinuationExhausted, ContinuationLimit, NextStep, Runner, RunnerAction,
};

#[test]
fn continuation_budget_reports_remaining_and_exhausted_counts() {
    let mut budget = ContinuationBudget::new(ContinuationLimit::new(1));

    assert_eq!(budget.remaining_step_count(), 1);
    assert!(budget.spend_next_step().is_ok());
    assert_eq!(budget.completed_step_count(), 1);
    assert_eq!(budget.remaining_step_count(), 0);

    let exhausted = budget
        .spend_next_step()
        .expect_err("second step exhausts one-step budget");

    assert_eq!(exhausted.limit(), ContinuationLimit::new(1));
    assert_eq!(exhausted.completed_step_count(), 1);
    assert_eq!(exhausted.attempted_step_count(), 2);
}

type Step = NextStep<&'static str, &'static str, &'static str, &'static str, u8>;
type Action = RunnerAction<&'static str, &'static str, &'static str, &'static str, u8>;

/// Feeds steps to a fresh budget until one is not dispatched, and returns what
/// was dispatched together with how the run ended.
fn run(limit: u32, steps: Vec<Step>) -> (Vec<&'static str>, Action) {
    let mut budget = Runner::new(ContinuationLimit::new(limit))
        .continuation_limit()
        .budget();
    let mut dispatched = Vec::new();
    for step in steps {
        match budget.dispatch_step(step) {
            RunnerAction::ApplySemaWrite(label)
            | RunnerAction::ObserveSemaRead(label)
            | RunnerAction::RunEffect(label) => dispatched.push(label),
            RunnerAction::Continue(_) => dispatched.push("continue"),
            ended => return (dispatched, ended),
        }
    }
    panic!("the steps ran out before a reply or exhaustion");
}

#[test]
fn reply_is_returned_without_spending_budget() {
    let (dispatched, ended) = run(0, vec![NextStep::Reply("done")]);

    assert!(dispatched.is_empty());
    assert_eq!(ended, RunnerAction::Reply("done"));
}

#[test]
fn every_non_reply_step_is_dispatched_within_budget() {
    let (dispatched, ended) = run(
        4,
        vec![
            NextStep::SemaWrite("write"),
            NextStep::SemaRead("read"),
            NextStep::RunEffect("effect"),
            NextStep::Continue(0),
            NextStep::Reply("done"),
        ],
    );

    assert_eq!(dispatched, ["write", "read", "effect", "continue"]);
    assert_eq!(ended, RunnerAction::Reply("done"));
}

#[test]
fn step_past_budget_is_refused_with_the_counts() {
    let (dispatched, ended) = run(
        2,
        vec![
            NextStep::SemaWrite("write"),
            NextStep::SemaRead("read"),
            NextStep::RunEffect("effect"),
        ],
    );

    assert_eq!(dispatched, ["write", "read"]);
    let RunnerAction::Exhausted(exhausted) = ended else {
        panic!("expected budget exhaustion");
    };
    assert_eq!(exhausted.limit(), ContinuationLimit::new(2));
    assert_eq!(exhausted.completed_step_count(), 2);
    assert_eq!(exhausted.attempted_step_count(), 3);
}

#[test]
fn continue_loop_exhausts_without_dispatching_a_plane() {
    let (dispatched, ended) = run(2, vec![NextStep::Continue(1); 3]);

    assert_eq!(dispatched, ["continue", "continue"]);
    assert!(matches!(ended, RunnerAction::Exhausted(_)));
}

#[test]
fn exhausted_budget_still_returns_a_reply_and_stays_exhausted() {
    let mut budget = ContinuationLimit::new(1).budget();

    assert!(budget.spend_next_step().is_ok());
    let first: ContinuationExhausted = budget.spend_next_step().expect_err("spent");
    let second: ContinuationExhausted = budget.spend_next_step().expect_err("still spent");
    assert_eq!(first, second);
    assert_eq!(budget.dispatch_step::<u8, u8, u8, u8, u8>(NextStep::Reply(9)), RunnerAction::Reply(9));
    assert_eq!(budget.completed_step_count(), 1);
}

#[test]
fn default_limit_is_thirty_two_steps() {
    assert_eq!(ContinuationLimit::default().count(), 32);
    assert_eq!(Runner::default().continuation_limit(), ContinuationLimit::new(32));
}

#[test]
fn saturated_budget_reports_attempt_at_the_count_ceiling() {
    let mut budget = ContinuationBudget::new(ContinuationLimit::new(u32::MAX));
    assert_eq!(budget.remaining_step_count(), u32::MAX);
    assert!(budget.spend_next_step().is_ok());
    assert_eq!(budget.remaining_step_count(), u32::MAX - 1);
}

#[test]
fn successive_spends_complete_the_smaller_of_calls_and_limit() {
    let mut budget = ContinuationBudget::new(ContinuationLimit::new(3));
    let mut succeeded = 0;
    let mut previous = budget.completed_step_count();

    for call in 0..5 {
        let outcome = budget.spend_next_step();
        assert_eq!(outcome.is_ok(), call < 3);
        if outcome.is_ok() {
            succeeded += 1;
        }
        assert!(budget.completed_step_count() >= previous);
        assert!(budget.completed_step_count() <= 3);
        previous = budget.completed_step_count();
    }

    assert_eq!(budget.completed_step_count(), 3);
    assert_eq!(succeeded, 3);
}
