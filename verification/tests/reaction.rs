use triad_runtime::{Action, Never, NextStep, Work};

#[derive(Clone, Debug, PartialEq, Eq)]
struct ArrivedSignal {
    sequence: u64,
}

#[derive(Clone, Debug, PartialEq, Eq)]
struct WriteOutcome {
    committed: bool,
}

#[derive(Clone, Debug, PartialEq, Eq)]
struct ReadOutcome {
    record_count: u64,
}

#[derive(Clone, Debug, PartialEq, Eq)]
struct EffectOutcome {
    exit_code: u64,
}

#[derive(Clone, Debug, PartialEq, Eq)]
struct SignalReply {
    accepted: bool,
}

#[derive(Clone, Debug, PartialEq, Eq)]
struct LegAbsent {
    absent: bool,
}

type FullWork = Work<ArrivedSignal, WriteOutcome, ReadOutcome, EffectOutcome>;
type FullAction = Action<SignalReply, WriteOutcome, ReadOutcome, EffectOutcome, FullWork>;
type ReadlessWork = Work<ArrivedSignal, WriteOutcome, LegAbsent, EffectOutcome>;

#[test]
fn never_is_uninhabited_and_cannot_be_constructed() {
    fn absurd(never: &Never) -> ! {
        match *never {}
    }
    let _ = absurd;
}

#[test]
fn action_projects_to_next_step_via_direct_from() {
    type Step = NextStep<SignalReply, WriteOutcome, ReadOutcome, EffectOutcome, FullWork>;

    let reply: FullAction = Action::ReplyToSignal(SignalReply { accepted: true });
    assert!(matches!(Step::from(reply), NextStep::Reply(_)));

    let write: FullAction = Action::CommandSemaWrite(WriteOutcome { committed: false });
    assert!(matches!(Step::from(write), NextStep::SemaWrite(_)));

    let read: FullAction = Action::CommandSemaRead(ReadOutcome { record_count: 2 });
    assert!(matches!(Step::from(read), NextStep::SemaRead(_)));

    let effect: FullAction = Action::CommandEffect(EffectOutcome { exit_code: 3 });
    assert!(matches!(Step::from(effect), NextStep::RunEffect(_)));

    let next: FullAction = Action::Continue(Work::SignalArrived(ArrivedSignal { sequence: 8 }));
    assert!(matches!(Step::from(next), NextStep::Continue(_)));
}

#[test]
fn action_projects_to_next_step_for_uninhabitable_leg_binding() {
    type ReadlessAction = Action<SignalReply, WriteOutcome, Never, EffectOutcome, ReadlessWork>;
    type ReadlessStep = NextStep<SignalReply, WriteOutcome, Never, EffectOutcome, ReadlessWork>;

    let reply: ReadlessAction = Action::ReplyToSignal(SignalReply { accepted: false });
    assert!(matches!(ReadlessStep::from(reply), NextStep::Reply(_)));

    let effect: ReadlessAction = Action::CommandEffect(EffectOutcome { exit_code: 4 });
    assert!(matches!(ReadlessStep::from(effect), NextStep::RunEffect(_)));
}

#[test]
fn projection_keeps_each_payload() {
    type Step = NextStep<SignalReply, WriteOutcome, ReadOutcome, EffectOutcome, FullWork>;

    let action: FullAction = Action::CommandSemaRead(ReadOutcome { record_count: 5 });
    assert_eq!(Step::from(action), NextStep::SemaRead(ReadOutcome { record_count: 5 }));

    let work = Work::EffectCompleted(EffectOutcome { exit_code: 1 });
    let action: FullAction = Action::Continue(work.clone());
    assert_eq!(Step::from(action), NextStep::Continue(work));
}
