//! The shared reaction frame: `Work` and `Action` as direct-parameter
//! generics, declared once and bound per component.

use vstd::prelude::*;

use crate::runner::NextStep;

verus! {

/// Work the reaction frame can be handed: a typed event or the completion of a
/// commanded side effect. Each parameter is bound by the component to its own payload.
#[derive(Clone, Debug, PartialEq, Eq)]
pub enum Work<Event, Write, Read, Effect> {
    SignalArrived(Event),
    SemaWriteCompleted(Write),
    SemaReadCompleted(Read),
    EffectCompleted(Effect),
}

/// The decision the reaction frame emits: reply, command a SEMA write or read,
/// command a side effect, or continue with further work.
#[derive(Clone, Debug, PartialEq, Eq)]
pub enum Action<Reply, Write, Read, Effect, Continuation> {
    ReplyToSignal(Reply),
    CommandSemaWrite(Write),
    CommandSemaRead(Read),
    CommandEffect(Effect),
    Continue(Continuation),
}

/// The uninhabitable leg marker: a leg bound to `Never` carries no value, so
/// its `Work` or `Action` variant can never be constructed. It is the
/// standard library's empty enum, which carries exactly the derives a
/// zero-variant type tolerates.
pub type Never = std::convert::Infallible;

/// The step that an action stands for: the same five-way sum, variant for variant.
pub open spec fn action_step<Reply, Write, Read, Effect, Continuation>(
    action: Action<Reply, Write, Read, Effect, Continuation>,
) -> NextStep<Reply, Write, Read, Effect, Continuation> {
    match action {
        Action::ReplyToSignal(reply) => NextStep::Reply(reply),
        Action::CommandSemaWrite(write) => NextStep::SemaWrite(write),
        Action::CommandSemaRead(read) => NextStep::SemaRead(read),
        Action::CommandEffect(effect) => NextStep::RunEffect(effect),
        Action::Continue(work) => NextStep::Continue(work),
    }
}

impl<Reply, Write, Read, Effect, Continuation> From<
    Action<Reply, Write, Read, Effect, Continuation>,
> for NextStep<Reply, Write, Read, Effect, Continuation> {
    fn from(action: Action<Reply, Write, Read, Effect, Continuation>) -> (step: Self) {
        match action {
            Action::ReplyToSignal(reply) => NextStep::Reply(reply),
            Action::CommandSemaWrite(write) => NextStep::SemaWrite(write),
            Action::CommandSemaRead(read) => NextStep::SemaRead(read),
            Action::CommandEffect(effect) => NextStep::RunEffect(effect),
            Action::Continue(work) => NextStep::Continue(work),
        }
    }
}

impl<Reply, Write, Read, Effect, Continuation> vstd::std_specs::convert::FromSpecImpl<
    Action<Reply, Write, Read, Effect, Continuation>,
> for NextStep<Reply, Write, Read, Effect, Continuation> {
    open spec fn obeys_from_spec() -> bool {
        true
    }

    open spec fn from_spec(action: Action<Reply, Write, Read, Effect, Continuation>) -> Self {
        action_step(action)
    }
}

} // verus!
