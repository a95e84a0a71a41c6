//! The reusable engine roles, named as traits. Generated component roots
//! implement them; the concrete variants stay component-specific.

use vstd::prelude::*;

use crate::runner::NextStep;

verus! {

pub trait NexusWork {}

pub trait SemaWriteInput {}

pub trait SemaWriteOutput {}

pub trait SemaReadInput {}

pub trait SemaReadOutput {}

pub trait NexusEffectCommand {}

pub trait NexusEffectResult {}

/// A component's typed Nexus decision, projected into the runner's five-outcome step.
pub trait NexusAction: Sized {
    type Reply;

    type SemaWrite: SemaWriteInput;

    type SemaRead: SemaReadInput;

    type Effect: NexusEffectCommand;

    type Work: NexusWork;

    fn into_next_step(self) -> NextStep<
        Self::Reply,
        Self::SemaWrite,
        Self::SemaRead,
        Self::Effect,
        Self::Work,
    >;
}

impl SemaWriteInput for std::convert::Infallible {}

impl SemaWriteOutput for std::convert::Infallible {}

impl SemaReadInput for std::convert::Infallible {}

impl SemaReadOutput for std::convert::Infallible {}

impl NexusEffectCommand for std::convert::Infallible {}

impl NexusEffectResult for std::convert::Infallible {}

} // verus!
