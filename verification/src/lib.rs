//! Shared runtime support for schema-derived triad daemons: the verified core.

pub mod actor_runtime;
pub mod argument;
pub mod async_runtime;
pub mod daemon;
pub mod frame;
pub mod paths;
pub mod process;
pub mod reaction;
pub mod role;
pub mod runner;
pub mod streaming;
pub mod trace;
pub mod workers;
pub mod stdio;

pub use frame::{FrameBody, FrameError, LengthPrefixedCodec, MaximumFrameLength};
pub use runner::{
    ContinuationBudget, ContinuationExhausted, ContinuationLimit, NextStep, Runner, RunnerAction,
};
pub use reaction::{Action, Never, Work};
pub use role::{
    NexusAction, NexusEffectCommand, NexusEffectResult, NexusWork, SemaReadInput, SemaReadOutput,
    SemaWriteInput, SemaWriteOutput,
};
pub use argument::{ArgumentError, ComponentArgument, ComponentCommand, DotosFile, InlineDotos, SignalFile};
pub use daemon::{
    ListenerError, ListenerPollInterval, ListenerSocket, MultiListenerDaemonError, RequestErrorLog,
    SingleListenerDaemon, SingleListenerDaemonError, SocketMode,
};
pub use actor_runtime::{ActorListenerError, ActorSingleListenerDaemon, ActorSingleListenerDaemonError};
pub use async_runtime::{
    AsyncListenerError, AsyncListenerSocket, AsyncMultiListenerDaemonError, AsyncSingleListenerDaemon,
    AsyncSingleListenerDaemonError, RequestConcurrencyLimit, RequestGateStatus,
    RequestGateStatusRequest, RequestPermitError,
};
pub use process::{
    AbsoluteRuntimePath, BindingSurface, ExistingRuntimePathKind, ExitReport, RuntimePathError,
    RuntimePathErrorKind, RuntimeSocketFile, RuntimeSocketFileError, RuntimeSocketPath,
    SocketPathSelection, SocketPathSource, UnixCredentials,
};
pub use streaming::{
    Subscription, SubscriptionEvent, SubscriptionEventEpoch, SubscriptionEventEpochAuthority,
    SubscriptionEventEpochError, SubscriptionEventEpochReservation, SubscriptionEventEpochStore,
    SubscriptionEventIdentifier, SubscriptionEventPublisher, SubscriptionEventSequence,
    SubscriptionPublishError, SubscriptionRegistry, SubscriptionToken, SubscriptionTokenError,
    SubscriptionTokenIssuer, SubscriptionTokenValue,
};
pub use trace::{TraceError, TraceEventFrame, TraceFrame, TraceSocketPath};
pub use workers::WorkerPermitCount;
