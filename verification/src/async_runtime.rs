//! Request admission for task-backed daemons: the concurrency dial, the
//! gate's status record, and the values an async listener shell is configured with.

use vstd::prelude::*;

use crate::daemon::{prefixed_text, run_outcome, RequestErrorLog, SocketMode};
use vstd::string::*;
use crate::paths::{std_path_of, std_path_text};

verus! {

/// How many requests one gate lets in at a time; never zero.
#[derive(Clone, Copy, Debug, PartialEq, Eq, Structural)]
pub struct RequestConcurrencyLimit {
    count: usize,
}

#[derive(Debug)]
pub enum RequestPermitError {
    GateClosed,
}

#[derive(Debug)]
pub enum AsyncListenerError {
    Io(std::io::Error),
    RequestGate { detail: String },
    ListenerIndexOutOfRange { index: usize, listener_count: usize },
    ListenerTask { detail: String },
}

#[derive(Debug)]
pub enum AsyncSingleListenerDaemonError<RuntimeError> {
    Listener(AsyncListenerError),
    Start(RuntimeError),
    Stop(RuntimeError),
}

#[derive(Debug)]
pub enum AsyncMultiListenerDaemonError<RuntimeError> {
    Listener(AsyncListenerError),
    Start(RuntimeError),
    Stop(RuntimeError),
}

/// Asks a request gate for its status, naming who asks.
#[derive(Clone, Debug, PartialEq, Eq)]
pub struct RequestGateStatusRequest {
    observer_name: String,
}

/// What a request gate reports: its limit, how many permits are free, and how
/// many permit requests it has accepted.
#[derive(Clone, Copy, Debug, PartialEq, Eq, Structural)]
pub struct RequestGateStatus {
    limit: RequestConcurrencyLimit,
    available_permit_count: usize,
    accepted_request_count: u64,
}

/// One listener of an async multi-listener daemon: its identity, its socket
/// path, and the mode its socket file gets.
#[derive(Clone, Debug)]
pub struct AsyncListenerSocket<Listener> {
    listener: Listener,
    socket_path: String,
    socket_mode: Option<SocketMode>,
}

/// An unbound async single-listener daemon: where to listen, how many
/// requests to accept at once, how to report request errors, and the shared
/// component runtime.
pub struct AsyncSingleListenerDaemon<Runtime> {
    socket_path: String,
    socket_mode: Option<SocketMode>,
    concurrency_limit: RequestConcurrencyLimit,
    request_error_log: RequestErrorLog,
    runtime: std::sync::Arc<Runtime>,
}

/// The count a requested concurrency becomes: zero is raised to one.
pub open spec fn clamped_concurrency(count: nat) -> nat {
    if count == 0 {
        1
    } else {
        count
    }
}

/// The accepted-request count after one more admission, held at the largest `u64`.
pub open spec fn accepted_count_after(count: nat) -> nat {
    if count < u64::MAX {
        count + 1
    } else {
        count
    }
}

/// The accepted-request count of a gate that started at zero and has
/// admitted `requests` permit requests, one `accepted_count_after` each.
pub open spec fn accepted_count_after_requests(requests: nat) -> nat
    decreases requests,
{
    if requests == 0 {
        0
    } else {
        accepted_count_after(accepted_count_after_requests((requests - 1) as nat))
    }
}

/// A gate that has admitted `requests` permit requests reports exactly that
/// many, up to the largest `u64`: each request is counted once, when it is
/// admitted, whether or not its permit has been granted yet.
pub proof fn lemma_accepted_count_counts_requests(requests: nat)
    ensures
        accepted_count_after_requests(requests) == if requests <= u64::MAX {
            requests
        } else {
            u64::MAX as nat
        },
    decreases requests,
{
    if requests > 0 {
        lemma_accepted_count_counts_requests((requests - 1) as nat);
    }
}

impl View for RequestConcurrencyLimit {
    type V = nat;

    closed spec fn view(&self) -> nat {
        self.count as nat
    }
}

impl View for RequestGateStatusRequest {
    type V = Seq<char>;

    closed spec fn view(&self) -> Seq<char> {
        self.observer_name@
    }
}

impl View for RequestGateStatus {
    /// The limit, the available permit count, and the accepted request count.
    type V = (nat, nat, nat);

    closed spec fn view(&self) -> (nat, nat, nat) {
        (self.limit@, self.available_permit_count as nat, self.accepted_request_count as nat)
    }
}

impl RequestConcurrencyLimit {
    #[verifier::type_invariant]
    closed spec fn at_least_one(&self) -> bool {
        self.count >= 1
    }

    pub fn new(count: usize) -> (limit: Self)
        ensures
            limit@ == clamped_concurrency(count as nat),
    {
        if count == 0 {
            Self::one()
        } else {
            Self { count }
        }
    }

    pub fn one() -> (limit: Self)
        ensures
            limit@ == 1,
    {
        Self { count: 1 }
    }

    pub fn count(self) -> (count: usize)
        ensures
            count == self@,
            count >= 1,
    {
        proof {
            use_type_invariant(&self);
        }
        self.count
    }
}

impl RequestGateStatusRequest {
    pub fn new(observer_name: String) -> (request: Self)
        ensures
            request@ == observer_name@,
    {
        Self { observer_name }
    }

    pub fn observer_name(&self) -> (name: &str)
        ensures
            name@ == self@,
    {
        self.observer_name.as_str()
    }
}

impl RequestGateStatus {
    pub fn new(
        limit: RequestConcurrencyLimit,
        available_permit_count: usize,
        accepted_request_count: u64,
    ) -> (status: Self)
        ensures
            status@ == (limit@, available_permit_count as nat, accepted_request_count as nat),
    {
        Self { limit, available_permit_count, accepted_request_count }
    }

    pub fn limit(self) -> (limit: RequestConcurrencyLimit)
        ensures
            limit@ == self@.0,
    {
        self.limit
    }

    pub fn available_permit_count(self) -> (count: usize)
        ensures
            count == self@.1,
    {
        self.available_permit_count
    }

    pub fn accepted_request_count(self) -> (count: u64)
        ensures
            count == self@.2,
    {
        self.accepted_request_count
    }

    /// The accepted-request count a gate holds after accepting one more request.
    pub fn next_accepted_request_count(count: u64) -> (next: u64)
        ensures
            next == accepted_count_after(count as nat),
    {
        count.saturating_add(1)
    }
}

impl<Listener> AsyncListenerSocket<Listener> {
    pub closed spec fn listener_spec(&self) -> Listener {
        self.listener
    }

    pub closed spec fn socket_path_spec(&self) -> Seq<char> {
        self.socket_path@
    }

    pub closed spec fn socket_mode_spec(&self) -> Option<SocketMode> {
        self.socket_mode
    }

    pub fn new(listener: Listener, socket_path: String) -> (socket: Self)
        ensures
            socket.listener_spec() == listener,
            socket.socket_path_spec() == socket_path@,
            socket.socket_mode_spec() is None,
    {
        Self { listener, socket_path, socket_mode: None }
    }

    pub fn with_socket_mode(self, socket_mode: SocketMode) -> (socket: Self)
        ensures
            socket.listener_spec() == self.listener_spec(),
            socket.socket_path_spec() == self.socket_path_spec(),
            socket.socket_mode_spec() == Some(socket_mode),
    {
        Self { socket_mode: Some(socket_mode), ..self }
    }

    pub fn listener(&self) -> (listener: &Listener)
        ensures
            *listener == self.listener_spec(),
    {
        &self.listener
    }

    pub fn socket_path(&self) -> (path: &std::path::Path)
        ensures
            std_path_text(path) == self.socket_path_spec(),
    {
        std_path_of(&self.socket_path)
    }

    pub fn socket_mode(&self) -> (mode: Option<SocketMode>)
        ensures
            mode == self.socket_mode_spec(),
    {
        self.socket_mode
    }

    /// Takes the socket apart for binding: its identity, path text and mode.
    pub fn into_parts(self) -> (parts: (Listener, String, Option<SocketMode>))
        ensures
            parts.0 == self.listener_spec(),
            parts.1@ == self.socket_path_spec(),
            parts.2 == self.socket_mode_spec(),
    {
        (self.listener, self.socket_path, self.socket_mode)
    }
}

impl<Runtime> AsyncSingleListenerDaemon<Runtime> {
    pub closed spec fn socket_path_spec(&self) -> Seq<char> {
        self.socket_path@
    }

    pub closed spec fn socket_mode_spec(&self) -> Option<SocketMode> {
        self.socket_mode
    }

    pub closed spec fn concurrency_limit_spec(&self) -> RequestConcurrencyLimit {
        self.concurrency_limit
    }

    pub closed spec fn request_error_log_spec(&self) -> Seq<char> {
        self.request_error_log@
    }

    pub closed spec fn runtime_spec(&self) -> Runtime {
        *self.runtime
    }

    pub fn new(socket_path: String, runtime: Runtime, request_error_log: RequestErrorLog) -> (daemon:
        Self)
        ensures
            daemon.socket_path_spec() == socket_path@,
            daemon.socket_mode_spec() is None,
            daemon.concurrency_limit_spec()@ == 1,
            daemon.request_error_log_spec() == request_error_log@,
            daemon.runtime_spec() == runtime,
    {
        Self {
            socket_path,
            socket_mode: None,
            concurrency_limit: RequestConcurrencyLimit::one(),
            request_error_log,
            runtime: std::sync::Arc::new(runtime),
        }
    }

    pub fn with_socket_mode(self, socket_mode: SocketMode) -> (daemon: Self)
        ensures
            daemon.socket_path_spec() == self.socket_path_spec(),
            daemon.socket_mode_spec() == Some(socket_mode),
            daemon.concurrency_limit_spec() == self.concurrency_limit_spec(),
            daemon.request_error_log_spec() == self.request_error_log_spec(),
            daemon.runtime_spec() == self.runtime_spec(),
    {
        Self { socket_mode: Some(socket_mode), ..self }
    }

    pub fn with_concurrency_limit(self, concurrency_limit: RequestConcurrencyLimit) -> (daemon:
        Self)
        ensures
            daemon.socket_path_spec() == self.socket_path_spec(),
            daemon.socket_mode_spec() == self.socket_mode_spec(),
            daemon.concurrency_limit_spec() == concurrency_limit,
            daemon.request_error_log_spec() == self.request_error_log_spec(),
            daemon.runtime_spec() == self.runtime_spec(),
    {
        Self { concurrency_limit, ..self }
    }

    pub fn socket_path(&self) -> (path: &std::path::Path)
        ensures
            std_path_text(path) == self.socket_path_spec(),
    {
        std_path_of(&self.socket_path)
    }

    /// Takes the daemon apart for binding: socket path text, socket mode,
    /// concurrency limit, request-error log and shared runtime.
    pub fn into_parts(self) -> (parts: (
        String,
        Option<SocketMode>,
        RequestConcurrencyLimit,
        RequestErrorLog,
        std::sync::Arc<Runtime>,
    ))
        ensures
            parts.0@ == self.socket_path_spec(),
            parts.1 == self.socket_mode_spec(),
            parts.2 == self.concurrency_limit_spec(),
            parts.3@ == self.request_error_log_spec(),
            *parts.4 == self.runtime_spec(),
    {
        (
            self.socket_path,
            self.socket_mode,
            self.concurrency_limit,
            self.request_error_log,
            self.runtime,
        )
    }
}

impl<RuntimeError> AsyncSingleListenerDaemonError<RuntimeError> {
    /// The result of a run whose runtime started, given how serving and stopping ended.
    pub fn from_outcomes(
        serve: Result<(), AsyncListenerError>,
        stop: Result<(), RuntimeError>,
    ) -> (result: Result<(), Self>)
        ensures
            match run_outcome(serve, stop) {
                Ok(()) => result is Ok,
                Err(Ok(error)) => result == Err::<(), Self>(Self::Listener(error)),
                Err(Err(error)) => result == Err::<(), Self>(Self::Stop(error)),
            },
    {
        match (serve, stop) {
            (Err(error), _) => Err(Self::Listener(error)),
            (Ok(()), Err(error)) => Err(Self::Stop(error)),
            (Ok(()), Ok(())) => Ok(()),
        }
    }
}

impl<RuntimeError> AsyncMultiListenerDaemonError<RuntimeError> {
    /// The result of a run whose runtime started, given how serving and stopping ended.
    pub fn from_outcomes(
        serve: Result<(), AsyncListenerError>,
        stop: Result<(), RuntimeError>,
    ) -> (result: Result<(), Self>)
        ensures
            match run_outcome(serve, stop) {
                Ok(()) => result is Ok,
                Err(Ok(error)) => result == Err::<(), Self>(Self::Listener(error)),
                Err(Err(error)) => result == Err::<(), Self>(Self::Stop(error)),
            },
    {
        match (serve, stop) {
            (Err(error), _) => Err(Self::Listener(error)),
            (Ok(()), Err(error)) => Err(Self::Stop(error)),
            (Ok(()), Ok(())) => Ok(()),
        }
    }
}

impl<RuntimeError> AsyncSingleListenerDaemonError<RuntimeError> {
    /// The message for this error, given the rendered text of the error it carries.
    pub fn display_text(&self, inner: &str) -> (text: String)
        ensures
            match self {
                Self::Listener(_) => text@ == inner@,
                Self::Start(_) => text@ == "async daemon runtime start error: "@ + inner@,
                Self::Stop(_) => text@ == "async daemon runtime stop error: "@ + inner@,
            },
    {
        match self {
            Self::Listener(_) => String::from_str(inner),
            Self::Start(_) => prefixed_text("async daemon runtime start error: ", inner),
            Self::Stop(_) => prefixed_text("async daemon runtime stop error: ", inner),
        }
    }
}

impl<RuntimeError> AsyncMultiListenerDaemonError<RuntimeError> {
    /// The message for this error, given the rendered text of the error it carries.
    pub fn display_text(&self, inner: &str) -> (text: String)
        ensures
            match self {
                Self::Listener(_) => text@ == inner@,
                Self::Start(_) => text@ == "async multi-listener runtime start error: "@ + inner@,
                Self::Stop(_) => text@ == "async multi-listener runtime stop error: "@ + inner@,
            },
    {
        match self {
            Self::Listener(_) => String::from_str(inner),
            Self::Start(_) => prefixed_text("async multi-listener runtime start error: ", inner),
            Self::Stop(_) => prefixed_text("async multi-listener runtime stop error: ", inner),
        }
    }
}

impl AsyncListenerError {
    /// What one finished listener task means for the daemon: a task that ended
    /// cleanly changes nothing; a task that failed, or that could not be
    /// joined (with the join failure's rendered text), stops the daemon with
    /// that error.
    pub fn listener_task_failure(outcome: Result<Result<(), AsyncListenerError>, String>) -> (failure:
        Option<AsyncListenerError>)
        ensures
            match outcome {
                Ok(Ok(())) => failure is None,
                Ok(Err(error)) => failure == Some(error),
                Err(detail) => failure == Some(AsyncListenerError::ListenerTask { detail }),
            },
    {
        match outcome {
            Ok(Ok(())) => None,
            Ok(Err(error)) => Some(error),
            Err(detail) => Some(AsyncListenerError::ListenerTask { detail }),
        }
    }

    /// The listener at `index`, or the out-of-range error when there is none.
    pub fn check_listener_index(index: usize, listener_count: usize) -> (result: Result<
        (),
        AsyncListenerError,
    >)
        ensures
            index < listener_count <==> result is Ok,
            result matches Err(AsyncListenerError::ListenerIndexOutOfRange { index: i, listener_count: n })
                ==> i == index && n == listener_count,
            result matches Err(error) ==> error is ListenerIndexOutOfRange,
    {
        if index < listener_count {
            Ok(())
        } else {
            Err(AsyncListenerError::ListenerIndexOutOfRange { index, listener_count })
        }
    }
}

} // verus!
