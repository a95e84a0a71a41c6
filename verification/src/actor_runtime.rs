//! The actor-native listener shell: the values it is configured with and the
//! errors it reports. Admission types are shared with the async shell.

use vstd::prelude::*;

use crate::async_runtime::RequestConcurrencyLimit;
use crate::daemon::{prefixed_text, run_outcome, RequestErrorLog, SocketMode};
use vstd::string::*;
use crate::paths::{std_path_of, std_path_text};

verus! {

#[derive(Debug)]
pub enum ActorListenerError {
    Io(std::io::Error),
    RequestGate { detail: String },
}

#[derive(Debug)]
pub enum ActorSingleListenerDaemonError<RuntimeError> {
    Listener(ActorListenerError),
    Start(RuntimeError),
    Stop(RuntimeError),
}

/// An unbound actor single-listener daemon: where to listen, how many
/// requests to accept at once, how to report request errors, and the shared
/// component runtime.
pub struct ActorSingleListenerDaemon<Runtime> {
    socket_path: String,
    socket_mode: Option<SocketMode>,
    concurrency_limit: RequestConcurrencyLimit,
    request_error_log: RequestErrorLog,
    runtime: std::sync::Arc<Runtime>,
}

impl<Runtime> ActorSingleListenerDaemon<Runtime> {
    pub closed spec fn socket_path_spec(&self) -> Seq<char> {
        self.socket_path@
    }

    pub closed spec fn socket_mode_spec(&self) -> Option<SocketMode> {
        self.socket_mode
    }

    pub closed spec fn concurrency_limit_spec(&self) -> RequestConcurrencyLimit {
        self.concurrency_limit
    }

    pub closed spec fn request_error_log_spec(&self) -> Seq<char> {
        self.request_error_log@
    }

    pub closed spec fn runtime_spec(&self) -> Runtime {
        *self.runtime
    }

    pub fn new(socket_path: String, runtime: Runtime, request_error_log: RequestErrorLog) -> (daemon:
        Self)
        ensures
            daemon.socket_path_spec() == socket_path@,
            daemon.socket_mode_spec() is None,
            daemon.concurrency_limit_spec()@ == 1,
            daemon.request_error_log_spec() == request_error_log@,
            daemon.runtime_spec() == runtime,
    {
        Self {
            socket_path,
            socket_mode: None,
            concurrency_limit: RequestConcurrencyLimit::one(),
            request_error_log,
            runtime: std::sync::Arc::new(runtime),
        }
    }

    pub fn with_socket_mode(self, socket_mode: SocketMode) -> (daemon: Self)
        ensures
            daemon.socket_path_spec() == self.socket_path_spec(),
            daemon.socket_mode_spec() == Some(socket_mode),
            daemon.concurrency_limit_spec() == self.concurrency_limit_spec(),
            daemon.request_error_log_spec() == self.request_error_log_spec(),
            daemon.runtime_spec() == self.runtime_spec(),
    {
        Self { socket_mode: Some(socket_mode), ..self }
    }

    pub fn with_concurrency_limit(self, concurrency_limit: RequestConcurrencyLimit) -> (daemon:
        Self)
        ensures
            daemon.socket_path_spec() == self.socket_path_spec(),
            daemon.socket_mode_spec() == self.socket_mode_spec(),
            daemon.concurrency_limit_spec() == concurrency_limit,
            daemon.request_error_log_spec() == self.request_error_log_spec(),
            daemon.runtime_spec() == self.runtime_spec(),
    {
        Self { concurrency_limit, ..self }
    }

    pub fn socket_path(&self) -> (path: &std::path::Path)
        ensures
            std_path_text(path) == self.socket_path_spec(),
    {
        std_path_of(&self.socket_path)
    }

    /// Takes the daemon apart for binding: socket path text, socket mode,
    /// concurrency limit, request-error log and shared runtime.
    pub fn into_parts(self) -> (parts: (
        String,
        Option<SocketMode>,
        RequestConcurrencyLimit,
        RequestErrorLog,
        std::sync::Arc<Runtime>,
    ))
        ensures
            parts.0@ == self.socket_path_spec(),
            parts.1 == self.socket_mode_spec(),
            parts.2 == self.concurrency_limit_spec(),
            parts.3@ == self.request_error_log_spec(),
            *parts.4 == self.runtime_spec(),
    {
        (
            self.socket_path,
            self.socket_mode,
            self.concurrency_limit,
            self.request_error_log,
            self.runtime,
        )
    }
}

impl<RuntimeError> ActorSingleListenerDaemonError<RuntimeError> {
    /// The result of a run whose runtime started, given how serving and stopping ended.
    pub fn from_outcomes(
        serve: Result<(), ActorListenerError>,
        stop: Result<(), RuntimeError>,
    ) -> (result: Result<(), Self>)
        ensures
            match run_outcome(serve, stop) {
                Ok(()) => result is Ok,
                Err(Ok(error)) => result == Err::<(), Self>(Self::Listener(error)),
                Err(Err(error)) => result == Err::<(), Self>(Self::Stop(error)),
            },
    {
        match (serve, stop) {
            (Err(error), _) => Err(Self::Listener(error)),
            (Ok(()), Err(error)) => Err(Self::Stop(error)),
            (Ok(()), Ok(())) => Ok(()),
        }
    }
}

impl<RuntimeError> ActorSingleListenerDaemonError<RuntimeError> {
    /// The message for this error, given the rendered text of the error it carries.
    pub fn display_text(&self, inner: &str) -> (text: String)
        ensures
            match self {
                Self::Listener(_) => text@ == inner@,
                Self::Start(_) => text@ == "actor daemon runtime start error: "@ + inner@,
                Self::Stop(_) => text@ == "actor daemon runtime stop error: "@ + inner@,
            },
    {
        match self {
            Self::Listener(_) => String::from_str(inner),
            Self::Start(_) => prefixed_text("actor daemon runtime start error: ", inner),
            Self::Stop(_) => prefixed_text("actor daemon runtime stop error: ", inner),
        }
    }
}

} // verus!
