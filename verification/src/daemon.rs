//! The reusable listener-daemon shells: the values a shell is configured
//! with, the errors it reports, and how a finished run is reported.
//!
//! Binding sockets and serving streams is file-system and network work that
//! is not part of this crate; what it decides from its outcomes is here.

use vstd::prelude::*;
use vstd::string::*;

use crate::paths::{std_path_of, std_path_text};

verus! {

/// Names the process in every request-error report line.
#[derive(Clone, Debug, PartialEq, Eq)]
pub struct RequestErrorLog {
    process_name: String,
}

/// The file mode bits applied to a bound socket.
#[derive(Clone, Copy, Debug, PartialEq, Eq, Structural)]
pub struct SocketMode {
    bits: u32,
}

/// How long a polling listener sleeps between rounds.
#[derive(Clone, Copy, Debug, PartialEq, Eq)]
pub struct ListenerPollInterval {
    duration: std::time::Duration,
}

#[derive(Debug)]
pub enum ListenerError {
    Io(std::io::Error),
}

#[derive(Debug)]
pub enum SingleListenerDaemonError<StartError, StopError> {
    Listener(ListenerError),
    Start(StartError),
    Stop(StopError),
}

#[derive(Debug)]
pub enum MultiListenerDaemonError<StartError, StopError> {
    Listener(ListenerError),
    Start(StartError),
    Stop(StopError),
}

/// One listener of a multi-listener daemon: its identity, its socket path, and
/// the mode its socket file gets.
#[derive(Clone, Debug)]
pub struct ListenerSocket<Listener> {
    listener: Listener,
    socket_path: String,
    socket_mode: Option<SocketMode>,
}

/// An unbound single-listener daemon: where to listen, how to report request
/// errors, and the component runtime that serves the streams.
pub struct SingleListenerDaemon<Runtime> {
    socket_path: String,
    socket_mode: Option<SocketMode>,
    request_error_log: RequestErrorLog,
    runtime: Runtime,
}

/// The line a request error is reported with: the process name, a colon, the error.
pub open spec fn error_report_line(process_name: Seq<char>, error: Seq<char>) -> Seq<char> {
    process_name + seq![':', ' '] + error
}

/// The line a request error on a named listener is reported with.
pub open spec fn listener_error_report_line(
    process_name: Seq<char>,
    listener: Seq<char>,
    error: Seq<char>,
) -> Seq<char> {
    process_name + seq!['['] + listener + seq![']', ':', ' '] + error
}

/// The outcome of a daemon run, given how serving ended and how stopping
/// ended: a listener failure wins, then a stop failure, else success.
pub open spec fn run_outcome<ServeError, StopError>(
    serve: Result<(), ServeError>,
    stop: Result<(), StopError>,
) -> Result<(), Result<ServeError, StopError>> {
    match (serve, stop) {
        (Err(error), _) => Err(Ok(error)),
        (Ok(()), Err(error)) => Err(Err(error)),
        (Ok(()), Ok(())) => Ok(()),
    }
}

impl View for RequestErrorLog {
    type V = Seq<char>;

    closed spec fn view(&self) -> Seq<char> {
        self.process_name@
    }
}

impl View for SocketMode {
    type V = u32;

    closed spec fn view(&self) -> u32 {
        self.bits
    }
}

impl RequestErrorLog {
    pub fn new(process_name: String) -> (log: Self)
        ensures
            log@ == process_name@,
    {
        Self { process_name }
    }

    pub fn process_name(&self) -> (name: &str)
        ensures
            name@ == self@,
    {
        self.process_name.as_str()
    }

    /// The report line for a request error whose rendered text is `error`.
    pub fn report_line(&self, error: &str) -> (line: String)
        ensures
            line@ == error_report_line(self@, error@),
    {
        let mut line = self.process_name.clone();
        line.append(": ");
        proof {
            reveal_strlit(": ");
        }
        line.append(error);
        assert(line@ =~= error_report_line(self@, error@));
        line
    }

    /// The report line for a request error on the listener rendered as `listener`.
    pub fn report_line_for_listener(&self, listener: &str, error: &str) -> (line: String)
        ensures
            line@ == listener_error_report_line(self@, listener@, error@),
    {
        let mut line = self.process_name.clone();
        line.append("[");
        line.append(listener);
        line.append("]: ");
        proof {
            reveal_strlit("[");
            reveal_strlit("]: ");
        }
        line.append(error);
        assert(line@ =~= listener_error_report_line(self@, listener@, error@));
        line
    }
}

impl SocketMode {
    pub fn new(bits: u32) -> (mode: Self)
        ensures
            mode@ == bits,
    {
        Self { bits }
    }

    pub fn bits(self) -> (bits: u32)
        ensures
            bits == self@,
    {
        self.bits
    }
}

impl Default for ListenerPollInterval {
    /// Ten milliseconds.
    fn default() -> (interval: Self)
        ensures
            interval.duration_spec() == millis_duration(10),
    {
        Self::from_millis(10)
    }
}

impl ListenerPollInterval {
    /// The interval's duration.
    pub closed spec fn duration_spec(&self) -> std::time::Duration {
        self.duration
    }

    pub fn new(duration: std::time::Duration) -> (interval: Self)
        ensures
            interval.duration_spec() == duration,
    {
        Self { duration }
    }

    pub fn from_millis(milliseconds: u64) -> (interval: Self)
        ensures
            interval.duration_spec() == millis_duration(milliseconds),
    {
        Self::new(duration_from_millis(milliseconds))
    }

    pub fn duration(self) -> (duration: std::time::Duration)
        ensures
            duration == self.duration_spec(),
    {
        self.duration
    }
}

impl<Listener> ListenerSocket<Listener> {
    pub closed spec fn listener_spec(&self) -> Listener {
        self.listener
    }

    pub closed spec fn socket_path_spec(&self) -> Seq<char> {
        self.socket_path@
    }

    pub closed spec fn socket_mode_spec(&self) -> Option<SocketMode> {
        self.socket_mode
    }

    pub fn new(listener: Listener, socket_path: String) -> (socket: Self)
        ensures
            socket.listener_spec() == listener,
            socket.socket_path_spec() == socket_path@,
            socket.socket_mode_spec() is None,
    {
        Self { listener, socket_path, socket_mode: None }
    }

    pub fn with_socket_mode(self, socket_mode: SocketMode) -> (socket: Self)
        ensures
            socket.listener_spec() == self.listener_spec(),
            socket.socket_path_spec() == self.socket_path_spec(),
            socket.socket_mode_spec() == Some(socket_mode),
    {
        Self { socket_mode: Some(socket_mode), ..self }
    }

    pub fn listener(&self) -> (listener: &Listener)
        ensures
            *listener == self.listener_spec(),
    {
        &self.listener
    }

    pub fn socket_path(&self) -> (path: &std::path::Path)
        ensures
            std_path_text(path) == self.socket_path_spec(),
    {
        std_path_of(&self.socket_path)
    }

    pub fn socket_mode(&self) -> (mode: Option<SocketMode>)
        ensures
            mode == self.socket_mode_spec(),
    {
        self.socket_mode
    }

    /// Takes the socket apart for binding: its identity, path text and mode.
    pub fn into_parts(self) -> (parts: (Listener, String, Option<SocketMode>))
        ensures
            parts.0 == self.listener_spec(),
            parts.1@ == self.socket_path_spec(),
            parts.2 == self.socket_mode_spec(),
    {
        (self.listener, self.socket_path, self.socket_mode)
    }
}

impl<Runtime> SingleListenerDaemon<Runtime> {
    pub closed spec fn socket_path_spec(&self) -> Seq<char> {
        self.socket_path@
    }

    pub closed spec fn socket_mode_spec(&self) -> Option<SocketMode> {
        self.socket_mode
    }

    pub closed spec fn request_error_log_spec(&self) -> Seq<char> {
        self.request_error_log@
    }

    pub closed spec fn runtime_spec(&self) -> Runtime {
        self.runtime
    }

    pub fn new(socket_path: String, runtime: Runtime, request_error_log: RequestErrorLog) -> (daemon:
        Self)
        ensures
            daemon.socket_path_spec() == socket_path@,
            daemon.socket_mode_spec() is None,
            daemon.request_error_log_spec() == request_error_log@,
            daemon.runtime_spec() == runtime,
    {
        Self { socket_path, socket_mode: None, request_error_log, runtime }
    }

    pub fn with_socket_mode(self, socket_mode: SocketMode) -> (daemon: Self)
        ensures
            daemon.socket_path_spec() == self.socket_path_spec(),
            daemon.socket_mode_spec() == Some(socket_mode),
            daemon.request_error_log_spec() == self.request_error_log_spec(),
            daemon.runtime_spec() == self.runtime_spec(),
    {
        Self { socket_mode: Some(socket_mode), ..self }
    }

    pub fn socket_path(&self) -> (path: &std::path::Path)
        ensures
            std_path_text(path) == self.socket_path_spec(),
    {
        std_path_of(&self.socket_path)
    }

    /// Takes the daemon apart for binding: socket path text, socket mode,
    /// request-error log and runtime.
    pub fn into_parts(self) -> (parts: (String, Option<SocketMode>, RequestErrorLog, Runtime))
        ensures
            parts.0@ == self.socket_path_spec(),
            parts.1 == self.socket_mode_spec(),
            parts.2@ == self.request_error_log_spec(),
            parts.3 == self.runtime_spec(),
    {
        (self.socket_path, self.socket_mode, self.request_error_log, self.runtime)
    }
}

impl<StartError, StopError> SingleListenerDaemonError<StartError, StopError> {
    /// The result of a run whose runtime started, given how serving and stopping ended.
    pub fn from_outcomes(serve: Result<(), ListenerError>, stop: Result<(), StopError>) -> (result:
        Result<(), Self>)
        ensures
            match run_outcome(serve, stop) {
                Ok(()) => result is Ok,
                Err(Ok(error)) => result == Err::<(), Self>(Self::Listener(error)),
                Err(Err(error)) => result == Err::<(), Self>(Self::Stop(error)),
            },
    {
        match (serve, stop) {
            (Err(error), _) => Err(Self::Listener(error)),
            (Ok(()), Err(error)) => Err(Self::Stop(error)),
            (Ok(()), Ok(())) => Ok(()),
        }
    }
}

impl<StartError, StopError> MultiListenerDaemonError<StartError, StopError> {
    /// The result of a run whose runtime started, given how serving and stopping ended.
    pub fn from_outcomes(serve: Result<(), ListenerError>, stop: Result<(), StopError>) -> (result:
        Result<(), Self>)
        ensures
            match run_outcome(serve, stop) {
                Ok(()) => result is Ok,
                Err(Ok(error)) => result == Err::<(), Self>(Self::Listener(error)),
                Err(Err(error)) => result == Err::<(), Self>(Self::Stop(error)),
            },
    {
        match (serve, stop) {
            (Err(error), _) => Err(Self::Listener(error)),
            (Ok(()), Err(error)) => Err(Self::Stop(error)),
            (Ok(()), Ok(())) => Ok(()),
        }
    }
}

/// The text `prefix` followed by the text `inner`.
pub(crate) fn prefixed_text(prefix: &str, inner: &str) -> (text: String)
    ensures
        text@ == prefix@ + inner@,
{
    let mut text = String::from_str(prefix);
    text.append(inner);
    text
}

impl<StartError, StopError> SingleListenerDaemonError<StartError, StopError> {
    /// The message for this error, given the rendered text of the error it carries.
    pub fn display_text(&self, inner: &str) -> (text: String)
        ensures
            match self {
                Self::Listener(_) => text@ == inner@,
                Self::Start(_) => text@ == "daemon runtime start error: "@ + inner@,
                Self::Stop(_) => text@ == "daemon runtime stop error: "@ + inner@,
            },
    {
        match self {
            Self::Listener(_) => String::from_str(inner),
            Self::Start(_) => prefixed_text("daemon runtime start error: ", inner),
            Self::Stop(_) => prefixed_text("daemon runtime stop error: ", inner),
        }
    }
}

impl<StartError, StopError> MultiListenerDaemonError<StartError, StopError> {
    /// The message for this error, given the rendered text of the error it carries.
    pub fn display_text(&self, inner: &str) -> (text: String)
        ensures
            match self {
                Self::Listener(_) => text@ == inner@,
                Self::Start(_) => text@ == "daemon runtime start error: "@ + inner@,
                Self::Stop(_) => text@ == "daemon runtime stop error: "@ + inner@,
            },
    {
        match self {
            Self::Listener(_) => String::from_str(inner),
            Self::Start(_) => prefixed_text("daemon runtime start error: ", inner),
            Self::Stop(_) => prefixed_text("daemon runtime stop error: ", inner),
        }
    }
}

/// The duration `std::time::Duration::from_millis` makes of a number of
/// milliseconds.
pub uninterp spec fn millis_duration(milliseconds: u64) -> std::time::Duration;

/// Calls `std::time::Duration::from_millis`, whose result depends on the
/// number of milliseconds alone.
#[verifier::external_body]
fn duration_from_millis(milliseconds: u64) -> (duration: std::time::Duration)
    ensures
        duration == millis_duration(milliseconds),
{
    std::time::Duration::from_millis(milliseconds)
}

} // verus!
