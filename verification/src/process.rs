//! The component-agnostic process edge: peer credentials, validated runtime
//! socket paths and where they came from, the uniform configuration surface,
//! and the process name that exit reports carry.
//!
//! Reading the environment, inspecting the file system and writing to standard
//! error are not part of this crate; they hand their answers to the
//! functions here.

use vstd::prelude::*;
use vstd::string::*;

use crate::async_runtime::RequestConcurrencyLimit;
use crate::daemon::SocketMode;
use crate::paths::{std_path_buf_of, std_path_buf_text, std_path_of, std_path_text};

verus! {

/// The kernel-vouched credential triple of a Unix-socket peer.
#[derive(Clone, Copy, Debug, PartialEq, Eq, Structural)]
pub struct UnixCredentials {
    user_id: u32,
    group_id: u32,
    process_id: i32,
}

/// The source that supplied a runtime path.
#[derive(Clone, Debug, PartialEq, Eq)]
pub enum SocketPathSource {
    /// A component configuration field decoded from the daemon startup record.
    ConfigurationField { field: String },
    /// A built-in default path selected by the caller.
    Default { field: String },
    /// An explicit socket path override from an environment variable.
    EnvironmentOverride { variable: String, value: String },
    /// A default socket path derived from a runtime-directory environment variable.
    RuntimeDirectory { variable: String, value: String, field: String },
}

#[derive(Clone, Copy, Debug, PartialEq, Eq, Structural)]
pub enum RuntimePathErrorKind {
    Empty,
    Relative,
    ParentDirectory,
}

/// A runtime path that failed validation, with where it came from.
#[derive(Clone, Debug, PartialEq, Eq)]
pub struct RuntimePathError {
    path_source: SocketPathSource,
    value: String,
    kind: RuntimePathErrorKind,
}

/// A non-empty absolute path with no parent-directory component.
#[derive(Clone, Debug, PartialEq, Eq)]
pub struct AbsoluteRuntimePath {
    path: String,
}

/// A validated runtime socket path.
#[derive(Clone, Debug, PartialEq, Eq)]
pub struct RuntimeSocketPath {
    path: AbsoluteRuntimePath,
}

/// A validated socket path together with the source that selected it.
#[derive(Clone, Debug, PartialEq, Eq)]
pub struct SocketPathSelection {
    socket_path: RuntimeSocketPath,
    source: SocketPathSource,
}

/// What already stands at a runtime socket path.
#[derive(Clone, Copy, Debug, PartialEq, Eq, Structural)]
pub enum ExistingRuntimePathKind {
    Socket,
    RegularFile,
    Directory,
    Symlink,
    Other,
}

#[derive(Debug)]
pub enum RuntimeSocketFileError {
    RuntimePath(RuntimePathError),
    Io(std::io::Error),
    NonSocketPath { path: std::path::PathBuf, kind: ExistingRuntimePathKind },
}

/// A listener's socket file, prepared before binding and removed afterwards.
#[derive(Clone, Debug)]
pub struct RuntimeSocketFile {
    path: String,
}

/// The process name a daemon's exit report is printed with.
#[derive(Clone, Debug)]
pub struct ExitReport {
    process_name: &'static str,
}

/// Whether the `/`-separated segment of `path` that starts at `start` is `..`:
/// the only segment that a Unix path reads as a parent-directory component.
pub open spec fn parent_segment_at(path: Seq<char>, start: int) -> bool {
    &&& 0 <= start
    &&& start + 2 <= path.len()
    &&& path[start] == '.'
    &&& path[start + 1] == '.'
    &&& (start == 0 || path[start - 1] == '/')
    &&& (start + 2 == path.len() || path[start + 2] == '/')
}

/// Whether a Unix path has a parent-directory component.
pub open spec fn has_parent_segment(path: Seq<char>) -> bool {
    exists|start: int| parent_segment_at(path, start)
}

/// Why a path is not an absolute runtime path, if it is not one: it is empty,
/// or it does not start at the root, or it climbs to a parent directory.
pub open spec fn runtime_path_error_kind(path: Seq<char>) -> Option<RuntimePathErrorKind> {
    if path.len() == 0 {
        Some(RuntimePathErrorKind::Empty)
    } else if path[0] != '/' {
        Some(RuntimePathErrorKind::Relative)
    } else if has_parent_segment(path) {
        Some(RuntimePathErrorKind::ParentDirectory)
    } else {
        None
    }
}

/// The path `std::path::PathBuf::join` makes of `base` and `tail` on Unix: an
/// absolute tail replaces the base; otherwise a separator is put between them
/// when the base is not empty and does not already end in one.
pub open spec fn joined_path(base: Seq<char>, tail: Seq<char>) -> Seq<char> {
    if tail.len() > 0 && tail[0] == '/' {
        tail
    } else if base.len() > 0 && base.last() != '/' {
        base + seq!['/'] + tail
    } else {
        base + tail
    }
}

/// Whether `source` is the built-in default source for the field named `field`.
pub open spec fn default_source_is(source: SocketPathSource, field: Seq<char>) -> bool {
    source matches SocketPathSource::Default { field: f } && f@ == field
}

/// Whether `source` is the runtime-directory source for `variable`, a
/// directory value reading `value`, and `field`.
pub open spec fn runtime_directory_source_is(
    source: SocketPathSource,
    variable: String,
    value: Seq<char>,
    field: String,
) -> bool {
    source matches SocketPathSource::RuntimeDirectory { variable: v, value: x, field: f } && v
        == variable && x@ == value && f == field
}

/// The text `format!("{:?}", text)` renders for a string: the string in
/// double quotes, with the characters that `str`'s `Debug` escapes escaped.
pub uninterp spec fn debug_quoted(text: Seq<char>) -> Seq<char>;

/// How a path source is described in messages.
pub open spec fn source_text(source: SocketPathSource) -> Seq<char> {
    match source {
        SocketPathSource::ConfigurationField { field } => "configuration field "@ + field@,
        SocketPathSource::Default { field } => "default "@ + field@,
        SocketPathSource::EnvironmentOverride { variable, value } => "environment override "@
            + variable@ + "="@ + debug_quoted(value@),
        SocketPathSource::RuntimeDirectory { variable, value, field } => "runtime-directory default "@
            + field@ + " from "@ + variable@ + "="@ + debug_quoted(value@),
    }
}

/// How a path validation failure is described in messages.
pub open spec fn kind_text(kind: RuntimePathErrorKind) -> Seq<char> {
    match kind {
        RuntimePathErrorKind::Empty => "is empty"@,
        RuntimePathErrorKind::Relative => "is relative"@,
        RuntimePathErrorKind::ParentDirectory => "contains parent-directory traversal"@,
    }
}

/// How what stands at a runtime path is described in messages.
pub open spec fn existing_kind_text(kind: ExistingRuntimePathKind) -> Seq<char> {
    match kind {
        ExistingRuntimePathKind::Socket => "socket"@,
        ExistingRuntimePathKind::RegularFile => "regular file"@,
        ExistingRuntimePathKind::Directory => "directory"@,
        ExistingRuntimePathKind::Symlink => "symlink"@,
        ExistingRuntimePathKind::Other => "other file type"@,
    }
}

/// The kind a file type is classified as: socket, regular file, directory and
/// symlink are tested in that order, and anything else is other.
pub open spec fn classified_path_kind(
    is_socket: bool,
    is_file: bool,
    is_dir: bool,
    is_symlink: bool,
) -> ExistingRuntimePathKind {
    if is_socket {
        ExistingRuntimePathKind::Socket
    } else if is_file {
        ExistingRuntimePathKind::RegularFile
    } else if is_dir {
        ExistingRuntimePathKind::Directory
    } else if is_symlink {
        ExistingRuntimePathKind::Symlink
    } else {
        ExistingRuntimePathKind::Other
    }
}

impl View for UnixCredentials {
    /// The user, group and process identifiers.
    type V = (u32, u32, i32);

    closed spec fn view(&self) -> (u32, u32, i32) {
        (self.user_id, self.group_id, self.process_id)
    }
}

impl View for AbsoluteRuntimePath {
    type V = Seq<char>;

    closed spec fn view(&self) -> Seq<char> {
        self.path@
    }
}

impl View for RuntimeSocketPath {
    type V = Seq<char>;

    closed spec fn view(&self) -> Seq<char> {
        self.path@
    }
}

impl View for SocketPathSelection {
    type V = Seq<char>;

    /// The selection is seen as its validated path.
    closed spec fn view(&self) -> Seq<char> {
        self.socket_path@
    }
}

impl View for RuntimeSocketFile {
    type V = Seq<char>;

    closed spec fn view(&self) -> Seq<char> {
        self.path@
    }
}

impl View for ExitReport {
    type V = Seq<char>;

    closed spec fn view(&self) -> Seq<char> {
        self.process_name@
    }
}

impl UnixCredentials {
    pub fn new(user_id: u32, group_id: u32, process_id: i32) -> (credentials: Self)
        ensures
            credentials@ == (user_id, group_id, process_id),
    {
        Self { user_id, group_id, process_id }
    }

    pub fn user_id(&self) -> (user_id: u32)
        ensures
            user_id == self@.0,
    {
        self.user_id
    }

    pub fn group_id(&self) -> (group_id: u32)
        ensures
            group_id == self@.1,
    {
        self.group_id
    }

    pub fn process_id(&self) -> (process_id: i32)
        ensures
            process_id == self@.2,
    {
        self.process_id
    }
}

impl SocketPathSource {
    pub fn configuration_field(field: String) -> (source: Self)
        ensures
            source == (SocketPathSource::ConfigurationField { field }),
    {
        Self::ConfigurationField { field }
    }

    pub fn default(field: String) -> (source: Self)
        ensures
            source == (SocketPathSource::Default { field }),
    {
        Self::Default { field }
    }

    pub fn environment_override(variable: String, value: String) -> (source: Self)
        ensures
            source == (SocketPathSource::EnvironmentOverride { variable, value }),
    {
        Self::EnvironmentOverride { variable, value }
    }

    pub fn runtime_directory(variable: String, value: String, field: String) -> (source: Self)
        ensures
            source == (SocketPathSource::RuntimeDirectory { variable, value, field }),
    {
        Self::RuntimeDirectory { variable, value, field }
    }

    /// A copy of this source, equal to it.
    fn duplicate(&self) -> (copy: Self)
        ensures
            copy == *self,
    {
        match self {
            Self::ConfigurationField { field } => Self::ConfigurationField { field: field.clone() },
            Self::Default { field } => Self::Default { field: field.clone() },
            Self::EnvironmentOverride { variable, value } => Self::EnvironmentOverride {
                variable: variable.clone(),
                value: value.clone(),
            },
            Self::RuntimeDirectory { variable, value, field } => Self::RuntimeDirectory {
                variable: variable.clone(),
                value: value.clone(),
                field: field.clone(),
            },
        }
    }
}

impl SocketPathSource {
    /// How this source is described in messages.
    pub fn display_text(&self) -> (text: String)
        ensures
            text@ == source_text(*self),
    {
        match self {
            Self::ConfigurationField { field } => {
                let mut text = String::from_str("configuration field ");
                text.append(field.as_str());
                text
            },
            Self::Default { field } => {
                let mut text = String::from_str("default ");
                text.append(field.as_str());
                text
            },
            Self::EnvironmentOverride { variable, value } => {
                let mut text = String::from_str("environment override ");
                text.append(variable.as_str());
                text.append("=");
                let quoted = debug_quoted_text(value.as_str());
                text.append(quoted.as_str());
                text
            },
            Self::RuntimeDirectory { variable, value, field } => {
                let mut text = String::from_str("runtime-directory default ");
                text.append(field.as_str());
                text.append(" from ");
                text.append(variable.as_str());
                text.append("=");
                let quoted = debug_quoted_text(value.as_str());
                text.append(quoted.as_str());
                text
            },
        }
    }
}

impl RuntimePathErrorKind {
    /// How this failure is described in messages.
    pub fn display_text(self) -> (text: &'static str)
        ensures
            text@ == kind_text(self),
    {
        match self {
            Self::Empty => "is empty",
            Self::Relative => "is relative",
            Self::ParentDirectory => "contains parent-directory traversal",
        }
    }
}

impl RuntimePathError {
    /// How this error is described in messages: the failure, the source, and
    /// the offending value.
    pub fn display_text(&self) -> (text: String)
        ensures
            text@ == "runtime path "@ + kind_text(self.kind_spec()) + " for "@ + source_text(
                self.source_spec(),
            ) + ": "@ + self.value_spec(),
    {
        let mut text = String::from_str("runtime path ");
        text.append(self.kind.display_text());
        text.append(" for ");
        let source = self.path_source.display_text();
        text.append(source.as_str());
        text.append(": ");
        text.append(self.value.as_str());
        text
    }

    pub closed spec fn source_spec(&self) -> SocketPathSource {
        self.path_source
    }

    pub closed spec fn value_spec(&self) -> Seq<char> {
        self.value@
    }

    pub closed spec fn kind_spec(&self) -> RuntimePathErrorKind {
        self.kind
    }

    /// This error reports `path` from `source` as failing for `kind`.
    pub open spec fn reports(
        &self,
        source: SocketPathSource,
        path: Seq<char>,
        kind: RuntimePathErrorKind,
    ) -> bool {
        &&& self.source_spec() == source
        &&& self.value_spec() == path
        &&& self.kind_spec() == kind
    }

    fn new(source: SocketPathSource, path: &String, kind: RuntimePathErrorKind) -> (error: Self)
        ensures
            error.reports(source, path@, kind),
    {
        Self { path_source: source, value: path.clone(), kind }
    }

    pub fn source(&self) -> (source: &SocketPathSource)
        ensures
            *source == self.source_spec(),
    {
        &self.path_source
    }

    pub fn value(&self) -> (value: &str)
        ensures
            value@ == self.value_spec(),
    {
        self.value.as_str()
    }

    pub fn kind(&self) -> (kind: RuntimePathErrorKind)
        ensures
            kind == self.kind_spec(),
    {
        self.kind
    }
}

/// Whether some `/`-separated segment of `path` is `..`.
fn contains_parent_segment(path: &str) -> (found: bool)
    ensures
        found == has_parent_segment(path@),
{
    let length = path.unicode_len();
    let mut start: usize = 0;
    while length >= 2 && start <= length - 2
        invariant
            length == path@.len(),
            start <= length,
            forall|earlier: int| 0 <= earlier < start ==> !parent_segment_at(path@, earlier),
        decreases length - start,
    {
        if path.get_char(start) == '.' && path.get_char(start + 1) == '.' && (start == 0
            || path.get_char(start - 1) == '/') && (start + 2 == length || path.get_char(start + 2)
            == '/') {
            assert(parent_segment_at(path@, start as int));
            return true;
        }
        start = start + 1;
    }
    assert forall|any: int| !parent_segment_at(path@, any) by {
        if 0 <= any && any >= start {
            assert(any + 2 > length);
        }
    }
    false
}

impl AbsoluteRuntimePath {
    pub fn try_new(source: SocketPathSource, path: String) -> (result: Result<
        Self,
        RuntimePathError,
    >)
        ensures
            match runtime_path_error_kind(path@) {
                Some(kind) => result matches Err(error) && error.reports(source, path@, kind),
                None => result matches Ok(absolute) && absolute@ == path@,
            },
    {
        let length = path.as_str().unicode_len();
        if length == 0 {
            return Err(RuntimePathError::new(source, &path, RuntimePathErrorKind::Empty));
        }
        if path.as_str().get_char(0) != '/' {
            return Err(RuntimePathError::new(source, &path, RuntimePathErrorKind::Relative));
        }
        if contains_parent_segment(path.as_str()) {
            return Err(RuntimePathError::new(source, &path, RuntimePathErrorKind::ParentDirectory));
        }
        Ok(Self { path })
    }

    pub fn as_path(&self) -> (path: &std::path::Path)
        ensures
            std_path_text(path) == self@,
    {
        std_path_of(&self.path)
    }

    pub fn into_path_buf(self) -> (path: std::path::PathBuf)
        ensures
            std_path_buf_text(path) == self@,
    {
        std_path_buf_of(self.path)
    }
}

impl RuntimeSocketPath {
    pub fn try_new(source: SocketPathSource, path: String) -> (result: Result<
        Self,
        RuntimePathError,
    >)
        ensures
            match runtime_path_error_kind(path@) {
                Some(kind) => result matches Err(error) && error.reports(source, path@, kind),
                None => result matches Ok(socket_path) && socket_path@ == path@,
            },
    {
        Ok(Self { path: AbsoluteRuntimePath::try_new(source, path)? })
    }

    pub fn as_path(&self) -> (path: &std::path::Path)
        ensures
            std_path_text(path) == self@,
    {
        self.path.as_path()
    }

    pub fn into_path_buf(self) -> (path: std::path::PathBuf)
        ensures
            std_path_buf_text(path) == self@,
    {
        self.path.into_path_buf()
    }
}

impl SocketPathSelection {
    pub closed spec fn source_spec(&self) -> SocketPathSource {
        self.source
    }

    /// The selection `from_source` makes of `path` from `source`: the validated
    /// path with its source, or the validation error.
    pub open spec fn selects(
        result: Result<Self, RuntimePathError>,
        source: SocketPathSource,
        path: Seq<char>,
    ) -> bool {
        match runtime_path_error_kind(path) {
            Some(kind) => result matches Err(error) && error.reports(source, path, kind),
            None => result matches Ok(selection) && selection@ == path && selection.source_spec()
                == source,
        }
    }

    pub fn from_default(field: String, path: String) -> (result: Result<Self, RuntimePathError>)
        ensures
            Self::selects(result, SocketPathSource::Default { field }, path@),
    {
        let source = SocketPathSource::default(field);
        Self::from_source(source, path)
    }

    pub fn from_source(source: SocketPathSource, path: String) -> (result: Result<
        Self,
        RuntimePathError,
    >)
        ensures
            Self::selects(result, source, path@),
    {
        Ok(Self { socket_path: RuntimeSocketPath::try_new(source.duplicate(), path)?, source })
    }

    /// The selection an environment override makes, given the variable's value
    /// as read from the environment: none when the variable is unset.
    pub fn from_environment_value(variable: String, value: Option<String>) -> (result: Result<
        Option<Self>,
        RuntimePathError,
    >)
        ensures
            match value {
                None => result == Ok::<Option<Self>, RuntimePathError>(None),
                Some(value) => {
                    let source = SocketPathSource::EnvironmentOverride { variable, value };
                    match runtime_path_error_kind(value@) {
                        Some(kind) => result matches Err(error) && error.reports(
                            source,
                            value@,
                            kind,
                        ),
                        None => result matches Ok(Some(selection)) && selection@ == value@
                            && selection.source_spec() == source,
                    }
                },
            },
    {
        match value {
            None => Ok(None),
            Some(value) => {
                let path = value.clone();
                let source = SocketPathSource::environment_override(variable, value);
                let selection = Self::from_source(source, path)?;
                Ok(Some(selection))
            },
        }
    }

    /// Prefers an environment override, given the variable's value as read
    /// from the environment, over this selection.
    pub fn select_environment_value(self, variable: String, value: Option<String>) -> (result:
        Result<Self, RuntimePathError>)
        ensures
            value is None ==> result == Ok::<Self, RuntimePathError>(self),
            value matches Some(value) ==> Self::selects(
                result,
                SocketPathSource::EnvironmentOverride { variable, value },
                value@,
            ),
    {
        match Self::from_environment_value(variable, value)? {
            Some(selection) => Ok(selection),
            None => Ok(self),
        }
    }

    /// The selection a runtime-directory default makes, given the directory
    /// variable's value as read from the environment (unset counts as empty):
    /// the socket path inside that directory.
    pub fn from_runtime_directory_value(
        variable: String,
        value: Option<String>,
        field: String,
        socket_path_inside_runtime_directory: String,
    ) -> (result: Result<Self, RuntimePathError>)
        ensures
            ({
                let text = match value {
                    Some(value) => value@,
                    None => Seq::<char>::empty(),
                };
                let path = joined_path(text, socket_path_inside_runtime_directory@);
                &&& text.len() == 0 ==> (result matches Err(error) && runtime_directory_source_is(
                    error.source_spec(),
                    variable,
                    text,
                    field,
                ) && error.value_spec() == text && error.kind_spec()
                    == RuntimePathErrorKind::Empty)
                &&& text.len() > 0 ==> match runtime_path_error_kind(path) {
                    Some(kind) => result matches Err(error) && runtime_directory_source_is(
                        error.source_spec(),
                        variable,
                        text,
                        field,
                    ) && error.value_spec() == path && error.kind_spec() == kind,
                    None => result matches Ok(selection) && selection@ == path
                        && runtime_directory_source_is(selection.source_spec(), variable, text, field),
                }
            }),
    {
        let value = match value {
            Some(value) => value,
            None => String::new(),
        };
        let source = SocketPathSource::runtime_directory(variable, value.clone(), field);
        if value.as_str().unicode_len() == 0 {
            return Err(RuntimePathError::new(source, &value, RuntimePathErrorKind::Empty));
        }
        let path = join_path(value, socket_path_inside_runtime_directory);
        Self::from_source(source, path)
    }

    pub fn socket_path(&self) -> (socket_path: &RuntimeSocketPath)
        ensures
            socket_path@ == self@,
    {
        &self.socket_path
    }

    pub fn source(&self) -> (source: &SocketPathSource)
        ensures
            *source == self.source_spec(),
    {
        &self.source
    }

    pub fn as_path(&self) -> (path: &std::path::Path)
        ensures
            std_path_text(path) == self@,
    {
        self.socket_path.as_path()
    }

    pub fn into_path_buf(self) -> (path: std::path::PathBuf)
        ensures
            std_path_buf_text(path) == self@,
    {
        self.socket_path.into_path_buf()
    }
}

/// Calls `format!("{:?}", text)`, the `Debug` rendering of a string.
#[verifier::external_body]
fn debug_quoted_text(text: &str) -> (quoted: String)
    ensures
        quoted@ == debug_quoted(text@),
{
    format!("{:?}", text)
}

/// Joins a relative tail onto a base path as `std::path::PathBuf::join` does on Unix.
fn join_path(base: String, tail: String) -> (path: String)
    ensures
        path@ == joined_path(base@, tail@),
{
    let tail_length = tail.as_str().unicode_len();
    if tail_length > 0 && tail.as_str().get_char(0) == '/' {
        return tail;
    }
    let base_length = base.as_str().unicode_len();
    let mut path = base;
    if base_length > 0 && path.as_str().get_char(base_length - 1) != '/' {
        path.append("/");
        proof {
            reveal_strlit("/");
        }
    }
    path.append(tail.as_str());
    path
}

impl ExistingRuntimePathKind {
    /// Classifies a file type from what it answers to.
    pub fn from_type_flags(is_socket: bool, is_file: bool, is_dir: bool, is_symlink: bool) -> (kind:
        Self)
        ensures
            kind == classified_path_kind(is_socket, is_file, is_dir, is_symlink),
    {
        if is_socket {
            Self::Socket
        } else if is_file {
            Self::RegularFile
        } else if is_dir {
            Self::Directory
        } else if is_symlink {
            Self::Symlink
        } else {
            Self::Other
        }
    }

    /// How this kind is described in messages.
    pub fn display_text(self) -> (text: &'static str)
        ensures
            text@ == existing_kind_text(self),
    {
        match self {
            Self::Socket => "socket",
            Self::RegularFile => "regular file",
            Self::Directory => "directory",
            Self::Symlink => "symlink",
            Self::Other => "other file type",
        }
    }

    pub fn is_socket(self) -> (socket: bool)
        ensures
            socket == (self == ExistingRuntimePathKind::Socket),
    {
        match self {
            Self::Socket => true,
            _ => false,
        }
    }
}

impl RuntimeSocketFile {
    pub fn new(path: String) -> (file: Self)
        ensures
            file@ == path@,
    {
        Self { path }
    }

    pub fn path(&self) -> (path: &std::path::Path)
        ensures
            std_path_text(path) == self@,
    {
        std_path_of(&self.path)
    }

    /// Validates the socket path as an absolute runtime path before anything
    /// is created or removed.
    pub fn validate_path(&self) -> (result: Result<AbsoluteRuntimePath, RuntimeSocketFileError>)
        ensures
            match runtime_path_error_kind(self@) {
                Some(kind) => result matches Err(RuntimeSocketFileError::RuntimePath(error))
                    && error.kind_spec() == kind && error.value_spec() == self@
                    && default_source_is(error.source_spec(), "listener socket path"@),
                None => result matches Ok(path) && path@ == self@,
            },
    {
        let source = SocketPathSource::default(String::from_str("listener socket path"));
        match AbsoluteRuntimePath::try_new(source, self.path.clone()) {
            Ok(path) => Ok(path),
            Err(error) => Err(RuntimeSocketFileError::RuntimePath(error)),
        }
    }

    /// What to do about what already stands at the socket path, given its kind
    /// (none when nothing stands there): a stale socket is removed (`true`),
    /// an empty path needs nothing (`false`), and anything else is refused
    /// and left in place.
    pub fn stale_path_action(&self, existing: Option<ExistingRuntimePathKind>) -> (result: Result<
        bool,
        RuntimeSocketFileError,
    >)
        ensures
            existing is None ==> result == Ok::<bool, RuntimeSocketFileError>(false),
            existing == Some(ExistingRuntimePathKind::Socket) ==> result == Ok::<
                bool,
                RuntimeSocketFileError,
            >(true),
            existing is Some && existing != Some(ExistingRuntimePathKind::Socket) ==> (
            result matches Err(RuntimeSocketFileError::NonSocketPath { path, kind: found })
                && Some(found) == existing && std_path_buf_text(path) == self@),
    {
        match existing {
            None => Ok(false),
            Some(kind) => {
                if kind.is_socket() {
                    Ok(true)
                } else {
                    Err(
                        RuntimeSocketFileError::NonSocketPath {
                            path: std_path_buf_of(self.path.clone()),
                            kind,
                        },
                    )
                }
            },
        }
    }
}

/// The uniform socket-and-storage surface a daemon reads from a component's
/// configuration object. The optional tiers default to none.
pub trait BindingSurface {
    /// The peer-callable working signal socket path.
    fn socket_path(&self) -> &std::path::Path;

    /// The file mode applied to the working signal socket.
    fn socket_mode(&self) -> (mode: Option<SocketMode>)
        default_ensures
            mode is None,
    {
        None
    }

    /// The request concurrency cap applied to each listener's admission gate.
    fn request_concurrency_limit(&self) -> (limit: RequestConcurrencyLimit)
        default_ensures
            limit@ == 1,
    {
        RequestConcurrencyLimit::one()
    }

    /// The meta-signal socket path, when the component runs a meta listener tier.
    fn meta_socket_path(&self) -> (path: Option<&std::path::Path>)
        default_ensures
            path is None,
    {
        None
    }

    /// The owner-only upgrade socket path, when the component runs an upgrade tier.
    fn upgrade_socket_path(&self) -> (path: Option<&std::path::Path>)
        default_ensures
            path is None,
    {
        None
    }

    /// The durable database path the engine opens at startup.
    fn database_path(&self) -> &std::path::Path;

    /// The testing-trace socket path, when trace transport is configured.
    fn trace_socket_path(&self) -> (path: Option<&std::path::Path>)
        default_ensures
            path is None,
    {
        None
    }

    /// The file mode applied to the meta socket.
    fn meta_socket_mode(&self) -> (mode: Option<SocketMode>)
        default_ensures
            mode is None,
    {
        None
    }
}

impl ExitReport {
    pub fn new(process_name: &'static str) -> (report: Self)
        ensures
            report@ == process_name@,
    {
        Self { process_name }
    }

    pub fn process_name(&self) -> (name: &'static str)
        ensures
            name@ == self@,
    {
        self.process_name
    }
}

} // verus!
