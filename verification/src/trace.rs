//! Typed trace events framed for transport: a four-byte big-endian archive
//! length followed by the component-provided archive bytes.

use vstd::prelude::*;

use crate::frame::{fits_length_prefix, frame_bytes, FrameBody, LengthPrefixedCodec};
use crate::paths::{std_path_of, std_path_text};

verus! {

/// A component's trace event, archived and restored by the component itself.
pub trait TraceEventFrame: Clone + Sized {
    /// The archive of this event, or why it cannot be archived: archiving is
    /// a function of the event.
    spec fn trace_archive(&self) -> Result<Vec<u8>, TraceError>;

    fn to_trace_archive(&self) -> (result: Result<Vec<u8>, TraceError>)
        ensures
            match result {
                Ok(archive) => self.trace_archive() matches Ok(expected) && archive@
                    == expected@,
                Err(error) => self.trace_archive() == Err::<Vec<u8>, TraceError>(error),
            },
    ;

    fn from_trace_archive(archive: &[u8]) -> Result<Self, TraceError>;
}

#[derive(Debug)]
pub enum TraceError {
    Io(std::io::Error),
    ArchiveEncode,
    ArchiveDecode,
    FrameTooLarge { found: usize },
}

/// One typed trace event in its transport envelope.
#[derive(Clone, Debug)]
pub struct TraceFrame<Event: TraceEventFrame> {
    event: Event,
}

/// The Unix socket path a trace sink writes to.
#[derive(Clone, Debug, PartialEq, Eq)]
pub struct TraceSocketPath {
    path: String,
}

impl View for TraceSocketPath {
    type V = Seq<char>;

    closed spec fn view(&self) -> Seq<char> {
        self.path@
    }
}

impl<Event: TraceEventFrame> TraceFrame<Event> {
    pub closed spec fn event_spec(&self) -> Event {
        self.event
    }

    pub fn new(event: Event) -> (frame: Self)
        ensures
            frame.event_spec() == event,
    {
        Self { event }
    }

    pub fn event(&self) -> (event: &Event)
        ensures
            *event == self.event_spec(),
    {
        &self.event
    }

    pub fn into_event(self) -> (event: Event)
        ensures
            event == self.event_spec(),
    {
        self.event
    }

    /// The frame bytes for the event: the event's own archive behind its
    /// four-byte big-endian length. An archive error is passed on as it is.
    pub fn to_bytes(&self) -> (result: Result<Vec<u8>, TraceError>)
        ensures
            match self.event_spec().trace_archive() {
                Ok(archive) => {
                    &&& fits_length_prefix(archive@.len()) ==> (result matches Ok(bytes)
                        && bytes@ == frame_bytes(archive@))
                    &&& !fits_length_prefix(archive@.len()) ==> (result matches Err(
                        TraceError::FrameTooLarge { found },
                    ) && found == archive@.len())
                },
                Err(error) => result == Err::<Vec<u8>, TraceError>(error),
            },
    {
        let archive = self.event.to_trace_archive()?;
        Self::frame_archive(archive.as_slice())
    }

    /// Frames an archive with the length-prefixed codec: its four-byte
    /// big-endian length, then the archive.
    pub fn frame_archive(archive: &[u8]) -> (result: Result<Vec<u8>, TraceError>)
        ensures
            fits_length_prefix(archive@.len()) ==> (result matches Ok(bytes) && bytes@
                == frame_bytes(archive@)),
            !fits_length_prefix(archive@.len()) ==> (result matches Err(
                TraceError::FrameTooLarge { found },
            ) && found == archive@.len()),
    {
        let codec = LengthPrefixedCodec::default();
        let body = FrameBody::new(vstd::slice::slice_to_vec(archive));
        match codec.encode_body(&body) {
            Ok(frame) => Ok(frame),
            Err(_) => Err(TraceError::FrameTooLarge { found: archive.len() }),
        }
    }
}

impl TraceSocketPath {
    pub fn new(path: String) -> (socket_path: Self)
        ensures
            socket_path@ == path@,
    {
        Self { path }
    }

    pub fn as_path(&self) -> (path: &std::path::Path)
        ensures
            std_path_text(path) == self@,
    {
        std_path_of(&self.path)
    }
}

} // verus!
