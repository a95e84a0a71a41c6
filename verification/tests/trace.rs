use std::{fmt, path::Path};

use triad_runtime::{TraceError, TraceEventFrame, TraceFrame, TraceSocketPath};

#[derive(Clone, Debug, PartialEq, Eq)]
struct CounterTraceEvent {
    count: u32,
}

impl TraceEventFrame for CounterTraceEvent {
    fn trace_archive(&self) -> Result<Vec<u8>, TraceError> {
        self.to_trace_archive()
    }

    fn to_trace_archive(&self) -> Result<Vec<u8>, TraceError> {
        Ok(self.count.to_le_bytes().to_vec())
    }

    fn from_trace_archive(archive: &[u8]) -> Result<Self, TraceError> {
        let bytes: [u8; 4] = archive.try_into().map_err(|_| TraceError::ArchiveDecode)?;
        Ok(Self {
            count: u32::from_le_bytes(bytes),
        })
    }
}

/// A trace event archived with rkyv: its name is the archived value.
#[derive(Clone, Debug, PartialEq, Eq)]
struct ExampleTraceEvent {
    name: String,
}

impl ExampleTraceEvent {
    fn new(name: impl Into<String>) -> Self {
        Self { name: name.into() }
    }
}

impl fmt::Display for ExampleTraceEvent {
    fn fmt(&self, formatter: &mut fmt::Formatter<'_>) -> fmt::Result {
        formatter.write_str(&self.name)
    }
}

impl TraceEventFrame for ExampleTraceEvent {
    fn trace_archive(&self) -> Result<Vec<u8>, TraceError> {
        self.to_trace_archive()
    }

    fn to_trace_archive(&self) -> Result<Vec<u8>, TraceError> {
        rkyv::to_bytes::<rkyv::rancor::Error>(&self.name)
            .map(|archive| archive.to_vec())
            .map_err(|_| TraceError::ArchiveEncode)
    }

    fn from_trace_archive(archive: &[u8]) -> Result<Self, TraceError> {
        rkyv::from_bytes::<String, rkyv::rancor::Error>(archive)
            .map(|name| Self { name })
            .map_err(|_| TraceError::ArchiveDecode)
    }
}

/// A second event shape, archived with rkyv as its count.
#[derive(Clone, Debug, PartialEq, Eq)]
struct RkyvCounterTraceEvent {
    count: u32,
}

impl TraceEventFrame for RkyvCounterTraceEvent {
    fn trace_archive(&self) -> Result<Vec<u8>, TraceError> {
        self.to_trace_archive()
    }

    fn to_trace_archive(&self) -> Result<Vec<u8>, TraceError> {
        rkyv::to_bytes::<rkyv::rancor::Error>(&self.count)
            .map(|archive| archive.to_vec())
            .map_err(|_| TraceError::ArchiveEncode)
    }

    fn from_trace_archive(archive: &[u8]) -> Result<Self, TraceError> {
        rkyv::from_bytes::<u32, rkyv::rancor::Error>(archive)
            .map(|count| Self { count })
            .map_err(|_| TraceError::ArchiveDecode)
    }
}

#[test]
fn trace_frame_is_length_prefixed_binary_not_display_text() {
    let event = ExampleTraceEvent::new("SemaWriteApplied");
    let frame = TraceFrame::new(event.clone())
        .to_bytes()
        .expect("frame bytes");
    let archive_length = u32::from_be_bytes(frame[..4].try_into().expect("length prefix")) as usize;

    assert_eq!(
        archive_length,
        frame.len() - 4,
        "the frame is a four-byte length prefix followed by that many archive bytes"
    );
    assert_ne!(
        &frame[4..],
        event.to_string().as_bytes(),
        "the wire carries the rkyv archive, not the Display text"
    );

    let decoded = ExampleTraceEvent::from_trace_archive(&frame[4..]).expect("decode archive");
    assert_eq!(decoded, event);
}

#[test]
fn trace_runtime_is_generic_over_distinct_event_shapes() {
    let event = RkyvCounterTraceEvent { count: 4 };
    let frame = TraceFrame::new(event.clone())
        .to_bytes()
        .expect("frame bytes");
    let decoded = RkyvCounterTraceEvent::from_trace_archive(&frame[4..]).expect("decode archive");

    assert_eq!(decoded, event);
}

#[test]
fn trace_frame_prefixes_the_archive_with_its_big_endian_length() {
    let event = CounterTraceEvent { count: 4 };
    let frame = TraceFrame::new(event.clone()).to_bytes().expect("frame bytes");

    assert_eq!(&frame[..4], &[0, 0, 0, 4]);
    let decoded = CounterTraceEvent::from_trace_archive(&frame[4..]).expect("decode archive");
    assert_eq!(decoded, event);
}

#[test]
fn trace_frame_keeps_its_event() {
    let frame = TraceFrame::new(CounterTraceEvent { count: 9 });

    assert_eq!(frame.event(), &CounterTraceEvent { count: 9 });
    assert_eq!(frame.into_event(), CounterTraceEvent { count: 9 });
}

#[test]
fn archive_framing_writes_length_then_archive() {
    let frame = TraceFrame::<CounterTraceEvent>::frame_archive(&[9, 8, 7]).expect("frame");

    assert_eq!(frame, vec![0, 0, 0, 3, 9, 8, 7]);
}

#[test]
fn trace_socket_path_keeps_its_path() {
    let path = TraceSocketPath::new("/run/trace.sock".to_string());

    assert_eq!(path.as_path(), Path::new("/run/trace.sock"));
}

/// An event that cannot be archived.
#[derive(Clone, Debug, PartialEq, Eq)]
struct UnarchivableTraceEvent;

impl TraceEventFrame for UnarchivableTraceEvent {
    fn trace_archive(&self) -> Result<Vec<u8>, TraceError> {
        self.to_trace_archive()
    }

    fn to_trace_archive(&self) -> Result<Vec<u8>, TraceError> {
        Err(TraceError::ArchiveEncode)
    }

    fn from_trace_archive(_archive: &[u8]) -> Result<Self, TraceError> {
        Err(TraceError::ArchiveDecode)
    }
}

#[test]
fn trace_frame_passes_on_the_archive_error() {
    let error = TraceFrame::new(UnarchivableTraceEvent)
        .to_bytes()
        .expect_err("unarchivable event");

    assert!(matches!(error, TraceError::ArchiveEncode));
}
