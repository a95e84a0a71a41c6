//! The generic binary envelope used by runtime transports: a four-byte
//! big-endian body length followed by exactly that many payload bytes.

use vstd::prelude::*;

use crate::stdio::{read_exact, write_all};

verus! {

/// The four big-endian bytes that stand for `length`.
pub open spec fn length_prefix(length: nat) -> Seq<u8> {
    seq![
        ((length / 0x100_0000) % 0x100) as u8,
        ((length / 0x1_0000) % 0x100) as u8,
        ((length / 0x100) % 0x100) as u8,
        (length % 0x100) as u8,
    ]
}

/// The length that four big-endian prefix bytes stand for.
pub open spec fn prefix_length(prefix: Seq<u8>) -> nat {
    (prefix[0] as nat) * 0x100_0000 + (prefix[1] as nat) * 0x1_0000 + (prefix[2] as nat) * 0x100
        + (prefix[3] as nat)
}

/// The whole frame for a body: its length prefix, then the body itself.
pub open spec fn frame_bytes(body: Seq<u8>) -> Seq<u8> {
    length_prefix(body.len()) + body
}

/// Whether `bytes` is one whole frame: a four-byte prefix announcing exactly
/// the bytes that follow it.
pub open spec fn is_whole_frame(bytes: Seq<u8>) -> bool {
    &&& bytes.len() >= 4
    &&& prefix_length(bytes.take(4)) == bytes.len() - 4
}

/// Whether a body length can be written in a four-byte prefix.
pub open spec fn fits_length_prefix(length: nat) -> bool {
    length <= u32::MAX
}

/// The largest body a codec accepts, in bytes.
#[derive(Clone, Copy, Debug, PartialEq, Eq, Structural)]
pub struct MaximumFrameLength {
    bytes: usize,
}

/// A frame payload: just bytes.
#[derive(Clone, Debug, PartialEq, Eq)]
pub struct FrameBody {
    bytes: Vec<u8>,
}

/// Writes and reads length-prefixed frames whose bodies stay within a maximum.
#[derive(Clone, Copy, Debug, PartialEq, Eq, Structural)]
pub struct LengthPrefixedCodec {
    maximum_body_length: MaximumFrameLength,
}

/// Why a frame could not be written or read.
#[derive(Debug)]
pub enum FrameError {
    Io(std::io::Error),
    BodyTooLarge { found: usize },
}

impl View for MaximumFrameLength {
    type V = nat;

    closed spec fn view(&self) -> nat {
        self.bytes as nat
    }
}

impl View for FrameBody {
    type V = Seq<u8>;

    closed spec fn view(&self) -> Seq<u8> {
        self.bytes@
    }
}

impl View for LengthPrefixedCodec {
    type V = nat;

    /// The codec is seen as the largest body length it accepts.
    closed spec fn view(&self) -> nat {
        self.maximum_body_length@
    }
}

impl FrameError {
    /// The error that reports a body of `found` bytes as too large.
    pub open spec fn is_too_large(self, found: nat) -> bool {
        self matches FrameError::BodyTooLarge { found: f } && f == found
    }
}

impl MaximumFrameLength {
    pub fn new(bytes: usize) -> (maximum: Self)
        ensures
            maximum@ == bytes,
    {
        Self { bytes }
    }

    pub fn maximum_for_u32_prefix() -> (maximum: Self)
        ensures
            maximum@ == u32::MAX,
    {
        Self::new(u32::MAX as usize)
    }

    pub fn bytes(&self) -> (bytes: usize)
        ensures
            bytes == self@,
    {
        self.bytes
    }

    pub fn accepts(&self, length: usize) -> (accepted: bool)
        ensures
            accepted == (length <= self@),
    {
        length <= self.bytes
    }
}

impl FrameBody {
    pub fn new(bytes: Vec<u8>) -> (body: Self)
        ensures
            body@ == bytes@,
    {
        Self { bytes }
    }

    pub fn bytes(&self) -> (bytes: &[u8])
        ensures
            bytes@ == self@,
    {
        self.bytes.as_slice()
    }

    pub fn len(&self) -> (length: usize)
        ensures
            length == self@.len(),
    {
        self.bytes.len()
    }

    pub fn is_empty(&self) -> (empty: bool)
        ensures
            empty == (self@.len() == 0),
    {
        self.bytes.len() == 0
    }

    pub fn into_bytes(self) -> (bytes: Vec<u8>)
        ensures
            bytes@ == self@,
    {
        self.bytes
    }
}

impl Default for LengthPrefixedCodec {
    fn default() -> (codec: Self)
        ensures
            codec@ == u32::MAX,
    {
        Self::new(MaximumFrameLength::maximum_for_u32_prefix())
    }
}

impl LengthPrefixedCodec {
    pub fn new(maximum_body_length: MaximumFrameLength) -> (codec: Self)
        ensures
            codec@ == maximum_body_length@,
    {
        Self { maximum_body_length }
    }

    pub fn maximum_body_length(&self) -> (maximum: MaximumFrameLength)
        ensures
            maximum@ == self@,
    {
        self.maximum_body_length
    }

    /// Frames a body: the four-byte big-endian length, then the body bytes.
    pub fn encode_body(&self, body: &FrameBody) -> (result: Result<Vec<u8>, FrameError>)
        ensures
            match result {
                Ok(frame) => {
                    &&& body@.len() <= self@
                    &&& fits_length_prefix(body@.len())
                    &&& frame@ == frame_bytes(body@)
                },
                Err(error) => {
                    &&& (body@.len() > self@ || !fits_length_prefix(body@.len()))
                    &&& error.is_too_large(body@.len())
                },
            },
    {
        let length = body.len();
        self.validate_length(length)?;
        if length > u32::MAX as usize {
            return Err(FrameError::BodyTooLarge { found: length });
        }
        let mut frame: Vec<u8> = Vec::new();
        frame.push(((length / 0x100_0000) % 0x100) as u8);
        frame.push(((length / 0x1_0000) % 0x100) as u8);
        frame.push(((length / 0x100) % 0x100) as u8);
        frame.push((length % 0x100) as u8);
        let bytes = body.bytes();
        let mut index: usize = 0;
        while index < length
            invariant
                length == bytes@.len(),
                bytes@ == body@,
                index <= length,
                frame@ == length_prefix(length as nat) + bytes@.take(index as int),
            decreases length - index,
        {
            frame.push(bytes[index]);
            index = index + 1;
            assert(bytes@.take(index as int) == bytes@.take((index - 1) as int).push(
                bytes@[index - 1],
            ));
        }
        assert(bytes@.take(length as int) == bytes@);
        Ok(frame)
    }

    /// The body length that a length prefix announces, if the codec accepts it.
    pub fn body_length_from_prefix(&self, prefix: [u8; 4]) -> (result: Result<usize, FrameError>)
        ensures
            match result {
                Ok(length) => length == prefix_length(prefix@) && length <= self@,
                Err(error) => prefix_length(prefix@) > self@ && error.is_too_large(
                    prefix_length(prefix@),
                ),
            },
    {
        let length: u32 = (prefix[0] as u32) * 0x100_0000 + (prefix[1] as u32) * 0x1_0000
            + (prefix[2] as u32) * 0x100 + (prefix[3] as u32);
        let length = length as usize;
        self.validate_length(length)?;
        Ok(length)
    }

    /// Writes a body's frame to `writer`; a body the codec refuses is not written.
    pub fn write_body<Writer: std::io::Write>(&self, writer: &mut Writer, body: &FrameBody) -> (result:
        Result<(), FrameError>)
        ensures
            (body@.len() > self@ || !fits_length_prefix(body@.len())) <==> result matches Err(
                FrameError::BodyTooLarge { .. },
            ),
            result matches Err(FrameError::BodyTooLarge { found }) ==> found == body@.len(),
    {
        let frame = self.encode_body(body)?;
        proof {
            lemma_frame_prefix_announces_body_length(body@);
        }
        match write_all(writer, frame.as_slice()) {
            Ok(()) => Ok(()),
            Err(error) => Err(FrameError::Io(error)),
        }
    }

    /// Reads one frame from `reader`: the four-byte prefix, then exactly the
    /// body it announces. A prefix announcing more than the codec accepts is
    /// refused before any body byte is read.
    pub fn read_body<Reader: std::io::Read>(&self, reader: &mut Reader) -> (result: Result<
        FrameBody,
        FrameError,
    >)
        ensures
            result matches Ok(body) ==> body@.len() <= self@ && fits_length_prefix(body@.len()),
            result matches Err(FrameError::BodyTooLarge { found }) ==> found > self@,
    {
        let mut prefix_bytes: Vec<u8> = vec![0u8; 4];
        if let Err(error) = read_exact(reader, &mut prefix_bytes) {
            return Err(FrameError::Io(error));
        }
        let prefix: [u8; 4] = [prefix_bytes[0], prefix_bytes[1], prefix_bytes[2], prefix_bytes[3]];
        proof {
            lemma_prefix_bytes_round_trip(prefix@);
        }
        self.read_announced_body(reader, prefix)
    }

    /// Reads the body that a length prefix, already read from `reader`,
    /// announces: exactly as many bytes as the prefix's big-endian length.
    /// A prefix announcing more than the codec accepts is refused, and no
    /// body byte is read.
    pub fn read_announced_body<Reader: std::io::Read>(
        &self,
        reader: &mut Reader,
        prefix: [u8; 4],
    ) -> (result: Result<FrameBody, FrameError>)
        ensures
            result matches Ok(body) ==> body@.len() == prefix_length(prefix@) && body@.len()
                <= self@,
            prefix_length(prefix@) > self@ ==> (result matches Err(
                FrameError::BodyTooLarge { found },
            ) && found == prefix_length(prefix@)),
            prefix_length(prefix@) <= self@ ==> !(result matches Err(
                FrameError::BodyTooLarge { .. },
            )),
    {
        let length = self.body_length_from_prefix(prefix)?;
        let mut body: Vec<u8> = vec![0u8; length];
        if let Err(error) = read_exact(reader, &mut body) {
            return Err(FrameError::Io(error));
        }
        Ok(FrameBody::new(body))
    }

    fn validate_length(&self, length: usize) -> (result: Result<(), FrameError>)
        ensures
            result matches Ok(()) <==> length <= self@,
            result matches Err(error) ==> error.is_too_large(length as nat),
    {
        if self.maximum_body_length.accepts(length) {
            Ok(())
        } else {
            Err(FrameError::BodyTooLarge { found: length })
        }
    }
}

/// A length written in a prefix reads back as the same length.
pub proof fn lemma_length_prefix_round_trip(length: nat)
    requires
        fits_length_prefix(length),
    ensures
        length_prefix(length).len() == 4,
        prefix_length(length_prefix(length)) == length,
{
    let a = length / 0x100_0000;
    let b = (length / 0x1_0000) % 0x100;
    let c = (length / 0x100) % 0x100;
    let d = length % 0x100;
    assert(a < 0x100) by (nonlinear_arith)
        requires
            length <= u32::MAX,
            a == length / 0x100_0000,
    ;
    assert(length == a * 0x100_0000 + b * 0x1_0000 + c * 0x100 + d) by (nonlinear_arith)
        requires
            a == length / 0x100_0000,
            b == (length / 0x1_0000) % 0x100,
            c == (length / 0x100) % 0x100,
            d == length % 0x100,
    ;
    let p = length_prefix(length);
    assert(p[0] as nat == a);
    assert(p[1] as nat == b);
    assert(p[2] as nat == c);
    assert(p[3] as nat == d);
}

/// The first four bytes of a written frame announce exactly the body's length,
/// so reading the prefix back yields the length that was written.
pub proof fn lemma_frame_prefix_announces_body_length(body: Seq<u8>)
    requires
        fits_length_prefix(body.len()),
    ensures
        frame_bytes(body).len() == body.len() + 4,
        prefix_length(frame_bytes(body).take(4)) == body.len(),
        frame_bytes(body).skip(4) == body,
{
    lemma_length_prefix_round_trip(body.len());
    assert(frame_bytes(body).take(4) =~= length_prefix(body.len()));
    assert(frame_bytes(body).skip(4) =~= body);
}

/// Any four prefix bytes read back the same after writing the length they announce.
pub proof fn lemma_prefix_bytes_round_trip(prefix: Seq<u8>)
    requires
        prefix.len() == 4,
    ensures
        fits_length_prefix(prefix_length(prefix)),
        length_prefix(prefix_length(prefix)) == prefix,
{
    let a = prefix[0] as nat;
    let b = prefix[1] as nat;
    let c = prefix[2] as nat;
    let d = prefix[3] as nat;
    let n = prefix_length(prefix);
    assert(n / 0x100_0000 == a && (n / 0x1_0000) % 0x100 == b && (n / 0x100) % 0x100 == c && n
        % 0x100 == d) by (nonlinear_arith)
        requires
            a < 0x100,
            b < 0x100,
            c < 0x100,
            d < 0x100,
            n == a * 0x100_0000 + b * 0x1_0000 + c * 0x100 + d,
    ;
    assert(length_prefix(n) =~= prefix);
}

/// A whole frame is exactly the frame of the bytes after its prefix: the
/// only bytes the library hands a writer are `frame_bytes` of some body, and
/// reading their prefix back announces that body's length.
pub proof fn lemma_whole_frame_is_the_frame_of_its_body(bytes: Seq<u8>)
    requires
        is_whole_frame(bytes),
    ensures
        fits_length_prefix((bytes.len() - 4) as nat),
        bytes == frame_bytes(bytes.skip(4)),
{
    lemma_prefix_bytes_round_trip(bytes.take(4));
    assert(bytes =~= bytes.take(4) + bytes.skip(4));
}

} // verus!
