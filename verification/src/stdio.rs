//! The standard-library input/output items the library hands through or calls.

use vstd::prelude::*;

verus! {

/// `std::io::Error` is carried through the library's error types untouched.
#[verifier::external_type_specification]
#[verifier::external_body]
pub struct ExIoError(std::io::Error);

/// Calls `std::io::Read::read_exact`, which fills the whole buffer or fails.
/// The buffer is a slice of the vector, so its length never changes; what the
/// bytes hold comes from the reader and is not stated.
#[verifier::external_body]
pub(crate) fn read_exact<Reader: std::io::Read>(reader: &mut Reader, buffer: &mut Vec<u8>) -> (result:
    Result<(), std::io::Error>)
    ensures
        final(buffer)@.len() == old(buffer)@.len(),
{
    reader.read_exact(buffer.as_mut_slice())
}

/// Calls `std::io::Write::write_all`, which hands every byte to the writer or
/// fails. What the writer does with them is not observable here. The library
/// hands a writer nothing but whole frames, and each caller proves it.
#[verifier::external_body]
pub(crate) fn write_all<Writer: std::io::Write>(writer: &mut Writer, bytes: &[u8]) -> (result: Result<
    (),
    std::io::Error,
>)
    requires
        crate::frame::is_whole_frame(bytes@),
{
    writer.write_all(bytes)
}

} // verus!
