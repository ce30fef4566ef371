use vstd::prelude::*;
use vstd::string::*;
use vstd::utf8::*;

verus! {

/// Failures that surface from the binding layer.
#[derive(Debug, Clone, Copy, PartialEq, Eq, Structural)]
pub enum TransferError {
    /// The host refused or failed a buffer request.
    Allocation,
    /// The bytes handed back by the host are not valid UTF-8 text.
    Decode,
    /// A guest value could not be serialized.
    Encoding,
}

#[verifier::external_type_specification]
#[verifier::external_body]
pub struct ExPdkError(extism_pdk::Error);

/// Relies on extism-pdk's `FromBytesOwned for String`, which is
/// `std::str::from_utf8` followed by `to_string`: it succeeds exactly on
/// well-formed UTF-8 and then yields the text those bytes encode.
#[verifier::external_body]
fn decode_string(bytes: &[u8]) -> (r: Result<String, extism_pdk::Error>)
    ensures
        r is Ok <==> valid_utf8(bytes@),
        r is Ok ==> r->Ok_0@ == decode_utf8(bytes@),
{
    <String as extism_pdk::FromBytesOwned>::from_bytes_owned(bytes)
}

/// The contents of one transfer buffer: the bytes that cross the boundary,
/// either written by the guest for the host to read or copied out of a
/// region the host handed back.
///
/// The host-side region behind a buffer is released by consuming the value
/// (`release`), so a released buffer cannot be read or released again.
#[derive(Debug, Clone, PartialEq)]
pub struct Transfer {
    bytes: Vec<u8>,
}

impl View for Transfer {
    type V = Seq<u8>;

    closed spec fn view(&self) -> Seq<u8> {
        self.bytes@
    }
}

/// What reading a buffer yields: its text when the bytes are UTF-8.
pub open spec fn read_result(bytes: Seq<u8>) -> Result<Seq<char>, TransferError> {
    if valid_utf8(bytes) {
        Ok(decode_utf8(bytes))
    } else {
        Err(TransferError::Decode)
    }
}

impl Transfer {
    /// A buffer holding the UTF-8 encoding of `s`.
    pub fn write(s: &str) -> (r: Transfer)
        ensures
            r@ == encode_utf8(s@),
    {
        Transfer { bytes: s.as_bytes_vec() }
    }

    /// A buffer holding bytes copied out of a host-owned region.
    pub fn from_bytes(bytes: Vec<u8>) -> (r: Transfer)
        ensures
            r@ == bytes@,
    {
        Transfer { bytes }
    }

    /// The bytes of the buffer.
    pub fn as_bytes(&self) -> (r: &[u8])
        ensures
            r@ == self@,
    {
        self.bytes.as_slice()
    }

    /// Number of bytes in the buffer.
    pub fn len(&self) -> (r: usize)
        ensures
            r == self@.len(),
    {
        self.bytes.len()
    }

    /// Decodes the buffer as UTF-8 text.
    pub fn read(&self) -> (r: Result<String, TransferError>)
        ensures
            match (r, read_result(self@)) {
                (Ok(s), Ok(t)) => s@ == t,
                (Err(e), Err(f)) => e == f,
                _ => false,
            },
    {
        match decode_string(self.bytes.as_slice()) {
            Ok(s) => Ok(s),
            Err(_) => Err(TransferError::Decode),
        }
    }

    /// Hands the bytes over for the host region to be freed; the buffer is
    /// consumed, so it cannot be used or released a second time.
    pub fn release(self) -> (r: Vec<u8>)
        ensures
            r@ == self@,
    {
        self.bytes
    }
}

/// Writing a string into a transfer buffer and reading it back succeeds and
/// yields the same text, and so re-encodes to the same bytes.
pub proof fn lemma_round_trip(s: Seq<char>)
    ensures
        read_result(encode_utf8(s)) == Ok::<Seq<char>, TransferError>(s),
{
    encode_utf8_valid_utf8(s);
    encode_utf8_decode_utf8(s);
}

} // verus!
