//! What can go wrong in the codec. Either error ends the connection: BER
//! offers no place to pick the stream up again.

use vstd::prelude::*;

verus! {

/// The codec's errors.
#[derive(Clone, Copy, Debug, PartialEq, Eq, Structural)]
pub enum CodecError {
    /// The buffered bytes are not a protocol message.
    Decoding,
    /// The writer failed.
    Encoding,
}

impl CodecError {
    /// The error in words.
    pub fn message(&self) -> (s: String)
        ensures
            s@ == (match *self {
                CodecError::Decoding => "decoding error"@,
                CodecError::Encoding => "encoding error"@,
            }),
    {
        match self {
            CodecError::Decoding => "decoding error".to_owned(),
            CodecError::Encoding => "encoding error".to_owned(),
        }
    }
}

} // verus!
