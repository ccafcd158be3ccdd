use vstd::prelude::*;

use crate::error::WriteError;

verus! {

/// What `std::str::from_utf8` reports for these bytes: `None` when they are
/// valid UTF-8, else `Some` of the length of the longest valid prefix.
pub uninterp spec fn utf8_error_offset(bytes: Seq<u8>) -> Option<usize>;

/// Relies on `std::str::from_utf8` to decide whether the bytes are valid
/// UTF-8, and on `Utf8Error::valid_up_to` for where the first invalid
/// sequence starts.
#[verifier::external_body]
pub(crate) fn first_invalid_utf8(bytes: &[u8]) -> (r: Option<usize>)
    ensures
        r == utf8_error_offset(bytes@),
{
    match std::str::from_utf8(bytes) {
        Ok(_) => None,
        Err(e) => Some(e.valid_up_to()),
    }
}

/// The verdict on a payload, given where (if anywhere) its encoding breaks.
pub open spec fn encoding_verdict(invalid_at: Option<usize>) -> Result<(), WriteError> {
    match invalid_at {
        None => Ok(()),
        Some(k) => Err(WriteError::InvalidPayloadEncoding { valid_up_to: k }),
    }
}

/// Turns the outcome of a UTF-8 check into the payload verdict.
pub fn check_encoding(invalid_at: Option<usize>) -> (r: Result<(), WriteError>)
    ensures
        r == encoding_verdict(invalid_at),
{
    match invalid_at {
        None => Ok(()),
        Some(k) => Err(WriteError::InvalidPayloadEncoding { valid_up_to: k }),
    }
}

/// Accepts a payload exactly when it is valid UTF-8 as a whole; otherwise
/// reports the offset of the first invalid sequence.
pub fn validate_instruction_data(instruction_data: &[u8]) -> (r: Result<(), WriteError>)
    ensures
        r == encoding_verdict(utf8_error_offset(instruction_data@)),
{
    check_encoding(first_invalid_utf8(instruction_data))
}

} // verus!
