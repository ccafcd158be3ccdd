use vstd::prelude::*;

verus! {

/// Why a write was refused. A refused write leaves the record unchanged.
#[derive(Clone, Copy, Debug, PartialEq, Eq, Structural)]
pub enum WriteError {
    /// The record is administered by another program.
    OwnershipMismatch,
    /// The call carries no valid signer attestation.
    MissingAuthorization,
    /// The payload is not valid UTF-8; `valid_up_to` is the offset of the
    /// first byte that starts an invalid sequence.
    InvalidPayloadEncoding { valid_up_to: usize },
    /// The payload is longer than the record's capacity.
    PayloadTooLarge,
}

} // verus!
