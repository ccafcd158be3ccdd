//! Authorised, bounded writes into a fixed-capacity record.
//!
//! A write is admitted only when the record is administered by the handler,
//! the call carries a signer's attestation and the payload is valid UTF-8;
//! it then replaces the record's whole data region with the payload followed
//! by zero padding.

mod encoding;
mod error;
mod identity;
mod processor;
mod record;

pub use encoding::{check_encoding, encoding_verdict, utf8_error_offset, validate_instruction_data};
pub use error::WriteError;
pub use identity::Identity;
pub use processor::{
    apply_instruction, data_after, instruction_result, lemma_instruction_idempotent,
    lemma_shrink_clears, process_instruction, verify_signature,
};
pub use record::{overwritten, write_data, write_padded, zero_padded, Record, SignerAttestation};
