use vstd::prelude::*;

use crate::encoding::{check_encoding, encoding_verdict, first_invalid_utf8, utf8_error_offset};
use crate::error::WriteError;
use crate::identity::Identity;
use crate::record::{write_padded, zero_padded, Record, SignerAttestation};

verus! {

/// The outcome of an instruction: the first admission check that fails, in
/// the order ownership, signature, encoding, size; `Ok` when all pass.
pub open spec fn instruction_result(
    program_id: Seq<u8>,
    owner: Seq<u8>,
    signed: bool,
    invalid_at: Option<usize>,
    payload_len: nat,
    capacity: nat,
) -> Result<(), WriteError> {
    if owner != program_id {
        Err(WriteError::OwnershipMismatch)
    } else if !signed {
        Err(WriteError::MissingAuthorization)
    } else if invalid_at is Some {
        encoding_verdict(invalid_at)
    } else if payload_len > capacity {
        Err(WriteError::PayloadTooLarge)
    } else {
        Ok(())
    }
}

/// The record's data after an instruction with the given outcome: the padded
/// payload on success, the old data otherwise.
pub open spec fn data_after(result: Result<(), WriteError>, payload: Seq<u8>, data: Seq<u8>) -> Seq<
    u8,
> {
    if result is Ok {
        zero_padded(payload, data.len())
    } else {
        data
    }
}

/// Accepts exactly the attestations that carry a signer's identity.
pub fn verify_signature(signer: &SignerAttestation) -> (r: Result<(), WriteError>)
    ensures
        r == if signer.asserted_identity is Some {
            Ok(())
        } else {
            Err(WriteError::MissingAuthorization)
        },
{
    match signer.asserted_identity {
        Some(_) => Ok(()),
        None => Err(WriteError::MissingAuthorization),
    }
}

/// Runs the admission checks and, if they pass, rewrites the record's data
/// region; `invalid_at` is the outcome of the payload's UTF-8 check.
pub fn apply_instruction(
    program_id: &Identity,
    record: &mut Record,
    signer: &SignerAttestation,
    instruction_data: &[u8],
    invalid_at: Option<usize>,
) -> (r: Result<(), WriteError>)
    ensures
        r == instruction_result(
            program_id@,
            old(record).owner@,
            signer.asserted_identity is Some,
            invalid_at,
            instruction_data@.len(),
            old(record).data@.len(),
        ),
        final(record).owner == old(record).owner,
        final(record).data@ == data_after(r, instruction_data@, old(record).data@),
{
    if !record.owner.equals(program_id) {
        return Err(WriteError::OwnershipMismatch);
    }
    if let Err(e) = verify_signature(signer) {
        return Err(e);
    }
    if let Err(e) = check_encoding(invalid_at) {
        return Err(e);
    }
    if instruction_data.len() > record.data.len() {
        return Err(WriteError::PayloadTooLarge);
    }
    write_padded(record, instruction_data);
    Ok(())
}

/// Writes `instruction_data` into the record, zero-padded to its capacity,
/// when the record is administered by `program_id`, the signer attestation is
/// valid, the payload is valid UTF-8 and it fits; otherwise reports the first
/// failing check and leaves the record unchanged.
pub fn process_instruction(
    program_id: &Identity,
    record: &mut Record,
    signer: &SignerAttestation,
    instruction_data: &[u8],
) -> (r: Result<(), WriteError>)
    ensures
        r == instruction_result(
            program_id@,
            old(record).owner@,
            signer.asserted_identity is Some,
            utf8_error_offset(instruction_data@),
            instruction_data@.len(),
            old(record).data@.len(),
        ),
        final(record).owner == old(record).owner,
        final(record).data@ == data_after(r, instruction_data@, old(record).data@),
        old(record).owner@ == program_id@ && signer.asserted_identity is Some && utf8_error_offset(
            instruction_data@,
        ) is None && instruction_data@.len() <= old(record).data@.len() ==> r is Ok
            && final(record).data@ == zero_padded(instruction_data@, old(record).data@.len()),
        old(record).owner@ != program_id@ ==> r == Err::<(), WriteError>(
            WriteError::OwnershipMismatch,
        ) && final(record).data@ == old(record).data@,
        old(record).owner@ == program_id@ && signer.asserted_identity is None ==> r == Err::<
            (),
            WriteError,
        >(WriteError::MissingAuthorization) && final(record).data@ == old(record).data@,
        old(record).owner@ == program_id@ && signer.asserted_identity is Some && utf8_error_offset(
            instruction_data@,
        ) is Some ==> r == Err::<(), WriteError>(
            WriteError::InvalidPayloadEncoding {
                valid_up_to: utf8_error_offset(instruction_data@)->0,
            },
        ) && final(record).data@ == old(record).data@,
{
    let invalid_at = first_invalid_utf8(instruction_data);
    apply_instruction(program_id, record, signer, instruction_data, invalid_at)
}

/// Repeating an instruction changes nothing more: the second call has the
/// same outcome as the first and leaves the data as the first left it.
pub proof fn lemma_instruction_idempotent(
    program_id: Seq<u8>,
    owner: Seq<u8>,
    signed: bool,
    payload: Seq<u8>,
    data: Seq<u8>,
)
    ensures
        ({
            let invalid_at = utf8_error_offset(payload);
            let r1 = instruction_result(
                program_id,
                owner,
                signed,
                invalid_at,
                payload.len(),
                data.len(),
            );
            let d1 = data_after(r1, payload, data);
            let r2 = instruction_result(
                program_id,
                owner,
                signed,
                invalid_at,
                payload.len(),
                d1.len(),
            );
            r2 == r1 && data_after(r2, payload, d1) == d1
        }),
{
    let invalid_at = utf8_error_offset(payload);
    let r1 = instruction_result(program_id, owner, signed, invalid_at, payload.len(), data.len());
    let d1 = data_after(r1, payload, data);
    assert(d1.len() == data.len());
    if r1 is Ok {
        assert(zero_padded(payload, d1.len()) =~= d1);
    }
}

/// After a successful write of `first` and then one of a shorter `second`, no byte
/// of `first` survives past the end of `second`: the data is `second` and zeros.
pub proof fn lemma_shrink_clears(
    program_id: Seq<u8>,
    owner: Seq<u8>,
    signed: bool,
    first: Seq<u8>,
    second: Seq<u8>,
    data: Seq<u8>,
)
    requires
        second.len() < first.len(),
        instruction_result(
            program_id,
            owner,
            signed,
            utf8_error_offset(first),
            first.len(),
            data.len(),
        ) is Ok,
        instruction_result(
            program_id,
            owner,
            signed,
            utf8_error_offset(second),
            second.len(),
            data.len(),
        ) is Ok,
    ensures
        ({
            let d1 = data_after(
                instruction_result(
                    program_id,
                    owner,
                    signed,
                    utf8_error_offset(first),
                    first.len(),
                    data.len(),
                ),
                first,
                data,
            );
            let d2 = data_after(
                instruction_result(
                    program_id,
                    owner,
                    signed,
                    utf8_error_offset(second),
                    second.len(),
                    d1.len(),
                ),
                second,
                d1,
            );
            &&& d2.len() == data.len()
            &&& d2.subrange(0, second.len() as int) == second
            &&& forall|i: int| second.len() <= i < d2.len() ==> d2[i] == 0u8
        }),
{
    let d1 = data_after(
        instruction_result(program_id, owner, signed, utf8_error_offset(first), first.len(), data.len()),
        first,
        data,
    );
    assert(d1.len() == data.len());
    let d2 = zero_padded(second, d1.len());
    assert(d2.subrange(0, second.len() as int) =~= second);
}

} // verus!
