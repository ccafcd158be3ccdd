use vstd::prelude::*;

use crate::identity::Identity;

verus! {

/// A persistent account record: the program that administers it and a data
/// region whose length (the capacity) never changes.
#[derive(Debug)]
pub struct Record {
    pub owner: Identity,
    pub data: Vec<u8>,
}

/// A caller's proof of authorisation: the identity that signed the call, if
/// the attestation is valid.
#[derive(Clone, Copy, Debug)]
pub struct SignerAttestation {
    pub asserted_identity: Option<Identity>,
}

/// `payload` followed by zero bytes up to `capacity`.
pub open spec fn zero_padded(payload: Seq<u8>, capacity: nat) -> Seq<u8> {
    payload + Seq::new((capacity - payload.len()) as nat, |i: int| 0u8)
}

/// `data` with the bytes from `offset` on replaced by `bytes`.
pub open spec fn overwritten(data: Seq<u8>, bytes: Seq<u8>, offset: int) -> Seq<u8> {
    data.subrange(0, offset) + bytes + data.subrange(offset + bytes.len(), data.len() as int)
}

/// Copies `instruction_data` into the record's data at `offset`; nothing else
/// of the record changes.
pub fn write_data(record: &mut Record, instruction_data: &[u8], offset: usize)
    requires
        offset + instruction_data@.len() <= old(record).data@.len(),
    ensures
        final(record).owner == old(record).owner,
        final(record).data@ == overwritten(old(record).data@, instruction_data@, offset as int),
{
    let n = instruction_data.len();
    let capacity = record.data.len();
    let mut i: usize = 0;
    while i < n
        invariant
            n == instruction_data@.len(),
            capacity == old(record).data@.len(),
            offset + n <= capacity,
            0 <= i <= n,
            record.owner == old(record).owner,
            record.data@.len() == old(record).data@.len(),
            forall|j: int|
                0 <= j < record.data@.len() ==> #[trigger] record.data@[j] == if offset <= j
                    < offset + i {
                    instruction_data@[j - offset]
                } else {
                    old(record).data@[j]
                },
        decreases n - i,
    {
        record.data.set(offset + i, instruction_data[i]);
        i = i + 1;
    }
    assert(record.data@ =~= overwritten(old(record).data@, instruction_data@, offset as int));
}

/// Sets every byte of the record's data from `offset` to the end to zero.
fn clear_from(record: &mut Record, offset: usize)
    requires
        offset <= old(record).data@.len(),
    ensures
        final(record).owner == old(record).owner,
        final(record).data@ == zero_padded(
            old(record).data@.subrange(0, offset as int),
            old(record).data@.len(),
        ),
{
    let n = record.data.len();
    let mut i: usize = offset;
    while i < n
        invariant
            n == old(record).data@.len(),
            offset <= i <= n,
            record.owner == old(record).owner,
            record.data@.len() == n,
            forall|j: int|
                0 <= j < n ==> #[trigger] record.data@[j] == if offset <= j < i {
                    0u8
                } else {
                    old(record).data@[j]
                },
        decreases n - i,
    {
        record.data.set(i, 0u8);
        i = i + 1;
    }
    assert(record.data@ =~= zero_padded(
        old(record).data@.subrange(0, offset as int),
        old(record).data@.len(),
    ));
}

/// Replaces the record's whole data region with `payload` followed by zero
/// padding up to the capacity.
pub fn write_padded(record: &mut Record, payload: &[u8])
    requires
        payload@.len() <= old(record).data@.len(),
    ensures
        final(record).owner == old(record).owner,
        final(record).data@ == zero_padded(payload@, old(record).data@.len()),
{
    write_data(record, payload, 0);
    assert(record.data@.subrange(0, payload@.len() as int) =~= payload@);
    clear_from(record, payload.len());
}

} // verus!
