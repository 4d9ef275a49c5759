use vstd::prelude::*;
use vstd::bytes::{spec_u64_from_le_bytes, u64_from_le_bytes};
use vstd::slice::slice_subrange;
use crate::error::ErrorKind;
use crate::record::{
    increment_outcome, initialize_outcome, Identity, Record, RecordView,
};

verus! {

/// What one whole invocation must yield for the first record: the first
/// instruction byte is the opcode. Opcode 0 demands an exactly 9-byte
/// instruction and initializes the record with the little-endian value in
/// bytes 1..9; opcode 1 increments the record, ignoring any trailing bytes;
/// an empty instruction is malformed and any other opcode is unsupported.
pub open spec fn dispatch_outcome(caller: Identity, rec: RecordView, instr: Seq<u8>) -> Result<
    Seq<u8>,
    ErrorKind,
> {
    if instr.len() == 0 {
        Err(ErrorKind::MalformedInstruction)
    } else if instr[0] == 0 {
        if instr.len() != 9 {
            Err(ErrorKind::MalformedInstruction)
        } else {
            initialize_outcome(caller, rec, spec_u64_from_le_bytes(instr.subrange(1, 9)))
        }
    } else if instr[0] == 1 {
        increment_outcome(rec)
    } else {
        Err(ErrorKind::UnsupportedOperation)
    }
}

/// Apply the initialize transition to the first record in `accounts`.
///
/// `instruction_data` is the 8-byte payload (the instruction with its opcode
/// byte already stripped), read as a little-endian unsigned 64-bit value.
/// Exactly one record is consumed; any further handles are ignored and left
/// untouched. On failure nothing is mutated.
pub fn initialize_account(
    program_id: &Identity,
    accounts: &mut Vec<Record>,
    instruction_data: &[u8],
) -> (r: Result<(), ErrorKind>)
    requires
        old(accounts)@.len() >= 1,
        instruction_data@.len() == 8,
        old(accounts)@[0]@.accepts_initialize(*program_id) ==> old(accounts)@[0]@.data.len()
            >= 8,
    ensures
        final(accounts)@.len() == old(accounts)@.len(),
        forall|i: int|
            1 <= i < old(accounts)@.len() ==> final(accounts)@[i] == old(accounts)@[i],
        final(accounts)@[0].key == old(accounts)@[0].key,
        final(accounts)@[0].owner == old(accounts)@[0].owner,
        final(accounts)@[0].writable == old(accounts)@[0].writable,
        match initialize_outcome(
            *program_id,
            old(accounts)@[0]@,
            spec_u64_from_le_bytes(instruction_data@),
        ) {
            Ok(data) => r == Ok::<(), ErrorKind>(()) && final(accounts)@[0].data@ == data,
            Err(e) => r == Err::<(), ErrorKind>(e) && final(accounts)@[0].data@ == old(
                accounts,
            )@[0].data@,
        },
{
    let value = u64_from_le_bytes(instruction_data);
    let account = &mut accounts[0];
    account.initialize(program_id, value)
}

/// Apply the increment transition to the first record in `accounts`.
///
/// Exactly one record is consumed; any further handles are ignored and left
/// untouched. On failure nothing is mutated.
pub fn increment_counter(accounts: &mut Vec<Record>) -> (r: Result<(), ErrorKind>)
    requires
        old(accounts)@.len() >= 1,
    ensures
        final(accounts)@.len() == old(accounts)@.len(),
        forall|i: int|
            1 <= i < old(accounts)@.len() ==> final(accounts)@[i] == old(accounts)@[i],
        final(accounts)@[0].key == old(accounts)@[0].key,
        final(accounts)@[0].owner == old(accounts)@[0].owner,
        final(accounts)@[0].writable == old(accounts)@[0].writable,
        match increment_outcome(old(accounts)@[0]@) {
            Ok(data) => r == Ok::<(), ErrorKind>(()) && final(accounts)@[0].data@ == data,
            Err(e) => r == Err::<(), ErrorKind>(e) && final(accounts)@[0].data@ == old(
                accounts,
            )@[0].data@,
        },
{
    let account = &mut accounts[0];
    account.increment()
}

/// The sole entry point: read the opcode from the first instruction byte,
/// validate the buffer shape for that opcode, and route to the matching
/// transition on the first record.
///
/// The host supplies at least one record handle, and never a zeroed,
/// writable, correctly owned one whose buffer cannot hold the counter field
/// when initialization is requested.
pub fn process_instruction(
    program_id: &Identity,
    accounts: &mut Vec<Record>,
    instruction_data: &[u8],
) -> (r: Result<(), ErrorKind>)
    requires
        old(accounts)@.len() >= 1,
        instruction_data@.len() == 9 && instruction_data@[0] == 0 && old(
            accounts,
        )@[0]@.accepts_initialize(*program_id) ==> old(accounts)@[0]@.data.len() >= 8,
    ensures
        final(accounts)@.len() == old(accounts)@.len(),
        forall|i: int|
            1 <= i < old(accounts)@.len() ==> final(accounts)@[i] == old(accounts)@[i],
        final(accounts)@[0].key == old(accounts)@[0].key,
        final(accounts)@[0].owner == old(accounts)@[0].owner,
        final(accounts)@[0].writable == old(accounts)@[0].writable,
        match dispatch_outcome(*program_id, old(accounts)@[0]@, instruction_data@) {
            Ok(data) => r == Ok::<(), ErrorKind>(()) && final(accounts)@[0].data@ == data,
            Err(e) => r == Err::<(), ErrorKind>(e) && final(accounts)@[0].data@ == old(
                accounts,
            )@[0].data@,
        },
{
    if instruction_data.len() == 0 {
        return Err(ErrorKind::MalformedInstruction);
    }
    let opcode = instruction_data[0];
    match opcode {
        0 => {
            if instruction_data.len() != 9 {
                return Err(ErrorKind::MalformedInstruction);
            }
            let payload = slice_subrange(instruction_data, 1, 9);
            initialize_account(program_id, accounts, payload)
        },
        1 => increment_counter(accounts),
        _ => Err(ErrorKind::UnsupportedOperation),
    }
}

} // verus!
