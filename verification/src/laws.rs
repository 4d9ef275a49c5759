use vstd::prelude::*;
use vstd::bytes::{
    lemma_auto_spec_u64_to_from_le_bytes, spec_u64_to_le_bytes, spec_u64_to_le_bytes_to_open,
};
use crate::error::ErrorKind;
use crate::record::{
    counter_of, increment_outcome, initialize_outcome, store_counter, wrapping_increment, zeroed,
    Identity, RecordView,
};
use crate::dispatch::dispatch_outcome;

verus! {

/// Storing a counter value is a faithful round trip: the stored buffer keeps
/// its length, reads back as exactly the stored value, holds the value's
/// little-endian encoding in its first eight bytes, and keeps every byte
/// beyond offset 8.
pub proof fn lemma_store_counter_round_trip(bytes: Seq<u8>, value: u64)
    requires
        bytes.len() >= 8,
    ensures
        store_counter(bytes, value).len() == bytes.len(),
        counter_of(store_counter(bytes, value)) == value,
        store_counter(bytes, value).subrange(0, 8) == spec_u64_to_le_bytes(value),
        store_counter(bytes, value).skip(8) == bytes.skip(8),
{
    lemma_auto_spec_u64_to_from_le_bytes();
    let stored = store_counter(bytes, value);
    assert(stored.subrange(0, 8) =~= spec_u64_to_le_bytes(value));
    assert(stored.skip(8) =~= bytes.skip(8));
}

/// The little-endian encoding of zero is eight zero bytes, so a buffer whose
/// counter field reads as a nonzero value cannot be all-zero.
pub proof fn lemma_nonzero_counter_not_zeroed(bytes: Seq<u8>)
    requires
        bytes.len() >= 8,
        counter_of(bytes) != 0,
    ensures
        !zeroed(bytes),
{
    if zeroed(bytes) {
        lemma_auto_spec_u64_to_from_le_bytes();
        spec_u64_to_le_bytes_to_open(0);
        assert(0u64 & 0xff == 0 && (0u64 >> 8) & 0xff == 0 && (0u64 >> 16) & 0xff == 0 && (0u64
            >> 24) & 0xff == 0 && (0u64 >> 32) & 0xff == 0 && (0u64 >> 40) & 0xff == 0 && (0u64
            >> 48) & 0xff == 0 && (0u64 >> 56) & 0xff == 0) by (bit_vector);
        assert(bytes.subrange(0, 8) =~= spec_u64_to_le_bytes(0));
        assert(counter_of(bytes) == 0);
    }
}

/// Initializing a zeroed record of length at least 8 with any 64-bit value
/// succeeds, leaves the value's little-endian encoding in bytes 0..8, and
/// keeps every byte beyond offset 8. The record must be owned by the caller
/// and writable: those checks precede the initialization-state check.
pub proof fn lemma_initialize_zeroed_record(caller: Identity, rec: RecordView, value: u64)
    requires
        rec.owner == caller,
        rec.writable,
        zeroed(rec.data),
        rec.data.len() >= 8,
    ensures
        ({
            let outcome = initialize_outcome(caller, rec, value);
            &&& outcome is Ok
            &&& outcome->Ok_0.len() == rec.data.len()
            &&& outcome->Ok_0.subrange(0, 8) == spec_u64_to_le_bytes(value)
            &&& counter_of(outcome->Ok_0) == value
            &&& outcome->Ok_0.skip(8) == rec.data.skip(8)
        }),
{
    lemma_store_counter_round_trip(rec.data, value);
}

/// Initializing a record whose buffer holds any nonzero byte fails with
/// `AlreadyInitialized`, whatever value was offered. The ownership and
/// writability checks come first, so they are assumed to pass here; by the
/// handler's contract every failing transition leaves the buffer unchanged.
pub proof fn lemma_initialize_populated_record_fails(
    caller: Identity,
    rec: RecordView,
    value: u64,
)
    requires
        rec.owner == caller,
        rec.writable,
        !zeroed(rec.data),
    ensures
        initialize_outcome(caller, rec, value) == Err::<Seq<u8>, ErrorKind>(
            ErrorKind::AlreadyInitialized,
        ),
{
}

/// Initializing a record whose owning authority differs from the caller
/// identity fails with `AccessDenied`, regardless of the buffer's contents,
/// its length, the record's writability, or the value offered.
pub proof fn lemma_initialize_foreign_record_fails(caller: Identity, rec: RecordView, value: u64)
    requires
        rec.owner != caller,
    ensures
        initialize_outcome(caller, rec, value) == Err::<Seq<u8>, ErrorKind>(
            ErrorKind::AccessDenied,
        ),
{
}

/// Incrementing a writable record with a full counter field always succeeds:
/// a counter below the maximum advances by exactly one, and a counter at the
/// maximum wraps to zero with no error. Bytes beyond offset 8 are kept.
pub proof fn lemma_increment_advances_counter(rec: RecordView)
    requires
        rec.writable,
        rec.data.len() >= 8,
    ensures
        ({
            let outcome = increment_outcome(rec);
            &&& outcome is Ok
            &&& outcome->Ok_0.len() == rec.data.len()
            &&& counter_of(rec.data) < u64::MAX ==> counter_of(outcome->Ok_0) == counter_of(
                rec.data,
            ) + 1
            &&& counter_of(rec.data) == u64::MAX ==> counter_of(outcome->Ok_0) == 0
            &&& outcome->Ok_0.skip(8) == rec.data.skip(8)
        }),
{
    lemma_store_counter_round_trip(rec.data, wrapping_increment(counter_of(rec.data)));
}

/// Incrementing a writable record whose buffer is shorter than the 8-byte
/// counter field fails with `BufferTooSmall`; by the handler's contract every
/// failing transition leaves the buffer unchanged.
pub proof fn lemma_increment_short_buffer_fails(rec: RecordView)
    requires
        rec.writable,
        rec.data.len() < 8,
    ensures
        increment_outcome(rec) == Err::<Seq<u8>, ErrorKind>(ErrorKind::BufferTooSmall),
{
}

/// Two increments in sequence advance the counter by exactly two, modulo
/// 2^64: the transition is a pure state advance, never idempotent.
pub proof fn lemma_increment_twice_advances_by_two(rec: RecordView)
    requires
        rec.writable,
        rec.data.len() >= 8,
    ensures
        ({
            let first = increment_outcome(rec)->Ok_0;
            let second = increment_outcome(rec.with_data(first));
            &&& increment_outcome(rec) is Ok
            &&& second is Ok
            &&& counter_of(second->Ok_0) == (counter_of(rec.data) + 2) % 0x1_0000_0000_0000_0000
        }),
{
    lemma_increment_advances_counter(rec);
    let first = increment_outcome(rec)->Ok_0;
    lemma_increment_advances_counter(rec.with_data(first));
}

/// A successful initialization with a nonzero value takes the record out of
/// the uninitialized state for good: initializing the resulting record again
/// fails with `AlreadyInitialized`, whatever value the second attempt offers.
/// (A value of exactly zero re-creates the all-zero buffer, the sole
/// initialization marker, so the transition is one-way only for nonzero
/// values.)
pub proof fn lemma_initialize_is_one_way(
    caller: Identity,
    rec: RecordView,
    value: u64,
    second_value: u64,
)
    requires
        value != 0,
        initialize_outcome(caller, rec, value) is Ok,
        rec.data.len() >= 8,
    ensures
        initialize_outcome(
            caller,
            rec.with_data(initialize_outcome(caller, rec, value)->Ok_0),
            second_value,
        ) == Err::<Seq<u8>, ErrorKind>(ErrorKind::AlreadyInitialized),
{
    lemma_store_counter_round_trip(rec.data, value);
    let stored = initialize_outcome(caller, rec, value)->Ok_0;
    lemma_nonzero_counter_not_zeroed(stored);
}

/// Dispatching an empty instruction buffer fails with `MalformedInstruction`,
/// whatever the caller and record are.
pub proof fn lemma_dispatch_empty_instruction_fails(caller: Identity, rec: RecordView)
    ensures
        dispatch_outcome(caller, rec, Seq::empty()) == Err::<Seq<u8>, ErrorKind>(
            ErrorKind::MalformedInstruction,
        ),
{
}

/// Dispatching an instruction whose opcode byte is neither 0 nor 1 fails with
/// `UnsupportedOperation`, whatever the caller and record are and whatever
/// bytes follow the opcode.
pub proof fn lemma_dispatch_unknown_opcode_fails(caller: Identity, rec: RecordView, instr: Seq<u8>)
    requires
        instr.len() > 0,
        instr[0] != 0,
        instr[0] != 1,
    ensures
        dispatch_outcome(caller, rec, instr) == Err::<Seq<u8>, ErrorKind>(
            ErrorKind::UnsupportedOperation,
        ),
{
}

} // verus!
