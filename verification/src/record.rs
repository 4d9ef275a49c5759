use vstd::prelude::*;
use vstd::bytes::{spec_u64_from_le_bytes, spec_u64_to_le_bytes, u64_from_le_bytes, u64_to_le_bytes};
use vstd::slice::slice_subrange;
use crate::error::ErrorKind;

verus! {

/// A host identity value: the identifier an invocation runs under and the
/// identifier a record is owned by. Identities are opaque 256-bit values that
/// the rules only ever compare for equality, held here as two 128-bit words.
#[derive(Clone, Copy, Debug, PartialEq, Eq, Structural)]
pub struct Identity {
    pub hi: u128,
    pub lo: u128,
}

/// A storage record as the host lends it to one invocation: a mutable byte
/// buffer tagged with the identifier it is addressed by, its owning
/// authority, and a writable flag.
///
/// Only the first 8 bytes of the buffer are meaningful to this library: a
/// little-endian unsigned 64-bit counter. Bytes beyond offset 8 are opaque
/// and never modified. A record is uninitialized exactly when every byte of
/// its buffer is zero; there is no separate tag field.
#[derive(Debug)]
pub struct Record {
    /// The unique identifier the host addresses this record by.
    pub key: Identity,
    /// The authority permitted to initialize this record.
    pub owner: Identity,
    /// Whether the host allows this invocation to mutate the buffer.
    pub writable: bool,
    /// The record's byte buffer, of host-determined length.
    pub data: Vec<u8>,
}

/// The mathematical image of a [`Record`]: the same fields with the buffer
/// abstracted to a byte sequence.
#[verifier::ext_equal]
pub ghost struct RecordView {
    pub key: Identity,
    pub owner: Identity,
    pub writable: bool,
    pub data: Seq<u8>,
}

impl View for Record {
    type V = RecordView;

    open spec fn view(&self) -> RecordView {
        RecordView {
            key: self.key,
            owner: self.owner,
            writable: self.writable,
            data: self.data@,
        }
    }
}

/// Whether every byte of `bytes` is zero: the sole marker of an
/// uninitialized record.
pub open spec fn zeroed(bytes: Seq<u8>) -> bool {
    forall|i: int| 0 <= i < bytes.len() ==> bytes[i] == 0
}

/// The counter a buffer holds: its first eight bytes read as a little-endian
/// unsigned 64-bit integer.
pub open spec fn counter_of(bytes: Seq<u8>) -> u64
    recommends
        bytes.len() >= 8,
{
    spec_u64_from_le_bytes(bytes.subrange(0, 8))
}

/// The buffer after its counter field is overwritten with `value`'s
/// little-endian encoding; every byte beyond offset 8 is kept.
pub open spec fn store_counter(bytes: Seq<u8>, value: u64) -> Seq<u8>
    recommends
        bytes.len() >= 8,
{
    spec_u64_to_le_bytes(value) + bytes.skip(8)
}

/// Unsigned addition of one that silently wraps back to zero at the
/// representable maximum.
pub open spec fn wrapping_increment(counter: u64) -> u64 {
    if counter == u64::MAX {
        0
    } else {
        (counter + 1) as u64
    }
}

impl RecordView {
    /// The validation the initialize transition performs, all checks passed:
    /// the record is owned by the caller, writable, and still uninitialized.
    pub open spec fn accepts_initialize(self, caller: Identity) -> bool {
        &&& self.owner == caller
        &&& self.writable
        &&& zeroed(self.data)
    }

    /// The counter this record holds.
    pub open spec fn counter(self) -> u64
        recommends
            self.data.len() >= 8,
    {
        counter_of(self.data)
    }

    /// This record with its buffer replaced.
    pub open spec fn with_data(self, data: Seq<u8>) -> RecordView {
        RecordView { key: self.key, owner: self.owner, writable: self.writable, data }
    }
}

/// What initializing a record must yield: the validation sequence in order
/// (ownership, writability, prior-initialization state), then the buffer with
/// `value` stored in its counter field.
pub open spec fn initialize_outcome(caller: Identity, rec: RecordView, value: u64) -> Result<
    Seq<u8>,
    ErrorKind,
> {
    if rec.owner != caller {
        Err(ErrorKind::AccessDenied)
    } else if !rec.writable {
        Err(ErrorKind::PermissionDenied)
    } else if !zeroed(rec.data) {
        Err(ErrorKind::AlreadyInitialized)
    } else {
        Ok(store_counter(rec.data, value))
    }
}

/// What incrementing a record must yield: the validation sequence in order
/// (writability, buffer length), then the buffer with the counter advanced by
/// one, wrapping at the maximum. No ownership check is performed for this
/// transition.
pub open spec fn increment_outcome(rec: RecordView) -> Result<Seq<u8>, ErrorKind> {
    if !rec.writable {
        Err(ErrorKind::PermissionDenied)
    } else if rec.data.len() < 8 {
        Err(ErrorKind::BufferTooSmall)
    } else {
        Ok(store_counter(rec.data, wrapping_increment(rec.counter())))
    }
}

/// Whether every byte of the buffer is zero.
fn is_all_zero(bytes: &Vec<u8>) -> (r: bool)
    ensures
        r == zeroed(bytes@),
{
    let mut i: usize = 0;
    while i < bytes.len()
        invariant
            i <= bytes@.len(),
            forall|k: int| 0 <= k < i ==> bytes@[k] == 0,
        decreases bytes@.len() - i,
    {
        if bytes[i] != 0 {
            assert(!zeroed(bytes@)) by {
                assert(bytes@[i as int] != 0);
            }
            return false;
        }
        i += 1;
    }
    true
}

/// Read the counter field from the first eight bytes of the buffer.
fn read_counter(bytes: &Vec<u8>) -> (counter: u64)
    requires
        bytes@.len() >= 8,
    ensures
        counter == counter_of(bytes@),
{
    u64_from_le_bytes(slice_subrange(bytes.as_slice(), 0, 8))
}

/// Overwrite the first eight bytes of the buffer with `value`'s little-endian
/// encoding, as one whole-field write; bytes beyond offset 8 are untouched.
fn write_counter(bytes: &mut Vec<u8>, value: u64)
    requires
        old(bytes)@.len() >= 8,
    ensures
        final(bytes)@ == store_counter(old(bytes)@, value),
{
    let encoded = u64_to_le_bytes(value);
    let mut i: usize = 0;
    while i < 8
        invariant
            i <= 8,
            bytes@.len() == old(bytes)@.len(),
            old(bytes)@.len() >= 8,
            encoded@ == spec_u64_to_le_bytes(value),
            encoded@.len() == 8,
            forall|k: int| 0 <= k < i ==> bytes@[k] == encoded@[k],
            forall|k: int| i <= k < bytes@.len() ==> bytes@[k] == old(bytes)@[k],
        decreases 8 - i,
    {
        let b = encoded[i];
        bytes[i] = b;
        i += 1;
    }
    assert(bytes@ =~= store_counter(old(bytes)@, value));
}

impl Record {
    /// Initialize this record's counter field to `value`.
    ///
    /// The record must be owned by `caller`, writable, and uninitialized
    /// (every buffer byte zero); the checks are made in that order and the
    /// first failure is returned. On success the 8-byte little-endian
    /// encoding of `value` is written to buffer offsets 0..8 as a single
    /// block; any bytes beyond offset 8 are left as they were. On failure the
    /// buffer is untouched.
    ///
    /// A record that passes every validation must be able to hold the whole
    /// counter field: the host never supplies a zeroed, writable, correctly
    /// owned record shorter than 8 bytes.
    pub fn initialize(&mut self, caller: &Identity, value: u64) -> (r: Result<(), ErrorKind>)
        requires
            old(self)@.accepts_initialize(*caller) ==> old(self)@.data.len() >= 8,
        ensures
            final(self).key == old(self).key,
            final(self).owner == old(self).owner,
            final(self).writable == old(self).writable,
            match initialize_outcome(*caller, old(self)@, value) {
                Ok(data) => r == Ok::<(), ErrorKind>(()) && final(self).data@ == data,
                Err(e) => r == Err::<(), ErrorKind>(e) && final(self).data@ == old(self).data@,
            },
    {
        if self.owner != *caller {
            return Err(ErrorKind::AccessDenied);
        }
        if !self.writable {
            return Err(ErrorKind::PermissionDenied);
        }
        if !is_all_zero(&self.data) {
            return Err(ErrorKind::AlreadyInitialized);
        }
        write_counter(&mut self.data, value);
        Ok(())
    }

    /// Advance this record's counter by one, wrapping to zero at the
    /// representable maximum (never an error).
    ///
    /// The record must be writable and its buffer at least 8 bytes long; the
    /// checks are made in that order and the first failure is returned. On
    /// success the new counter's 8-byte little-endian encoding replaces
    /// buffer offsets 0..8 as a single block; any bytes beyond offset 8 are
    /// left as they were. On failure the buffer is untouched. No ownership
    /// check is performed for this transition.
    pub fn increment(&mut self) -> (r: Result<(), ErrorKind>)
        ensures
            final(self).key == old(self).key,
            final(self).owner == old(self).owner,
            final(self).writable == old(self).writable,
            match increment_outcome(old(self)@) {
                Ok(data) => r == Ok::<(), ErrorKind>(()) && final(self).data@ == data,
                Err(e) => r == Err::<(), ErrorKind>(e) && final(self).data@ == old(self).data@,
            },
    {
        if !self.writable {
            return Err(ErrorKind::PermissionDenied);
        }
        if self.data.len() < 8 {
            return Err(ErrorKind::BufferTooSmall);
        }
        let counter = read_counter(&self.data);
        let advanced = counter.wrapping_add(1);
        write_counter(&mut self.data, advanced);
        Ok(())
    }
}

} // verus!
