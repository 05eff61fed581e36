use std::collections::TryReserveError;
use vstd::prelude::*;

verus! {

/// The byte written to every position of a block.
pub const SENTINEL: u8 = 0xFF;

/// What a block of `size` bytes holds: the sentinel at every index.
pub open spec fn block_of(size: nat) -> Seq<u8> {
    Seq::new(size, |i: int| SENTINEL)
}

/// Bytes in one kilobyte.
pub const BYTES_IN_KILOBYTE: u64 = 1024;

/// Bytes in one megabyte.
pub const BYTES_IN_MEGABYTE: u64 = BYTES_IN_KILOBYTE * 1024;

/// Bytes in one gigabyte.
pub const BYTES_IN_GIGABYTE: u64 = BYTES_IN_MEGABYTE * 1024;

/// Bytes in one terabyte.
pub const BYTES_IN_TERABYTE: u64 = BYTES_IN_GIGABYTE * 1024;

/// The number of bytes in `count` units of `bytes_per_unit` bytes each, as a
/// mathematical integer.
pub open spec fn byte_count(count: usize, bytes_per_unit: u64) -> nat {
    (count * bytes_per_unit) as nat
}

/// A block of memory that does nothing but take up room.
///
/// Every byte of the block is set to [`SENTINEL`] when the block is made, so
/// the memory is committed and not merely set aside. The block never changes
/// afterwards and is given back when its owner lets go of it.
pub struct Memory {
    bytes: Vec<u8>,
}

/// Why a block could not be made.
#[derive(Debug)]
pub enum MemoryError {
    /// The system refused to hand out the memory; the refusal is carried along.
    CannotAllocate(TryReserveError),
    /// The requested quantity, counted in bytes, does not fit in a `usize`.
    ByteOverflow,
}

impl MemoryError {
    /// The text that describes the error to a reader.
    pub open spec fn description(&self) -> Seq<char> {
        match self {
            MemoryError::CannotAllocate(_) => "System denied memory allocation request"@,
            MemoryError::ByteOverflow => {
                "The requested byte quantity is too large to fit in a usize"@
            },
        }
    }

    /// Describes the error in a sentence.
    pub fn message(&self) -> (text: String)
        ensures
            text@ == self.description(),
    {
        match self {
            MemoryError::CannotAllocate(_) => {
                "System denied memory allocation request".to_owned()
            },
            MemoryError::ByteOverflow => {
                "The requested byte quantity is too large to fit in a usize".to_owned()
            },
        }
    }
}

impl vstd::std_specs::convert::FromSpecImpl<TryReserveError> for MemoryError {
    open spec fn obeys_from_spec() -> bool {
        true
    }

    open spec fn from_spec(denial: TryReserveError) -> Self {
        MemoryError::CannotAllocate(denial)
    }
}

impl From<TryReserveError> for MemoryError {
    /// An allocator's denial, as the error of a block that could not be made.
    fn from(denial: TryReserveError) -> (e: Self) {
        MemoryError::CannotAllocate(denial)
    }
}

impl View for Memory {
    type V = Seq<u8>;

    closed spec fn view(&self) -> Seq<u8> {
        self.bytes@
    }
}

/// What the construction of a block of `size` bytes may return, whatever the
/// allocator answers: a block of exactly `size` sentinel bytes, or the
/// allocator's denial. A block of no bytes is never denied.
pub open spec fn constructs(size: nat, r: Result<Memory, MemoryError>) -> bool {
    &&& r matches Ok(block) ==> block@ == block_of(size)
    &&& r matches Err(e) ==> e is CannotAllocate
    &&& size == 0 ==> r is Ok
}

/// Asks the allocator for room for `room` more bytes and no more than that,
/// in the way that reports a denial instead of ending the process.
///
/// This is `Vec::try_reserve_exact`, taken on trust. Of it the contract says
/// that the contents of the vector stay as they were whether or not the room
/// was granted, and that a request for no room at all is always granted: the
/// capacity of a vector is never below its length, and the method does
/// nothing where the capacity already suffices. Any other request may be
/// denied.
#[verifier::external_body]
fn try_reserve_exact(buffer: &mut Vec<u8>, room: usize) -> (granted: Result<(), TryReserveError>)
    ensures
        final(buffer)@ == old(buffer)@,
        room == 0 ==> granted is Ok,
{
    buffer.try_reserve_exact(room)
}

/// Sets aside room for `size` bytes and reports whether the system granted it.
///
/// A granted buffer comes back empty. The room behind it is no part of a
/// vector's view, so the contract speaks of the contents only; whether a
/// request for more than no bytes is granted is the allocator's to decide.
fn reserve(size: usize) -> (reservation: Result<Vec<u8>, TryReserveError>)
    ensures
        reservation matches Ok(buffer) ==> buffer@ == Seq::<u8>::empty(),
        size == 0 ==> reservation is Ok,
{
    let mut buffer: Vec<u8> = Vec::new();
    match try_reserve_exact(&mut buffer, size) {
        Ok(()) => Ok(buffer),
        Err(denial) => Err(denial),
    }
}

/// Converts `count` units of `bytes_per_unit` bytes each into bytes.
///
/// The product is checked: where it does not fit in a `usize` the conversion
/// fails, and nothing has been asked of the allocator by then. The multiplier
/// is a `u64` so that every unit has one on targets whose `usize` is
/// narrower than a terabyte.
pub fn units_to_bytes(count: usize, bytes_per_unit: u64) -> (r: Result<usize, MemoryError>)
    ensures
        byte_count(count, bytes_per_unit) <= usize::MAX ==> r == Ok::<usize, MemoryError>(
            byte_count(count, bytes_per_unit) as usize,
        ),
        byte_count(count, bytes_per_unit) > usize::MAX ==> r == Err::<usize, MemoryError>(
            MemoryError::ByteOverflow,
        ),
{
    match (count as u64).checked_mul(bytes_per_unit) {
        Some(bytes) => {
            if bytes <= usize::MAX as u64 {
                Ok(bytes as usize)
            } else {
                Err(MemoryError::ByteOverflow)
            }
        },
        None => Err(MemoryError::ByteOverflow),
    }
}

impl Memory {
    #[verifier::type_invariant]
    spec fn filled(&self) -> bool {
        self.bytes@ == block_of(self.bytes@.len())
    }

    /// Turns the outcome of a reservation into a block of `size` bytes or
    /// into the error that reports the denial.
    ///
    /// A granted buffer is filled with the sentinel over its whole length,
    /// whatever it held before.
    pub fn from_reservation(reservation: Result<Vec<u8>, TryReserveError>, size: usize) -> (r:
        Result<Self, MemoryError>)
        ensures
            match reservation {
                Ok(_) => r matches Ok(block) && block@ == block_of(size as nat),
                Err(denial) => r == Err::<Memory, MemoryError>(
                    MemoryError::CannotAllocate(denial),
                ),
            },
    {
        match reservation {
            Ok(mut bytes) => {
                bytes.clear();
                bytes.resize(size, SENTINEL);
                assert(bytes@ =~= block_of(size as nat));
                Ok(Memory { bytes })
            },
            Err(denial) => Err(MemoryError::from(denial)),
        }
    }

    /// Creates a block of `size` bytes.
    pub fn new(size: usize) -> (r: Result<Self, MemoryError>)
        ensures
            constructs(size as nat, r),
    {
        Self::from_reservation(reserve(size), size)
    }

    /// Creates a block of `bytes` bytes. The same as [`Memory::new`], under a
    /// name that says the unit.
    pub fn from_bytes(bytes: usize) -> (r: Result<Self, MemoryError>)
        ensures
            constructs(bytes as nat, r),
    {
        Self::new(bytes)
    }

    /// Creates a block of `count` units of `bytes_per_unit` bytes each: the
    /// conversion first, the allocation only once it has succeeded.
    fn from_units(count: usize, bytes_per_unit: u64) -> (r: Result<Self, MemoryError>)
        ensures
            byte_count(count, bytes_per_unit) > usize::MAX ==> r == Err::<Memory, MemoryError>(
                MemoryError::ByteOverflow,
            ),
            byte_count(count, bytes_per_unit) <= usize::MAX ==> constructs(
                byte_count(count, bytes_per_unit),
                r,
            ),
    {
        match units_to_bytes(count, bytes_per_unit) {
            Ok(bytes) => Self::new(bytes),
            Err(overflow) => Err(overflow),
        }
    }

    /// Creates a block of `kilobytes` kilobytes, or fails with
    /// [`MemoryError::ByteOverflow`] where that many bytes do not fit in a
    /// `usize`.
    pub fn from_kilobytes(kilobytes: usize) -> (r: Result<Self, MemoryError>)
        ensures
            kilobytes * 1024 > usize::MAX ==> r == Err::<Memory, MemoryError>(
                MemoryError::ByteOverflow,
            ),
            kilobytes * 1024 <= usize::MAX ==> constructs((kilobytes * 1024) as nat, r),
    {
        Self::from_units(kilobytes, BYTES_IN_KILOBYTE)
    }

    /// Creates a block of `megabytes` megabytes, or fails with
    /// [`MemoryError::ByteOverflow`] where that many bytes do not fit in a
    /// `usize`.
    pub fn from_megabytes(megabytes: usize) -> (r: Result<Self, MemoryError>)
        ensures
            megabytes * 1_048_576 > usize::MAX ==> r == Err::<Memory, MemoryError>(
                MemoryError::ByteOverflow,
            ),
            megabytes * 1_048_576 <= usize::MAX ==> constructs((megabytes * 1_048_576) as nat, r),
    {
        Self::from_units(megabytes, BYTES_IN_MEGABYTE)
    }

    /// Creates a block of `gigabytes` gigabytes, or fails with
    /// [`MemoryError::ByteOverflow`] where that many bytes do not fit in a
    /// `usize`.
    pub fn from_gigabytes(gigabytes: usize) -> (r: Result<Self, MemoryError>)
        ensures
            gigabytes * 1_073_741_824 > usize::MAX ==> r == Err::<Memory, MemoryError>(
                MemoryError::ByteOverflow,
            ),
            gigabytes * 1_073_741_824 <= usize::MAX ==> constructs(
                (gigabytes * 1_073_741_824) as nat,
                r,
            ),
    {
        Self::from_units(gigabytes, BYTES_IN_GIGABYTE)
    }

    /// Creates a block of `terabytes` terabytes, or fails with
    /// [`MemoryError::ByteOverflow`] where that many bytes do not fit in a
    /// `usize`.
    pub fn from_terabytes(terabytes: usize) -> (r: Result<Self, MemoryError>)
        ensures
            terabytes * 1_099_511_627_776 > usize::MAX ==> r == Err::<Memory, MemoryError>(
                MemoryError::ByteOverflow,
            ),
            terabytes * 1_099_511_627_776 <= usize::MAX ==> constructs(
                (terabytes * 1_099_511_627_776) as nat,
                r,
            ),
    {
        Self::from_units(terabytes, BYTES_IN_TERABYTE)
    }

    /// The number of bytes in the block.
    pub fn size(&self) -> (n: usize)
        ensures
            n == self@.len(),
            self@ == block_of(n as nat),
    {
        proof {
            use_type_invariant(self);
        }
        self.bytes.len()
    }

    /// The bytes of the block, to look at: each of them is the sentinel.
    pub fn as_bytes(&self) -> (bytes: &[u8])
        ensures
            bytes@ == self@,
            self@ == block_of(self@.len()),
    {
        proof {
            use_type_invariant(self);
        }
        self.bytes.as_slice()
    }
}

/// A block that was made for `size` bytes has `size` bytes, and each of them
/// is the sentinel.
pub proof fn lemma_block_is_filled(size: nat, r: Result<Memory, MemoryError>)
    requires
        constructs(size, r),
        r is Ok,
    ensures
        r->Ok_0@.len() == size,
        forall|i: int| 0 <= i < size ==> r->Ok_0@[i] == SENTINEL,
{
}

/// Making a block is repeatable: two blocks made for the same size hold the
/// same bytes, byte for byte.
pub proof fn lemma_same_size_same_block(
    size: nat,
    first: Result<Memory, MemoryError>,
    second: Result<Memory, MemoryError>,
)
    requires
        constructs(size, first),
        constructs(size, second),
        first is Ok,
        second is Ok,
    ensures
        first->Ok_0@ == second->Ok_0@,
{
}

} // verus!
