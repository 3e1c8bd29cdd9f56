use vstd::prelude::*;

verus! {

/// Size of every block, in bytes.
pub const BLOCK_SIZE: usize = 512;

/// Why a block operation failed.
#[derive(Debug, Clone, Copy, PartialEq, Eq, Structural)]
pub enum BlockError {
    /// The requested block is past the end of the device.
    OutOfBounds,
    /// The device is not ready.
    NotReady,
    /// A general I/O error occurred.
    IoError,
}

impl BlockError {
    /// A short human-readable description.
    pub fn message(&self) -> (r: &'static str)
        ensures
            *self == BlockError::OutOfBounds ==> r@ == "Block out of bounds"@,
            *self == BlockError::NotReady ==> r@ == "Device not ready"@,
            *self == BlockError::IoError ==> r@ == "I/O error"@,
    {
        match self {
            BlockError::OutOfBounds => "Block out of bounds",
            BlockError::NotReady => "Device not ready",
            BlockError::IoError => "I/O error",
        }
    }
}

/// A device of fixed-size blocks addressed by number.
pub trait BlockDevice {
    /// Number of addressable blocks.
    spec fn spec_block_count(&self) -> nat;

    /// Whether the device is ready: on a ready device every operation on a
    /// block in range succeeds.
    spec fn spec_ready(&self) -> bool;

    /// Contents of block `id` (`BLOCK_SIZE` bytes for every block in range).
    spec fn spec_block(&self, id: int) -> Seq<u8>;

    /// Reads block `block_id` into `buffer`. A block past the end fails with
    /// `OutOfBounds`; on success `buffer` holds the block; on failure it is
    /// left as it was.
    fn read_block(&self, block_id: u64, buffer: &mut [u8; BLOCK_SIZE]) -> (r: Result<(), BlockError>)
        ensures
            block_id >= self.spec_block_count() ==> r == Err::<(), BlockError>(BlockError::OutOfBounds),
            block_id < self.spec_block_count() ==> r != Err::<(), BlockError>(BlockError::OutOfBounds),
            block_id < self.spec_block_count() && self.spec_ready() ==> r is Ok,
            r is Ok ==> final(buffer)@ == self.spec_block(block_id as int),
            r is Err ==> final(buffer)@ == old(buffer)@,
    ;

    /// Writes `buffer` to block `block_id`. A block past the end fails with
    /// `OutOfBounds`; on success only that block changes; on failure nothing
    /// does.
    fn write_block(&mut self, block_id: u64, buffer: &[u8; BLOCK_SIZE]) -> (r: Result<(), BlockError>)
        ensures
            final(self).spec_block_count() == old(self).spec_block_count(),
            final(self).spec_ready() == old(self).spec_ready(),
            block_id >= old(self).spec_block_count() ==> r == Err::<(), BlockError>(BlockError::OutOfBounds),
            block_id < old(self).spec_block_count() ==> r != Err::<(), BlockError>(BlockError::OutOfBounds),
            block_id < old(self).spec_block_count() && old(self).spec_ready() ==> r is Ok,
            r is Ok ==> final(self).spec_block(block_id as int) == buffer@,
            r is Ok ==> forall|i: int|
                i != block_id ==> #[trigger] final(self).spec_block(i) == old(self).spec_block(i),
            r is Err ==> forall|i: int| #[trigger] final(self).spec_block(i) == old(self).spec_block(i),
    ;

    /// Number of addressable blocks.
    fn block_count(&self) -> (r: u64)
        ensures
            r == self.spec_block_count(),
    ;

    /// Size of each block in bytes.
    fn block_size(&self) -> (r: usize)
        ensures
            r == BLOCK_SIZE,
    {
        BLOCK_SIZE
    }
}

} // verus!
