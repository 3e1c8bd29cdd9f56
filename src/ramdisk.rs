use vstd::prelude::*;
use vstd::string::StringSliceAdditionalSpecFns;
use crate::block_device::{BlockDevice, BlockError, BLOCK_SIZE};

verus! {

/// A block device backed by memory.
pub struct RamDisk {
    storage: Vec<u8>,
}

impl View for RamDisk {
    type V = Seq<u8>;

    /// Every byte of the disk, block after block.
    closed spec fn view(&self) -> Seq<u8> {
        self.storage@
    }
}

impl RamDisk {
    /// A disk over `storage`, whose length must be a whole number of blocks.
    pub fn new(storage: Vec<u8>) -> (r: RamDisk)
        requires
            storage@.len() % BLOCK_SIZE as nat == 0,
        ensures
            r@ == storage@,
            r.spec_block_count() == storage@.len() / BLOCK_SIZE as nat,
    {
        RamDisk { storage }
    }

    /// The bytes of block `block_id`, or `OutOfBounds` past the last block.
    fn get_block(&self, block_id: u64) -> (r: Result<&[u8], BlockError>)
        ensures
            block_id >= self.spec_block_count() ==> r == Err::<&[u8], BlockError>(BlockError::OutOfBounds),
            block_id < self.spec_block_count() ==> (r matches Ok(b) && b@ == self.spec_block(block_id as int)),
    {
        let len = self.storage.len();
        if block_id >= (len / BLOCK_SIZE) as u64 {
            return Err(BlockError::OutOfBounds);
        }
        assert((block_id as int) * BLOCK_SIZE + BLOCK_SIZE <= len) by (nonlinear_arith)
            requires
                block_id < len / 512,
        ;
        let start = (block_id as usize) * BLOCK_SIZE;
        let end = start + BLOCK_SIZE;
        Ok(&self.storage.as_slice()[start..end])
    }
}

impl BlockDevice for RamDisk {
    closed spec fn spec_block_count(&self) -> nat {
        self.storage@.len() / BLOCK_SIZE as nat
    }

    /// Memory is always ready.
    open spec fn spec_ready(&self) -> bool {
        true
    }

    closed spec fn spec_block(&self, id: int) -> Seq<u8> {
        if 0 <= id < self.spec_block_count() {
            self.storage@.subrange(id * BLOCK_SIZE, id * BLOCK_SIZE + BLOCK_SIZE)
        } else {
            Seq::empty()
        }
    }

    fn read_block(&self, block_id: u64, buffer: &mut [u8; BLOCK_SIZE]) -> (r: Result<(), BlockError>) {
        let block = match self.get_block(block_id) {
            Ok(b) => b,
            Err(e) => return Err(e),
        };
        let mut i: usize = 0;
        while i < BLOCK_SIZE
            invariant
                i <= BLOCK_SIZE,
                block@.len() == BLOCK_SIZE,
                buffer@.len() == BLOCK_SIZE,
                forall|j: int| 0 <= j < i ==> buffer@[j] == block@[j],
            decreases BLOCK_SIZE - i,
        {
            buffer[i] = block[i];
            i += 1;
        }
        assert(buffer@ =~= self.spec_block(block_id as int));
        Ok(())
    }

    fn write_block(&mut self, block_id: u64, buffer: &[u8; BLOCK_SIZE]) -> (r: Result<(), BlockError>) {
        let len = self.storage.len();
        if block_id >= (len / BLOCK_SIZE) as u64 {
            return Err(BlockError::OutOfBounds);
        }
        assert((block_id as int) * BLOCK_SIZE + BLOCK_SIZE <= len) by (nonlinear_arith)
            requires
                block_id < len / 512,
        ;
        let start = (block_id as usize) * BLOCK_SIZE;
        let mut i: usize = 0;
        while i < BLOCK_SIZE
            invariant
                i <= BLOCK_SIZE,
                start == block_id * BLOCK_SIZE,
                start + BLOCK_SIZE <= self.storage@.len(),
                self.storage@.len() == old(self).storage@.len(),
                buffer@.len() == BLOCK_SIZE,
                forall|j: int| 0 <= j < i ==> self.storage@[start + j] == buffer@[j],
                forall|j: int|
                    0 <= j < self.storage@.len() && !(start <= j < start + i) ==> self.storage@[j]
                        == old(self).storage@[j],
            decreases BLOCK_SIZE - i,
        {
            self.storage.set(start + i, buffer[i]);
            i += 1;
        }
        assert(self.spec_block(block_id as int) =~= buffer@);
        assert forall|k: int| k != block_id implies #[trigger] self.spec_block(k) == old(self).spec_block(k) by {
            if k < 0 || k >= self.spec_block_count() {
            } else if k < block_id {
                assert(k * BLOCK_SIZE + BLOCK_SIZE <= start) by (nonlinear_arith)
                    requires
                        k < block_id,
                        start == block_id * 512,
                ;
            } else {
                assert(k * BLOCK_SIZE >= start + BLOCK_SIZE) by (nonlinear_arith)
                    requires
                        k > block_id,
                        start == block_id * 512,
                ;
            }
            assert(self.spec_block(k) =~= old(self).spec_block(k));
        }
        Ok(())
    }

    fn block_count(&self) -> (r: u64) {
        (self.storage.len() / BLOCK_SIZE) as u64
    }
}

/// Size of the kernel's RAM disk in bytes (1 MiB).
pub const RAMDISK_SIZE: usize = 1048576;

/// The kernel's RAM disk: `RAMDISK_SIZE` bytes, all zero.
pub fn init() -> (r: RamDisk)
    ensures
        r@ == Seq::new(RAMDISK_SIZE as nat, |i: int| 0u8),
        r.spec_block_count() == RAMDISK_SIZE / BLOCK_SIZE,
{
    let storage: Vec<u8> = vec![0u8; RAMDISK_SIZE];
    assert(storage@ =~= Seq::new(RAMDISK_SIZE as nat, |i: int| 0u8));
    RamDisk::new(storage)
}

/// The text written to block 0 by the self-test.
pub open spec fn self_test_pattern() -> Seq<u8> {
    "ShadowOS RAM disk test block!".spec_bytes()
}

/// What the RAM disk self-test found.
#[derive(Debug, Clone, Copy, PartialEq, Eq, Structural)]
pub struct SelfTestReport {
    pub block_count: u64,
    /// Writing block 0 succeeded.
    pub write_ok: bool,
    /// Reading block 0 back succeeded.
    pub read_ok: bool,
    /// What was read back starts with what was written.
    pub data_ok: bool,
    /// Reading past the last block failed as it should.
    pub bounds_ok: bool,
}

/// Boot-time self-test: writes a known text (zero-padded) to block 0, reads
/// it back and compares, then checks that a read past the end is refused.
pub fn test_ramdisk(disk: &mut RamDisk) -> (r: SelfTestReport)
    ensures
        r.block_count == old(disk).spec_block_count(),
        r.write_ok == (old(disk).spec_block_count() > 0),
        r.read_ok == (old(disk).spec_block_count() > 0),
        r.data_ok == (old(disk).spec_block_count() > 0),
        r.bounds_ok,
        final(disk).spec_block_count() == old(disk).spec_block_count(),
        old(disk).spec_block_count() > 0 ==> final(disk).spec_block(0) == self_test_pattern() + Seq::new(
            (BLOCK_SIZE - self_test_pattern().len()) as nat,
            |i: int| 0u8,
        ),
        forall|i: int| i != 0 ==> #[trigger] final(disk).spec_block(i) == old(disk).spec_block(i),
{
    let block_count = disk.block_count();
    let text = "ShadowOS RAM disk test block!".as_bytes();
    proof {
        reveal_strlit("ShadowOS RAM disk test block!");
        vstd::utf8::is_ascii_chars_encode_utf8("ShadowOS RAM disk test block!"@);
    }
    let mut write_buffer = [0u8; BLOCK_SIZE];
    let mut i: usize = 0;
    while i < text.len()
        invariant
            text@ == self_test_pattern(),
            text@.len() <= BLOCK_SIZE,
            i <= text@.len(),
            write_buffer@.len() == BLOCK_SIZE,
            forall|j: int| 0 <= j < i ==> write_buffer@[j] == text@[j],
            forall|j: int| i <= j < BLOCK_SIZE ==> write_buffer@[j] == 0u8,
        decreases text@.len() - i,
    {
        write_buffer[i] = text[i];
        i += 1;
    }
    assert(write_buffer@ =~= self_test_pattern() + Seq::new(
        (BLOCK_SIZE - self_test_pattern().len()) as nat,
        |i: int| 0u8,
    ));
    assert(write_buffer@.subrange(0, text@.len() as int) =~= text@);
    let write_ok = disk.write_block(0, &write_buffer).is_ok();
    let mut read_buffer = [0u8; BLOCK_SIZE];
    let read_ok = disk.read_block(0, &mut read_buffer).is_ok();
    assert(read_ok ==> read_buffer@ == write_buffer@);
    let data_ok = read_ok && bytes_match(&read_buffer, text);
    let past_end = if block_count < u64::MAX {
        block_count + 1
    } else {
        block_count
    };
    let bounds_ok = disk.read_block(past_end, &mut read_buffer).is_err();
    SelfTestReport { block_count, write_ok, read_ok, data_ok, bounds_ok }
}

/// Whether `buf` starts with `prefix`.
fn bytes_match(buf: &[u8; BLOCK_SIZE], prefix: &[u8]) -> (r: bool)
    requires
        prefix@.len() <= BLOCK_SIZE,
    ensures
        r == (buf@.subrange(0, prefix@.len() as int) == prefix@),
{
    let mut i: usize = 0;
    while i < prefix.len()
        invariant
            i <= prefix@.len(),
            prefix@.len() <= BLOCK_SIZE,
            buf@.len() == BLOCK_SIZE,
            forall|j: int| 0 <= j < i ==> buf@[j] == prefix@[j],
        decreases prefix@.len() - i,
    {
        if buf[i] != prefix[i] {
            assert(buf@.subrange(0, prefix@.len() as int)[i as int] != prefix@[i as int]);
            return false;
        }
        i += 1;
    }
    assert(buf@.subrange(0, prefix@.len() as int) =~= prefix@);
    true
}

} // verus!
