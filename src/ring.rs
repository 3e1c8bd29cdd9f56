use vstd::prelude::*;

verus! {

/// Number of decoded keys the buffer can hold.
pub const KEY_BUFFER_CAPACITY: usize = 256;

/// The buffer contents after pushing `key` onto contents `q`: appended while
/// there is room, otherwise unchanged.
pub open spec fn pushed(q: Seq<u8>, key: u8) -> Seq<u8> {
    if q.len() < KEY_BUFFER_CAPACITY {
        q.push(key)
    } else {
        q
    }
}

/// The buffer contents after pushing every key of `keys` in order.
pub open spec fn pushed_all(q: Seq<u8>, keys: Seq<u8>) -> Seq<u8>
    decreases keys.len(),
{
    if keys.len() == 0 {
        q
    } else {
        pushed(pushed_all(q, keys.drop_last()), keys.last())
    }
}

/// Fixed-capacity FIFO of decoded key bytes. When full, newly pushed keys are
/// dropped and the buffered ones are kept.
pub struct KeyBuffer {
    buf: [u8; 256],
    read_pos: usize,
    write_pos: usize,
    count: usize,
}

impl View for KeyBuffer {
    type V = Seq<u8>;

    /// The buffered keys, oldest first.
    closed spec fn view(&self) -> Seq<u8> {
        Seq::new(self.count as nat, |i: int| self.buf@[(self.read_pos + i) % 256])
    }
}

impl KeyBuffer {
    pub closed spec fn wf(&self) -> bool {
        &&& self.read_pos < 256
        &&& self.write_pos < 256
        &&& self.count <= 256
        &&& self.write_pos == (self.read_pos + self.count) % 256
    }

    /// An empty buffer.
    pub fn new() -> (r: KeyBuffer)
        ensures
            r.wf(),
            r@ == Seq::<u8>::empty(),
    {
        let r = KeyBuffer { buf: [0u8; 256], read_pos: 0, write_pos: 0, count: 0 };
        assert(r@ =~= Seq::<u8>::empty());
        r
    }

    /// Number of buffered keys.
    pub fn len(&self) -> (r: usize)
        requires
            self.wf(),
        ensures
            r == self@.len(),
            r <= KEY_BUFFER_CAPACITY,
    {
        self.count
    }

    /// Appends `key` unless the buffer already holds its capacity, in which
    /// case the buffer is left as it was.
    pub fn push(&mut self, key: u8)
        requires
            old(self).wf(),
        ensures
            final(self).wf(),
            final(self)@.len() <= KEY_BUFFER_CAPACITY,
            final(self)@ == pushed(old(self)@, key),
    {
        if self.count < 256 {
            let ghost before = self@;
            self.buf[self.write_pos] = key;
            self.write_pos = (self.write_pos + 1) % 256;
            self.count += 1;
            assert(self@ =~= before.push(key));
        }
    }

    /// Removes and returns the oldest key, or `None` when the buffer is empty.
    pub fn pop(&mut self) -> (r: Option<u8>)
        requires
            old(self).wf(),
        ensures
            final(self).wf(),
            final(self)@.len() <= KEY_BUFFER_CAPACITY,
            old(self)@.len() == 0 ==> r == None::<u8> && final(self)@ == old(self)@,
            old(self)@.len() > 0 ==> r == Some(old(self)@[0]) && final(self)@ == old(self)@.drop_first(),
    {
        if self.count == 0 {
            return None;
        }
        let ghost before = self@;
        let key = self.buf[self.read_pos];
        self.read_pos = (self.read_pos + 1) % 256;
        self.count -= 1;
        assert(self@ =~= before.drop_first());
        Some(key)
    }
}

/// A well-formed buffer never holds more than its capacity, whatever pushes
/// and pops led to it.
pub proof fn lemma_never_over_capacity(b: KeyBuffer)
    requires
        b.wf(),
    ensures
        b@.len() <= KEY_BUFFER_CAPACITY,
{
}

/// Pushing a sequence of keys into an empty buffer keeps exactly the first
/// `KEY_BUFFER_CAPACITY` of them, in the order they were pushed.
pub proof fn lemma_oldest_kept(keys: Seq<u8>)
    ensures
        keys.len() <= KEY_BUFFER_CAPACITY ==> pushed_all(Seq::empty(), keys) == keys,
        keys.len() > KEY_BUFFER_CAPACITY ==> pushed_all(Seq::empty(), keys) == keys.take(
            KEY_BUFFER_CAPACITY as int,
        ),
    decreases keys.len(),
{
    if keys.len() > 0 {
        let front = keys.drop_last();
        lemma_oldest_kept(front);
        if keys.len() <= KEY_BUFFER_CAPACITY {
            assert(front.push(keys.last()) =~= keys);
        } else if keys.len() == KEY_BUFFER_CAPACITY + 1 {
            assert(front =~= keys.take(KEY_BUFFER_CAPACITY as int));
        } else {
            assert(front.take(KEY_BUFFER_CAPACITY as int) =~= keys.take(KEY_BUFFER_CAPACITY as int));
        }
    }
}

} // verus!
