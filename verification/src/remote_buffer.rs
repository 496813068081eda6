//! A byte buffer that the host owns and the module drives: the module asks
//! for it, resizes it, reads and writes its bytes, and gives it up again.
use vstd::prelude::*;

verus! {

/// The bytes of a buffer after its length has been set to `size`: cut short
/// where that is less, continued with zero bytes where it is more.
pub open spec fn resized(bytes: Seq<u8>, size: nat) -> Seq<u8> {
    if size <= bytes.len() {
        bytes.take(size as int)
    } else {
        bytes + Seq::new((size - bytes.len()) as nat, |i: int| 0u8)
    }
}

/// A length as the module's 32-bit count, which stops at the largest one.
pub open spec fn saturated(len: nat) -> u32 {
    if len > u32::MAX {
        u32::MAX
    } else {
        len as u32
    }
}

/// One buffer lent to the module. It is created by `allocate`, changed
/// through `set_size` and `data_mut`, and given up by `destroy`, which takes
/// it by value: nothing can refer to it afterwards.
#[derive(Debug)]
pub struct RemoteBuffer {
    bytes: Vec<u8>,
    reserved: u32,
}

impl View for RemoteBuffer {
    type V = Seq<u8>;

    closed spec fn view(&self) -> Seq<u8> {
        self.bytes@
    }
}

impl RemoteBuffer {
    /// The number of bytes asked for at allocation, or the largest size set
    /// since, whichever is more.
    pub closed spec fn reserved(&self) -> u32 {
        self.reserved
    }

    /// The number of bytes the buffer is known to hold without growing: what
    /// was reserved, and never less than what it holds.
    pub open spec fn spec_capacity(&self) -> u32 {
        if saturated(self@.len()) > self.reserved() {
            saturated(self@.len())
        } else {
            self.reserved()
        }
    }

    /// A new, empty buffer with room for `capacity` bytes.
    pub fn allocate(capacity: u32) -> (buffer: Self)
        ensures
            buffer@ == Seq::<u8>::empty(),
            buffer.reserved() == capacity,
            buffer.spec_capacity() == capacity,
    {
        RemoteBuffer { bytes: Vec::with_capacity(capacity as usize), reserved: capacity }
    }

    /// The number of bytes in the buffer.
    pub fn size(&self) -> (n: u32)
        ensures
            n == saturated(self@.len()),
    {
        let len: usize = self.bytes.len();
        if len > u32::MAX as usize {
            u32::MAX
        } else {
            len as u32
        }
    }

    /// The capacity of the buffer.
    pub fn capacity(&self) -> (c: u32)
        ensures
            c == self.spec_capacity(),
            c >= saturated(self@.len()),
    {
        let size: u32 = self.size();
        if size > self.reserved {
            size
        } else {
            self.reserved
        }
    }

    /// Sets the length to `size`. Bytes beyond it are dropped; bytes newly
    /// exposed are zero. The capacity grows to `size` where it was less.
    pub fn set_size(&mut self, size: u32)
        ensures
            final(self)@ == resized(old(self)@, size as nat),
            final(self)@.len() == size,
            final(self).spec_capacity() == if size > old(self).spec_capacity() {
                size
            } else {
                old(self).spec_capacity()
            },
    {
        let capacity: u32 = self.capacity();
        self.bytes.resize(size as usize, 0u8);
        self.reserved = if size > capacity {
            size
        } else {
            capacity
        };
        assert(self.bytes@ =~= resized(old(self)@, size as nat));
    }

    /// The bytes of the buffer, to read.
    pub fn data(&self) -> (bytes: &[u8])
        ensures
            bytes@ == self@,
    {
        self.bytes.as_slice()
    }

    /// The bytes of the buffer, to write in place: what the borrower leaves
    /// in the slice is what the buffer holds afterwards.
    pub fn data_mut(&mut self) -> (bytes: &mut [u8])
        ensures
            bytes@ == old(self)@,
            final(self)@ == final(bytes)@,
            final(self).reserved() == old(self).reserved(),
    {
        self.bytes.as_mut_slice()
    }

    /// Gives the buffer up and hands its last contents to the host.
    pub fn destroy(self) -> (bytes: Vec<u8>)
        ensures
            bytes@ == self@,
    {
        self.bytes
    }
}

/// A buffer allocated with a capacity and then set to a size within it
/// reports that size, keeps its capacity, and holds that many zero bytes.
pub proof fn lemma_fresh_buffer_is_zeroed(capacity: u32, size: u32)
    requires
        size <= capacity,
    ensures
        resized(Seq::<u8>::empty(), size as nat).len() == size,
        saturated(resized(Seq::<u8>::empty(), size as nat).len()) == size,
        (if size > capacity { size } else { capacity }) == capacity,
        forall|i: int| 0 <= i < size ==> #[trigger] resized(Seq::<u8>::empty(), size as nat)[i] == 0u8,
{
}

/// Setting the size keeps every byte below both the old and the new length,
/// and yields exactly the new length.
pub proof fn lemma_resize_keeps_prefix(bytes: Seq<u8>, size: nat)
    ensures
        resized(bytes, size).len() == size,
        forall|i: int| 0 <= i < size && i < bytes.len() ==> #[trigger] resized(bytes, size)[i] == bytes[i],
        forall|i: int| bytes.len() <= i < size ==> #[trigger] resized(bytes, size)[i] == 0u8,
{
}

} // verus!
