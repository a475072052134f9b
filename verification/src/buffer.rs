//! Fixed-size message buffers.

use vstd::prelude::*;
use vstd::utf8::encode_utf8;

verus! {

/// A region of bytes that is handed to the engine, or taken from it, whole.
///
/// The buffer has one owner. Sending it moves it into the call, so nothing
/// can read it afterwards.
#[derive(Debug)]
pub struct MessageBuffer {
    bytes: Vec<u8>,
}

impl View for MessageBuffer {
    type V = Seq<u8>;

    closed spec fn view(&self) -> Seq<u8> {
        self.bytes@
    }
}

/// `size` zero bytes.
pub open spec fn zeros(size: nat) -> Seq<u8> {
    Seq::new(size, |i: int| 0u8)
}

/// `bytes` brought to the length `size`: cut where they are longer, filled
/// up with zero bytes where they are shorter.
pub open spec fn resized(bytes: Seq<u8>, size: nat) -> Seq<u8> {
    Seq::new(size, |i: int| if i < bytes.len() { bytes[i] } else { 0u8 })
}

impl MessageBuffer {
    /// A buffer of `size` bytes. Its bytes are zero.
    pub fn new(size: usize) -> (buffer: MessageBuffer)
        ensures
            buffer@ == zeros(size as nat),
    {
        MessageBuffer::zeroed(size)
    }

    /// A buffer of `size` zero bytes.
    pub fn zeroed(size: usize) -> (buffer: MessageBuffer)
        ensures
            buffer@ == zeros(size as nat),
    {
        let bytes: Vec<u8> = vec![0u8; size];
        assert(bytes@ =~= zeros(size as nat));
        MessageBuffer { bytes }
    }

    /// Brings the buffer to `new_size` bytes. The bytes that both sizes
    /// have in common stay; those that are added are zero.
    pub fn resize(&mut self, new_size: usize)
        ensures
            final(self)@ == resized(old(self)@, new_size as nat),
    {
        self.bytes.resize(new_size, 0u8);
        assert(self.bytes@ =~= resized(old(self)@, new_size as nat));
    }

    /// The number of bytes in the buffer.
    pub fn len(&self) -> (n: usize)
        ensures
            n == self@.len(),
    {
        self.bytes.len()
    }

    /// The whole buffer.
    pub fn as_slice(&self) -> (slice: &[u8])
        ensures
            slice@ == self@,
    {
        self.bytes.as_slice()
    }

    /// The whole buffer, to be written to. The length cannot change through
    /// a slice.
    pub fn as_mut_slice(&mut self) -> (slice: &mut [u8])
        ensures
            slice@ == old(self)@,
            final(self)@ == final(slice)@,
    {
        self.bytes.as_mut_slice()
    }

    /// The byte at `index`.
    pub fn index(&self, index: usize) -> (byte: u8)
        requires
            index < self@.len(),
        ensures
            byte == self@[index as int],
    {
        self.bytes[index]
    }

    /// Sets the byte at `index`.
    pub fn set(&mut self, index: usize, byte: u8)
        requires
            index < old(self)@.len(),
        ensures
            final(self)@ == old(self)@.update(index as int, byte),
    {
        self.bytes[index] = byte;
    }

    /// Writes `data` over the bytes from `start` on.
    pub fn copy_from_slice(&mut self, start: usize, data: &[u8])
        requires
            start + data@.len() <= old(self)@.len(),
        ensures
            final(self)@ == old(self)@.subrange(0, start as int) + data@ + old(self)@.subrange(
                start + data@.len(),
                old(self)@.len() as int,
            ),
    {
        let count: usize = data.len();
        let total: usize = self.bytes.len();
        let mut i: usize = 0;
        while i < count
            invariant
                i <= count,
                count == data@.len(),
                total == self.bytes@.len(),
                start + count <= self.bytes@.len(),
                self.bytes@.len() == old(self)@.len(),
                forall|k: int| 0 <= k < start ==> self.bytes@[k] == old(self)@[k],
                forall|k: int| start <= k < start + i ==> self.bytes@[k] == data@[k - start],
                forall|k: int| start + i <= k < self.bytes@.len() ==> self.bytes@[k] == old(self)@[k],
            decreases count - i,
        {
            self.bytes[start + i] = data[i];
            i = i + 1;
        }
        assert(self.bytes@ =~= old(self)@.subrange(0, start as int) + data@ + old(self)@.subrange(
            start + data@.len(),
            old(self)@.len() as int,
        ));
    }

    /// A buffer with a copy of `buf`.
    pub fn from_slice(buf: &[u8]) -> (buffer: MessageBuffer)
        ensures
            buffer@ == buf@,
    {
        let mut bytes: Vec<u8> = Vec::new();
        bytes.extend_from_slice(buf);
        assert(bytes@ =~= buf@);
        MessageBuffer { bytes }
    }

    /// A buffer with the UTF-8 bytes of `s`.
    pub fn from_str(s: &str) -> (buffer: MessageBuffer)
        ensures
            buffer@ == encode_utf8(s@),
    {
        MessageBuffer::from_slice(s.as_bytes())
    }

    /// A buffer with the UTF-8 bytes of `s`.
    pub fn from_string(s: String) -> (buffer: MessageBuffer)
        ensures
            buffer@ == encode_utf8(s@),
    {
        MessageBuffer::from_slice(s.as_str().as_bytes())
    }

    /// A buffer that takes over the bytes of `v`.
    pub fn from_vec(v: Vec<u8>) -> (buffer: MessageBuffer)
        ensures
            buffer@ == v@,
    {
        MessageBuffer { bytes: v }
    }

    /// Gives the bytes up as a vector.
    pub fn into_vec(self) -> (v: Vec<u8>)
        ensures
            v@ == self@,
    {
        self.bytes
    }
}

impl Clone for MessageBuffer {
    fn clone(&self) -> (copy: MessageBuffer)
        ensures
            copy@ == self@,
    {
        let bytes = self.bytes.clone();
        assert(bytes@ =~= self.bytes@);
        MessageBuffer { bytes }
    }
}

/// Resizing to the size a buffer has changes nothing.
pub proof fn resize_to_same_size(bytes: Seq<u8>)
    ensures
        resized(bytes, bytes.len()) == bytes,
{
    assert(resized(bytes, bytes.len()) =~= bytes);
}

/// Growing a buffer and then shrinking it to the size it had gives back
/// the bytes it had.
pub proof fn grow_then_shrink_restores(bytes: Seq<u8>, larger: nat)
    requires
        bytes.len() <= larger,
    ensures
        resized(resized(bytes, larger), bytes.len()) == bytes,
{
    assert(resized(resized(bytes, larger), bytes.len()) =~= bytes);
}

} // verus!
