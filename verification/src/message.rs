//! Growable messages with a header and a body.

use vstd::prelude::*;
use crate::pipe::Pipe;

verus! {

/// The header of a message: bytes that protocols put in front of the body.
#[derive(Debug)]
pub struct MessageHeader {
    bytes: Vec<u8>,
}

/// A message: a body and a header, each of which grows and shrinks at
/// either end, and the pipe that the message arrived on or is to leave by.
///
/// The length is that of the live bytes. What was cut off is gone, and
/// room that was reserved is not counted. A message has one owner;
/// sending it moves it into the call.
#[derive(Debug)]
pub struct Message {
    body: Vec<u8>,
    header: MessageHeader,
    pipe: Pipe,
}

/// `bytes` cut to their first `len`; unchanged where they are no longer
/// than that.
pub open spec fn truncated(bytes: Seq<u8>, len: nat) -> Seq<u8> {
    if len < bytes.len() {
        bytes.subrange(0, len as int)
    } else {
        bytes
    }
}

/// `bytes` cut to their last `len`; unchanged where they are no longer
/// than that.
pub open spec fn front_trimmed(bytes: Seq<u8>, len: nat) -> Seq<u8> {
    if len < bytes.len() {
        bytes.subrange(bytes.len() - len, bytes.len() as int)
    } else {
        bytes
    }
}

/// The smaller of two lengths.
pub open spec fn shorter(a: nat, b: nat) -> nat {
    if a <= b {
        a
    } else {
        b
    }
}

/// Puts `data` in front of what `target` holds.
fn insert_front(target: &mut Vec<u8>, data: &[u8])
    ensures
        final(target)@ == data@ + old(target)@,
{
    let mut joined: Vec<u8> = Vec::new();
    joined.extend_from_slice(data);
    assert(joined@ =~= data@);
    joined.append(target);
    *target = joined;
}

/// Removes all but the last `len` bytes of `target`.
fn keep_back(target: &mut Vec<u8>, len: usize)
    ensures
        final(target)@ == front_trimmed(old(target)@, len as nat),
{
    let total: usize = target.len();
    if len < total {
        let kept = target.split_off(total - len);
        *target = kept;
    }
}

impl View for MessageHeader {
    type V = Seq<u8>;

    closed spec fn view(&self) -> Seq<u8> {
        self.bytes@
    }
}

impl MessageHeader {
    /// Adds `data` at the end of the header.
    pub fn append(&mut self, data: &[u8])
        ensures
            final(self)@ == old(self)@ + data@,
    {
        self.bytes.extend_from_slice(data);
        assert(self.bytes@ =~= old(self)@ + data@);
    }

    /// Adds `data` at the front of the header.
    pub fn prepend(&mut self, data: &[u8])
        ensures
            final(self)@ == data@ + old(self)@,
    {
        insert_front(&mut self.bytes, data);
    }

    /// The number of bytes in the header.
    pub fn len(&self) -> (n: usize)
        ensures
            n == self@.len(),
    {
        self.bytes.len()
    }

    /// Keeps the first `len` bytes of the header and drops the rest. A
    /// header that is no longer than `len` stays as it is.
    pub fn truncate(&mut self, len: usize)
        ensures
            final(self)@ == truncated(old(self)@, len as nat),
    {
        let old_len: usize = self.len();
        if len < old_len {
            self.bytes.truncate(len);
        }
    }

    /// Keeps the last `len` bytes of the header and drops those in front.
    /// A header that is no longer than `len` stays as it is.
    pub fn trim(&mut self, len: usize)
        ensures
            final(self)@ == front_trimmed(old(self)@, len as nat),
    {
        keep_back(&mut self.bytes, len);
    }

    /// Empties the header.
    pub fn clear(&mut self)
        ensures
            final(self)@ == Seq::<u8>::empty(),
    {
        self.bytes.clear();
    }

    /// The whole header.
    pub fn as_slice(&self) -> (slice: &[u8])
        ensures
            slice@ == self@,
    {
        self.bytes.as_slice()
    }

    /// The whole header, to be written to.
    pub fn as_mut_slice(&mut self) -> (slice: &mut [u8])
        ensures
            slice@ == old(self)@,
            final(self)@ == final(slice)@,
    {
        self.bytes.as_mut_slice()
    }
}

impl View for Message {
    type V = Seq<u8>;

    /// The body of the message.
    closed spec fn view(&self) -> Seq<u8> {
        self.body@
    }
}

impl Message {
    /// The header of the message.
    pub closed spec fn spec_header(&self) -> Seq<u8> {
        self.header@
    }

    /// The pipe that the message is tagged with.
    pub closed spec fn spec_pipe(&self) -> Pipe {
        self.pipe
    }

    /// An empty message with room for `cap` bytes. It is tagged with the
    /// pipe of handle zero, which names no pipe.
    pub fn with_capacity(cap: usize) -> (message: Message)
        ensures
            message@ == Seq::<u8>::empty(),
            message.spec_header() == Seq::<u8>::empty(),
            message.spec_pipe().spec_raw() == 0,
    {
        Message {
            body: Vec::with_capacity(cap),
            header: MessageHeader { bytes: Vec::new() },
            pipe: Pipe::from_raw(0),
        }
    }

    /// A message made of the parts given.
    pub fn from_parts(header: Vec<u8>, body: Vec<u8>, pipe: Pipe) -> (message: Message)
        ensures
            message@ == body@,
            message.spec_header() == header@,
            message.spec_pipe() == pipe,
    {
        Message { body, header: MessageHeader { bytes: header }, pipe }
    }

    /// Takes the message apart: the header, the body and the pipe.
    pub fn into_parts(self) -> (parts: (Vec<u8>, Vec<u8>, Pipe))
        ensures
            parts.0@ == self.spec_header(),
            parts.1@ == self@,
            parts.2 == self.spec_pipe(),
    {
        (self.header.bytes, self.body, self.pipe)
    }

    /// The number of bytes in the body.
    pub fn len(&self) -> (n: usize)
        ensures
            n == self@.len(),
    {
        self.body.len()
    }

    /// Makes room for `additional` more bytes. The message itself does not
    /// change.
    pub fn reserve(&mut self, additional: usize)
        ensures
            final(self)@ == old(self)@,
            final(self).spec_header() == old(self).spec_header(),
            final(self).spec_pipe() == old(self).spec_pipe(),
    {
        self.body.reserve(additional);
    }

    /// Keeps the first `len` bytes of the body and drops the rest. A body
    /// that is no longer than `len` stays as it is.
    pub fn truncate(&mut self, len: usize)
        ensures
            final(self)@ == truncated(old(self)@, len as nat),
            final(self).spec_header() == old(self).spec_header(),
            final(self).spec_pipe() == old(self).spec_pipe(),
    {
        let old_len: usize = self.len();
        if len < old_len {
            self.body.truncate(len);
        }
    }

    /// Keeps the last `len` bytes of the body and drops those in front. A
    /// body that is no longer than `len` stays as it is.
    pub fn trim(&mut self, len: usize)
        ensures
            final(self)@ == front_trimmed(old(self)@, len as nat),
            final(self).spec_header() == old(self).spec_header(),
            final(self).spec_pipe() == old(self).spec_pipe(),
    {
        keep_back(&mut self.body, len);
    }

    /// The whole body.
    pub fn as_slice(&self) -> (slice: &[u8])
        ensures
            slice@ == self@,
    {
        self.body.as_slice()
    }

    /// The whole body, to be written to. The length cannot change through
    /// a slice.
    pub fn as_mut_slice(&mut self) -> (slice: &mut [u8])
        ensures
            slice@ == old(self)@,
            final(self)@ == final(slice)@,
            final(self).spec_header() == old(self).spec_header(),
            final(self).spec_pipe() == old(self).spec_pipe(),
    {
        self.body.as_mut_slice()
    }

    /// The header.
    pub fn header(&self) -> (slice: &[u8])
        ensures
            slice@ == self.spec_header(),
    {
        self.header.as_slice()
    }

    /// The header, to be changed. Body and pipe stay as they are.
    pub fn header_mut(&mut self) -> (header: &mut MessageHeader)
        ensures
            header@ == old(self).spec_header(),
            final(self).spec_header() == final(header)@,
            final(self)@ == old(self)@,
            final(self).spec_pipe() == old(self).spec_pipe(),
    {
        &mut self.header
    }

    /// Adds `data` at the end of the body.
    pub fn append(&mut self, data: &[u8])
        ensures
            final(self)@ == old(self)@ + data@,
            final(self).spec_header() == old(self).spec_header(),
            final(self).spec_pipe() == old(self).spec_pipe(),
    {
        self.body.extend_from_slice(data);
        assert(self.body@ =~= old(self)@ + data@);
    }

    /// Adds `data` at the front of the body.
    pub fn prepend(&mut self, data: &[u8])
        ensures
            final(self)@ == data@ + old(self)@,
            final(self).spec_header() == old(self).spec_header(),
            final(self).spec_pipe() == old(self).spec_pipe(),
    {
        insert_front(&mut self.body, data);
    }

    /// The pipe that the message is tagged with.
    pub fn pipe(&self) -> (pipe: Pipe)
        ensures
            pipe == self.spec_pipe(),
    {
        self.pipe
    }

    /// Tags the message with the pipe that it is to leave by.
    pub fn set_pipe(&mut self, pipe: &Pipe)
        ensures
            final(self).spec_pipe() == *pipe,
            final(self)@ == old(self)@,
            final(self).spec_header() == old(self).spec_header(),
    {
        self.pipe = *pipe;
    }

    /// Empties the body. Header and pipe stay as they are.
    pub fn clear(&mut self)
        ensures
            final(self)@ == Seq::<u8>::empty(),
            final(self).spec_header() == old(self).spec_header(),
            final(self).spec_pipe() == old(self).spec_pipe(),
    {
        self.body.clear();
    }

    /// Writes `buf` to the end of the body, all of it, and says how many
    /// bytes that was.
    pub fn write(&mut self, buf: &[u8]) -> (written: usize)
        ensures
            written == buf@.len(),
            final(self)@ == old(self)@ + buf@,
            final(self).spec_header() == old(self).spec_header(),
            final(self).spec_pipe() == old(self).spec_pipe(),
    {
        self.append(buf);
        buf.len()
    }

    /// Nothing is held back by `write`, so there is nothing to flush.
    pub fn flush(&mut self)
        ensures
            final(self)@ == old(self)@,
            final(self).spec_header() == old(self).spec_header(),
            final(self).spec_pipe() == old(self).spec_pipe(),
    {
    }

    /// Moves bytes from the front of the body into `buf`: as many as `buf`
    /// has room for, or the whole body where that is shorter. They fill
    /// `buf` from its start and leave the message. The result is their
    /// number.
    pub fn read(&mut self, buf: &mut [u8]) -> (n: usize)
        ensures
            n == shorter(old(buf)@.len(), old(self)@.len()),
            final(buf)@ == old(self)@.subrange(0, n as int) + old(buf)@.subrange(
                n as int,
                old(buf)@.len() as int,
            ),
            final(self)@ == old(self)@.subrange(n as int, old(self)@.len() as int),
            final(self).spec_header() == old(self).spec_header(),
            final(self).spec_pipe() == old(self).spec_pipe(),
    {
        let room: usize = buf.len();
        let have: usize = self.body.len();
        let n: usize = if room <= have { room } else { have };
        let mut i: usize = 0;
        while i < n
            invariant
                i <= n,
                n <= room,
                n <= have,
                have == self.body@.len(),
                room == buf@.len(),
                self.body@ == old(self)@,
                forall|k: int| 0 <= k < i ==> buf@[k] == self.body@[k],
                forall|k: int| i <= k < room ==> buf@[k] == old(buf)@[k],
            decreases n - i,
        {
            buf[i] = self.body[i];
            i = i + 1;
        }
        keep_back(&mut self.body, have - n);
        assert(buf@ =~= old(self)@.subrange(0, n as int) + old(buf)@.subrange(
            n as int,
            old(buf)@.len() as int,
        ));
        n
    }

    /// Moves the whole body to the end of `buf` and leaves the message
    /// empty. The result is the length of the message afterwards, which is
    /// zero.
    pub fn read_to_end(&mut self, buf: &mut Vec<u8>) -> (n: usize)
        ensures
            n == 0,
            final(buf)@ == old(buf)@ + old(self)@,
            final(self)@ == Seq::<u8>::empty(),
            final(self).spec_header() == old(self).spec_header(),
            final(self).spec_pipe() == old(self).spec_pipe(),
    {
        buf.extend_from_slice(self.body.as_slice());
        assert(buf@ =~= old(buf)@ + old(self)@);
        self.clear();
        self.len()
    }
}

impl Clone for Message {
    /// A second message with the same header, body and pipe.
    fn clone(&self) -> (copy: Message)
        ensures
            copy@ == self@,
            copy.spec_header() == self.spec_header(),
            copy.spec_pipe() == self.spec_pipe(),
    {
        let body = self.body.clone();
        let header = self.header.bytes.clone();
        assert(body@ =~= self.body@);
        assert(header@ =~= self.header.bytes@);
        Message { body, header: MessageHeader { bytes: header }, pipe: self.pipe }
    }
}

/// What is appended is what truncating to the length before takes away.
pub proof fn append_then_truncate_restores(bytes: Seq<u8>, data: Seq<u8>)
    ensures
        truncated(bytes + data, bytes.len()) == bytes,
{
    assert(truncated(bytes + data, bytes.len()) =~= bytes);
}

/// What is prepended is what trimming to the length before takes away.
pub proof fn prepend_then_trim_restores(bytes: Seq<u8>, data: Seq<u8>)
    ensures
        front_trimmed(data + bytes, bytes.len()) == bytes,
{
    assert(front_trimmed(data + bytes, bytes.len()) =~= bytes);
}

/// Cutting to a length that the bytes do not exceed changes nothing, at
/// either end.
pub proof fn cut_to_longer_is_noop(bytes: Seq<u8>, len: nat)
    requires
        len >= bytes.len(),
    ensures
        truncated(bytes, len) == bytes,
        front_trimmed(bytes, len) == bytes,
{
}

/// After a cut the length is the smaller of the two.
pub proof fn cut_length(bytes: Seq<u8>, len: nat)
    ensures
        truncated(bytes, len).len() == shorter(len, bytes.len()),
        front_trimmed(bytes, len).len() == shorter(len, bytes.len()),
{
}

} // verus!
