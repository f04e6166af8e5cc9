//! An in-memory byte stream.
//!
//! A `MemoryStream` is a queue of bytes: what is written to it is appended, what
//! is read from it is taken from the front. One stream can be the read side of a
//! channel, the write side of another, or both sides of one.

use vstd::prelude::*;

verus! {

/// What a `MemoryStream` stands for: the bytes that wait to be read, oldest
/// first, and whether it still takes writes.
pub struct StreamView {
    pub unread: Seq<u8>,
    pub open: bool,
}

/// The transport error of a `MemoryStream`: it was written to after `close`.
#[derive(Debug, Clone, Copy, PartialEq, Eq, Structural)]
pub struct StreamClosed;

/// A queue of bytes in memory.
#[derive(Debug)]
pub struct MemoryStream {
    bytes: Vec<u8>,
    open: bool,
}

impl View for MemoryStream {
    type V = StreamView;

    closed spec fn view(&self) -> StreamView {
        StreamView { unread: self.bytes@, open: self.open }
    }
}

impl Clone for MemoryStream {
    /// A second stream with the same bytes, open or closed as this one. The
    /// two share nothing.
    fn clone(&self) -> (copy: Self)
        ensures
            copy@ == self@,
    {
        MemoryStream { bytes: self.bytes.clone(), open: self.open }
    }
}

impl MemoryStream {
    /// An open stream with nothing to read.
    pub fn new() -> (stream: Self)
        ensures
            stream@.unread == Seq::<u8>::empty(),
            stream@.open,
    {
        MemoryStream { bytes: Vec::new(), open: true }
    }

    /// An open stream that holds `bytes`.
    pub fn from_bytes(bytes: Vec<u8>) -> (stream: Self)
        ensures
            stream@.unread == bytes@,
            stream@.open,
    {
        MemoryStream { bytes, open: true }
    }

    /// Whether the stream still takes writes.
    pub fn is_open(&self) -> (open: bool)
        ensures
            open == self@.open,
    {
        self.open
    }

    /// The number of bytes that wait to be read.
    pub fn len(&self) -> (len: usize)
        ensures
            len == self@.unread.len(),
    {
        self.bytes.len()
    }

    /// The bytes that wait to be read.
    pub fn as_slice(&self) -> (bytes: &[u8])
        ensures
            bytes@ == self@.unread,
    {
        self.bytes.as_slice()
    }

    /// Gives up the stream for the bytes that wait to be read.
    pub fn into_bytes(self) -> (bytes: Vec<u8>)
        ensures
            bytes@ == self@.unread,
    {
        self.bytes
    }

    /// Stops the stream from taking writes. What it holds can still be read.
    pub fn close(&mut self)
        ensures
            final(self)@.unread == old(self)@.unread,
            !final(self)@.open,
    {
        self.open = false;
    }

    /// Appends `bytes`, all of them or none: a closed stream takes nothing.
    pub fn write_all(&mut self, bytes: &[u8]) -> (outcome: Result<(), StreamClosed>)
        ensures
            final(self)@.open == old(self)@.open,
            old(self)@.open ==> outcome is Ok && final(self)@.unread == old(self)@.unread + bytes@,
            !old(self)@.open ==> outcome is Err && final(self)@.unread == old(self)@.unread,
    {
        if !self.open {
            return Err(StreamClosed);
        }
        let mut at: usize = 0;
        while at < bytes.len()
            invariant
                at <= bytes.len(),
                self.open,
                self.bytes@ == old(self).bytes@ + bytes@.take(at as int),
            decreases bytes.len() - at,
        {
            self.bytes.push(bytes[at]);
            assert(bytes@.take(at + 1) == bytes@.take(at as int).push(bytes@[at as int]));
            at += 1;
        }
        assert(bytes@.take(at as int) == bytes@);
        Ok(())
    }

    /// Hands what was written to the reader. In memory nothing is held back, so
    /// this only tells whether the stream is open.
    pub fn flush(&mut self) -> (outcome: Result<(), StreamClosed>)
        ensures
            final(self)@ == old(self)@,
            outcome is Ok <==> old(self)@.open,
    {
        if self.open {
            Ok(())
        } else {
            Err(StreamClosed)
        }
    }

    /// Takes `count` bytes off the front, or all of them where fewer wait.
    pub fn consume(&mut self, count: usize)
        ensures
            final(self)@.open == old(self)@.open,
            count <= old(self)@.unread.len() ==> final(self)@.unread == old(self)@.unread.skip(
                count as int,
            ),
            count > old(self)@.unread.len() ==> final(self)@.unread == Seq::<u8>::empty(),
    {
        if count >= self.bytes.len() {
            self.bytes.clear();
            assert(old(self)@.unread.skip(old(self)@.unread.len() as int) == Seq::<u8>::empty());
        } else {
            let rest = self.bytes.split_off(count);
            self.bytes = rest;
        }
    }
}

} // verus!
