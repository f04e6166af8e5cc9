//! Channels: owners of byte streams that exchange messages.
//!
//! A channel adds nothing to what its serializer does to its streams: every
//! contract here hands on a relation of the serializer, and says which parts of
//! the channel a call leaves alone.
//!
//! The traits state their contracts over ghost functions that an
//! implementation defines. Each has a default that promises nothing, so that a
//! type outside this crate can implement a trait by its methods alone.

use vstd::prelude::*;
use vstd::std_specs::convert::FromSpecImpl;
use crate::serializer::Serializer;

verus! {

/// A channel in one direction, which reads messages with the serializer it is
/// handed on each call.
pub trait ReadOnlyChannel<R> {
    /// The stream that the channel reads from.
    open spec fn source(&self) -> R {
        arbitrary()
    }

    /// One decode attempt of `serializer` on the channel's stream.
    fn try_read<W, S>(&mut self, serializer: &S) -> (outcome: Result<Option<S::Message>, S::Error>)
        where S: Serializer<R, W>,
        ensures
            serializer.attempts(old(self).source(), final(self).source(), outcome),
    ;

    /// The blocking read of `serializer` on the channel's stream.
    fn read<W, S>(&mut self, serializer: &S) -> (outcome: Result<S::Message, S::Error>)
        where S: Serializer<R, W>,
        requires
            serializer.settles(old(self).source()),
        ensures
            serializer.reads(old(self).source(), final(self).source(), outcome),
    ;
}

/// A channel in one direction, which writes messages with the serializer it is
/// handed on each call.
pub trait WriteOnlyChannel<W> {
    /// The stream that the channel writes to.
    open spec fn sink(&self) -> W {
        arbitrary()
    }

    /// The write of `serializer` on the channel's stream.
    fn write<R, S>(&mut self, serializer: &S, message: S::Message) -> (outcome: Result<
        (),
        S::Error,
    >)
        where S: Serializer<R, W>,
        ensures
            serializer.writes(old(self).sink(), message, final(self).sink(), outcome),
    ;
}

/// A channel in both directions, which is handed its serializer on each call.
pub trait ReadWriteChannel<R, W>: ReadOnlyChannel<R> + WriteOnlyChannel<W> {

}

impl<R, W, T> ReadWriteChannel<R, W> for T where T: ReadOnlyChannel<R> + WriteOnlyChannel<W> {

}

/// A channel in both directions that owns its serializer.
///
/// Every such channel reads with its serializer from its reader and writes
/// with it to its writer. What else a call changes or leaves alone depends on
/// how the channel holds its streams, and is what `attempted`, `received` and
/// `sent` say.
pub trait OwnedChannel<R, W, S: Serializer<R, W>>: Sized {
    /// The stream that the channel reads from.
    open spec fn spec_reader(&self) -> R {
        arbitrary()
    }

    /// The stream that the channel writes to.
    open spec fn spec_writer(&self) -> W {
        arbitrary()
    }

    /// The serializer that the channel owns.
    open spec fn spec_serializer(&self) -> S {
        arbitrary()
    }

    /// Whether a blocking read on the channel settles.
    open spec fn ready(&self) -> bool {
        false
    }

    /// Whether one decode attempt can turn the channel into `after` and
    /// return `outcome`.
    open spec fn attempted(
        &self,
        after: Self,
        outcome: Result<Option<S::Message>, S::Error>,
    ) -> bool {
        true
    }

    /// Whether a blocking read can turn the channel into `after` and return
    /// `outcome`.
    open spec fn received(&self, after: Self, outcome: Result<S::Message, S::Error>) -> bool {
        true
    }

    /// Whether writing `message` can turn the channel into `after` and return
    /// `outcome`.
    open spec fn sent(
        &self,
        message: S::Message,
        after: Self,
        outcome: Result<(), S::Error>,
    ) -> bool {
        true
    }

    /// Lends the stream that the channel reads from.
    fn reader(&mut self) -> (reader: &mut R)
        ensures
            *reader == old(self).spec_reader(),
            final(self).spec_reader() == *final(reader),
            final(self).spec_serializer() == old(self).spec_serializer(),
    ;

    /// Lends the stream that the channel writes to.
    fn writer(&mut self) -> (writer: &mut W)
        ensures
            *writer == old(self).spec_writer(),
            final(self).spec_writer() == *final(writer),
            final(self).spec_serializer() == old(self).spec_serializer(),
    ;

    /// The serializer that the channel owns.
    fn serializer(&self) -> (serializer: &S)
        ensures
            *serializer == self.spec_serializer(),
    ;

    /// One decode attempt of the channel's serializer on its reader.
    fn try_read(&mut self) -> (outcome: Result<Option<S::Message>, S::Error>)
        ensures
            old(self).attempted(*final(self), outcome),
            old(self).spec_serializer().attempts(
                old(self).spec_reader(),
                final(self).spec_reader(),
                outcome,
            ),
            final(self).spec_serializer() == old(self).spec_serializer(),
    ;

    /// The blocking read of the channel's serializer on its reader.
    fn read(&mut self) -> (outcome: Result<S::Message, S::Error>)
        requires
            old(self).ready(),
        ensures
            old(self).received(*final(self), outcome),
            old(self).spec_serializer().reads(
                old(self).spec_reader(),
                final(self).spec_reader(),
                outcome,
            ),
            final(self).spec_serializer() == old(self).spec_serializer(),
    ;

    /// The write of the channel's serializer on its writer.
    fn write(&mut self, message: S::Message) -> (outcome: Result<(), S::Error>)
        ensures
            old(self).sent(message, *final(self), outcome),
            old(self).spec_serializer().writes(
                old(self).spec_writer(),
                message,
                final(self).spec_writer(),
                outcome,
            ),
            final(self).spec_serializer() == old(self).spec_serializer(),
    ;
}

/// A channel that only reads, around a reader.
#[derive(Debug, Clone, PartialEq, Eq, Hash)]
pub struct ReadChannel<R>(R);

impl<R> View for ReadChannel<R> {
    type V = R;

    /// The reader inside.
    closed spec fn view(&self) -> R {
        self.0
    }
}

impl<R> ReadChannel<R> {
    /// Wraps `reader`.
    pub fn new(reader: R) -> (channel: Self)
        ensures
            channel@ == reader,
    {
        Self(reader)
    }

    /// Unwraps the reader.
    pub fn into_inner(self) -> (reader: R)
        ensures
            reader == self@,
    {
        self.0
    }
}

impl<R> ReadOnlyChannel<R> for ReadChannel<R> {
    open spec fn source(&self) -> R {
        self@
    }

    fn try_read<W, S: Serializer<R, W>>(&mut self, serializer: &S) -> (outcome: Result<
        Option<S::Message>,
        S::Error,
    >) {
        serializer.try_read(&mut self.0)
    }

    fn read<W, S: Serializer<R, W>>(&mut self, serializer: &S) -> (outcome: Result<
        S::Message,
        S::Error,
    >) {
        serializer.read(&mut self.0)
    }
}

impl<R> From<R> for ReadChannel<R> {
    fn from(value: R) -> (channel: Self)
        ensures
            channel@ == value,
    {
        Self(value)
    }
}

impl<R> FromSpecImpl<R> for ReadChannel<R> {
    open spec fn obeys_from_spec() -> bool {
        true
    }

    closed spec fn from_spec(value: R) -> Self {
        ReadChannel(value)
    }
}

impl<R> AsRef<R> for ReadChannel<R> {
    fn as_ref(&self) -> (reader: &R)
        ensures
            *reader == self@,
    {
        &self.0
    }
}

impl<R> AsMut<R> for ReadChannel<R> {
    fn as_mut(&mut self) -> (reader: &mut R)
        ensures
            *reader == old(self)@,
            final(self)@ == *final(reader),
    {
        &mut self.0
    }
}

/// A channel that only writes, around a writer.
#[derive(Debug, Clone, PartialEq, Eq, Hash)]
pub struct WriteChannel<W>(W);

impl<W> View for WriteChannel<W> {
    type V = W;

    /// The writer inside.
    closed spec fn view(&self) -> W {
        self.0
    }
}

impl<W> WriteChannel<W> {
    /// Wraps `writer`.
    pub fn new(writer: W) -> (channel: Self)
        ensures
            channel@ == writer,
    {
        Self(writer)
    }

    /// Unwraps the writer.
    pub fn into_inner(self) -> (writer: W)
        ensures
            writer == self@,
    {
        self.0
    }
}

impl<W> WriteOnlyChannel<W> for WriteChannel<W> {
    open spec fn sink(&self) -> W {
        self@
    }

    fn write<R, S: Serializer<R, W>>(&mut self, serializer: &S, message: S::Message) -> (outcome:
        Result<(), S::Error>) {
        serializer.write(&mut self.0, message)
    }
}

impl<W> From<W> for WriteChannel<W> {
    fn from(value: W) -> (channel: Self)
        ensures
            channel@ == value,
    {
        Self(value)
    }
}

impl<W> FromSpecImpl<W> for WriteChannel<W> {
    open spec fn obeys_from_spec() -> bool {
        true
    }

    closed spec fn from_spec(value: W) -> Self {
        WriteChannel(value)
    }
}

impl<W> AsRef<W> for WriteChannel<W> {
    fn as_ref(&self) -> (writer: &W)
        ensures
            *writer == self@,
    {
        &self.0
    }
}

impl<W> AsMut<W> for WriteChannel<W> {
    fn as_mut(&mut self) -> (writer: &mut W)
        ensures
            *writer == old(self)@,
            final(self)@ == *final(writer),
    {
        &mut self.0
    }
}

/// A channel that owns a reader, a writer and the serializer for both.
#[derive(Debug, Clone, PartialEq, Eq, Hash)]
pub struct UniChannel<R, W, S> {
    reader: ReadChannel<R>,
    writer: WriteChannel<W>,
    serializer: S,
}

impl<R, W, S> UniChannel<R, W, S> {
    /// The reader of the channel.
    pub closed spec fn reader_view(&self) -> R {
        self.reader@
    }

    /// The writer of the channel.
    pub closed spec fn writer_view(&self) -> W {
        self.writer@
    }

    /// The serializer of the channel.
    pub closed spec fn serializer_view(&self) -> S {
        self.serializer
    }

    /// Joins a reader, a writer and a serializer.
    pub fn new(reader: R, writer: W, serializer: S) -> (channel: Self)
        ensures
            channel.reader_view() == reader,
            channel.writer_view() == writer,
            channel.serializer_view() == serializer,
    {
        Self { reader: ReadChannel::new(reader), writer: WriteChannel::new(writer), serializer }
    }

    /// Takes the channel apart.
    pub fn into_inner(self) -> (parts: (R, W, S))
        ensures
            parts == (self.reader_view(), self.writer_view(), self.serializer_view()),
    {
        (self.reader.into_inner(), self.writer.into_inner(), self.serializer)
    }

    /// Swaps the two streams: what was read from is written to, and what was
    /// written to is read from. The serializer stays.
    pub fn transpose(self) -> (channel: UniChannel<W, R, S>)
        ensures
            channel.reader_view() == self.writer_view(),
            channel.writer_view() == self.reader_view(),
            channel.serializer_view() == self.serializer_view(),
    {
        let (reader, writer, serializer) = self.into_inner();
        UniChannel::new(writer, reader, serializer)
    }
}

impl<R, W, S> OwnedChannel<R, W, S> for UniChannel<R, W, S> where S: Serializer<R, W> {
    open spec fn spec_reader(&self) -> R {
        self.reader_view()
    }

    open spec fn spec_writer(&self) -> W {
        self.writer_view()
    }

    open spec fn spec_serializer(&self) -> S {
        self.serializer_view()
    }

    open spec fn ready(&self) -> bool {
        self.serializer_view().settles(self.reader_view())
    }

    open spec fn attempted(
        &self,
        after: Self,
        outcome: Result<Option<S::Message>, S::Error>,
    ) -> bool {
        &&& after.writer_view() == self.writer_view()
        &&& after.serializer_view() == self.serializer_view()
        &&& self.serializer_view().attempts(self.reader_view(), after.reader_view(), outcome)
    }

    open spec fn received(&self, after: Self, outcome: Result<S::Message, S::Error>) -> bool {
        &&& after.writer_view() == self.writer_view()
        &&& after.serializer_view() == self.serializer_view()
        &&& self.serializer_view().reads(self.reader_view(), after.reader_view(), outcome)
    }

    open spec fn sent(
        &self,
        message: S::Message,
        after: Self,
        outcome: Result<(), S::Error>,
    ) -> bool {
        &&& after.reader_view() == self.reader_view()
        &&& after.serializer_view() == self.serializer_view()
        &&& self.serializer_view().writes(self.writer_view(), message, after.writer_view(), outcome)
    }

    fn reader(&mut self) -> (reader: &mut R)
        ensures
            final(self).writer_view() == old(self).writer_view(),
    {
        self.reader.as_mut()
    }

    fn writer(&mut self) -> (writer: &mut W)
        ensures
            final(self).reader_view() == old(self).reader_view(),
    {
        self.writer.as_mut()
    }

    fn serializer(&self) -> (serializer: &S) {
        &self.serializer
    }

    fn try_read(&mut self) -> (outcome: Result<Option<S::Message>, S::Error>) {
        self.reader.try_read(&self.serializer)
    }

    fn read(&mut self) -> (outcome: Result<S::Message, S::Error>) {
        self.reader.read(&self.serializer)
    }

    fn write(&mut self, message: S::Message) -> (outcome: Result<(), S::Error>) {
        self.writer.write(&self.serializer, message)
    }
}

/// A channel that owns one stream for both directions, and the serializer.
#[derive(Debug, Clone, PartialEq, Eq, Hash)]
pub struct BiChannel<T, S> {
    io: T,
    serializer: S,
}

impl<T, S> BiChannel<T, S> {
    /// The stream of the channel.
    pub closed spec fn io_view(&self) -> T {
        self.io
    }

    /// The serializer of the channel.
    pub closed spec fn serializer_view(&self) -> S {
        self.serializer
    }

    /// Joins a stream and a serializer.
    pub fn new(io: T, serializer: S) -> (channel: Self)
        ensures
            channel.io_view() == io,
            channel.serializer_view() == serializer,
    {
        Self { io, serializer }
    }

    /// Takes the channel apart.
    pub fn into_inner(self) -> (parts: (T, S))
        ensures
            parts == (self.io_view(), self.serializer_view()),
    {
        (self.io, self.serializer)
    }
}

impl<T, S> OwnedChannel<T, T, S> for BiChannel<T, S> where S: Serializer<T, T> {
    open spec fn spec_reader(&self) -> T {
        self.io_view()
    }

    open spec fn spec_writer(&self) -> T {
        self.io_view()
    }

    open spec fn spec_serializer(&self) -> S {
        self.serializer_view()
    }

    open spec fn ready(&self) -> bool {
        self.serializer_view().settles(self.io_view())
    }

    open spec fn attempted(
        &self,
        after: Self,
        outcome: Result<Option<S::Message>, S::Error>,
    ) -> bool {
        &&& after.serializer_view() == self.serializer_view()
        &&& self.serializer_view().attempts(self.io_view(), after.io_view(), outcome)
    }

    open spec fn received(&self, after: Self, outcome: Result<S::Message, S::Error>) -> bool {
        &&& after.serializer_view() == self.serializer_view()
        &&& self.serializer_view().reads(self.io_view(), after.io_view(), outcome)
    }

    open spec fn sent(
        &self,
        message: S::Message,
        after: Self,
        outcome: Result<(), S::Error>,
    ) -> bool {
        &&& after.serializer_view() == self.serializer_view()
        &&& self.serializer_view().writes(self.io_view(), message, after.io_view(), outcome)
    }

    fn reader(&mut self) -> (reader: &mut T) {
        &mut self.io
    }

    fn writer(&mut self) -> (writer: &mut T) {
        &mut self.io
    }

    fn serializer(&self) -> (serializer: &S) {
        &self.serializer
    }

    fn try_read(&mut self) -> (outcome: Result<Option<S::Message>, S::Error>) {
        self.serializer.try_read(&mut self.io)
    }

    fn read(&mut self) -> (outcome: Result<S::Message, S::Error>) {
        self.serializer.read(&mut self.io)
    }

    fn write(&mut self, message: S::Message) -> (outcome: Result<(), S::Error>) {
        self.serializer.write(&mut self.io, message)
    }
}

} // verus!
