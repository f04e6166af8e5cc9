//! The codec contract between byte streams and messages.
//!
//! A serializer gives a byte stream its wire format. What a call may do to a
//! stream is stated as a relation between the stream before the call, the
//! stream after it and the outcome, so that one contract fits a queue in memory,
//! whose every step is determined, and a pipe, whose next bytes nobody knows.

use vstd::prelude::*;

verus! {

/// Turns a readable stream `R` into a source of messages and a writable stream
/// `W` into a sink for them.
///
/// An implementation says what its operations do by defining `attempts`,
/// `reads` and `writes`, and which readers a blocking read can be trusted with
/// by defining `settles` and `patience`. One that defines none of them promises
/// nothing, and no verified caller can hand it a reader to block on.
pub trait Serializer<R, W> {
    type Error;

    type Message;

    /// Whether one decode attempt on `before` can leave the reader as `after`
    /// and return `outcome`. `Ok(None)` stands for "no message yet".
    open spec fn attempts(
        &self,
        before: R,
        after: R,
        outcome: Result<Option<Self::Message>, Self::Error>,
    ) -> bool {
        true
    }

    /// Whether a blocking read on `before` can leave the reader as `after` and
    /// return `outcome`.
    open spec fn reads(
        &self,
        before: R,
        after: R,
        outcome: Result<Self::Message, Self::Error>,
    ) -> bool {
        true
    }

    /// Whether writing `message` to `before` can leave the writer as `after`
    /// and return `outcome`.
    open spec fn writes(
        &self,
        before: W,
        message: Self::Message,
        after: W,
        outcome: Result<(), Self::Error>,
    ) -> bool {
        true
    }

    /// Whether repeated attempts on `reader` come to a message or an error
    /// after finitely many empty ones.
    open spec fn settles(&self, reader: R) -> bool {
        false
    }

    /// A bound on the number of empty attempts that a reader which settles can
    /// still make.
    open spec fn patience(&self, reader: R) -> nat {
        0
    }

    /// Tries to decode one message. Gives `Ok(None)` where no whole message
    /// has arrived, and then takes nothing that belongs to one.
    ///
    /// On a reader that settles an attempt is a step of the blocking read: a
    /// message or an error is what the blocking read returns, with the reader
    /// as the attempt left it; an empty attempt leaves a reader that settles
    /// sooner, and the blocking read goes on from there.
    fn try_read(&self, reader: &mut R) -> (outcome: Result<Option<Self::Message>, Self::Error>)
        ensures
            self.attempts(*old(reader), *final(reader), outcome),
            self.settles(*old(reader)) ==> match outcome {
                Ok(Some(message)) => self.reads(*old(reader), *final(reader), Ok(message)),
                Ok(None) => {
                    &&& self.settles(*final(reader))
                    &&& self.patience(*final(reader)) < self.patience(*old(reader))
                    &&& forall|after: R, later: Result<Self::Message, Self::Error>|
                        self.reads(*final(reader), after, later) ==> #[trigger] self.reads(
                            *old(reader),
                            after,
                            later,
                        )
                },
                Err(error) => self.reads(*old(reader), *final(reader), Err(error)),
            },
    ;

    /// Reads one message: repeats `try_read` until it gives a message or fails.
    ///
    /// Nothing bounds the number of empty attempts but the reader itself, so
    /// the caller has to hand over one that settles.
    fn read(&self, reader: &mut R) -> (outcome: Result<Self::Message, Self::Error>)
        requires
            self.settles(*old(reader)),
        ensures
            self.reads(*old(reader), *final(reader), outcome),
    {
        loop
            invariant
                self.settles(*reader),
                forall|after: R, later: Result<Self::Message, Self::Error>|
                    self.reads(*reader, after, later) ==> #[trigger] self.reads(
                        *old(reader),
                        after,
                        later,
                    ),
            decreases self.patience(*reader),
        {
            match self.try_read(reader) {
                Ok(Some(message)) => {
                    return Ok(message);
                },
                Ok(None) => {},
                Err(error) => {
                    return Err(error);
                },
            }
        }
    }

    /// Encodes `message`, writes it in full and flushes the writer.
    fn write(&self, writer: &mut W, message: Self::Message) -> (outcome: Result<(), Self::Error>)
        ensures
            self.writes(*old(writer), message, *final(writer), outcome),
    ;
}

} // verus!
