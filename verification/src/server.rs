//! The request and response cycle, and the flag of a server that runs in the
//! background.

use vstd::prelude::*;
use std::marker::PhantomData;
use std::sync::Arc;
use std::sync::atomic::AtomicBool;
use std::sync::atomic::Ordering;
use crate::serializer::Serializer;
use crate::channel::OwnedChannel;

verus! {

/// A channel and the handler that answers what arrives on it.
pub struct Server<R, W, S, C, H> {
    _reader: PhantomData<R>,
    _writer: PhantomData<W>,
    _serializer: PhantomData<S>,
    channel: C,
    handler: H,
}

impl<R, W, S, C, H> Server<R, W, S, C, H> where
    S: Serializer<R, W>,
    C: OwnedChannel<R, W, S>,
    H: Fn(S::Message) -> Option<S::Message>,
{
    /// The channel of the server.
    pub closed spec fn channel_view(&self) -> C {
        self.channel
    }

    /// The handler of the server.
    pub closed spec fn handler_view(&self) -> H {
        self.handler
    }

    /// Whether the handler takes every message.
    pub open spec fn attentive(&self) -> bool {
        forall|message: S::Message| call_requires(self.handler_view(), (message,))
    }

    /// Whether the handler can give `response` to `message`.
    pub open spec fn answers(&self, message: S::Message, response: Option<S::Message>) -> bool {
        call_ensures(self.handler_view(), (message,), response)
    }

    /// Whether acting on `response` can turn the server into `after` and
    /// return `outcome`: a reply is written, once; without one nothing is
    /// written.
    pub open spec fn replied(
        &self,
        response: Option<S::Message>,
        after: Self,
        outcome: Result<(), S::Error>,
    ) -> bool {
        &&& after.handler_view() == self.handler_view()
        &&& match response {
            Some(reply) => self.channel_view().sent(reply, after.channel_view(), outcome),
            None => after.channel_view() == self.channel_view() && outcome == Ok::<(), S::Error>(
                (),
            ),
        }
    }

    /// Whether one cycle can turn the server into `after` and return
    /// `outcome`: one blocking read; where it fails, its error and nothing
    /// else; where it gives a message, what the handler's response to it
    /// makes of the channel that the read left.
    pub open spec fn cycled(&self, after: Self, outcome: Result<(), S::Error>) -> bool {
        &&& after.handler_view() == self.handler_view()
        &&& exists|between: C, received: Result<S::Message, S::Error>|
            {
                &&& #[trigger] self.channel_view().received(between, received)
                &&& match received {
                    Ok(message) => exists|response: Option<S::Message>|
                        {
                            &&& #[trigger] self.answers(message, response)
                            &&& match response {
                                Some(reply) => between.sent(reply, after.channel_view(), outcome),
                                None => after.channel_view() == between && outcome == Ok::<
                                    (),
                                    S::Error,
                                >(()),
                            }
                        },
                    Err(error) => after.channel_view() == between && outcome == Err::<
                        (),
                        S::Error,
                    >(error),
                }
            }
    }

    /// Whether one turn of the background loop, entered with the flag read as
    /// `alive`, can turn the server into `after` and leave the loop running
    /// (`staying`) or not. With the flag down nothing is read and the loop
    /// ends. With the flag up one cycle runs; the loop ends only where the
    /// cycle fails and `errors_handler` calls the error fatal.
    pub open spec fn turned<F: Fn(S::Error) -> bool>(
        &self,
        alive: bool,
        errors_handler: F,
        after: Self,
        staying: bool,
    ) -> bool {
        if alive {
            exists|outcome: Result<(), S::Error>|
                {
                    &&& #[trigger] self.cycled(after, outcome)
                    &&& Self::judged(outcome, errors_handler, staying)
                }
        } else {
            after == *self && !staying
        }
    }

    /// Whether the loop can go on (`staying`) after a cycle that returned
    /// `outcome`: it does after a success, and after an error that
    /// `errors_handler` does not call fatal.
    pub open spec fn judged<F: Fn(S::Error) -> bool>(
        outcome: Result<(), S::Error>,
        errors_handler: F,
        staying: bool,
    ) -> bool {
        match outcome {
            Ok(_) => staying,
            Err(error) => exists|fatal: bool|
                #[trigger] call_ensures(errors_handler, (error,), fatal) && staying == !fatal,
        }
    }

    /// Joins a channel and a handler.
    pub fn new(channel: C, handler: H) -> (server: Self)
        ensures
            server.channel_view() == channel,
            server.handler_view() == handler,
    {
        Self {
            _reader: PhantomData,
            _writer: PhantomData,
            _serializer: PhantomData,
            channel,
            handler,
        }
    }

    /// Lends the channel.
    pub fn channel(&mut self) -> (channel: &mut C)
        ensures
            *channel == old(self).channel_view(),
            final(self).channel_view() == *final(channel),
            final(self).handler_view() == old(self).handler_view(),
    {
        &mut self.channel
    }

    /// Acts on the handler's response: writes the reply, where there is one.
    pub fn reply(&mut self, response: Option<S::Message>) -> (outcome: Result<(), S::Error>)
        ensures
            old(self).replied(response, *final(self), outcome),
    {
        match response {
            Some(reply) => self.channel.write(reply),
            None => Ok(()),
        }
    }

    /// One cycle: reads one message, hands it to the handler, and writes the
    /// handler's reply where it gives one.
    ///
    /// A read error is returned before the handler is called. A write error is
    /// returned as it is and the reply is dropped: nothing is read or handled
    /// again.
    pub fn update(&mut self) -> (outcome: Result<(), S::Error>)
        requires
            old(self).channel_view().ready(),
            old(self).attentive(),
        ensures
            old(self).cycled(*final(self), outcome),
    {
        match self.channel.read() {
            Ok(message) => {
                let ghost between = self.channel;
                assert(call_requires(old(self).handler_view(), (message,)));
                let response = (self.handler)(message);
                assert(old(self).answers(message, response));
                let outcome = self.reply(response);
                assert(old(self).channel_view().received(between, Ok(message)));
                outcome
            },
            Err(error) => {
                assert(old(self).channel_view().received(self.channel, Err(error)));
                Err(error)
            },
        }
    }

    /// Decides whether the background loop goes on after a cycle that
    /// returned `outcome`, asking `errors_handler` about an error.
    pub fn verdict<F: Fn(S::Error) -> bool>(
        outcome: Result<(), S::Error>,
        errors_handler: &F,
    ) -> (staying: bool)
        requires
            forall|error: S::Error| call_requires(*errors_handler, (error,)),
        ensures
            Self::judged(outcome, *errors_handler, staying),
    {
        match outcome {
            Ok(_) => true,
            Err(error) => {
                let fatal = errors_handler(error);
                !fatal
            },
        }
    }

    /// One turn of the background loop, entered with the flag read as
    /// `alive`: tells whether the loop goes on.
    pub fn turn<F: Fn(S::Error) -> bool>(
        &mut self,
        alive: bool,
        errors_handler: &F,
    ) -> (staying: bool)
        requires
            alive ==> old(self).channel_view().ready(),
            old(self).attentive(),
            forall|error: S::Error| call_requires(*errors_handler, (error,)),
        ensures
            old(self).turned(alive, *errors_handler, *final(self), staying),
    {
        if alive {
            let outcome = self.update();
            Self::verdict(outcome, errors_handler)
        } else {
            false
        }
    }
}

/// The flag of a server that runs in the background: up while it runs. The
/// handle and the background loop share it.
#[derive(Debug, Clone)]
pub struct Daemon(Arc<AtomicBool>);

impl Daemon {
    /// A new flag, up.
    pub fn new() -> Self {
        Daemon(Arc::new(AtomicBool::new(true)))
    }

    /// Reads the flag: whether the background loop has not been told to stop
    /// and has not stopped on a fatal error.
    pub fn is_alive(&self) -> bool {
        self.0.load(Ordering::Relaxed)
    }

    /// Takes the flag down. The background loop sees it before its next cycle.
    pub fn kill(self) {
        self.0.store(false, Ordering::Release);
    }

    /// One turn of the background loop of `server` under this flag: reads the
    /// flag, lets the server take its turn, and takes the flag down where the
    /// server ends the loop. Tells whether the loop goes on.
    pub fn turn<R, W, S, C, H, F>(
        &self,
        server: &mut Server<R, W, S, C, H>,
        errors_handler: &F,
    ) -> (staying: bool) where
        S: Serializer<R, W>,
        C: OwnedChannel<R, W, S>,
        H: Fn(S::Message) -> Option<S::Message>,
        F: Fn(S::Error) -> bool,

        requires
            old(server).channel_view().ready(),
            old(server).attentive(),
            forall|error: S::Error| call_requires(*errors_handler, (error,)),
        ensures
            exists|alive: bool| #[trigger]
                old(server).turned(alive, *errors_handler, *final(server), staying),
    {
        let alive = self.0.load(Ordering::Relaxed);
        let staying = server.turn(alive, errors_handler);
        if alive && !staying {
            self.0.store(false, Ordering::Release);
        }
        staying
    }
}

/// A cycle on a channel that can only receive `message`, with a handler that
/// can only answer `reply` to it, writes `reply` once, to the channel as the
/// read left it, and returns what that write returned.
pub proof fn lemma_cycle_with_reply<R, W, S, C, H>(
    server: Server<R, W, S, C, H>,
    after: Server<R, W, S, C, H>,
    outcome: Result<(), S::Error>,
    message: S::Message,
    reply: S::Message,
) where
    S: Serializer<R, W>,
    C: OwnedChannel<R, W, S>,
    H: Fn(S::Message) -> Option<S::Message>,

    requires
        server.cycled(after, outcome),
        forall|between: C, received: Result<S::Message, S::Error>| #[trigger]
            server.channel_view().received(between, received) ==> received == Ok::<
                S::Message,
                S::Error,
            >(message),
        forall|response: Option<S::Message>| #[trigger]
            server.answers(message, response) ==> response == Some(reply),
    ensures
        exists|between: C|
            {
                &&& #[trigger] server.channel_view().received(between, Ok(message))
                &&& between.sent(reply, after.channel_view(), outcome)
            },
{
}

/// A cycle on a channel that can only receive `message`, with a handler that
/// has no answer to it, writes nothing: it succeeds and leaves the channel as
/// the read left it.
pub proof fn lemma_cycle_without_reply<R, W, S, C, H>(
    server: Server<R, W, S, C, H>,
    after: Server<R, W, S, C, H>,
    outcome: Result<(), S::Error>,
    message: S::Message,
) where
    S: Serializer<R, W>,
    C: OwnedChannel<R, W, S>,
    H: Fn(S::Message) -> Option<S::Message>,

    requires
        server.cycled(after, outcome),
        forall|between: C, received: Result<S::Message, S::Error>| #[trigger]
            server.channel_view().received(between, received) ==> received == Ok::<
                S::Message,
                S::Error,
            >(message),
        forall|response: Option<S::Message>| #[trigger]
            server.answers(message, response) ==> response == None::<S::Message>,
    ensures
        outcome == Ok::<(), S::Error>(()),
        server.channel_view().received(after.channel_view(), Ok(message)),
{
}

/// A cycle whose read fails returns the read's error and stops there: the
/// channel is as the read left it.
pub proof fn lemma_read_error_ends_cycle<R, W, S, C, H>(
    server: Server<R, W, S, C, H>,
    after: Server<R, W, S, C, H>,
    outcome: Result<(), S::Error>,
) where
    S: Serializer<R, W>,
    C: OwnedChannel<R, W, S>,
    H: Fn(S::Message) -> Option<S::Message>,

    requires
        server.cycled(after, outcome),
        forall|between: C, received: Result<S::Message, S::Error>| #[trigger]
            server.channel_view().received(between, received) ==> received is Err,
    ensures
        outcome is Err,
        server.channel_view().received(
            after.channel_view(),
            Err::<S::Message, S::Error>(outcome->Err_0),
        ),
{
}

/// A cycle whose write fails, after a read that gave `message` and a handler
/// that answered `reply`, returns the error of that write and stops there: the
/// channel is as the one failed write left it, so nothing was read or handled
/// again.
pub proof fn lemma_write_error_ends_cycle<R, W, S, C, H>(
    server: Server<R, W, S, C, H>,
    after: Server<R, W, S, C, H>,
    outcome: Result<(), S::Error>,
    message: S::Message,
    reply: S::Message,
) where
    S: Serializer<R, W>,
    C: OwnedChannel<R, W, S>,
    H: Fn(S::Message) -> Option<S::Message>,

    requires
        server.cycled(after, outcome),
        forall|between: C, received: Result<S::Message, S::Error>| #[trigger]
            server.channel_view().received(between, received) ==> received == Ok::<
                S::Message,
                S::Error,
            >(message),
        forall|response: Option<S::Message>| #[trigger]
            server.answers(message, response) ==> response == Some(reply),
        forall|between: C, then: C, written: Result<(), S::Error>|
            server.channel_view().received(between, Ok(message)) && #[trigger] between.sent(
                reply,
                then,
                written,
            ) ==> written is Err,
    ensures
        outcome is Err,
        exists|between: C|
            {
                &&& #[trigger] server.channel_view().received(between, Ok(message))
                &&& between.sent(reply, after.channel_view(), outcome)
            },
{
}

/// A turn of the background loop that finds the flag down reads nothing: the
/// server is as it was, and the loop ends.
pub proof fn lemma_turn_with_flag_down<R, W, S, C, H, F>(
    server: Server<R, W, S, C, H>,
    errors_handler: F,
    after: Server<R, W, S, C, H>,
    staying: bool,
) where
    S: Serializer<R, W>,
    C: OwnedChannel<R, W, S>,
    H: Fn(S::Message) -> Option<S::Message>,
    F: Fn(S::Error) -> bool,

    requires
        server.turned(false, errors_handler, after, staying),
    ensures
        !staying,
        after == server,
{
}

} // verus!
