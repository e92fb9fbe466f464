//! Messages and the envelopes that carry them to local or remote actors.
use crate::actor::context::ActorContext;
use crate::actor::Actor;
use std::marker::PhantomData;
use vstd::prelude::*;
use vstd::string::StringExecFns;

verus! {

/// A message in transit: the value itself for a local actor, its encoding
/// for a remote one.
pub enum Envelope<M> {
    Local(M),
    Remote(Vec<u8>),
}

/// Which form of envelope a sender asks for.
#[derive(Clone, Copy, Debug, PartialEq, Eq, Structural)]
pub enum EnvelopeType {
    Local,
    Remote,
}

/// Why a message could not be put into a remote envelope.
#[derive(Clone, Copy, Debug, PartialEq, Eq, Structural)]
pub enum MessageWrapErr {
    Unknown,
    NotTransmittable,
    SerializationErr,
}

/// Why a remote envelope could not be turned back into a message.
#[derive(Clone, Copy, Debug, PartialEq, Eq, Structural)]
pub enum MessageUnwrapErr {
    Unknown,
    NotTransmittable,
    DeserializationErr,
}

impl MessageWrapErr {
    /// The text that describes the failure.
    pub open spec fn text(self) -> Seq<char> {
        match self {
            MessageWrapErr::NotTransmittable =>
                "Message serialisation not supported, messages must override Message::as_remote_envelop and Message::write_remote_result"@,
            MessageWrapErr::SerializationErr => "Message failed to serialise"@,
            MessageWrapErr::Unknown => "Message failed to serialise, unknown error"@,
        }
    }

    /// Describes the failure in words.
    pub fn message(&self) -> (text: String)
        ensures
            text@ == self.text(),
    {
        match self {
            MessageWrapErr::NotTransmittable => String::from_str(
                "Message serialisation not supported, messages must override Message::as_remote_envelop and Message::write_remote_result",
            ),
            MessageWrapErr::SerializationErr => String::from_str("Message failed to serialise"),
            MessageWrapErr::Unknown => String::from_str(
                "Message failed to serialise, unknown error",
            ),
        }
    }
}

impl MessageUnwrapErr {
    /// The text that describes the failure.
    pub open spec fn text(self) -> Seq<char> {
        match self {
            MessageUnwrapErr::NotTransmittable =>
                "Message deserialisation not supported, messages must override Message::as_remote_envelope, Message::from_remote_envelope, Message::read_remote_result, and Message::write_remote_result"@,
            MessageUnwrapErr::DeserializationErr => "Message failed to deserialise"@,
            MessageUnwrapErr::Unknown => "Message failed to deserialise, unknown error"@,
        }
    }

    /// Describes the failure in words.
    pub fn message(&self) -> (text: String)
        ensures
            text@ == self.text(),
    {
        match self {
            MessageUnwrapErr::NotTransmittable => String::from_str(
                "Message deserialisation not supported, messages must override Message::as_remote_envelope, Message::from_remote_envelope, Message::read_remote_result, and Message::write_remote_result",
            ),
            MessageUnwrapErr::DeserializationErr => String::from_str(
                "Message failed to deserialise",
            ),
            MessageUnwrapErr::Unknown => String::from_str(
                "Message failed to deserialise, unknown error",
            ),
        }
    }
}

/// Puts the outcome of an encoding into a remote envelope.
pub fn remote_envelope<M>(encoded: Result<Vec<u8>, MessageWrapErr>) -> (r: Result<
    Envelope<M>,
    MessageWrapErr,
>)
    ensures
        r == match encoded {
            Ok(bytes) => Ok::<Envelope<M>, MessageWrapErr>(Envelope::Remote(bytes)),
            Err(e) => Err(e),
        },
{
    match encoded {
        Ok(bytes) => Ok(Envelope::Remote(bytes)),
        Err(e) => Err(e),
    }
}

/// A value that can be sent to an actor.
///
/// A message travels to a local actor as it is. To reach a remote actor it
/// must say how it is encoded; a message that does not is not transmittable.
pub trait Message: Sized {
    /// What the handling actor answers.
    type Result;

    /// Wraps the message for a local or a remote receiver: a local
    /// envelope holds the message itself, a remote one the bytes that
    /// `as_bytes` gives; where `as_bytes` fails, its error is handed on.
    fn into_envelope(self, envelope_type: EnvelopeType) -> (r: Result<Envelope<Self>, MessageWrapErr>)
        ensures
            envelope_type == EnvelopeType::Local ==> r == Ok::<Envelope<Self>, MessageWrapErr>(
                Envelope::Local(self),
            ),
            envelope_type == EnvelopeType::Remote ==> exists|
                encoded: Result<Vec<u8>, MessageWrapErr>,
            |
                call_ensures(Self::as_bytes, (&self,), encoded) && r == (match encoded {
                    Ok(bytes) => Ok::<Envelope<Self>, MessageWrapErr>(Envelope::Remote(bytes)),
                    Err(e) => Err(e),
                }),
    {
        match envelope_type {
            EnvelopeType::Local => Ok(Envelope::Local(self)),
            EnvelopeType::Remote => remote_envelope(self.as_bytes()),
        }
    }

    /// Encodes the message for the wire. A message that does not say how
    /// has no encoding.
    fn as_bytes(&self) -> (r: Result<Vec<u8>, MessageWrapErr>)
        default_ensures
            r == Err::<Vec<u8>, MessageWrapErr>(MessageWrapErr::NotTransmittable),
    {
        Err(MessageWrapErr::NotTransmittable)
    }

    /// Takes the message out of its envelope: out of a local one the
    /// message itself, out of a remote one what `from_bytes` makes of its
    /// bytes.
    fn from_envelope(envelope: Envelope<Self>) -> (r: Result<Self, MessageUnwrapErr>)
        ensures
            envelope matches Envelope::Local(msg) ==> r == Ok::<Self, MessageUnwrapErr>(msg),
            envelope matches Envelope::Remote(bytes) ==> call_ensures(
                Self::from_bytes,
                (bytes,),
                r,
            ),
    {
        match envelope {
            Envelope::Local(msg) => Ok(msg),
            Envelope::Remote(bytes) => Self::from_bytes(bytes),
        }
    }

    /// Decodes a message from the wire. A kind of message that does not
    /// say how cannot be read.
    fn from_bytes(bytes: Vec<u8>) -> (r: Result<Self, MessageUnwrapErr>)
        default_ensures
            r == Err::<Self, MessageUnwrapErr>(MessageUnwrapErr::NotTransmittable),
    {
        Err(MessageUnwrapErr::NotTransmittable)
    }

    /// Decodes the answer of a remote actor.
    fn read_remote_result(bytes: Vec<u8>) -> (r: Result<Self::Result, MessageUnwrapErr>)
        default_ensures
            r == Err::<Self::Result, MessageUnwrapErr>(MessageUnwrapErr::NotTransmittable),
    {
        Err(MessageUnwrapErr::NotTransmittable)
    }

    /// Encodes the answer for the remote sender.
    fn write_remote_result(res: Self::Result) -> (r: Result<Vec<u8>, MessageWrapErr>)
        default_ensures
            r == Err::<Vec<u8>, MessageWrapErr>(MessageWrapErr::NotTransmittable),
    {
        Err(MessageWrapErr::NotTransmittable)
    }
}

/// An actor that knows what to do with messages of kind `M`.
pub trait Handler<M: Message>: Actor {
    /// What the handler does: how the actor and its context stand after
    /// `message`, and what is answered.
    /// A handler that does not say what it does may do anything.
    open spec fn handled(
        before: Self,
        ctx_before: ActorContext,
        message: M,
        after: Self,
        ctx_after: ActorContext,
        result: M::Result,
    ) -> bool {
        true
    }

    /// Handles one message to completion.
    fn handle(&mut self, message: M, ctx: &mut ActorContext) -> (result: M::Result)
        ensures
            Self::handled(*old(self), *old(ctx), message, *final(self), *final(ctx), result),
    ;
}

/// One message on its way through a mailbox, with the channel on which the
/// sender waits for the answer, if it waits.
#[verifier::reject_recursive_types(A)]
pub struct ActorMessage<A, M, S> {
    msg: Option<M>,
    sender: Option<S>,
    marker: PhantomData<A>,
}

impl<A: Handler<M>, M: Message, S> ActorMessage<A, M, S> {
    /// The message, until it has been handled.
    pub closed spec fn message(&self) -> Option<M> {
        self.msg
    }

    /// The channel for the answer, until it has been used.
    pub closed spec fn sender(&self) -> Option<S> {
        self.sender
    }

    pub fn new(msg: M, sender: Option<S>) -> (message: ActorMessage<A, M, S>)
        ensures
            message.message() == Some(msg),
            message.sender() == sender,
    {
        ActorMessage { msg: Some(msg), sender, marker: PhantomData }
    }

    /// Lets the actor handle the message and pairs the answer with the
    /// channel on which it is awaited. Without a waiting sender the answer
    /// is dropped. A message is handled once.
    pub fn handle(&mut self, actor: &mut A, ctx: &mut ActorContext) -> (answer: Option<
        (S, M::Result),
    >)
        requires
            old(self).message().is_some(),
        ensures
            final(self).message().is_none(),
            final(self).sender().is_none(),
            answer.is_some() == old(self).sender().is_some(),
            answer matches Some((sender, result)) ==> Some(sender) == old(self).sender()
                && A::handled(
                *old(actor),
                *old(ctx),
                old(self).message().unwrap(),
                *final(actor),
                *final(ctx),
                result,
            ),
            answer.is_none() ==> exists|result: M::Result|
                A::handled(
                    *old(actor),
                    *old(ctx),
                    old(self).message().unwrap(),
                    *final(actor),
                    *final(ctx),
                    result,
                ),
    {
        let msg = self.msg.take().unwrap();
        let result = actor.handle(msg, ctx);
        match self.sender.take() {
            Some(sender) => Some((sender, result)),
            None => None,
        }
    }
}

impl<M> Envelope<M> {
    /// The encoded message of a remote envelope.
    pub fn into_bytes(self) -> (bytes: Vec<u8>)
        requires
            self is Remote,
        ensures
            self == Envelope::<M>::Remote(bytes),
    {
        match self {
            Envelope::Remote(bytes) => bytes,
            Envelope::Local(_) => unreached(),
        }
    }
}

/// A message that runs a closure on the actor's state.
#[verifier::reject_recursive_types(A)]
#[verifier::reject_recursive_types(R)]
pub struct Exec<F, A, R> where F: FnMut(&mut A) -> R {
    func: F,
    _a: PhantomData<A>,
}

impl<F, A, R> Exec<F, A, R> where F: FnMut(&mut A) -> R {
    /// The closure that the message carries.
    pub closed spec fn func(&self) -> F {
        self.func
    }

    pub fn new(f: F) -> (exec: Exec<F, A, R>)
        ensures
            exec.func() == f,
    {
        Exec { func: f, _a: PhantomData }
    }

    /// Hands the closure to the actor that is to run it.
    pub fn into_func(self) -> (f: F)
        ensures
            f == self.func(),
    {
        self.func
    }
}

impl<F, A, R> Message for Exec<F, A, R> where F: FnMut(&mut A) -> R {
    type Result = R;
}

} // verus!
