use vstd::prelude::*;

use crate::peer::PeerId;
use crate::registry::Payload;
use crate::registry::payload_kind_id;
use crate::registry::payload_priority;

verus! {

/// Scheduling class of a message kind. `Foreground` marks latency-sensitive,
/// user-interactive traffic; `Background` marks bulk or deferrable work.
#[derive(Clone, Copy, PartialEq, Eq, Structural, Debug, Hash)]
pub enum MessagePriority {
    Foreground,
    Background,
}

/// Generic carrier for exactly one payload of a registered message kind,
/// together with routing and correlation metadata.
///
/// `id` is unique per sender for the lifetime of a connection and assigned
/// monotonically by the sender. `responding_to` is present only on
/// responses and names the `id` of the envelope being answered.
/// `original_sender_id` survives relaying through an intermediary, so the
/// ultimate origin is preserved.
#[derive(Clone, PartialEq, Debug)]
pub struct Envelope {
    pub id: u32,
    pub responding_to: Option<u32>,
    pub original_sender_id: Option<PeerId>,
    pub payload: Payload,
}

/// A payload of a concrete kind `T` paired at receipt time with its
/// envelope metadata. Owned solely by the handler invoked for it.
#[derive(Clone, PartialEq, Debug)]
pub struct TypedEnvelope<T> {
    pub sender_id: PeerId,
    pub original_sender_id: Option<PeerId>,
    pub message_id: u32,
    pub payload: T,
}

/// The capability set every registered message kind implements: naming,
/// priority classification, and wrapping into / unwrapping out of the
/// generic payload carrier.
///
/// The two proof obligations make wrapping and unwrapping exact inverses:
/// a kind reads back precisely the values it wrote, and reads nothing out
/// of a carrier holding a different kind.
pub trait EnvelopedMessage: Sized {
    /// Process-stable numeric identifier of this kind, distinct for every
    /// registered kind; the router keys its dispatch table by it.
    spec fn kind_id_spec() -> u64;

    /// Stable name of this kind, for logging and metrics.
    spec fn name_spec() -> Seq<char>;

    /// Scheduling class of this kind.
    spec fn priority_spec() -> MessagePriority;

    /// The carrier variant a value of this kind wraps into.
    spec fn wrap_spec(self) -> Payload;

    /// The value of this kind a carrier holds, if it holds this kind.
    spec fn unwrap_spec(payload: Payload) -> Option<Self>;

    /// Unwrapping inverts wrapping, and a wrapped value carries this
    /// kind's identifier.
    proof fn lemma_wrap_unwrap(self)
        ensures
            Self::unwrap_spec(self.wrap_spec()) == Some(self),
            payload_kind_id(self.wrap_spec()) == Self::kind_id_spec(),
            payload_priority(self.wrap_spec()) == Self::priority_spec(),
    ;

    /// Unwrapping succeeds exactly on carriers of this kind, and wrapping
    /// inverts unwrapping.
    proof fn lemma_unwrap_wrap(payload: Payload)
        ensures
            Self::unwrap_spec(payload) is Some <==> payload_kind_id(payload)
                == Self::kind_id_spec(),
            Self::unwrap_spec(payload) is Some ==> Self::unwrap_spec(
                payload,
            )->Some_0.wrap_spec() == payload,
    ;

    fn kind_id() -> (r: u64)
        ensures
            r == Self::kind_id_spec(),
    ;

    fn name() -> (r: &'static str)
        ensures
            r@ == Self::name_spec(),
    ;

    fn priority() -> (r: MessagePriority)
        ensures
            r == Self::priority_spec(),
    ;

    /// Moves this value into the generic carrier.
    fn wrap(self) -> (p: Payload)
        ensures
            p == self.wrap_spec(),
    ;

    /// Reads a value of this kind back out of the carrier; `None` when the
    /// carrier holds a different kind.
    fn unwrap_payload(payload: Payload) -> (r: Option<Self>)
        ensures
            r == Self::unwrap_spec(payload),
    ;

    /// Moves this value into a full envelope with the given metadata.
    fn into_envelope(
        self,
        id: u32,
        responding_to: Option<u32>,
        original_sender_id: Option<PeerId>,
    ) -> (e: Envelope)
        ensures
            e.id == id,
            e.responding_to == responding_to,
            e.original_sender_id == original_sender_id,
            e.payload == self.wrap_spec(),
    ;

    /// Attempts to extract this kind from a generic envelope; `None` when
    /// the envelope carries a different kind. Never fails loudly: the
    /// dispatch layer treats a `None` as "try the next kind".
    fn from_envelope(envelope: Envelope) -> (r: Option<Self>)
        ensures
            r == Self::unwrap_spec(envelope.payload),
    ;
}

/// A request kind statically names exactly one response kind.
pub trait RequestMessage: EnvelopedMessage {
    type Response: EnvelopedMessage;
}

/// A message kind whose routing needs a live collaboration entity (a
/// project or a channel), identified by a numeric id in the payload.
pub trait EntityMessage: EnvelopedMessage {
    type Entity;

    /// The field of the payload that carries the entity id.
    spec fn entity_id_spec(&self) -> u64;

    fn remote_entity_id(&self) -> (r: u64)
        ensures
            r == self.entity_id_spec(),
    ;
}

/// Runtime type-erased form of a typed envelope: the payload is folded
/// back into the generic carrier, and the receipt metadata rides along.
/// A generic transport loop routes these by `payload_kind_id` without
/// knowing any concrete kind.
#[derive(Clone, PartialEq, Debug)]
pub struct AnyEnvelope {
    pub payload: Payload,
    pub sender_id: PeerId,
    pub original_sender_id: Option<PeerId>,
    pub message_id: u32,
}

/// The erased form of a typed envelope: its payload wrapped back into the
/// carrier, metadata unchanged.
pub open spec fn erased_of<T: EnvelopedMessage>(env: TypedEnvelope<T>) -> AnyEnvelope {
    AnyEnvelope {
        payload: env.payload.wrap_spec(),
        sender_id: env.sender_id,
        original_sender_id: env.original_sender_id,
        message_id: env.message_id,
    }
}

/// The typed envelope of kind `T` an erased envelope holds, if it holds
/// that kind.
pub open spec fn downcast_spec<T: EnvelopedMessage>(any: AnyEnvelope) -> Option<
    TypedEnvelope<T>,
> {
    match T::unwrap_spec(any.payload) {
        Some(payload) => Some(
            TypedEnvelope {
                sender_id: any.sender_id,
                original_sender_id: any.original_sender_id,
                message_id: any.message_id,
                payload,
            },
        ),
        None => None,
    }
}

/// Uniform, runtime-inspectable view over a strongly-typed envelope, for
/// a router that cannot be generic over every concrete kind.
pub trait AnyTypedEnvelope: Sized {
    /// The kind identifier of the wrapped payload.
    spec fn kind_id_of(&self) -> u64;

    /// The kind name of the wrapped payload.
    spec fn name_of(&self) -> Seq<char>;

    /// The scheduling class of the wrapped payload.
    spec fn priority_of(&self) -> MessagePriority;

    /// The erased form of this envelope.
    spec fn erased(self) -> AnyEnvelope;

    /// The peer that transmitted this envelope.
    spec fn sender_spec(&self) -> PeerId;

    /// The ultimate origin, when the envelope was relayed.
    spec fn original_sender_spec(&self) -> Option<PeerId>;

    /// The sender-assigned envelope id.
    spec fn message_id_spec(&self) -> u32;

    fn payload_type_id(&self) -> (r: u64)
        ensures
            r == self.kind_id_of(),
    ;

    fn payload_type_name(&self) -> (r: &'static str)
        ensures
            r@ == self.name_of(),
    ;

    /// Erases the concrete type; the result routes by `payload_kind_id`.
    fn into_any(self) -> (r: AnyEnvelope)
        ensures
            r == self.erased(),
            payload_kind_id(r.payload) == self.kind_id_of(),
    ;

    /// True exactly when the wrapped kind is `Background`; the scheduler
    /// uses this to decide queue placement.
    fn is_background(&self) -> (r: bool)
        ensures
            r == (self.priority_of() == MessagePriority::Background),
    ;

    fn original_sender_id(&self) -> (r: Option<PeerId>)
        ensures
            r == self.original_sender_spec(),
    ;

    fn sender_id(&self) -> (r: PeerId)
        ensures
            r == self.sender_spec(),
    ;

    fn message_id(&self) -> (r: u32)
        ensures
            r == self.message_id_spec(),
    ;
}

impl<T: EnvelopedMessage> AnyTypedEnvelope for TypedEnvelope<T> {
    open spec fn kind_id_of(&self) -> u64 {
        T::kind_id_spec()
    }

    open spec fn name_of(&self) -> Seq<char> {
        T::name_spec()
    }

    open spec fn priority_of(&self) -> MessagePriority {
        T::priority_spec()
    }

    open spec fn erased(self) -> AnyEnvelope {
        erased_of(self)
    }

    open spec fn sender_spec(&self) -> PeerId {
        self.sender_id
    }

    open spec fn original_sender_spec(&self) -> Option<PeerId> {
        self.original_sender_id
    }

    open spec fn message_id_spec(&self) -> u32 {
        self.message_id
    }

    fn payload_type_id(&self) -> (r: u64) {
        T::kind_id()
    }

    fn payload_type_name(&self) -> (r: &'static str) {
        T::name()
    }

    fn into_any(self) -> (r: AnyEnvelope) {
        let TypedEnvelope { sender_id, original_sender_id, message_id, payload } = self;
        proof {
            payload.lemma_wrap_unwrap();
        }
        AnyEnvelope { payload: payload.wrap(), sender_id, original_sender_id, message_id }
    }

    fn is_background(&self) -> (r: bool) {
        matches!(T::priority(), MessagePriority::Background)
    }

    fn original_sender_id(&self) -> (r: Option<PeerId>) {
        self.original_sender_id
    }

    fn sender_id(&self) -> (r: PeerId) {
        self.sender_id
    }

    fn message_id(&self) -> (r: u32) {
        self.message_id
    }
}

/// Recovers the concrete typed envelope of kind `T` from an erased one:
/// the downcast escape hatch a per-kind handler uses after the router
/// matched `payload_kind_id` against `T`'s kind identifier. Returns
/// `None` exactly when the erased envelope holds a different kind.
pub fn downcast<T: EnvelopedMessage>(any: AnyEnvelope) -> (r: Option<TypedEnvelope<T>>)
    ensures
        r == downcast_spec::<T>(any),
        r is Some <==> payload_kind_id(any.payload) == T::kind_id_spec(),
{
    proof {
        T::lemma_unwrap_wrap(any.payload);
    }
    let AnyEnvelope { payload, sender_id, original_sender_id, message_id } = any;
    match T::unwrap_payload(payload) {
        Some(payload) => Some(
            TypedEnvelope { sender_id, original_sender_id, message_id, payload },
        ),
        None => None,
    }
}

/// Pairs a just-received envelope with the transmitting peer as a typed
/// envelope of kind `T`; `None` exactly when the envelope carries a
/// different kind.
pub fn receive<T: EnvelopedMessage>(envelope: Envelope, sender_id: PeerId) -> (r: Option<
    TypedEnvelope<T>,
>)
    ensures
        match r {
            Some(env) => {
                &&& T::unwrap_spec(envelope.payload) == Some(env.payload)
                &&& env.sender_id == sender_id
                &&& env.original_sender_id == envelope.original_sender_id
                &&& env.message_id == envelope.id
            },
            None => T::unwrap_spec(envelope.payload) is None,
        },
{
    let message_id = envelope.id;
    let original_sender_id = envelope.original_sender_id;
    match T::from_envelope(envelope) {
        Some(payload) => Some(
            TypedEnvelope { sender_id, original_sender_id, message_id, payload },
        ),
        None => None,
    }
}

/// Erasing a typed envelope and downcasting it back to the same kind is
/// the identity, and a downcast to the right kind never fails: dispatch
/// keyed by `payload_kind_id` always hands a handler its own kind.
pub proof fn lemma_erase_downcast_round_trip<T: EnvelopedMessage>(env: TypedEnvelope<T>)
    ensures
        downcast_spec::<T>(erased_of(env)) == Some(env),
        payload_kind_id(erased_of(env).payload) == T::kind_id_spec(),
{
    env.payload.lemma_wrap_unwrap();
}

/// A downcast of an erased envelope succeeds exactly when the erased
/// payload carries `T`'s kind identifier, and erasing the result gives
/// the erased envelope back unchanged.
pub proof fn lemma_downcast_exact<T: EnvelopedMessage>(any: AnyEnvelope)
    ensures
        downcast_spec::<T>(any) is Some <==> payload_kind_id(any.payload)
            == T::kind_id_spec(),
        downcast_spec::<T>(any) is Some ==> erased_of(downcast_spec::<T>(any)->Some_0)
            == any,
{
    T::lemma_unwrap_wrap(any.payload);
}

/// Wrapping a payload into an envelope and extracting it again returns
/// the payload unchanged, whatever metadata the envelope carries.
pub proof fn lemma_envelope_round_trip<T: EnvelopedMessage>(
    payload: T,
    id: u32,
    responding_to: Option<u32>,
    original_sender_id: Option<PeerId>,
)
    ensures
        T::unwrap_spec(
            Envelope {
                id,
                responding_to,
                original_sender_id,
                payload: payload.wrap_spec(),
            }.payload,
        ) == Some(payload),
{
    payload.lemma_wrap_unwrap();
}

impl AnyEnvelope {
    /// The kind identifier of the carried payload: the router's dispatch
    /// key.
    pub fn payload_kind(&self) -> (r: u64)
        ensures
            r == payload_kind_id(self.payload),
    {
        crate::registry::payload_kind(&self.payload)
    }

    /// True exactly when the carried kind is `Background`.
    pub fn is_background(&self) -> (r: bool)
        ensures
            r == (payload_priority(self.payload) == MessagePriority::Background),
    {
        matches!(
            crate::registry::payload_priority_of(&self.payload),
            MessagePriority::Background
        )
    }
}

} // verus!
