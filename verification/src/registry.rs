use vstd::prelude::*;

use crate::envelope::EntityMessage;
use crate::envelope::Envelope;
use crate::envelope::EnvelopedMessage;
use crate::envelope::MessagePriority;
use crate::envelope::RequestMessage;
use crate::peer::PeerId;
use crate::worktree::UpdateWorktree;

verus! {

// The registry binds every concrete message kind to the envelope
// contracts: the carrier variant it occupies, its stable name, its
// numeric kind identifier, its scheduling class, its response kind when
// it is a request, and its entity scoping when it is entity-addressed.

/// Bare acknowledgement, the response of fire-and-forget requests.
#[derive(Clone, PartialEq, Debug)]
pub struct Ack {}

/// Liveness probe.
#[derive(Clone, PartialEq, Debug)]
pub struct Ping {}

/// Asks the server to start sharing the given project.
#[derive(Clone, PartialEq, Debug)]
pub struct ShareProject {
    pub project_id: u64,
}

/// Answer to `ShareProject`.
#[derive(Clone, PartialEq, Debug)]
pub struct ShareProjectResponse {}

/// Tells channel members that a chat message arrived.
#[derive(Clone, PartialEq, Debug)]
pub struct ChannelMessageSent {
    pub channel_id: u64,
    pub message_id: u64,
}

/// Bulk lookup of previously computed embeddings.
#[derive(Clone, PartialEq, Debug)]
pub struct GetCachedEmbeddings {
    pub keys: Vec<u64>,
}

/// Answer to `GetCachedEmbeddings`.
#[derive(Clone, PartialEq, Debug)]
pub struct GetCachedEmbeddingsResponse {
    pub hits: Vec<u64>,
}

/// The envelope carrier: holds exactly one payload of one registered
/// kind.
#[derive(Clone, PartialEq, Debug)]
pub enum Payload {
    Ack(Ack),
    Ping(Ping),
    ShareProject(ShareProject),
    ShareProjectResponse(ShareProjectResponse),
    UpdateWorktree(UpdateWorktree),
    ChannelMessageSent(ChannelMessageSent),
    GetCachedEmbeddings(GetCachedEmbeddings),
    GetCachedEmbeddingsResponse(GetCachedEmbeddingsResponse),
}

pub const KIND_ACK: u64 = 1;

pub const KIND_PING: u64 = 2;

pub const KIND_SHARE_PROJECT: u64 = 3;

pub const KIND_SHARE_PROJECT_RESPONSE: u64 = 4;

pub const KIND_UPDATE_WORKTREE: u64 = 5;

pub const KIND_CHANNEL_MESSAGE_SENT: u64 = 6;

pub const KIND_GET_CACHED_EMBEDDINGS: u64 = 7;

pub const KIND_GET_CACHED_EMBEDDINGS_RESPONSE: u64 = 8;

/// True exactly for the kind identifiers of the registered kinds.
pub open spec fn is_registered_kind(kind_id: u64) -> bool {
    ||| kind_id == KIND_ACK
    ||| kind_id == KIND_PING
    ||| kind_id == KIND_SHARE_PROJECT
    ||| kind_id == KIND_SHARE_PROJECT_RESPONSE
    ||| kind_id == KIND_UPDATE_WORKTREE
    ||| kind_id == KIND_CHANNEL_MESSAGE_SENT
    ||| kind_id == KIND_GET_CACHED_EMBEDDINGS
    ||| kind_id == KIND_GET_CACHED_EMBEDDINGS_RESPONSE
}

/// The kind identifier of the payload a carrier holds.
pub open spec fn payload_kind_id(p: Payload) -> u64 {
    match p {
        Payload::Ack(_) => KIND_ACK,
        Payload::Ping(_) => KIND_PING,
        Payload::ShareProject(_) => KIND_SHARE_PROJECT,
        Payload::ShareProjectResponse(_) => KIND_SHARE_PROJECT_RESPONSE,
        Payload::UpdateWorktree(_) => KIND_UPDATE_WORKTREE,
        Payload::ChannelMessageSent(_) => KIND_CHANNEL_MESSAGE_SENT,
        Payload::GetCachedEmbeddings(_) => KIND_GET_CACHED_EMBEDDINGS,
        Payload::GetCachedEmbeddingsResponse(_) => KIND_GET_CACHED_EMBEDDINGS_RESPONSE,
    }
}

/// The scheduling class of the payload a carrier holds.
pub open spec fn payload_priority(p: Payload) -> MessagePriority {
    match p {
        Payload::Ack(_) => MessagePriority::Foreground,
        Payload::Ping(_) => MessagePriority::Foreground,
        Payload::ShareProject(_) => MessagePriority::Foreground,
        Payload::ShareProjectResponse(_) => MessagePriority::Foreground,
        Payload::UpdateWorktree(_) => MessagePriority::Foreground,
        Payload::ChannelMessageSent(_) => MessagePriority::Foreground,
        Payload::GetCachedEmbeddings(_) => MessagePriority::Background,
        Payload::GetCachedEmbeddingsResponse(_) => MessagePriority::Background,
    }
}

/// Runtime form of `payload_kind_id`: the router's dispatch key.
pub fn payload_kind(p: &Payload) -> (r: u64)
    ensures
        r == payload_kind_id(*p),
        is_registered_kind(r),
{
    match p {
        Payload::Ack(_) => KIND_ACK,
        Payload::Ping(_) => KIND_PING,
        Payload::ShareProject(_) => KIND_SHARE_PROJECT,
        Payload::ShareProjectResponse(_) => KIND_SHARE_PROJECT_RESPONSE,
        Payload::UpdateWorktree(_) => KIND_UPDATE_WORKTREE,
        Payload::ChannelMessageSent(_) => KIND_CHANNEL_MESSAGE_SENT,
        Payload::GetCachedEmbeddings(_) => KIND_GET_CACHED_EMBEDDINGS,
        Payload::GetCachedEmbeddingsResponse(_) => KIND_GET_CACHED_EMBEDDINGS_RESPONSE,
    }
}

/// Runtime form of `payload_priority`.
pub fn payload_priority_of(p: &Payload) -> (r: MessagePriority)
    ensures
        r == payload_priority(*p),
{
    match p {
        Payload::Ack(_) => MessagePriority::Foreground,
        Payload::Ping(_) => MessagePriority::Foreground,
        Payload::ShareProject(_) => MessagePriority::Foreground,
        Payload::ShareProjectResponse(_) => MessagePriority::Foreground,
        Payload::UpdateWorktree(_) => MessagePriority::Foreground,
        Payload::ChannelMessageSent(_) => MessagePriority::Foreground,
        Payload::GetCachedEmbeddings(_) => MessagePriority::Background,
        Payload::GetCachedEmbeddingsResponse(_) => MessagePriority::Background,
    }
}

impl EnvelopedMessage for Ack {
    open spec fn kind_id_spec() -> u64 {
        KIND_ACK
    }

    open spec fn name_spec() -> Seq<char> {
        "Ack"@
    }

    open spec fn priority_spec() -> MessagePriority {
        MessagePriority::Foreground
    }

    open spec fn wrap_spec(self) -> Payload {
        Payload::Ack(self)
    }

    open spec fn unwrap_spec(payload: Payload) -> Option<Ack> {
        match payload {
            Payload::Ack(m) => Some(m),
            _ => None,
        }
    }

    proof fn lemma_wrap_unwrap(self) {
    }

    proof fn lemma_unwrap_wrap(payload: Payload) {
    }

    fn kind_id() -> u64 {
        KIND_ACK
    }

    fn name() -> &'static str {
        "Ack"
    }

    fn priority() -> MessagePriority {
        MessagePriority::Foreground
    }

    fn wrap(self) -> Payload {
        Payload::Ack(self)
    }

    fn unwrap_payload(payload: Payload) -> Option<Ack> {
        match payload {
            Payload::Ack(m) => Some(m),
            _ => None,
        }
    }

    fn into_envelope(
        self,
        id: u32,
        responding_to: Option<u32>,
        original_sender_id: Option<PeerId>,
    ) -> Envelope {
        Envelope { id, responding_to, original_sender_id, payload: Payload::Ack(self) }
    }

    fn from_envelope(envelope: Envelope) -> Option<Ack> {
        match envelope.payload {
            Payload::Ack(m) => Some(m),
            _ => None,
        }
    }
}

impl EnvelopedMessage for Ping {
    open spec fn kind_id_spec() -> u64 {
        KIND_PING
    }

    open spec fn name_spec() -> Seq<char> {
        "Ping"@
    }

    open spec fn priority_spec() -> MessagePriority {
        MessagePriority::Foreground
    }

    open spec fn wrap_spec(self) -> Payload {
        Payload::Ping(self)
    }

    open spec fn unwrap_spec(payload: Payload) -> Option<Ping> {
        match payload {
            Payload::Ping(m) => Some(m),
            _ => None,
        }
    }

    proof fn lemma_wrap_unwrap(self) {
    }

    proof fn lemma_unwrap_wrap(payload: Payload) {
    }

    fn kind_id() -> u64 {
        KIND_PING
    }

    fn name() -> &'static str {
        "Ping"
    }

    fn priority() -> MessagePriority {
        MessagePriority::Foreground
    }

    fn wrap(self) -> Payload {
        Payload::Ping(self)
    }

    fn unwrap_payload(payload: Payload) -> Option<Ping> {
        match payload {
            Payload::Ping(m) => Some(m),
            _ => None,
        }
    }

    fn into_envelope(
        self,
        id: u32,
        responding_to: Option<u32>,
        original_sender_id: Option<PeerId>,
    ) -> Envelope {
        Envelope { id, responding_to, original_sender_id, payload: Payload::Ping(self) }
    }

    fn from_envelope(envelope: Envelope) -> Option<Ping> {
        match envelope.payload {
            Payload::Ping(m) => Some(m),
            _ => None,
        }
    }
}

impl EnvelopedMessage for ShareProject {
    open spec fn kind_id_spec() -> u64 {
        KIND_SHARE_PROJECT
    }

    open spec fn name_spec() -> Seq<char> {
        "ShareProject"@
    }

    open spec fn priority_spec() -> MessagePriority {
        MessagePriority::Foreground
    }

    open spec fn wrap_spec(self) -> Payload {
        Payload::ShareProject(self)
    }

    open spec fn unwrap_spec(payload: Payload) -> Option<ShareProject> {
        match payload {
            Payload::ShareProject(m) => Some(m),
            _ => None,
        }
    }

    proof fn lemma_wrap_unwrap(self) {
    }

    proof fn lemma_unwrap_wrap(payload: Payload) {
    }

    fn kind_id() -> u64 {
        KIND_SHARE_PROJECT
    }

    fn name() -> &'static str {
        "ShareProject"
    }

    fn priority() -> MessagePriority {
        MessagePriority::Foreground
    }

    fn wrap(self) -> Payload {
        Payload::ShareProject(self)
    }

    fn unwrap_payload(payload: Payload) -> Option<ShareProject> {
        match payload {
            Payload::ShareProject(m) => Some(m),
            _ => None,
        }
    }

    fn into_envelope(
        self,
        id: u32,
        responding_to: Option<u32>,
        original_sender_id: Option<PeerId>,
    ) -> Envelope {
        Envelope {
            id,
            responding_to,
            original_sender_id,
            payload: Payload::ShareProject(self),
        }
    }

    fn from_envelope(envelope: Envelope) -> Option<ShareProject> {
        match envelope.payload {
            Payload::ShareProject(m) => Some(m),
            _ => None,
        }
    }
}

impl EnvelopedMessage for ShareProjectResponse {
    open spec fn kind_id_spec() -> u64 {
        KIND_SHARE_PROJECT_RESPONSE
    }

    open spec fn name_spec() -> Seq<char> {
        "ShareProjectResponse"@
    }

    open spec fn priority_spec() -> MessagePriority {
        MessagePriority::Foreground
    }

    open spec fn wrap_spec(self) -> Payload {
        Payload::ShareProjectResponse(self)
    }

    open spec fn unwrap_spec(payload: Payload) -> Option<ShareProjectResponse> {
        match payload {
            Payload::ShareProjectResponse(m) => Some(m),
            _ => None,
        }
    }

    proof fn lemma_wrap_unwrap(self) {
    }

    proof fn lemma_unwrap_wrap(payload: Payload) {
    }

    fn kind_id() -> u64 {
        KIND_SHARE_PROJECT_RESPONSE
    }

    fn name() -> &'static str {
        "ShareProjectResponse"
    }

    fn priority() -> MessagePriority {
        MessagePriority::Foreground
    }

    fn wrap(self) -> Payload {
        Payload::ShareProjectResponse(self)
    }

    fn unwrap_payload(payload: Payload) -> Option<ShareProjectResponse> {
        match payload {
            Payload::ShareProjectResponse(m) => Some(m),
            _ => None,
        }
    }

    fn into_envelope(
        self,
        id: u32,
        responding_to: Option<u32>,
        original_sender_id: Option<PeerId>,
    ) -> Envelope {
        Envelope {
            id,
            responding_to,
            original_sender_id,
            payload: Payload::ShareProjectResponse(self),
        }
    }

    fn from_envelope(envelope: Envelope) -> Option<ShareProjectResponse> {
        match envelope.payload {
            Payload::ShareProjectResponse(m) => Some(m),
            _ => None,
        }
    }
}

impl EnvelopedMessage for UpdateWorktree {
    open spec fn kind_id_spec() -> u64 {
        KIND_UPDATE_WORKTREE
    }

    open spec fn name_spec() -> Seq<char> {
        "UpdateWorktree"@
    }

    open spec fn priority_spec() -> MessagePriority {
        MessagePriority::Foreground
    }

    open spec fn wrap_spec(self) -> Payload {
        Payload::UpdateWorktree(self)
    }

    open spec fn unwrap_spec(payload: Payload) -> Option<UpdateWorktree> {
        match payload {
            Payload::UpdateWorktree(m) => Some(m),
            _ => None,
        }
    }

    proof fn lemma_wrap_unwrap(self) {
    }

    proof fn lemma_unwrap_wrap(payload: Payload) {
    }

    fn kind_id() -> u64 {
        KIND_UPDATE_WORKTREE
    }

    fn name() -> &'static str {
        "UpdateWorktree"
    }

    fn priority() -> MessagePriority {
        MessagePriority::Foreground
    }

    fn wrap(self) -> Payload {
        Payload::UpdateWorktree(self)
    }

    fn unwrap_payload(payload: Payload) -> Option<UpdateWorktree> {
        match payload {
            Payload::UpdateWorktree(m) => Some(m),
            _ => None,
        }
    }

    fn into_envelope(
        self,
        id: u32,
        responding_to: Option<u32>,
        original_sender_id: Option<PeerId>,
    ) -> Envelope {
        Envelope {
            id,
            responding_to,
            original_sender_id,
            payload: Payload::UpdateWorktree(self),
        }
    }

    fn from_envelope(envelope: Envelope) -> Option<UpdateWorktree> {
        match envelope.payload {
            Payload::UpdateWorktree(m) => Some(m),
            _ => None,
        }
    }
}

impl EnvelopedMessage for ChannelMessageSent {
    open spec fn kind_id_spec() -> u64 {
        KIND_CHANNEL_MESSAGE_SENT
    }

    open spec fn name_spec() -> Seq<char> {
        "ChannelMessageSent"@
    }

    open spec fn priority_spec() -> MessagePriority {
        MessagePriority::Foreground
    }

    open spec fn wrap_spec(self) -> Payload {
        Payload::ChannelMessageSent(self)
    }

    open spec fn unwrap_spec(payload: Payload) -> Option<ChannelMessageSent> {
        match payload {
            Payload::ChannelMessageSent(m) => Some(m),
            _ => None,
        }
    }

    proof fn lemma_wrap_unwrap(self) {
    }

    proof fn lemma_unwrap_wrap(payload: Payload) {
    }

    fn kind_id() -> u64 {
        KIND_CHANNEL_MESSAGE_SENT
    }

    fn name() -> &'static str {
        "ChannelMessageSent"
    }

    fn priority() -> MessagePriority {
        MessagePriority::Foreground
    }

    fn wrap(self) -> Payload {
        Payload::ChannelMessageSent(self)
    }

    fn unwrap_payload(payload: Payload) -> Option<ChannelMessageSent> {
        match payload {
            Payload::ChannelMessageSent(m) => Some(m),
            _ => None,
        }
    }

    fn into_envelope(
        self,
        id: u32,
        responding_to: Option<u32>,
        original_sender_id: Option<PeerId>,
    ) -> Envelope {
        Envelope {
            id,
            responding_to,
            original_sender_id,
            payload: Payload::ChannelMessageSent(self),
        }
    }

    fn from_envelope(envelope: Envelope) -> Option<ChannelMessageSent> {
        match envelope.payload {
            Payload::ChannelMessageSent(m) => Some(m),
            _ => None,
        }
    }
}

impl EnvelopedMessage for GetCachedEmbeddings {
    open spec fn kind_id_spec() -> u64 {
        KIND_GET_CACHED_EMBEDDINGS
    }

    open spec fn name_spec() -> Seq<char> {
        "GetCachedEmbeddings"@
    }

    open spec fn priority_spec() -> MessagePriority {
        MessagePriority::Background
    }

    open spec fn wrap_spec(self) -> Payload {
        Payload::GetCachedEmbeddings(self)
    }

    open spec fn unwrap_spec(payload: Payload) -> Option<GetCachedEmbeddings> {
        match payload {
            Payload::GetCachedEmbeddings(m) => Some(m),
            _ => None,
        }
    }

    proof fn lemma_wrap_unwrap(self) {
    }

    proof fn lemma_unwrap_wrap(payload: Payload) {
    }

    fn kind_id() -> u64 {
        KIND_GET_CACHED_EMBEDDINGS
    }

    fn name() -> &'static str {
        "GetCachedEmbeddings"
    }

    fn priority() -> MessagePriority {
        MessagePriority::Background
    }

    fn wrap(self) -> Payload {
        Payload::GetCachedEmbeddings(self)
    }

    fn unwrap_payload(payload: Payload) -> Option<GetCachedEmbeddings> {
        match payload {
            Payload::GetCachedEmbeddings(m) => Some(m),
            _ => None,
        }
    }

    fn into_envelope(
        self,
        id: u32,
        responding_to: Option<u32>,
        original_sender_id: Option<PeerId>,
    ) -> Envelope {
        Envelope {
            id,
            responding_to,
            original_sender_id,
            payload: Payload::GetCachedEmbeddings(self),
        }
    }

    fn from_envelope(envelope: Envelope) -> Option<GetCachedEmbeddings> {
        match envelope.payload {
            Payload::GetCachedEmbeddings(m) => Some(m),
            _ => None,
        }
    }
}

impl EnvelopedMessage for GetCachedEmbeddingsResponse {
    open spec fn kind_id_spec() -> u64 {
        KIND_GET_CACHED_EMBEDDINGS_RESPONSE
    }

    open spec fn name_spec() -> Seq<char> {
        "GetCachedEmbeddingsResponse"@
    }

    open spec fn priority_spec() -> MessagePriority {
        MessagePriority::Background
    }

    open spec fn wrap_spec(self) -> Payload {
        Payload::GetCachedEmbeddingsResponse(self)
    }

    open spec fn unwrap_spec(payload: Payload) -> Option<GetCachedEmbeddingsResponse> {
        match payload {
            Payload::GetCachedEmbeddingsResponse(m) => Some(m),
            _ => None,
        }
    }

    proof fn lemma_wrap_unwrap(self) {
    }

    proof fn lemma_unwrap_wrap(payload: Payload) {
    }

    fn kind_id() -> u64 {
        KIND_GET_CACHED_EMBEDDINGS_RESPONSE
    }

    fn name() -> &'static str {
        "GetCachedEmbeddingsResponse"
    }

    fn priority() -> MessagePriority {
        MessagePriority::Background
    }

    fn wrap(self) -> Payload {
        Payload::GetCachedEmbeddingsResponse(self)
    }

    fn unwrap_payload(payload: Payload) -> Option<GetCachedEmbeddingsResponse> {
        match payload {
            Payload::GetCachedEmbeddingsResponse(m) => Some(m),
            _ => None,
        }
    }

    fn into_envelope(
        self,
        id: u32,
        responding_to: Option<u32>,
        original_sender_id: Option<PeerId>,
    ) -> Envelope {
        Envelope {
            id,
            responding_to,
            original_sender_id,
            payload: Payload::GetCachedEmbeddingsResponse(self),
        }
    }

    fn from_envelope(envelope: Envelope) -> Option<GetCachedEmbeddingsResponse> {
        match envelope.payload {
            Payload::GetCachedEmbeddingsResponse(m) => Some(m),
            _ => None,
        }
    }
}

impl RequestMessage for Ping {
    type Response = Ack;
}

impl RequestMessage for ShareProject {
    type Response = ShareProjectResponse;
}

impl RequestMessage for UpdateWorktree {
    type Response = Ack;
}

impl RequestMessage for GetCachedEmbeddings {
    type Response = GetCachedEmbeddingsResponse;
}

/// A live project, the scope of project-addressed messages.
pub struct Project {}

/// A live channel, the scope of channel-addressed messages.
pub struct Channel {}

impl EntityMessage for ShareProject {
    type Entity = Project;

    open spec fn entity_id_spec(&self) -> u64 {
        self.project_id
    }

    fn remote_entity_id(&self) -> u64 {
        self.project_id
    }
}

impl EntityMessage for UpdateWorktree {
    type Entity = Project;

    open spec fn entity_id_spec(&self) -> u64 {
        self.project_id
    }

    fn remote_entity_id(&self) -> u64 {
        self.project_id
    }
}

impl EntityMessage for ChannelMessageSent {
    type Entity = Channel;

    open spec fn entity_id_spec(&self) -> u64 {
        self.channel_id
    }

    fn remote_entity_id(&self) -> u64 {
        self.channel_id
    }
}

/// The two entity-scope groupings: messages addressed to a project and
/// messages addressed to a channel.
#[derive(Clone, Copy, PartialEq, Eq, Structural, Debug)]
pub enum EntityScope {
    Project,
    Channel,
}

/// The request/response catalog: which kind answers a request kind.
pub open spec fn response_kind_spec(kind_id: u64) -> Option<u64> {
    if kind_id == KIND_PING {
        Some(KIND_ACK)
    } else if kind_id == KIND_SHARE_PROJECT {
        Some(KIND_SHARE_PROJECT_RESPONSE)
    } else if kind_id == KIND_UPDATE_WORKTREE {
        Some(KIND_ACK)
    } else if kind_id == KIND_GET_CACHED_EMBEDDINGS {
        Some(KIND_GET_CACHED_EMBEDDINGS_RESPONSE)
    } else {
        None
    }
}

/// Runtime form of the request/response catalog.
pub fn response_kind(kind_id: u64) -> (r: Option<u64>)
    ensures
        r == response_kind_spec(kind_id),
{
    if kind_id == KIND_PING {
        Some(KIND_ACK)
    } else if kind_id == KIND_SHARE_PROJECT {
        Some(KIND_SHARE_PROJECT_RESPONSE)
    } else if kind_id == KIND_UPDATE_WORKTREE {
        Some(KIND_ACK)
    } else if kind_id == KIND_GET_CACHED_EMBEDDINGS {
        Some(KIND_GET_CACHED_EMBEDDINGS_RESPONSE)
    } else {
        None
    }
}

/// The entity-scope catalog: under which grouping a kind is addressed, if
/// any. A kind belongs to at most one grouping.
pub open spec fn entity_scope_spec(kind_id: u64) -> Option<EntityScope> {
    if kind_id == KIND_SHARE_PROJECT || kind_id == KIND_UPDATE_WORKTREE {
        Some(EntityScope::Project)
    } else if kind_id == KIND_CHANNEL_MESSAGE_SENT {
        Some(EntityScope::Channel)
    } else {
        None
    }
}

/// Runtime form of the entity-scope catalog.
pub fn entity_scope(kind_id: u64) -> (r: Option<EntityScope>)
    ensures
        r == entity_scope_spec(kind_id),
{
    if kind_id == KIND_SHARE_PROJECT || kind_id == KIND_UPDATE_WORKTREE {
        Some(EntityScope::Project)
    } else if kind_id == KIND_CHANNEL_MESSAGE_SENT {
        Some(EntityScope::Channel)
    } else {
        None
    }
}

/// The base catalog's name column.
pub open spec fn kind_name_spec(kind_id: u64) -> Option<Seq<char>> {
    if kind_id == KIND_ACK {
        Some(<Ack as EnvelopedMessage>::name_spec())
    } else if kind_id == KIND_PING {
        Some(<Ping as EnvelopedMessage>::name_spec())
    } else if kind_id == KIND_SHARE_PROJECT {
        Some(<ShareProject as EnvelopedMessage>::name_spec())
    } else if kind_id == KIND_SHARE_PROJECT_RESPONSE {
        Some(<ShareProjectResponse as EnvelopedMessage>::name_spec())
    } else if kind_id == KIND_UPDATE_WORKTREE {
        Some(<UpdateWorktree as EnvelopedMessage>::name_spec())
    } else if kind_id == KIND_CHANNEL_MESSAGE_SENT {
        Some(<ChannelMessageSent as EnvelopedMessage>::name_spec())
    } else if kind_id == KIND_GET_CACHED_EMBEDDINGS {
        Some(<GetCachedEmbeddings as EnvelopedMessage>::name_spec())
    } else if kind_id == KIND_GET_CACHED_EMBEDDINGS_RESPONSE {
        Some(<GetCachedEmbeddingsResponse as EnvelopedMessage>::name_spec())
    } else {
        None
    }
}

/// Looks a registered kind's name up by its identifier; `None` exactly on
/// unregistered identifiers.
pub fn kind_name(kind_id: u64) -> (r: Option<&'static str>)
    ensures
        r is Some <==> is_registered_kind(kind_id),
        r is Some ==> Some(r->Some_0@) == kind_name_spec(kind_id),
{
    if kind_id == KIND_ACK {
        Some(<Ack as EnvelopedMessage>::name())
    } else if kind_id == KIND_PING {
        Some(<Ping as EnvelopedMessage>::name())
    } else if kind_id == KIND_SHARE_PROJECT {
        Some(<ShareProject as EnvelopedMessage>::name())
    } else if kind_id == KIND_SHARE_PROJECT_RESPONSE {
        Some(<ShareProjectResponse as EnvelopedMessage>::name())
    } else if kind_id == KIND_UPDATE_WORKTREE {
        Some(<UpdateWorktree as EnvelopedMessage>::name())
    } else if kind_id == KIND_CHANNEL_MESSAGE_SENT {
        Some(<ChannelMessageSent as EnvelopedMessage>::name())
    } else if kind_id == KIND_GET_CACHED_EMBEDDINGS {
        Some(<GetCachedEmbeddings as EnvelopedMessage>::name())
    } else if kind_id == KIND_GET_CACHED_EMBEDDINGS_RESPONSE {
        Some(<GetCachedEmbeddingsResponse as EnvelopedMessage>::name())
    } else {
        None
    }
}

/// The base catalog's priority column.
pub open spec fn kind_priority_spec(kind_id: u64) -> Option<MessagePriority> {
    if kind_id == KIND_GET_CACHED_EMBEDDINGS || kind_id
        == KIND_GET_CACHED_EMBEDDINGS_RESPONSE {
        Some(MessagePriority::Background)
    } else if is_registered_kind(kind_id) {
        Some(MessagePriority::Foreground)
    } else {
        None
    }
}

/// Looks a registered kind's scheduling class up by its identifier;
/// `None` exactly on unregistered identifiers.
pub fn kind_priority(kind_id: u64) -> (r: Option<MessagePriority>)
    ensures
        r == kind_priority_spec(kind_id),
        r is Some <==> is_registered_kind(kind_id),
{
    if kind_id == KIND_GET_CACHED_EMBEDDINGS || kind_id
        == KIND_GET_CACHED_EMBEDDINGS_RESPONSE {
        Some(MessagePriority::Background)
    } else if kind_id >= KIND_ACK && kind_id <= KIND_CHANNEL_MESSAGE_SENT {
        Some(MessagePriority::Foreground)
    } else {
        None
    }
}

/// Every kind named by the request/response catalog — on either side of a
/// pair — and every kind named by the entity-scope catalog is registered
/// in the base catalog, and every registered kind has a name and a
/// priority. A catalog violating this cannot be built.
pub proof fn lemma_catalogs_closed()
    ensures
        forall|k: u64|
            response_kind_spec(k) is Some ==> is_registered_kind(k) && is_registered_kind(
                response_kind_spec(k)->Some_0,
            ),
        forall|k: u64| entity_scope_spec(k) is Some ==> is_registered_kind(k),
        forall|k: u64| is_registered_kind(k) <==> kind_name_spec(k) is Some,
        forall|k: u64| is_registered_kind(k) <==> kind_priority_spec(k) is Some,
{
}

/// The request/response catalog agrees with the compile-time pairings:
/// for every request kind the catalog names exactly its associated
/// response kind's identifier.
pub proof fn lemma_request_catalog_agrees()
    ensures
        response_kind_spec(<Ping as EnvelopedMessage>::kind_id_spec()) == Some(
            <<Ping as RequestMessage>::Response as EnvelopedMessage>::kind_id_spec(),
        ),
        response_kind_spec(<ShareProject as EnvelopedMessage>::kind_id_spec()) == Some(
            <<ShareProject as RequestMessage>::Response as EnvelopedMessage>::kind_id_spec(),
        ),
        response_kind_spec(<UpdateWorktree as EnvelopedMessage>::kind_id_spec()) == Some(
            <<UpdateWorktree as RequestMessage>::Response as EnvelopedMessage>::kind_id_spec(),
        ),
        response_kind_spec(<GetCachedEmbeddings as EnvelopedMessage>::kind_id_spec())
            == Some(
            <<GetCachedEmbeddings as RequestMessage>::Response as EnvelopedMessage>::kind_id_spec(),
        ),
{
}

/// The entity-scope catalog agrees with the compile-time bindings: the
/// project-scoped kinds are grouped under the project scope and the
/// channel-scoped kind under the channel scope.
pub proof fn lemma_entity_catalog_agrees()
    ensures
        entity_scope_spec(<ShareProject as EnvelopedMessage>::kind_id_spec()) == Some(
            EntityScope::Project,
        ),
        entity_scope_spec(<UpdateWorktree as EnvelopedMessage>::kind_id_spec()) == Some(
            EntityScope::Project,
        ),
        entity_scope_spec(<ChannelMessageSent as EnvelopedMessage>::kind_id_spec())
            == Some(EntityScope::Channel),
{
}

/// The base catalog's priority column agrees with every kind's own
/// classification: looking a wrapped payload's kind up gives the
/// priority the payload itself carries.
pub proof fn lemma_priority_catalog_agrees(p: Payload)
    ensures
        kind_priority_spec(payload_kind_id(p)) == Some(payload_priority(p)),
        is_registered_kind(payload_kind_id(p)),
{
}

/// No two registered kinds share a name: the base catalog's name column
/// is injective on the registered kind identifiers.
pub proof fn lemma_kind_names_unique(a: u64, b: u64)
    requires
        is_registered_kind(a),
        is_registered_kind(b),
        a != b,
    ensures
        kind_name_spec(a) != kind_name_spec(b),
{
    reveal_strlit("Ack");
    reveal_strlit("Ping");
    reveal_strlit("ShareProject");
    reveal_strlit("ShareProjectResponse");
    reveal_strlit("UpdateWorktree");
    reveal_strlit("ChannelMessageSent");
    reveal_strlit("GetCachedEmbeddings");
    reveal_strlit("GetCachedEmbeddingsResponse");
    // The registered names all differ in length already.
    assert("Ack"@.len() == 3);
    assert("Ping"@.len() == 4);
    assert("ShareProject"@.len() == 12);
    assert("ShareProjectResponse"@.len() == 20);
    assert("UpdateWorktree"@.len() == 14);
    assert("ChannelMessageSent"@.len() == 18);
    assert("GetCachedEmbeddings"@.len() == 19);
    assert("GetCachedEmbeddingsResponse"@.len() == 27);
}

} // verus!
