use proto::envelope::{
    downcast, receive, AnyTypedEnvelope, EntityMessage, EnvelopedMessage, MessagePriority,
    TypedEnvelope,
};
use proto::peer::PeerId;
use proto::registry::{
    entity_scope, kind_name, kind_priority, payload_kind, response_kind, Ack,
    ChannelMessageSent, EntityScope, GetCachedEmbeddings, Payload, Ping, ShareProject,
    KIND_ACK, KIND_CHANNEL_MESSAGE_SENT, KIND_GET_CACHED_EMBEDDINGS,
    KIND_GET_CACHED_EMBEDDINGS_RESPONSE, KIND_PING, KIND_SHARE_PROJECT,
    KIND_SHARE_PROJECT_RESPONSE, KIND_UPDATE_WORKTREE,
};

fn sender() -> PeerId {
    PeerId { owner_id: 7, id: 11 }
}

#[test]
fn envelope_round_trips_matching_kind() {
    let message = ShareProject { project_id: 42 };
    let envelope = message.clone().into_envelope(5, Some(2), Some(sender()));
    assert_eq!(envelope.id, 5);
    assert_eq!(envelope.responding_to, Some(2));
    assert_eq!(envelope.original_sender_id, Some(sender()));
    assert_eq!(ShareProject::from_envelope(envelope), Some(message));
}

#[test]
fn envelope_rejects_other_kinds_quietly() {
    let envelope = Ping {}.into_envelope(1, None, None);
    assert_eq!(Ack::from_envelope(envelope.clone()), None);
    assert_eq!(ShareProject::from_envelope(envelope.clone()), None);
    assert_eq!(Ping::from_envelope(envelope), Some(Ping {}));
}

#[test]
fn receive_pairs_payload_with_metadata() {
    let envelope = ShareProject { project_id: 9 }.into_envelope(31, None, Some(sender()));
    let typed = receive::<ShareProject>(envelope, PeerId { owner_id: 1, id: 2 }).unwrap();
    assert_eq!(typed.payload, ShareProject { project_id: 9 });
    assert_eq!(typed.message_id, 31);
    assert_eq!(typed.sender_id, PeerId { owner_id: 1, id: 2 });
    assert_eq!(typed.original_sender_id, Some(sender()));

    let envelope = Ping {}.into_envelope(32, None, None);
    assert!(receive::<ShareProject>(envelope, sender()).is_none());
}

#[test]
fn erased_envelope_downcasts_to_its_own_kind_only() {
    let typed = TypedEnvelope {
        sender_id: sender(),
        original_sender_id: None,
        message_id: 8,
        payload: ChannelMessageSent {
            channel_id: 3,
            message_id: 77,
        },
    };
    let any = typed.clone().into_any();
    assert_eq!(any.payload_kind(), KIND_CHANNEL_MESSAGE_SENT);
    assert_eq!(any.message_id, 8);
    assert_eq!(downcast::<Ping>(any.clone()), None);
    assert_eq!(downcast::<ChannelMessageSent>(any), Some(typed));
}

#[test]
fn facade_reports_kind_metadata() {
    let typed = TypedEnvelope {
        sender_id: sender(),
        original_sender_id: Some(sender()),
        message_id: 40,
        payload: GetCachedEmbeddings { keys: vec![1, 2] },
    };
    assert_eq!(typed.payload_type_id(), KIND_GET_CACHED_EMBEDDINGS);
    assert_eq!(typed.payload_type_name(), "GetCachedEmbeddings");
    assert!(typed.is_background());
    assert_eq!(typed.message_id(), 40);
    assert_eq!(typed.sender_id(), sender());
    assert_eq!(typed.original_sender_id(), Some(sender()));

    let typed = TypedEnvelope {
        sender_id: sender(),
        original_sender_id: None,
        message_id: 41,
        payload: Ping {},
    };
    assert_eq!(typed.payload_type_name(), "Ping");
    assert!(!typed.is_background());
    let any = typed.into_any();
    assert!(!any.is_background());
}

#[test]
fn registry_base_catalog_lookups() {
    assert_eq!(kind_name(KIND_ACK), Some("Ack"));
    assert_eq!(kind_name(KIND_UPDATE_WORKTREE), Some("UpdateWorktree"));
    assert_eq!(kind_name(0), None);
    assert_eq!(kind_name(999), None);
    assert_eq!(kind_priority(KIND_PING), Some(MessagePriority::Foreground));
    assert_eq!(
        kind_priority(KIND_GET_CACHED_EMBEDDINGS_RESPONSE),
        Some(MessagePriority::Background)
    );
    assert_eq!(kind_priority(999), None);
}

#[test]
fn registry_request_response_catalog() {
    assert_eq!(response_kind(KIND_PING), Some(KIND_ACK));
    assert_eq!(
        response_kind(KIND_SHARE_PROJECT),
        Some(KIND_SHARE_PROJECT_RESPONSE)
    );
    assert_eq!(response_kind(KIND_UPDATE_WORKTREE), Some(KIND_ACK));
    assert_eq!(
        response_kind(KIND_GET_CACHED_EMBEDDINGS),
        Some(KIND_GET_CACHED_EMBEDDINGS_RESPONSE)
    );
    assert_eq!(response_kind(KIND_ACK), None);
    assert_eq!(response_kind(KIND_CHANNEL_MESSAGE_SENT), None);
}

#[test]
fn registry_entity_scope_catalog() {
    assert_eq!(entity_scope(KIND_SHARE_PROJECT), Some(EntityScope::Project));
    assert_eq!(entity_scope(KIND_UPDATE_WORKTREE), Some(EntityScope::Project));
    assert_eq!(
        entity_scope(KIND_CHANNEL_MESSAGE_SENT),
        Some(EntityScope::Channel)
    );
    assert_eq!(entity_scope(KIND_PING), None);
    assert_eq!(entity_scope(KIND_ACK), None);
}

#[test]
fn entity_messages_expose_their_entity_id() {
    let share = ShareProject { project_id: 12 };
    assert_eq!(share.remote_entity_id(), 12);
    let sent = ChannelMessageSent {
        channel_id: 44,
        message_id: 1,
    };
    assert_eq!(sent.remote_entity_id(), 44);
}

#[test]
fn payload_kind_distinguishes_kinds() {
    let a = Payload::Ack(Ack {});
    let p = Payload::Ping(Ping {});
    assert_eq!(payload_kind(&a), KIND_ACK);
    assert_eq!(payload_kind(&p), KIND_PING);
    assert_ne!(payload_kind(&a), payload_kind(&p));
}
