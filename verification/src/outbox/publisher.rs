//! What an outbox message looks like on the AMQP wire.
//!
//! The broker connection itself lives with the application; this module decides the
//! message properties and headers, and how a publisher confirmation is read.

use vstd::prelude::*;

use crate::outbox::application::{OutboundMessageEnvelope, OutboxError};
use crate::outbox::domain::OutboxEntryMetadata;
use crate::support::{hyphenated, owned, uuid_text};

verus! {

/// Where and how outbox messages are published.
#[derive(Debug, Clone, PartialEq, Eq)]
pub struct AmqpPublishConfig {
    pub exchange: String,
    pub mandatory: bool,
    /// Content type of messages whose metadata names none.
    pub default_content_type: String,
}

impl Default for AmqpPublishConfig {
    fn default() -> (r: Self)
        ensures
            r.exchange@ == Seq::<char>::empty(),
            !r.mandatory,
            r.default_content_type@ == "application/json"@,
    {
        AmqpPublishConfig {
            exchange: String::new(),
            mandatory: false,
            default_content_type: owned("application/json"),
        }
    }
}

/// The AMQP basic properties of an outbox message, as text.
#[derive(Debug, Clone, PartialEq, Eq)]
pub struct MessageProperties {
    pub message_id: String,
    pub content_type: String,
    pub correlation_id: Option<String>,
    /// Header names and values, all long strings.
    pub headers: Vec<(String, String)>,
}

/// The headers of a message: its event id and type, then its causation id and source when known.
pub open spec fn header_texts(m: OutboxEntryMetadata) -> Seq<(Seq<char>, Seq<char>)> {
    let base = seq![("event_id"@, hyphenated(m.event_id)), ("event_type"@, m.event_type@)];
    let with_cause = match m.causation_id {
        Some(c) => base.push(("causation_id"@, hyphenated(c))),
        None => base,
    };
    match m.source {
        Some(s) => with_cause.push(("source"@, s@)),
        None => with_cause,
    }
}

/// `headers` hold the pair `(name, value)`.
pub open spec fn has_header(headers: Seq<(Seq<char>, Seq<char>)>, name: Seq<char>, value: Seq<char>) -> bool {
    exists|i: int| 0 <= i < headers.len() && headers[i] == (name, value)
}

/// Each header of a message follows its own metadata field alone: the event id and type
/// are always there; a `causation_id` header is there exactly when the metadata has a
/// causation id, with that id's text; a `source` header is there exactly when the metadata
/// has a source, with that text. No other header is there.
pub proof fn law_headers_follow_metadata(m: OutboxEntryMetadata)
    ensures
        has_header(header_texts(m), "event_id"@, hyphenated(m.event_id)),
        has_header(header_texts(m), "event_type"@, m.event_type@),
        forall|c: Seq<char>| #[trigger] has_header(header_texts(m), "causation_id"@, c)
            <==> (m.causation_id is Some && c == hyphenated(m.causation_id->0)),
        forall|s: Seq<char>| #[trigger] has_header(header_texts(m), "source"@, s)
            <==> (m.source is Some && s == m.source->0@),
        forall|i: int| 0 <= i < header_texts(m).len() ==> {
            let name = #[trigger] header_texts(m)[i].0;
            name == "event_id"@ || name == "event_type"@ || name == "causation_id"@ || name == "source"@
        },
{
    reveal_strlit("event_id");
    reveal_strlit("event_type");
    reveal_strlit("causation_id");
    reveal_strlit("source");
    let h = header_texts(m);
    assert("source"@ != "causation_id"@ && "source"@ != "event_id"@ && "source"@ != "event_type"@) by {
        assert("source"@.len() != "causation_id"@.len() && "source"@.len() != "event_id"@.len());
        assert("source"@[0] != "event_type"@[0]);
    }
    assert("causation_id"@ != "event_id"@ && "causation_id"@ != "event_type"@) by {
        assert("causation_id"@.len() != "event_id"@.len() && "causation_id"@.len() != "event_type"@.len());
    }
    assert(h[0] == ("event_id"@, hyphenated(m.event_id)));
    assert(h[1] == ("event_type"@, m.event_type@));
    let k: int = if m.causation_id is Some { 3 } else { 2 };
    assert forall|c: Seq<char>| #[trigger] has_header(h, "causation_id"@, c)
        <==> (m.causation_id is Some && c == hyphenated(m.causation_id->0)) by {
        if m.causation_id is Some && c == hyphenated(m.causation_id->0) {
            assert(h[2] == ("causation_id"@, c));
        }
    }
    assert forall|s: Seq<char>| #[trigger] has_header(h, "source"@, s)
        <==> (m.source is Some && s == m.source->0@) by {
        if m.source is Some && s == m.source->0@ {
            assert(h[k] == ("source"@, s));
        }
    }
}

/// The text of every header.
pub open spec fn header_views(h: Seq<(String, String)>) -> Seq<(Seq<char>, Seq<char>)> {
    Seq::new(h.len(), |i: int| (h[i].0@, h[i].1@))
}

/// The headers of a message carrying `metadata`.
pub fn headers_for(metadata: &OutboxEntryMetadata) -> (h: Vec<(String, String)>)
    ensures
        header_views(h@) == header_texts(*metadata),
        forall|s: Seq<char>| #[trigger] has_header(header_views(h@), "source"@, s)
            <==> (metadata.source is Some && s == metadata.source->0@),
        forall|c: Seq<char>| #[trigger] has_header(header_views(h@), "causation_id"@, c)
            <==> (metadata.causation_id is Some && c == hyphenated(metadata.causation_id->0)),
{
    let mut headers: Vec<(String, String)> = Vec::new();
    headers.push((owned("event_id"), uuid_text(metadata.event_id)));
    headers.push((owned("event_type"), metadata.event_type.clone()));
    if let Some(causation_id) = metadata.causation_id {
        headers.push((owned("causation_id"), uuid_text(causation_id)));
    }
    if let Some(source) = &metadata.source {
        headers.push((owned("source"), source.clone()));
    }
    assert(header_views(headers@) =~= header_texts(*metadata));
    proof {
        law_headers_follow_metadata(*metadata);
    }
    headers
}

/// The properties of the message for `envelope`: its message id, its content type (or the
/// configured default), its correlation id when known, and its headers.
pub fn properties_for(config: &AmqpPublishConfig, envelope: &OutboundMessageEnvelope) -> (p: MessageProperties)
    ensures
        p.message_id@ == hyphenated(envelope.metadata.message_id),
        p.content_type@ == match envelope.metadata.content_type {
            Some(c) => c@,
            None => config.default_content_type@,
        },
        p.correlation_id matches Some(c) ==> envelope.metadata.correlation_id matches Some(id) && c@ == hyphenated(id),
        envelope.metadata.correlation_id is Some ==> p.correlation_id is Some,
        header_views(p.headers@) == header_texts(envelope.metadata),
{
    let content_type = match &envelope.metadata.content_type {
        Some(c) => c.clone(),
        None => config.default_content_type.clone(),
    };
    let correlation_id = match envelope.metadata.correlation_id {
        Some(id) => Some(uuid_text(id)),
        None => None,
    };
    MessageProperties {
        message_id: uuid_text(envelope.metadata.message_id),
        content_type,
        correlation_id,
        headers: headers_for(&envelope.metadata),
    }
}

/// How the broker answered a publication.
#[derive(Debug, Clone, Copy, PartialEq, Eq)]
pub enum BrokerConfirmation {
    Ack,
    Nack,
    NotRequested,
}

/// A publication succeeded unless the broker negatively acknowledged it.
pub fn confirmation_result(confirmation: BrokerConfirmation) -> (r: Result<(), OutboxError>)
    ensures
        r is Ok <==> !(confirmation is Nack),
        r matches Err(e) ==> e matches OutboxError::Transport(m) && m@ == "broker negatively acknowledged publish"@,
{
    match confirmation {
        BrokerConfirmation::Ack | BrokerConfirmation::NotRequested => Ok(()),
        BrokerConfirmation::Nack => Err(OutboxError::Transport(owned("broker negatively acknowledged publish"))),
    }
}

} // verus!
