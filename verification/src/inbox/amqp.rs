//! What the inbox reads off a broker delivery.

use vstd::prelude::*;
use vstd::std_specs::convert::FromSpecImpl;
use vstd::utf8::{decode_utf8, valid_utf8};

use crate::inbox::application::InboundMessageEnvelope;
use crate::inbox::recorder::recorded_id;
use crate::support::{parse_uuid, parsed_uuid};

verus! {

/// Routing metadata read off a delivery.
#[derive(Debug, Clone, PartialEq, Eq)]
pub struct AmqpMessageMetadata {
    pub message_id: Option<u128>,
    pub correlation_id: Option<u128>,
    pub source: Option<String>,
    pub routing_key: Option<String>,
}

/// The identifier in an optional property: present only when it parses as a UUID.
pub open spec fn property_uuid(property: Option<Seq<char>>) -> Option<u128> {
    match property {
        Some(text) => parsed_uuid(text),
        None => None,
    }
}

/// A name that the broker leaves empty when there is none.
pub open spec fn named(text: Seq<char>) -> Option<Seq<char>> {
    if text.len() == 0 {
        None
    } else {
        Some(text)
    }
}

fn uuid_property(property: Option<&str>) -> (r: Option<u128>)
    ensures
        r == property_uuid(match property {
            Some(t) => Some(t@),
            None => None,
        }),
{
    match property {
        Some(text) => parse_uuid(text),
        None => None,
    }
}

fn name_of(text: &str) -> (r: Option<String>)
    ensures
        r matches Some(s) ==> named(text@) == Some(s@),
        r is None ==> named(text@) is None,
{
    if text.is_empty() {
        None
    } else {
        Some(text.to_owned())
    }
}

impl AmqpMessageMetadata {
    /// The metadata of a delivery with the given message and correlation id properties,
    /// exchange and routing key: ids that are no UUIDs are dropped, and so are an empty
    /// exchange and an empty routing key.
    pub fn from_delivery(
        message_id: Option<&str>,
        correlation_id: Option<&str>,
        exchange: &str,
        routing_key: &str,
    ) -> (r: Self)
        ensures
            r.message_id == property_uuid(match message_id {
                Some(t) => Some(t@),
                None => None,
            }),
            r.correlation_id == property_uuid(match correlation_id {
                Some(t) => Some(t@),
                None => None,
            }),
            r.source is Some <==> named(exchange@) is Some,
            r.source matches Some(s) ==> named(exchange@) == Some(s@),
            r.routing_key is Some <==> named(routing_key@) is Some,
            r.routing_key matches Some(k) ==> named(routing_key@) == Some(k@),
    {
        AmqpMessageMetadata {
            message_id: uuid_property(message_id),
            correlation_id: uuid_property(correlation_id),
            source: name_of(exchange),
            routing_key: name_of(routing_key),
        }
    }
}

/// A delivery whose body is text.
#[derive(Debug, Clone, PartialEq, Eq)]
pub struct AmqpMessage {
    pub payload: String,
    pub metadata: AmqpMessageMetadata,
}

/// The text of a UTF-8 body, via `String::from_utf8`; a body that is no UTF-8 has none.
#[verifier::external_body]
fn utf8_text(data: Vec<u8>) -> (r: Option<String>)
    ensures
        r is Some <==> valid_utf8(data@),
        r matches Some(t) ==> t@ == decode_utf8(data@),
{
    String::from_utf8(data).ok()
}

impl AmqpMessage {
    pub fn new(payload: String, metadata: AmqpMessageMetadata) -> (r: Self)
        ensures
            r.payload == payload,
            r.metadata == metadata,
    {
        Self { payload, metadata }
    }

    /// The message of a delivery with body `data`, when the body is UTF-8 text.
    pub fn from_body(data: Vec<u8>, metadata: AmqpMessageMetadata) -> (r: Option<Self>)
        ensures
            r is Some <==> valid_utf8(data@),
            r matches Some(m) ==> m.payload@ == decode_utf8(data@) && m.metadata == metadata,
    {
        match utf8_text(data) {
            Some(payload) => Some(AmqpMessage { payload, metadata }),
            None => None,
        }
    }

    pub fn id(&self) -> (r: Option<u128>)
        ensures
            r == self.metadata.message_id,
    {
        self.metadata.message_id
    }

    pub fn correlation_id(&self) -> (r: Option<u128>)
        ensures
            r == self.metadata.correlation_id,
    {
        self.metadata.correlation_id
    }

    pub fn source(&self) -> (r: Option<&str>)
        ensures
            r is Some <==> self.metadata.source is Some,
            r matches Some(s) ==> s@ == self.metadata.source->0@,
    {
        match &self.metadata.source {
            Some(s) => Some(s.as_str()),
            None => None,
        }
    }

    pub fn routing_key(&self) -> (r: Option<&str>)
        ensures
            r is Some <==> self.metadata.routing_key is Some,
            r matches Some(k) ==> k@ == self.metadata.routing_key->0@,
    {
        match &self.metadata.routing_key {
            Some(k) => Some(k.as_str()),
            None => None,
        }
    }

    pub fn payload(&self) -> (r: &str)
        ensures
            r@ == self.payload@,
    {
        self.payload.as_str()
    }
}

/// The inbound envelope of a delivery: its payload and metadata as they are.
pub open spec fn inbound_of(msg: AmqpMessage) -> InboundMessageEnvelope {
    InboundMessageEnvelope {
        payload: msg.payload,
        message_id: msg.metadata.message_id,
        correlation_id: msg.metadata.correlation_id,
        source: msg.metadata.source,
        routing_key: msg.metadata.routing_key,
    }
}

/// A delivery keeps its identity in the inbox: the inbound envelope carries the delivery's
/// own message id, correlation id, source, routing key and payload, so a delivery with a
/// message id is recorded under that id whatever id the inbox could generate, and two
/// deliveries of the same message are recorded under the same id.
pub proof fn law_delivery_keeps_its_identity(a: AmqpMessage, b: AmqpMessage, generated_a: u128, generated_b: u128)
    ensures
        inbound_of(a).message_id == a.metadata.message_id,
        inbound_of(a).correlation_id == a.metadata.correlation_id,
        inbound_of(a).source == a.metadata.source,
        inbound_of(a).routing_key == a.metadata.routing_key,
        inbound_of(a).payload == a.payload,
        a.metadata.message_id matches Some(id) ==> recorded_id(inbound_of(a), generated_a) == id,
        a.metadata.message_id is Some && a.metadata.message_id == b.metadata.message_id ==> recorded_id(
            inbound_of(a),
            generated_a,
        ) == recorded_id(inbound_of(b), generated_b),
{
}

impl<'a> From<&'a AmqpMessage> for InboundMessageEnvelope {
    fn from(msg: &'a AmqpMessage) -> (r: InboundMessageEnvelope)
        ensures
            r.message_id == msg.metadata.message_id,
            r.correlation_id == msg.metadata.correlation_id,
            r.source == msg.metadata.source,
            r.routing_key == msg.metadata.routing_key,
            r.payload == msg.payload,
    {
        InboundMessageEnvelope {
            payload: msg.payload.clone(),
            message_id: msg.id(),
            correlation_id: msg.correlation_id(),
            source: crate::support::copy_text(&msg.metadata.source),
            routing_key: crate::support::copy_text(&msg.metadata.routing_key),
        }
    }
}

impl<'a> FromSpecImpl<&'a AmqpMessage> for InboundMessageEnvelope {
    open spec fn obeys_from_spec() -> bool {
        true
    }

    open spec fn from_spec(v: &'a AmqpMessage) -> InboundMessageEnvelope {
        inbound_of(*v)
    }
}

} // verus!
