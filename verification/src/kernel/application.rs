//! The kernel's configuration, errors and typed command envelope.

use vstd::prelude::*;
use vstd::std_specs::convert::FromSpecImpl;

use crate::commanding::application::{
    CommandError, NewCommand, NewCommandEnvelope as GatewayNewCommandEnvelope, NewCommandMetadata,
};
use crate::eventing::application::EventError;
use crate::inbox::application::InboxError;
use crate::outbox::application::OutboxError;
use crate::support::joined;

verus! {

/// A command type of the application.
///
/// Applications define their own commands and name each command's type; the kernel
/// stays independent of the application's command types.
pub trait ApplicationCommand {
    /// `t` is a type name this command may report from `command_type`. The application
    /// decides it; unless an implementation says more, any name may come.
    closed spec fn command_type_returns(&self, t: Seq<char>) -> bool {
        true
    }

    fn command_type(&self) -> (t: &'static str)
        ensures
            self.command_type_returns(t@),
    ;
}

/// A typed application command with the metadata that crosses the command gateway.
pub struct NewCommandEnvelope<C> {
    pub command: C,
    pub metadata: NewCommandMetadata,
}

impl<C: ApplicationCommand> NewCommandEnvelope<C> {
    /// The gateway envelope of this command, given its serialised form `payload`: typed by
    /// the command's type, carrying the metadata.
    pub fn into_gateway_envelope(self, payload: String) -> (r: GatewayNewCommandEnvelope)
        ensures
            self.command.command_type_returns(r.command.command_type@),
            r.command.payload == payload,
            r.metadata == Some(self.metadata),
    {
        let command_type = self.command.command_type().to_owned();
        GatewayNewCommandEnvelope {
            command: NewCommand { command_type, payload },
            metadata: Some(self.metadata),
        }
    }
}

/// Where the kernel's outside services are found; every setting is optional.
#[derive(Debug, Clone, Default)]
pub struct KernelConfig {
    pub database_url: Option<String>,
    pub amqp_url: Option<String>,
    pub inbox_queue: Option<String>,
    pub inbox_exchange: Option<String>,
    pub outbox_exchange: Option<String>,
    pub outbox_content_type: Option<String>,
}

/// Failures of the kernel.
#[derive(Debug)]
pub enum KernelError {
    Database(String),
    Amqp(String),
    Migration(String),
    DuplicateCommandHandler(String),
    DuplicateEventSubscriber { event_type: String, subscriber: String },
    ReservedSubscriberName(String),
    Worker(String),
    Inbox(InboxError),
    Command(CommandError),
    Event(EventError),
    Outbox(OutboxError),
}

impl KernelError {
    /// The human-readable text of an error.
    pub open spec fn text(self) -> Seq<char> {
        match self {
            KernelError::Database(m) => "database connection failed: "@ + m@,
            KernelError::Amqp(m) => "AMQP connection failed: "@ + m@,
            KernelError::Migration(m) => "database migration failed: "@ + m@,
            KernelError::DuplicateCommandHandler(t) => "command handler already registered for type '"@ + t@ + "'"@,
            KernelError::DuplicateEventSubscriber { event_type, subscriber } => "event subscriber '"@ + subscriber@
                + "' already registered for event type '"@ + event_type@ + "'"@,
            KernelError::ReservedSubscriberName(n) => "subscriber name '"@ + n@ + "' is reserved"@,
            KernelError::Worker(m) => "worker task failed: "@ + m@,
            KernelError::Inbox(e) => "inbox error: "@ + e.text(),
            KernelError::Command(e) => "command error: "@ + e.text(),
            KernelError::Event(e) => "event error: "@ + e.text(),
            KernelError::Outbox(e) => "outbox error: "@ + e.text(),
        }
    }

    /// The human-readable text of this error.
    pub fn message(&self) -> (r: String)
        ensures
            r@ == self.text(),
    {
        match self {
            KernelError::Database(m) => joined("database connection failed: ", m.as_str()),
            KernelError::Amqp(m) => joined("AMQP connection failed: ", m.as_str()),
            KernelError::Migration(m) => joined("database migration failed: ", m.as_str()),
            KernelError::DuplicateCommandHandler(t) => {
                let head = joined("command handler already registered for type '", t.as_str());
                joined(head.as_str(), "'")
            },
            KernelError::DuplicateEventSubscriber { event_type, subscriber } => {
                let head = joined("event subscriber '", subscriber.as_str());
                let middle = joined(head.as_str(), "' already registered for event type '");
                let tail = joined(middle.as_str(), event_type.as_str());
                joined(tail.as_str(), "'")
            },
            KernelError::ReservedSubscriberName(n) => {
                let head = joined("subscriber name '", n.as_str());
                joined(head.as_str(), "' is reserved")
            },
            KernelError::Worker(m) => joined("worker task failed: ", m.as_str()),
            KernelError::Inbox(e) => joined("inbox error: ", e.message().as_str()),
            KernelError::Command(e) => joined("command error: ", e.message().as_str()),
            KernelError::Event(e) => joined("event error: ", e.message().as_str()),
            KernelError::Outbox(e) => joined("outbox error: ", e.message().as_str()),
        }
    }
}

impl From<InboxError> for KernelError {
    fn from(e: InboxError) -> (r: KernelError) {
        KernelError::Inbox(e)
    }
}

impl FromSpecImpl<InboxError> for KernelError {
    open spec fn obeys_from_spec() -> bool {
        true
    }

    open spec fn from_spec(v: InboxError) -> KernelError {
        KernelError::Inbox(v)
    }
}

impl From<CommandError> for KernelError {
    fn from(e: CommandError) -> (r: KernelError) {
        KernelError::Command(e)
    }
}

impl FromSpecImpl<CommandError> for KernelError {
    open spec fn obeys_from_spec() -> bool {
        true
    }

    open spec fn from_spec(v: CommandError) -> KernelError {
        KernelError::Command(v)
    }
}

impl From<EventError> for KernelError {
    fn from(e: EventError) -> (r: KernelError) {
        KernelError::Event(e)
    }
}

impl FromSpecImpl<EventError> for KernelError {
    open spec fn obeys_from_spec() -> bool {
        true
    }

    open spec fn from_spec(v: EventError) -> KernelError {
        KernelError::Event(v)
    }
}

impl From<OutboxError> for KernelError {
    fn from(e: OutboxError) -> (r: KernelError) {
        KernelError::Outbox(e)
    }
}

impl FromSpecImpl<OutboxError> for KernelError {
    open spec fn obeys_from_spec() -> bool {
        true
    }

    open spec fn from_spec(v: OutboxError) -> KernelError {
        KernelError::Outbox(v)
    }
}

} // verus!
