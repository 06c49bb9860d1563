//! Handing stored inbox messages on.

use vstd::prelude::*;

use crate::inbox::domain::InboxMessage;
use crate::support::joined;

verus! {

/// Failures of handing a message on.
#[derive(Debug)]
pub enum InboxPublisherError {
    PublishError(String),
}

impl InboxPublisherError {
    /// The human-readable text of an error.
    pub open spec fn text(self) -> Seq<char> {
        match self {
            InboxPublisherError::PublishError(m) => "publish error: "@ + m@,
        }
    }

    /// The human-readable text of this error.
    pub fn message(&self) -> (r: String)
        ensures
            r@ == self.text(),
    {
        match self {
            InboxPublisherError::PublishError(m) => joined("publish error: ", m.as_str()),
        }
    }
}

/// Hands inbox messages on; it has nowhere to hand them yet and accepts every message.
#[derive(Debug, Clone, Copy, Default)]
pub struct InboxPublisher {}

impl InboxPublisher {
    /// Accepts `msg`.
    pub fn publish(&self, msg: InboxMessage) -> (r: Result<(), InboxPublisherError>)
        ensures
            r is Ok,
    {
        Ok(())
    }
}

} // verus!
