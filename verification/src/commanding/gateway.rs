//! Entry point for commands.

use std::sync::Arc;
use vstd::prelude::*;

use crate::commanding::application::{missing_command_id, CommandError, CommandStorePort, NewCommandEnvelope};
use crate::commanding::dispatcher::{CommandDispatcher, ErasedCommandHandler};
use crate::commanding::recorder::CommandRecorder;
use crate::eventing::application::EventDispatchPort;

verus! {

/// Handles commands at once (`Direct`) or stores them for later handling (`TwoPhased`).
pub enum CommandGateway<
    H: ErasedCommandHandler + ?Sized = dyn ErasedCommandHandler,
    D: EventDispatchPort + ?Sized = dyn EventDispatchPort,
    S: CommandStorePort + ?Sized = dyn CommandStorePort,
> {
    Direct { dispatcher: Arc<CommandDispatcher<H, D>> },
    TwoPhased { recorder: Arc<CommandRecorder<S>> },
}

impl<H: ErasedCommandHandler + ?Sized, D: EventDispatchPort + ?Sized, S: CommandStorePort + ?Sized> CommandGateway<H, D, S> {
    pub fn direct(dispatcher: Arc<CommandDispatcher<H, D>>) -> (g: Self)
        ensures
            g == (Self::Direct { dispatcher }),
    {
        CommandGateway::Direct { dispatcher }
    }

    pub fn two_phased(recorder: Arc<CommandRecorder<S>>) -> (g: Self)
        ensures
            g == (Self::TwoPhased { recorder }),
    {
        CommandGateway::TwoPhased { recorder }
    }

    /// `r` may be the answer of the place this gateway hands `envelope` to: the dispatcher
    /// (`Direct`) or the store (`TwoPhased`).
    pub open spec fn forward_returns(&self, envelope: NewCommandEnvelope, r: Result<(), CommandError>) -> bool {
        match self {
            CommandGateway::Direct { dispatcher } => dispatcher.dispatch_returns(envelope, r),
            CommandGateway::TwoPhased { recorder } => recorder.spec_repo().spec_store().record_returns(envelope, r),
        }
    }

    /// Handles or stores `envelope`; a command without metadata carries no command id and is
    /// refused before anything else happens.
    pub fn dispatch(&self, envelope: NewCommandEnvelope) -> (r: Result<(), CommandError>)
        ensures
            envelope.metadata is None ==> (r matches Err(CommandError::Conversion(m))
                && m@ == "command_id is required: metadata is missing"@),
            envelope.metadata is Some ==> self.forward_returns(envelope, r),
    {
        if envelope.metadata.is_none() {
            return Err(missing_command_id());
        }
        match self {
            CommandGateway::Direct { dispatcher } => dispatcher.dispatch(&envelope),
            CommandGateway::TwoPhased { recorder } => recorder.record(&envelope),
        }
    }
}

} // verus!
