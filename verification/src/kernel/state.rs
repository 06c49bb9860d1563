//! Dispatching commands through a persistent kernel and draining what they cause.

use std::sync::Arc;
use vstd::prelude::*;

use crate::commanding::application::{CommandError, NewCommandEnvelope};
use crate::commanding::consumer::{CommandConsumer, ReservableCommandSpec};
use crate::commanding::gateway::CommandGateway;
use crate::eventing::application::EventError;
use crate::eventing::consumer::{EventConsumer, ReservableEventSpec};
use crate::kernel::application::KernelError;
use crate::support::owned;

verus! {

/// The kernel error for a failed command consumption: its first error.
pub fn first_command_error(errors: Vec<CommandError>) -> (r: KernelError)
    ensures
        errors.len() > 0 ==> r == KernelError::Command(errors@[0]),
        errors.len() == 0 ==> (r matches KernelError::Worker(m) && m@ == "command consumer failed without an error"@),
{
    let mut errors = errors;
    if errors.len() > 0 {
        KernelError::Command(errors.remove(0))
    } else {
        KernelError::Worker(owned("command consumer failed without an error"))
    }
}

/// The kernel error for a failed event consumption: its first error.
pub fn first_event_error(errors: Vec<EventError>) -> (r: KernelError)
    ensures
        errors.len() > 0 ==> r == KernelError::Event(errors@[0]),
        errors.len() == 0 ==> (r matches KernelError::Worker(m) && m@ == "event consumer failed without an error"@),
{
    let mut errors = errors;
    if errors.len() > 0 {
        KernelError::Event(errors.remove(0))
    } else {
        KernelError::Worker(owned("event consumer failed without an error"))
    }
}

/// Number of commands, and of events, claimed in each drain round.
pub const DRAIN_BATCH: usize = 64;

/// The claim of each drain round for commands: a batch at the default attempt limit.
pub open spec fn drain_command_spec() -> ReservableCommandSpec {
    ReservableCommandSpec { limit: DRAIN_BATCH, max_attempts: ReservableCommandSpec::DEFAULT_MAX_ATTEMPTS }
}

/// The claim of each drain round for events: a batch at the default attempt limit.
pub open spec fn drain_event_spec() -> ReservableEventSpec {
    ReservableEventSpec { limit: DRAIN_BATCH, max_attempts: ReservableEventSpec::DEFAULT_MAX_ATTEMPTS }
}

/// A kernel that stores commands and events before handling them, and that drains both
/// stores a given number of rounds after each dispatched command.
pub struct PersistentKernelState {
    command_gateway: Arc<CommandGateway>,
    command_consumer: Arc<CommandConsumer>,
    event_consumer: Arc<EventConsumer>,
    drain_rounds: usize,
}

impl Clone for PersistentKernelState {
    fn clone(&self) -> (r: Self)
        ensures
            r == *self,
    {
        PersistentKernelState {
            command_gateway: Arc::clone(&self.command_gateway),
            command_consumer: Arc::clone(&self.command_consumer),
            event_consumer: Arc::clone(&self.event_consumer),
            drain_rounds: self.drain_rounds,
        }
    }
}

impl PersistentKernelState {
    pub closed spec fn spec_command_gateway(&self) -> Arc<CommandGateway> {
        self.command_gateway
    }

    pub closed spec fn spec_command_consumer(&self) -> Arc<CommandConsumer> {
        self.command_consumer
    }

    pub closed spec fn spec_event_consumer(&self) -> Arc<EventConsumer> {
        self.event_consumer
    }

    /// Number of drain rounds after each dispatched command.
    pub closed spec fn spec_drain_rounds(&self) -> usize {
        self.drain_rounds
    }

    pub fn new(
        command_gateway: Arc<CommandGateway>,
        command_consumer: Arc<CommandConsumer>,
        event_consumer: Arc<EventConsumer>,
        drain_rounds: usize,
    ) -> (r: Self)
        ensures
            r.spec_command_gateway() == command_gateway,
            r.spec_command_consumer() == command_consumer,
            r.spec_event_consumer() == event_consumer,
            r.spec_drain_rounds() == drain_rounds,
    {
        PersistentKernelState { command_gateway, command_consumer, event_consumer, drain_rounds }
    }

    /// Draining `rounds` more rounds may end in `r`. Each round consumes stored commands,
    /// then stored events; a failing consumption ends the drain with its first error, and
    /// after the last round the drain ends in `Ok`.
    pub open spec fn drain_returns(&self, rounds: nat, r: Result<(), KernelError>) -> bool
        decreases rounds,
    {
        if rounds == 0 {
            r is Ok
        } else {
            exists|consumed: Result<(), Vec<CommandError>>|
                #[trigger] self.spec_command_consumer().consume_returns(drain_command_spec(), consumed) && match consumed {
                    Err(errors) => r == Err::<(), KernelError>(KernelError::Command(errors@[0])),
                    Ok(_) => exists|delivered: Result<(), Vec<EventError>>|
                        #[trigger] self.spec_event_consumer().consume_returns(drain_event_spec(), delivered) && match delivered {
                            Err(errors) => r == Err::<(), KernelError>(KernelError::Event(errors@[0])),
                            Ok(_) => self.drain_returns((rounds - 1) as nat, r),
                        },
                }
        }
    }

    /// Dispatches `envelope` through the command gateway, then drains: each round consumes
    /// stored commands, then stored events. The first failure ends the dispatch with the
    /// failing step's first error.
    pub fn dispatch_command(&self, envelope: NewCommandEnvelope) -> (r: Result<(), KernelError>)
        ensures
            envelope.metadata is None ==> (r matches Err(KernelError::Command(CommandError::Conversion(m)))
                && m@ == "command_id is required: metadata is missing"@),
            envelope.metadata is Some ==> exists|dispatched: Result<(), CommandError>|
                #[trigger] self.spec_command_gateway().forward_returns(envelope, dispatched) && match dispatched {
                    Err(e) => r == Err::<(), KernelError>(KernelError::Command(e)),
                    Ok(_) => self.drain_returns(self.spec_drain_rounds() as nat, r),
                },
    {
        let ghost sent = envelope;
        let dispatched = self.command_gateway.dispatch(envelope);
        match dispatched {
            Ok(_) => {},
            Err(e) => {
                proof {
                    if sent.metadata is Some {
                        assert(self.spec_command_gateway().forward_returns(sent, dispatched));
                    }
                }
                return Err(KernelError::Command(e));
            },
        }
        assert(self.spec_command_gateway().forward_returns(sent, dispatched));
        let ghost total = self.drain_rounds as nat;
        let mut round: usize = 0;
        while round < self.drain_rounds
            invariant
                round <= self.drain_rounds,
                total == self.drain_rounds,
                envelope.metadata is Some,
                self.spec_command_gateway().forward_returns(envelope, dispatched),
                dispatched is Ok,
                forall|r: Result<(), KernelError>|
                    #[trigger] self.drain_returns((total - round) as nat, r) ==> self.drain_returns(total, r),
            decreases self.drain_rounds - round,
        {
            let ghost left = (total - round) as nat;
            let consumed = self.command_consumer.consume(&ReservableCommandSpec::new(DRAIN_BATCH));
            assert(self.spec_command_consumer().consume_returns(drain_command_spec(), consumed));
            match consumed {
                Ok(_) => {},
                Err(errors) => {
                    let r = Err(first_command_error(errors));
                    assert(self.drain_returns(left, r));
                    return r;
                },
            }
            let delivered = self.event_consumer.consume(&ReservableEventSpec::new(DRAIN_BATCH));
            assert(self.spec_event_consumer().consume_returns(drain_event_spec(), delivered));
            match delivered {
                Ok(_) => {},
                Err(errors) => {
                    let r = Err(first_event_error(errors));
                    assert(self.drain_returns(left, r));
                    return r;
                },
            }
            proof {
                assert forall|r: Result<(), KernelError>| #[trigger] self.drain_returns((left - 1) as nat, r) implies self.drain_returns(total, r) by {
                    assert(self.drain_returns(left, r));
                }
            }
            round = round + 1;
            proof {
                assert forall|r: Result<(), KernelError>| #[trigger] self.drain_returns((total - round) as nat, r) implies self.drain_returns(total, r) by {
                    assert((total - round) as nat == (left - 1) as nat);
                }
            }
        }
        let r = Ok(());
        assert(self.drain_returns((total - round) as nat, r));
        assert(self.drain_returns(total, r));
        r
    }

    /// The gateway that stores commands.
    pub fn command_gateway(&self) -> (r: Arc<CommandGateway>)
        ensures
            r == self.spec_command_gateway(),
    {
        Arc::clone(&self.command_gateway)
    }

    pub fn command_consumer(&self) -> (r: Arc<CommandConsumer>)
        ensures
            r == self.spec_command_consumer(),
    {
        Arc::clone(&self.command_consumer)
    }

    pub fn event_consumer(&self) -> (r: Arc<EventConsumer>)
        ensures
            r == self.spec_event_consumer(),
    {
        Arc::clone(&self.event_consumer)
    }
}

} // verus!
