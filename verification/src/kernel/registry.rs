//! Routing commands to their handler and events to their subscribers.

use std::sync::Arc;
use vstd::prelude::*;

use crate::commanding::application::{CommandError, NewCommandEnvelope};
use crate::commanding::dispatcher::ErasedCommandHandler;
use crate::eventing::application::{EventError, NewEventEnvelope};
use crate::eventing::dispatcher::EventSubscriberPort;

verus! {

/// The command types of registered handlers, in registration order.
pub open spec fn keys_of<H: ?Sized>(entries: Seq<(String, Arc<H>)>) -> Seq<Seq<char>> {
    Seq::new(entries.len(), |i: int| entries[i].0@)
}

/// Routes each command to the handler registered for its type; when a type was registered
/// more than once, the last registration wins.
pub struct CommandHandlerRegistry<H: ErasedCommandHandler + ?Sized = dyn ErasedCommandHandler> {
    handlers: Vec<(String, Arc<H>)>,
}

impl<H: ErasedCommandHandler + ?Sized> CommandHandlerRegistry<H> {
    /// The command types that have a handler, in registration order.
    pub closed spec fn command_types(&self) -> Seq<Seq<char>> {
        keys_of(self.handlers@)
    }

    /// The handler of the registration at position `i`.
    pub closed spec fn handler_at(&self, i: int) -> Arc<H> {
        self.handlers@[i].1
    }

    /// `i` is the position of the last registration for `command_type`.
    pub open spec fn last_registration(&self, command_type: Seq<char>, i: int) -> bool {
        &&& 0 <= i < self.command_types().len()
        &&& self.command_types()[i] == command_type
        &&& forall|j: int| i < j < self.command_types().len() ==> self.command_types()[j] != command_type
    }

    /// A registry of the given `(command type, handler)` registrations.
    pub fn from_handlers(handlers: Vec<(String, Arc<H>)>) -> (r: Self)
        ensures
            r.command_types() == keys_of(handlers@),
    {
        Self { handlers }
    }

    /// The position of the last handler registered for `command_type`.
    fn lookup(&self, command_type: &String) -> (r: Option<usize>)
        ensures
            r matches Some(i) ==> i < self.command_types().len() && self.command_types()[i as int] == command_type@
                && forall|j: int| i < j < self.command_types().len() ==> self.command_types()[j] != command_type@,
            r is None ==> !self.command_types().contains(command_type@),
    {
        let mut i = self.handlers.len();
        while i > 0
            invariant
                i <= self.handlers.len(),
                forall|j: int| i <= j < self.handlers.len() ==> self.handlers@[j].0@ != command_type@,
            decreases i,
        {
            i = i - 1;
            if self.handlers[i].0 == *command_type {
                return Some(i);
            }
        }
        proof {
            if self.command_types().contains(command_type@) {
                let k = choose|k: int| 0 <= k < self.command_types().len() && self.command_types()[k] == command_type@;
                assert(self.handlers@[k].0@ == command_type@);
            }
        }
        None
    }
}

impl<H: ErasedCommandHandler + ?Sized> ErasedCommandHandler for CommandHandlerRegistry<H> {
    /// The answer of the last handler registered for the command's type; a type without
    /// handler is refused.
    open spec fn execute_returns(&self, envelope: NewCommandEnvelope, r: Result<Vec<NewEventEnvelope>, CommandError>) -> bool {
        let t = envelope.command.command_type@;
        if self.command_types().contains(t) {
            exists|i: int| self.last_registration(t, i) && #[trigger] self.handler_at(i).execute_returns(envelope, r)
        } else {
            r matches Err(CommandError::HandlerNotFound(name)) && name@ == t
        }
    }

    /// Runs the handler registered for the command's type; a type without handler is refused.
    fn execute(&self, envelope: &NewCommandEnvelope) -> (r: Result<Vec<NewEventEnvelope>, CommandError>)
        ensures
            !self.command_types().contains(envelope.command.command_type@) ==> (r matches Err(
                CommandError::HandlerNotFound(t),
            ) && t@ == envelope.command.command_type@),
    {
        match self.lookup(&envelope.command.command_type) {
            Some(i) => {
                let r = self.handlers[i].1.execute(envelope);
                assert(self.handler_at(i as int).execute_returns(*envelope, r));
                r
            },
            None => Err(CommandError::HandlerNotFound(envelope.command.command_type.clone())),
        }
    }
}

/// The subscribers registered for event type `t`, in registration order, by name.
pub open spec fn group_of<S: ?Sized>(registrations: Seq<(String, String, Arc<S>)>, t: Seq<char>) -> Seq<(String, Arc<S>)>
    decreases registrations.len(),
{
    if registrations.len() == 0 {
        Seq::empty()
    } else {
        let rest = group_of(registrations.drop_last(), t);
        let last = registrations.last();
        if last.0@ == t {
            rest.push((last.1, last.2))
        } else {
            rest
        }
    }
}

/// No two groups are for the same event type.
pub open spec fn distinct_keys<S: ?Sized>(groups: Seq<(String, Vec<(String, Arc<S>)>)>) -> bool {
    forall|a: int, b: int| 0 <= a < b < groups.len() ==> groups[a].0@ != groups[b].0@
}

/// The members of the group for event type `t`, or none.
pub open spec fn members_of<S: ?Sized>(groups: Seq<(String, Vec<(String, Arc<S>)>)>, t: Seq<char>) -> Seq<(String, Arc<S>)> {
    if exists|k: int| 0 <= k < groups.len() && groups[k].0@ == t {
        let k = choose|k: int| 0 <= k < groups.len() && groups[k].0@ == t;
        groups[k].1@
    } else {
        Seq::empty()
    }
}

proof fn lemma_members_at<S: ?Sized>(groups: Seq<(String, Vec<(String, Arc<S>)>)>, k: int)
    requires
        distinct_keys(groups),
        0 <= k < groups.len(),
    ensures
        members_of(groups, groups[k].0@) == groups[k].1@,
{
    let t = groups[k].0@;
    let c = choose|c: int| 0 <= c < groups.len() && groups[c].0@ == t;
    if c != k {
        if c < k {
            assert(groups[c].0@ != groups[k].0@);
        } else {
            assert(groups[k].0@ != groups[c].0@);
        }
    }
}

proof fn lemma_members_elsewhere<S: ?Sized>(
    before: Seq<(String, Vec<(String, Arc<S>)>)>,
    after: Seq<(String, Vec<(String, Arc<S>)>)>,
    t: Seq<char>,
)
    requires
        distinct_keys(before),
        distinct_keys(after),
        before.len() <= after.len(),
        forall|j: int| 0 <= j < before.len() ==> #[trigger] after[j].0@ == before[j].0@,
        forall|j: int| 0 <= j < before.len() && after[j].0@ == t ==> #[trigger] after[j].1@ == before[j].1@,
        forall|j: int| before.len() <= j < after.len() ==> #[trigger] after[j].0@ != t,
    ensures
        members_of(after, t) == members_of(before, t),
{
    if exists|c: int| 0 <= c < before.len() && before[c].0@ == t {
        let c = choose|c: int| 0 <= c < before.len() && before[c].0@ == t;
        lemma_members_at(before, c);
        lemma_members_at(after, c);
    } else {
        assert(!exists|c: int| 0 <= c < after.len() && after[c].0@ == t) by {
            if exists|c: int| 0 <= c < after.len() && after[c].0@ == t {
                let c = choose|c: int| 0 <= c < after.len() && after[c].0@ == t;
                if c < before.len() {
                    assert(before[c].0@ == t);
                }
            }
        }
    }
}

proof fn lemma_group_step<S: ?Sized>(input: Seq<(String, String, Arc<S>)>, i: int, t: Seq<char>)
    requires
        0 <= i < input.len(),
    ensures
        group_of(input.take(i + 1), t) == if input[i].0@ == t {
            group_of(input.take(i), t).push((input[i].1, input[i].2))
        } else {
            group_of(input.take(i), t)
        },
{
    assert(input.take(i + 1).drop_last() =~= input.take(i));
    assert(input.take(i + 1).last() == input[i]);
}

/// Adding one registration to the groups changes only the group of its event type.
proof fn lemma_added<S: ?Sized>(
    before: Seq<(String, Vec<(String, Arc<S>)>)>,
    after: Seq<(String, Vec<(String, Arc<S>)>)>,
    k: int,
    found: bool,
    key: Seq<char>,
    member: (String, Arc<S>),
)
    requires
        distinct_keys(before),
        found ==> 0 <= k < before.len() && before[k].0@ == key && after == before.update(k, after[k])
            && after[k].0@ == key && after[k].1@ == before[k].1@.push(member),
        !found ==> (forall|j: int| 0 <= j < before.len() ==> before[j].0@ != key) && after.len() == before.len() + 1
            && after.subrange(0, before.len() as int) == before && after.last().0@ == key
            && after.last().1@ == seq![member],
    ensures
        distinct_keys(after),
        forall|t: Seq<char>| #[trigger] members_of(after, t) == if t == key {
            members_of(before, t).push(member)
        } else {
            members_of(before, t)
        },
{
    if found {
        assert forall|a: int, b: int| 0 <= a < b < after.len() implies after[a].0@ != after[b].0@ by {
            assert(after[a].0@ == before[a].0@);
            assert(after[b].0@ == before[b].0@);
        }
        assert forall|t: Seq<char>| #[trigger] members_of(after, t) == if t == key {
            members_of(before, t).push(member)
        } else {
            members_of(before, t)
        } by {
            if t == key {
                lemma_members_at(before, k);
                lemma_members_at(after, k);
            } else {
                lemma_members_elsewhere(before, after, t);
            }
        }
    } else {
        let n = before.len() as int;
        assert forall|j: int| 0 <= j < n implies #[trigger] after[j] == before[j] by {
            assert(after.subrange(0, n)[j] == after[j]);
        }
        assert forall|a: int, b: int| 0 <= a < b < after.len() implies after[a].0@ != after[b].0@ by {
            if b < n {
                assert(after[a] == before[a]);
                assert(after[b] == before[b]);
            } else {
                assert(after[a] == before[a]);
            }
        }
        assert forall|t: Seq<char>| #[trigger] members_of(after, t) == if t == key {
            members_of(before, t).push(member)
        } else {
            members_of(before, t)
        } by {
            if t == key {
                lemma_members_at(after, n);
                assert(!exists|c: int| 0 <= c < before.len() && before[c].0@ == t);
                assert(seq![member] =~= Seq::<(String, Arc<S>)>::empty().push(member));
            } else {
                lemma_members_elsewhere(before, after, t);
            }
        }
    }
}

/// The position of the group for `event_type`.
fn position_of<S: ?Sized>(groups: &Vec<(String, Vec<(String, Arc<S>)>)>, event_type: &String) -> (r: Option<usize>)
    ensures
        r matches Some(k) ==> k < groups@.len() && groups@[k as int].0@ == event_type@,
        r is None ==> forall|c: int| 0 <= c < groups@.len() ==> groups@[c].0@ != event_type@,
{
    let mut k: usize = 0;
    while k < groups.len()
        invariant
            k <= groups.len(),
            forall|j: int| 0 <= j < k ==> groups@[j].0@ != event_type@,
        decreases groups.len() - k,
    {
        if groups[k].0 == *event_type {
            return Some(k);
        }
        k = k + 1;
    }
    None
}

/// Handing `envelope` to `members` in order, stopping at the first failure, may end in `r`:
/// every member accepted it and `r` is `Ok`, or the members before one accepted it and that
/// one answered `r`, an error.
pub open spec fn delivery_returns<S: EventSubscriberPort + ?Sized>(
    members: Seq<(String, Arc<S>)>,
    envelope: NewEventEnvelope,
    r: Result<(), EventError>,
) -> bool {
    ||| r is Ok && forall|j: int| 0 <= j < members.len() ==> #[trigger] members[j].1.handle_returns(envelope, Ok(()))
    ||| r is Err && exists|k: int|
        0 <= k < members.len() && #[trigger] members[k].1.handle_returns(envelope, r)
            && forall|j: int| 0 <= j < k ==> #[trigger] members[j].1.handle_returns(envelope, Ok(()))
}

/// Hands each event to every subscriber registered for its type, in registration order.
pub struct EventSubscriberRegistry<S: EventSubscriberPort + ?Sized = dyn EventSubscriberPort> {
    subscribers: Vec<(String, Vec<(String, Arc<S>)>)>,
}

impl<S: EventSubscriberPort + ?Sized> EventSubscriberRegistry<S> {
    /// Each event type has at most one group.
    #[verifier::type_invariant]
    spec fn groups_are_distinct(self) -> bool {
        distinct_keys(self.subscribers@)
    }

    /// The subscribers for event type `t`, in registration order, by name.
    pub closed spec fn subscribers_of(&self, t: Seq<char>) -> Seq<(String, Arc<S>)> {
        members_of(self.subscribers@, t)
    }

    /// Groups `(event type, subscriber name, subscriber)` registrations by event type,
    /// keeping the registration order within each type.
    pub fn from_subscribers(subscribers: Vec<(String, String, Arc<S>)>) -> (r: Self)
        ensures
            forall|t: Seq<char>| #[trigger] r.subscribers_of(t) == group_of(subscribers@, t),
    {
        let ghost input = subscribers@;
        let mut groups: Vec<(String, Vec<(String, Arc<S>)>)> = Vec::new();
        for registration in it: subscribers.into_iter()
            invariant
                it.seq() == input,
                distinct_keys(groups@),
                forall|t: Seq<char>| #[trigger] members_of(groups@, t) == group_of(input.take(it.index() as int), t),
        {
            let ghost before = groups@;
            let ghost i = it.index() as int;
            let (event_type, name, subscriber) = registration;
            let ghost key = event_type@;
            let position = position_of(&groups, &event_type);
            let found = position.is_some();
            let k: usize = match position {
                Some(k) => k,
                None => 0,
            };
            if found {
                let (group_type, mut members) = groups.remove(k);
                members.push((name, subscriber));
                groups.insert(k, (group_type, members));
            } else {
                let mut members = Vec::new();
                members.push((name, subscriber));
                groups.push((event_type, members));
            }
            proof {
                if found {
                    assert(groups@ =~= before.update(k as int, groups@[k as int]));
                } else {
                    assert(groups@.subrange(0, before.len() as int) =~= before);
                }
                lemma_added(before, groups@, k as int, found, key, (input[i].1, input[i].2));
                assert forall|t: Seq<char>| #[trigger] members_of(groups@, t) == group_of(input.take(i + 1), t) by {
                    lemma_group_step(input, i, t);
                }
            }
        }
        proof {
            assert(input.take(input.len() as int) =~= input);
        }
        Self { subscribers: groups }
    }

    /// The position of the group for `event_type`.
    fn group_index(&self, event_type: &String) -> (r: Option<usize>)
        requires
            distinct_keys(self.subscribers@),
        ensures
            r matches Some(k) ==> k < self.subscribers@.len() && self.subscribers@[k as int].0@ == event_type@,
            r is None ==> !exists|c: int| 0 <= c < self.subscribers@.len() && self.subscribers@[c].0@ == event_type@,
    {
        position_of(&self.subscribers, event_type)
    }
}

impl<S: EventSubscriberPort + ?Sized> EventSubscriberPort for EventSubscriberRegistry<S> {
    /// What handing the event to the subscribers of its type, in order, may end in.
    open spec fn handle_returns(&self, envelope: NewEventEnvelope, r: Result<(), EventError>) -> bool {
        delivery_returns(self.subscribers_of(envelope.event_type@), envelope, r)
    }

    /// Hands the event to the subscribers of its type in registration order; the first
    /// failure stops the delivery. An event type without subscribers is delivered to none.
    fn handle(&self, envelope: &NewEventEnvelope) -> (r: Result<(), EventError>)
        ensures
            self.subscribers_of(envelope.event_type@).len() == 0 ==> r is Ok,
    {
        proof {
            use_type_invariant(self);
        }
        match self.group_index(&envelope.event_type) {
            None => Ok(()),
            Some(k) => {
                proof {
                    lemma_members_at(self.subscribers@, k as int);
                }
                let members = &self.subscribers[k].1;
                let mut i: usize = 0;
                while i < members.len()
                    invariant
                        i <= members.len(),
                        members@ == self.subscribers_of(envelope.event_type@),
                        forall|j: int| 0 <= j < i ==> #[trigger] members@[j].1.handle_returns(*envelope, Ok(())),
                    decreases members.len() - i,
                {
                    let answer = members[i].1.handle(envelope);
                    assert(members@[i as int].1.handle_returns(*envelope, answer));
                    match answer {
                        Ok(u) => {
                            assert(u == ());
                            assert(answer == Ok::<(), EventError>(()));
                        },
                        Err(e) => return Err(e),
                    }
                    i = i + 1;
                }
                Ok(())
            },
        }
    }
}

} // verus!
