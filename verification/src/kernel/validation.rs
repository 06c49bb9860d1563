//! The checks the kernel makes of its registrations before it starts.

use std::sync::Arc;
use vstd::prelude::*;

use crate::kernel::application::KernelError;
use crate::support::{owned, texts};

verus! {

/// The name under which the outbox subscribes to the event types it publishes; no
/// application subscriber may use it.
pub fn outbox_subscriber_name() -> (s: &'static str)
    ensures
        s@ == "_outbox"@,
{
    proof {
        reveal_strlit("_outbox");
    }
    "_outbox"
}

/// The item at `i` repeats an earlier one.
pub open spec fn repeats<T>(s: Seq<T>, i: int) -> bool {
    exists|j: int| 0 <= j < i && s[j] == s[i]
}

/// `i` is the first position that repeats an earlier item.
pub open spec fn first_repeat<T>(s: Seq<T>, i: int) -> bool {
    &&& 0 <= i < s.len()
    &&& repeats(s, i)
    &&& forall|k: int| 0 <= k < i ==> !repeats(s, k)
}

/// Some item repeats an earlier one.
pub open spec fn has_repeat<T>(s: Seq<T>) -> bool {
    exists|i: int| 0 <= i < s.len() && repeats(s, i)
}

/// The `(event type, subscriber name)` pairs of subscriptions.
pub open spec fn pairs_of(v: Seq<(String, String)>) -> Seq<(Seq<char>, Seq<char>)> {
    Seq::new(v.len(), |i: int| (v[i].0@, v[i].1@))
}

/// The subscription at `i` is refused: it uses the outbox's name, or repeats an earlier one.
pub open spec fn refused(s: Seq<(Seq<char>, Seq<char>)>, i: int) -> bool {
    s[i].1 == "_outbox"@ || repeats(s, i)
}

/// `i` is the first refused subscription.
pub open spec fn first_refused(s: Seq<(Seq<char>, Seq<char>)>, i: int) -> bool {
    &&& 0 <= i < s.len()
    &&& refused(s, i)
    &&& forall|k: int| 0 <= k < i ==> !refused(s, k)
}

/// Some subscription is refused.
pub open spec fn has_refused(s: Seq<(Seq<char>, Seq<char>)>) -> bool {
    exists|i: int| 0 <= i < s.len() && refused(s, i)
}

/// The first position of `items` that repeats an earlier item.
fn find_repeat(items: &Vec<String>) -> (r: Option<usize>)
    ensures
        r matches Some(i) ==> first_repeat(texts(items@), i as int),
        r is None ==> !has_repeat(texts(items@)),
{
    let ghost s = texts(items@);
    let mut i: usize = 0;
    while i < items.len()
        invariant
            s == texts(items@),
            i <= items.len(),
            forall|k: int| 0 <= k < i ==> !repeats(s, k),
        decreases items.len() - i,
    {
        let mut j: usize = 0;
        while j < i
            invariant
                s == texts(items@),
                j <= i < items.len(),
                forall|k: int| 0 <= k < i ==> !repeats(s, k),
                forall|m: int| 0 <= m < j ==> s[m] != s[i as int],
            decreases i - j,
        {
            if items[j] == items[i] {
                assert(s[j as int] == s[i as int]);
                return Some(i);
            }
            j = j + 1;
        }
        i = i + 1;
    }
    None
}

/// The first refused subscription.
fn find_refused(subscriptions: &Vec<(String, String)>) -> (r: Option<usize>)
    ensures
        r matches Some(i) ==> first_refused(pairs_of(subscriptions@), i as int),
        r is None ==> !has_refused(pairs_of(subscriptions@)),
{
    let ghost s = pairs_of(subscriptions@);
    let outbox = owned(outbox_subscriber_name());
    let mut i: usize = 0;
    while i < subscriptions.len()
        invariant
            s == pairs_of(subscriptions@),
            outbox@ == "_outbox"@,
            i <= subscriptions.len(),
            forall|k: int| 0 <= k < i ==> !refused(s, k),
        decreases subscriptions.len() - i,
    {
        if subscriptions[i].1 == outbox {
            return Some(i);
        }
        let mut j: usize = 0;
        while j < i
            invariant
                s == pairs_of(subscriptions@),
                j <= i < subscriptions.len(),
                forall|k: int| 0 <= k < i ==> !refused(s, k),
                s[i as int].1 != "_outbox"@,
                forall|m: int| 0 <= m < j ==> s[m] != s[i as int],
            decreases i - j,
        {
            if subscriptions[j].0 == subscriptions[i].0 && subscriptions[j].1 == subscriptions[i].1 {
                assert(s[j as int] == s[i as int]);
                return Some(i);
            }
            j = j + 1;
        }
        i = i + 1;
    }
    None
}

/// Checks the registrations: command types with their handlers, `(event type, subscriber
/// name)` subscriptions, and the event types the outbox publishes.
///
/// Refused, in this order: the first command type registered twice; the first subscription
/// that uses the outbox's name, or that repeats an earlier one; an event type published
/// twice by the outbox, which would register the outbox's subscription twice.
pub fn validate_registrations(
    command_types: &Vec<String>,
    subscriptions: &Vec<(String, String)>,
    outbox_event_types: &Vec<String>,
) -> (r: Result<(), KernelError>)
    ensures
        r is Ok <==> !has_repeat(texts(command_types@)) && !has_refused(pairs_of(subscriptions@))
            && !has_repeat(texts(outbox_event_types@)),
        r matches Err(KernelError::DuplicateCommandHandler(t)) ==> exists|i: int|
            first_repeat(texts(command_types@), i) && t@ == texts(command_types@)[i],
        has_repeat(texts(command_types@)) ==> r is Err && r->Err_0 is DuplicateCommandHandler,
        !has_repeat(texts(command_types@)) && has_refused(pairs_of(subscriptions@)) ==> exists|i: int|
            first_refused(pairs_of(subscriptions@), i) && if pairs_of(subscriptions@)[i].1 == "_outbox"@ {
                r matches Err(KernelError::ReservedSubscriberName(n)) && n@ == "_outbox"@
            } else {
                r matches Err(KernelError::DuplicateEventSubscriber { event_type, subscriber })
                    && (event_type@, subscriber@) == pairs_of(subscriptions@)[i]
            },
        !has_repeat(texts(command_types@)) && !has_refused(pairs_of(subscriptions@)) && has_repeat(
            texts(outbox_event_types@),
        ) ==> (r matches Err(KernelError::ReservedSubscriberName(n)) && n@ == "_outbox"@),
{
    match find_repeat(command_types) {
        Some(i) => {
            proof {
                assert(texts(command_types@)[i as int] == command_types@[i as int]@);
            }
            return Err(KernelError::DuplicateCommandHandler(command_types[i].clone()));
        },
        None => {},
    }
    match find_refused(subscriptions) {
        Some(i) => {
            let (event_type, subscriber) = (&subscriptions[i].0, &subscriptions[i].1);
            if *subscriber == owned(outbox_subscriber_name()) {
                return Err(KernelError::ReservedSubscriberName(subscriber.clone()));
            }
            return Err(KernelError::DuplicateEventSubscriber {
                event_type: event_type.clone(),
                subscriber: subscriber.clone(),
            });
        },
        None => {},
    }
    match find_repeat(outbox_event_types) {
        Some(_) => Err(KernelError::ReservedSubscriberName(owned("_outbox"))),
        None => Ok(()),
    }
}

/// The outbox's subscriptions: one for each event type it publishes, under the outbox's
/// name, all to `subscriber`, in the given order.
pub fn outbox_subscriptions<S: ?Sized>(event_types: &Vec<String>, subscriber: &Arc<S>) -> (r: Vec<(String, String, Arc<S>)>)
    ensures
        r.len() == event_types.len(),
        forall|i: int| 0 <= i < r.len() ==> {
            &&& #[trigger] r@[i].0@ == event_types@[i]@
            &&& r@[i].1@ == "_outbox"@
            &&& r@[i].2 == *subscriber
        },
{
    let mut out: Vec<(String, String, Arc<S>)> = Vec::new();
    let mut i: usize = 0;
    while i < event_types.len()
        invariant
            i <= event_types.len(),
            out.len() == i,
            forall|k: int| 0 <= k < i ==> {
                &&& #[trigger] out@[k].0@ == event_types@[k]@
                &&& out@[k].1@ == "_outbox"@
                &&& out@[k].2 == *subscriber
            },
        decreases event_types.len() - i,
    {
        out.push((event_types[i].clone(), owned(outbox_subscriber_name()), Arc::clone(subscriber)));
        i = i + 1;
    }
    out
}

/// The subscription a registration makes: its event type, its name and its subscriber, or
/// `fallback` when it has no subscriber (one made from a command gateway, when there is none).
pub open spec fn resolved<S: ?Sized>(registration: (String, String, Option<Arc<S>>), fallback: Arc<S>) -> (String, String, Arc<S>) {
    (registration.0, registration.1, match registration.2 {
        Some(subscriber) => subscriber,
        None => fallback,
    })
}

/// The subscriptions the event registry is built from: the outbox's first, one for each
/// event type it publishes under the outbox's name to `outbox_subscriber`, then the
/// registered ones in order, a registration without subscriber getting `fallback`.
pub fn event_subscriptions<S: ?Sized>(
    outbox_event_types: &Vec<String>,
    outbox_subscriber: &Arc<S>,
    registered: Vec<(String, String, Option<Arc<S>>)>,
    fallback: &Arc<S>,
) -> (r: Vec<(String, String, Arc<S>)>)
    ensures
        r.len() == outbox_event_types.len() + registered.len(),
        forall|i: int| 0 <= i < outbox_event_types.len() ==> {
            &&& #[trigger] r@[i].0@ == outbox_event_types@[i]@
            &&& r@[i].1@ == "_outbox"@
            &&& r@[i].2 == *outbox_subscriber
        },
        forall|j: int| 0 <= j < registered.len() ==> #[trigger] r@[outbox_event_types.len() + j] == resolved(registered@[j], *fallback),
{
    let mut out = outbox_subscriptions(outbox_event_types, outbox_subscriber);
    let ghost n = outbox_event_types.len() as int;
    let ghost input = registered@;
    for registration in it: registered.into_iter()
        invariant
            it.seq() == input,
            n == outbox_event_types.len(),
            out.len() == n + it.index(),
            forall|i: int| 0 <= i < n ==> {
                &&& #[trigger] out@[i].0@ == outbox_event_types@[i]@
                &&& out@[i].1@ == "_outbox"@
                &&& out@[i].2 == *outbox_subscriber
            },
            forall|j: int| 0 <= j < it.index() ==> #[trigger] out@[n + j] == resolved(input[j], *fallback),
    {
        let (event_type, subscriber_name, subscriber) = registration;
        let subscriber = match subscriber {
            Some(subscriber) => subscriber,
            None => Arc::clone(fallback),
        };
        out.push((event_type, subscriber_name, subscriber));
    }
    out
}

} // verus!
