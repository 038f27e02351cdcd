use event_listener::{Event, EventListener};
use vstd::prelude::*;

verus! {

#[verifier::external_type_specification]
#[verifier::external_body]
pub struct ExEvent(Event);

#[verifier::external_type_specification]
#[verifier::external_body]
pub struct ExEventListener(EventListener);

/// Relies on `event_listener::Event::new`: a fresh event with no listeners.
#[verifier::external_body]
fn new_event() -> (r: Event) {
    Event::new()
}

/// How many listeners registered on the event have not been notified yet.
pub uninterp spec fn unnotified(e: Event) -> nat;

/// Whether the listener is registered on the event's list, as
/// `event_listener::EventListener::listens_to` reports it.
pub uninterp spec fn listens_on(l: EventListener, e: Event) -> bool;

/// Relies on `event_listener::Event::listen`: registers a listener on the event's list
/// before returning it, so that a later `notify` reaches it; the list, once made, stays the
/// event's list. The event is taken by `&mut` because the set of listeners grows; its list
/// lock is poisoned only by a panic while held, which the library's own use never causes.
#[verifier::external_body]
fn listen_to(event: &mut Event) -> (r: EventListener)
    ensures
        listens_on(r, *final(event)),
        forall|l: EventListener| listens_on(l, *old(event)) ==> #[trigger] listens_on(l, *final(event)),
    opens_invariants none
    no_unwind
{
    event.listen()
}

/// Relies on `event_listener::Event::notify` (and the list's `notify`, which marks entries
/// until `n` are notified or none is left): with `n == usize::MAX` every registered listener
/// is notified. It keeps the event's list, and its critical sections only hand out
/// wakeups, so it does not unwind.
#[verifier::external_body]
fn notify_listeners(event: &mut Event, n: usize)
    ensures
        n == usize::MAX ==> unnotified(*final(event)) == 0,
        forall|l: EventListener| listens_on(l, *old(event)) ==> #[trigger] listens_on(l, *final(event)),
    opens_invariants none
    no_unwind
{
    event.notify(n)
}

/// `post` is `pre` after one call of `subscribe` that handed out `s`.
pub open spec fn subscribe_step(pre: ShutdownSignal, post: ShutdownSignal, s: Subscription) -> bool {
    &&& post.holds(s)
    &&& forall|t: Subscription| pre.holds(t) ==> #[trigger] post.holds(t)
    &&& s.is_resolved() == pre.is_fired()
    &&& post.is_fired() == pre.is_fired()
    &&& post.broadcast_count() == pre.broadcast_count()
    &&& post.subscription_count() == pre.subscription_count() + 1
}

/// `post` is `pre` after one call of `broadcast`: fired, with every registered listener
/// notified (the subscriptions it held, it still holds), by one notification in all, not
/// sent again if `pre` had fired already.
pub open spec fn broadcast_step(pre: ShutdownSignal, post: ShutdownSignal) -> bool {
    &&& forall|t: Subscription| pre.holds(t) ==> #[trigger] post.holds(t)
    &&& post.is_fired()
    &&& post.all_notified()
    &&& post.broadcast_count() == 1
    &&& post.subscription_count() == pre.subscription_count()
    &&& pre.is_fired() ==> post.broadcast_count() == pre.broadcast_count()
}

/// A subscription taken after the broadcast is resolved from the start, so its holder
/// never waits for a notification that was already sent.
pub proof fn lemma_late_subscription_resolved(
    s0: ShutdownSignal,
    s1: ShutdownSignal,
    s2: ShutdownSignal,
    sub: Subscription,
)
    requires
        broadcast_step(s0, s1),
        subscribe_step(s1, s2, sub),
    ensures
        sub.is_resolved(),
{
}

/// A subscription taken before the broadcast is not resolved: it is the listener that the
/// broadcast wakes.
pub proof fn lemma_early_subscription_waits(
    s0: ShutdownSignal,
    s1: ShutdownSignal,
    sub: Subscription,
)
    requires
        !s0.is_fired(),
        subscribe_step(s0, s1, sub),
    ensures
        !sub.is_resolved(),
{
}

/// Broadcasting a second time is harmless: the signal stays fired, and the listeners have
/// still been notified exactly once.
pub proof fn lemma_broadcast_twice(s0: ShutdownSignal, s1: ShutdownSignal, s2: ShutdownSignal)
    requires
        broadcast_step(s0, s1),
        broadcast_step(s1, s2),
    ensures
        s2.is_fired(),
        s2.all_notified(),
        s2.broadcast_count() == 1,
        s2.broadcast_count() == s1.broadcast_count(),
        s2.subscription_count() == s0.subscription_count(),
{
}

/// A one-shot broadcast that tells every subscriber to stop.
///
/// Once fired it stays fired: a subscription taken afterwards is resolved from the start,
/// so no subscriber can wait for a broadcast that already happened.
pub struct ShutdownSignal {
    event: Event,
    state: FireState,
    subscriptions: Ghost<nat>,
}

/// Whether the signal has fired, with the number of notifications that were sent.
struct FireState {
    fired: bool,
    broadcasts: Ghost<nat>,
}

/// A subscriber's token: either already resolved, or a listener that the next broadcast wakes.
pub struct Subscription {
    listener: Option<EventListener>,
}

impl Subscription {

    /// The broadcast had already happened when this subscription was taken.
    pub closed spec fn is_resolved(&self) -> bool {
        self.listener.is_none()
    }

    /// Whether the subscription was already resolved when it was handed out.
    pub fn resolved(&self) -> (r: bool)
        ensures
            r == self.is_resolved(),
    {
        self.listener.is_none()
    }

    /// Gives up the listener to wait on, or `None` when there is nothing left to wait for.
    pub fn into_listener(self) -> (r: Option<EventListener>)
        ensures
            r.is_none() == self.is_resolved(),
    {
        self.listener
    }
}

impl ShutdownSignal {
    #[verifier::type_invariant]
    spec fn inv(&self) -> bool {
        &&& self.state.broadcasts@ <= 1
        &&& self.state.fired <==> self.state.broadcasts@ == 1
        &&& self.state.fired ==> unnotified(self.event) == 0
    }

    /// The subscription belongs to this signal: it is resolved, or its listener is
    /// registered on the signal's event, so a broadcast reaches it.
    pub closed spec fn holds(&self, s: Subscription) -> bool {
        s.listener matches Some(l) ==> listens_on(l, self.event)
    }

    /// Every listener registered on the signal's event has been notified.
    pub closed spec fn all_notified(&self) -> bool {
        unnotified(self.event) == 0
    }

    /// Whether the broadcast has happened.
    pub closed spec fn is_fired(&self) -> bool {
        self.state.fired
    }

    /// How many times `broadcast` sent out a notification: at most once over the signal's life.
    pub closed spec fn broadcast_count(&self) -> nat {
        self.state.broadcasts@
    }

    /// How many subscriptions `subscribe` has handed out.
    pub closed spec fn subscription_count(&self) -> nat {
        self.subscriptions@
    }

    /// A signal that has not fired and has no subscribers.
    pub fn new() -> (r: Self)
        ensures
            !r.is_fired(),
            r.broadcast_count() == 0,
            r.subscription_count() == 0,
    {
        ShutdownSignal {
            event: new_event(),
            state: FireState { fired: false, broadcasts: Ghost(0) },
            subscriptions: Ghost(0),
        }
    }

    /// Whether the broadcast has happened.
    pub fn fired(&self) -> (r: bool)
        ensures
            r == self.is_fired(),
    {
        self.state.fired
    }

    /// Takes a subscription. Taken before the broadcast, it is woken by it; taken after,
    /// it is resolved at once.
    pub fn subscribe(&mut self) -> (s: Subscription)
        ensures
            subscribe_step(*old(self), *final(self), s),
    {
        proof {
            use_type_invariant(&*self);
        }
        let listener = if self.state.fired {
            None
        } else {
            Some(listen_to(&mut self.event))
        };
        self.subscriptions = Ghost(self.subscriptions@ + 1);
        Subscription { listener }
    }

    /// Fires the signal. The listeners are notified on the first call only; later calls
    /// change nothing.
    pub fn broadcast(&mut self)
        ensures
            broadcast_step(*old(self), *final(self)),
        opens_invariants none
        no_unwind
    {
        proof {
            use_type_invariant(&*self);
        }
        if !self.state.fired {
            notify_listeners(&mut self.event, usize::MAX);
            self.state = FireState { fired: true, broadcasts: Ghost(self.state.broadcasts@ + 1) };
        }
    }
}

} // verus!
