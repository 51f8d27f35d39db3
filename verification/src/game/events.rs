//! Event kinds and the event bus that routes events to their subscribers.
//!
//! The bus keeps every subscription in the order it was made. Publishing an
//! event yields the handlers to run, in the order they must run: first every
//! handler subscribed to the event's own type, then every handler subscribed
//! to `EventType::UINotification` (the generic UI listeners).

use vstd::prelude::*;

verus! {

/// Event types enumeration
#[derive(Debug, Clone, Copy, PartialEq, Eq, Hash, Structural)]
pub enum EventType {
    // Vehicle events
    VehicleEngineStart,
    VehicleEngineStop,
    VehicleGearChange,
    VehicleDamage,
    VehicleStuck,
    VehicleRecovered,
    // Terrain events
    TerrainDeformation,
    TerrainRecovery,
    // Weather events
    WeatherChange,
    PrecipitationStart,
    PrecipitationStop,
    // Winch events
    WinchAttach,
    WinchDetach,
    WinchCableBreak,
    // Mission events
    MissionStart,
    MissionComplete,
    MissionFail,
    CheckpointReach,
    // UI events
    UINotification,
    UIPause,
    UIResume,
    // Audio events
    AudioPlay,
    AudioStop,
}

/// Kind of a winch event
#[derive(Debug, Clone, Copy, PartialEq, Eq, Structural)]
pub enum WinchEventType {
    Attached,
    Detached,
    CableBroken,
    MaxTensionReached,
}

impl WinchEventType {
    /// The bus event type of a winch event: attach, detach and cable break
    /// have their own types; reaching maximum tension is a UI notification.
    pub fn event_type(self) -> (t: EventType)
        ensures
            t == match self {
                WinchEventType::Attached => EventType::WinchAttach,
                WinchEventType::Detached => EventType::WinchDetach,
                WinchEventType::CableBroken => EventType::WinchCableBreak,
                WinchEventType::MaxTensionReached => EventType::UINotification,
            },
    {
        match self {
            WinchEventType::Attached => EventType::WinchAttach,
            WinchEventType::Detached => EventType::WinchDetach,
            WinchEventType::CableBroken => EventType::WinchCableBreak,
            WinchEventType::MaxTensionReached => EventType::UINotification,
        }
    }
}

/// Kind of a notification event
#[derive(Debug, Clone, Copy, PartialEq, Eq, Structural)]
pub enum NotificationType {
    Info,
    Warning,
    Error,
    Success,
    Tutorial,
}

/// Base event trait: every event tells the bus which type it has.
pub trait GameEvent: Send + Sync {
    /// The type that this event reports.
    spec fn kind(&self) -> EventType;

    fn event_type(&self) -> (t: EventType)
        ensures
            t == self.kind(),
    ;
}

/// The handlers among `subs` that were subscribed to `event_type`, in
/// subscription order.
pub open spec fn handlers_of<H>(subs: Seq<(EventType, H)>, event_type: EventType) -> Seq<H>
    decreases subs.len(),
{
    if subs.len() == 0 {
        Seq::empty()
    } else {
        let rest = handlers_of(subs.drop_last(), event_type);
        if subs.last().0 == event_type {
            rest.push(subs.last().1)
        } else {
            rest
        }
    }
}

/// The handlers that publishing an event of type `event_type` runs, in order:
/// those of the event's own type, then the generic UI listeners.
pub open spec fn dispatch<H>(subs: Seq<(EventType, H)>, event_type: EventType) -> Seq<H> {
    handlers_of(subs, event_type) + handlers_of(subs, EventType::UINotification)
}

/// Subscribing a handler to a type puts it last among that type's handlers
/// and leaves the handlers of every other type as they were.
pub proof fn lemma_subscribe_appends<H>(
    subs: Seq<(EventType, H)>,
    event_type: EventType,
    handler: H,
    other: EventType,
)
    ensures
        handlers_of(subs.push((event_type, handler)), event_type) == handlers_of(
            subs,
            event_type,
        ).push(handler),
        other != event_type ==> handlers_of(subs.push((event_type, handler)), other)
            == handlers_of(subs, other),
{
    assert(subs.push((event_type, handler)).drop_last() == subs);
}

/// After subscribing `handler` to a type other than the UI notification
/// type, publishing an event of that type runs the earlier handlers of the
/// type, then `handler`, then the UI listeners; events of every other type
/// run the same handlers as before.
pub proof fn lemma_subscribe_dispatch<H>(
    subs: Seq<(EventType, H)>,
    event_type: EventType,
    handler: H,
    other: EventType,
)
    requires
        event_type != EventType::UINotification,
    ensures
        dispatch(subs.push((event_type, handler)), event_type) == handlers_of(subs, event_type).push(
            handler,
        ) + handlers_of(subs, EventType::UINotification),
        other != event_type ==> dispatch(subs.push((event_type, handler)), other) == dispatch(
            subs,
            other,
        ),
{
    lemma_subscribe_appends(subs, event_type, handler, EventType::UINotification);
    lemma_subscribe_appends(subs, event_type, handler, other);
}

/// The handlers of a type are exactly the handlers subscribed to that type,
/// in subscription order: none before any subscription, every one listed
/// was subscribed to that type, and every handler subscribed to that type
/// is listed.
pub proof fn lemma_handlers_of_members<H>(subs: Seq<(EventType, H)>, event_type: EventType)
    ensures
        handlers_of(Seq::<(EventType, H)>::empty(), event_type) == Seq::<H>::empty(),
        handlers_of(subs, event_type).len() <= subs.len(),
        forall|i: int|
            0 <= i < handlers_of(subs, event_type).len() ==> exists|j: int|
                0 <= j < subs.len() && #[trigger] subs[j] == (event_type, #[trigger] handlers_of(
                    subs,
                    event_type,
                )[i]),
        forall|j: int|
            0 <= j < subs.len() && (#[trigger] subs[j]).0 == event_type ==> handlers_of(
                subs,
                event_type,
            ).contains(subs[j].1),
    decreases subs.len(),
{
    if subs.len() > 0 {
        let t = subs.drop_last();
        lemma_handlers_of_members(t, event_type);
        let r = handlers_of(subs, event_type);
        let rt = handlers_of(t, event_type);
        assert forall|i: int| 0 <= i < r.len() implies exists|j: int|
            0 <= j < subs.len() && #[trigger] subs[j] == (event_type, #[trigger] r[i]) by {
            if i < rt.len() {
                assert(r[i] == rt[i]);
                let j = choose|j: int| 0 <= j < t.len() && #[trigger] t[j] == (event_type, rt[i]);
                assert(subs[j] == t[j]);
            } else {
                assert(subs[subs.len() - 1] == (event_type, r[i]));
            }
        }
        assert forall|j: int| 0 <= j < subs.len() && (#[trigger] subs[j]).0 == event_type implies r.contains(
            subs[j].1,
        ) by {
            if j < t.len() {
                assert(subs[j] == t[j]);
                let w = choose|w: int| 0 <= w < rt.len() && rt[w] == t[j].1;
                assert(r[w] == rt[w]);
            } else {
                assert(r[r.len() - 1] == subs[j].1);
            }
        }
    }
}

/// Publishing an event of type `t` runs every handler of `t` first, in
/// subscription order, then every generic UI listener, in subscription
/// order, and nothing else. (An event of the UI notification type itself
/// reaches the UI listeners in both parts.)
pub proof fn lemma_dispatch_order<H>(subs: Seq<(EventType, H)>, t: EventType)
    ensures
        dispatch(subs, t).len() == handlers_of(subs, t).len() + handlers_of(
            subs,
            EventType::UINotification,
        ).len(),
        forall|i: int|
            0 <= i < handlers_of(subs, t).len() ==> #[trigger] dispatch(subs, t)[i] == handlers_of(
                subs,
                t,
            )[i],
        forall|i: int|
            0 <= i < handlers_of(subs, EventType::UINotification).len() ==> dispatch(subs, t)[handlers_of(
                subs,
                t,
            ).len() + i] == #[trigger] handlers_of(subs, EventType::UINotification)[i],
{
}

/// Event bus for system communication
pub struct EventBus<H> {
    subscribers: Vec<(EventType, H)>,
}

impl<H> EventBus<H> {
    /// Every subscription made so far, oldest first.
    pub closed spec fn subscriptions(&self) -> Seq<(EventType, H)> {
        self.subscribers@
    }

    pub fn new() -> (bus: Self)
        ensures
            bus.subscriptions() == Seq::<(EventType, H)>::empty(),
    {
        EventBus { subscribers: Vec::new() }
    }

    /// Subscribe to an event type
    pub fn subscribe(&mut self, event_type: EventType, handler: H)
        ensures
            final(self).subscriptions() == old(self).subscriptions().push((event_type, handler)),
    {
        self.subscribers.push((event_type, handler));
    }

    /// The handlers to run for an event of type `event_type`, in order.
    pub fn handlers_for(&self, event_type: EventType) -> (handlers: Vec<&H>)
        ensures
            handlers@.len() == dispatch(self.subscriptions(), event_type).len(),
            forall|i: int|
                0 <= i < handlers@.len() ==> *#[trigger] handlers@[i] == dispatch(
                    self.subscriptions(),
                    event_type,
                )[i],
    {
        let mut handlers: Vec<&H> = Vec::new();
        self.collect_handlers(event_type, &mut handlers);
        self.collect_handlers(EventType::UINotification, &mut handlers);
        handlers
    }

    /// Appends to `out` the handlers subscribed to `event_type`, in order.
    fn collect_handlers<'a>(&'a self, event_type: EventType, out: &mut Vec<&'a H>)
        ensures
            final(out)@.len() == old(out)@.len() + handlers_of(
                self.subscriptions(),
                event_type,
            ).len(),
            forall|i: int| 0 <= i < old(out)@.len() ==> final(out)@[i] == old(out)@[i],
            forall|i: int|
                0 <= i < handlers_of(self.subscriptions(), event_type).len()
                    ==> *final(out)@[old(out)@.len() + i]
                    == handlers_of(self.subscriptions(), event_type)[i],
    {
        let ghost start = out@;
        let n = self.subscribers.len();
        let mut k: usize = 0;
        while k < n
            invariant
                n == self.subscribers@.len(),
                k <= n,
                out@.len() == start.len() + handlers_of(self.subscribers@.take(k as int), event_type).len(),
                forall|i: int| 0 <= i < start.len() ==> out@[i] == start[i],
                forall|i: int|
                    0 <= i < handlers_of(self.subscribers@.take(k as int), event_type).len()
                        ==> *out@[start.len() + i] == handlers_of(
                        self.subscribers@.take(k as int),
                        event_type,
                    )[i],
            decreases n - k,
        {
            assert(self.subscribers@.take((k + 1) as int).drop_last() == self.subscribers@.take(
                k as int,
            ));
            let entry = &self.subscribers[k];
            if entry.0 == event_type {
                out.push(&entry.1);
            }
            k = k + 1;
        }
        assert(self.subscribers@.take(n as int) == self.subscribers@);
    }

    /// Publish an event: the handlers to run for it, in the order they run:
    /// those subscribed to the type the event reports, then the UI listeners.
    pub fn publish<E: GameEvent + ?Sized>(&self, event: &E) -> (handlers: Vec<&H>)
        ensures
            handlers@.len() == dispatch(self.subscriptions(), event.kind()).len(),
            forall|i: int|
                0 <= i < handlers@.len() ==> *#[trigger] handlers@[i] == dispatch(
                    self.subscriptions(),
                    event.kind(),
                )[i],
    {
        let t = event.event_type();
        self.handlers_for(t)
    }
}

impl<H> Default for EventBus<H> {
    fn default() -> (bus: Self)
        ensures
            bus.subscriptions() == Seq::<(EventType, H)>::empty(),
    {
        Self::new()
    }
}

} // verus!
