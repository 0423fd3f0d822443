//! The event bus: one registry of subscribers per event type.
//!
//! A subscriber is the sending half of an unbounded channel. Publishing first
//! drops every subscriber whose receiving half is gone, then sends each
//! remaining subscriber the payload made for its position in the registry.
//! A publish call that finds no live subscriber reports a failure.

use tokio::sync::mpsc::UnboundedReceiver;
use tokio::sync::mpsc::UnboundedSender;
use vstd::prelude::*;
use vstd::string::*;

verus! {

/// The sending half of tokio's unbounded channel, carried as an opaque value.
#[verifier::external_type_specification]
#[verifier::external_body]
#[verifier::reject_recursive_types(T)]
pub struct ExUnboundedSender<T>(UnboundedSender<T>);

/// The receiving half of tokio's unbounded channel, carried as an opaque value.
#[verifier::external_type_specification]
#[verifier::external_body]
#[verifier::reject_recursive_types(T)]
pub struct ExUnboundedReceiver<T>(UnboundedReceiver<T>);

/// Seconds between two heartbeats on a subscriber's stream.
pub const HEARTBEAT_SECONDS: u64 = 10;

/// The kinds of event that the bus routes, each on its own registry.
#[derive(Clone, Copy, PartialEq, Eq, Debug, Structural)]
pub enum EventType {
    ImageChange,
    PopupShow,
    PopupHide,
    OrdersUpdated,
}

/// The name under which events of a type are sent to clients.
pub open spec fn event_name_text(event: EventType) -> Seq<char> {
    match event {
        EventType::ImageChange => "image_change"@,
        EventType::PopupShow => "popup_show"@,
        EventType::PopupHide => "popup_hide"@,
        EventType::OrdersUpdated => "orders_updated"@,
    }
}

/// The name under which events of a type are sent to clients.
pub fn event_name(event: EventType) -> (name: &'static str)
    ensures
        name@ == event_name_text(event),
{
    match event {
        EventType::ImageChange => "image_change",
        EventType::PopupShow => "popup_show",
        EventType::PopupHide => "popup_hide",
        EventType::OrdersUpdated => "orders_updated",
    }
}

/// What is left of `subs` once every entry flagged in `closed` is dropped,
/// the others keeping their order.
pub open spec fn keep_open<T>(subs: Seq<T>, closed: Seq<bool>) -> Seq<T>
    recommends
        subs.len() == closed.len(),
    decreases subs.len(),
{
    if subs.len() == 0 || closed.len() == 0 {
        Seq::empty()
    } else if closed.last() {
        keep_open(subs.drop_last(), closed.drop_last())
    } else {
        keep_open(subs.drop_last(), closed.drop_last()).push(subs.last())
    }
}

/// `keep_open` never grows a registry.
pub proof fn lemma_keep_open_len<T>(subs: Seq<T>, closed: Seq<bool>)
    ensures
        keep_open(subs, closed).len() <= subs.len(),
    decreases subs.len(),
{
    if subs.len() != 0 && closed.len() != 0 {
        lemma_keep_open_len(subs.drop_last(), closed.drop_last());
    }
}

/// Pruning keeps exactly the subscribers that are not flagged: each of them
/// is still registered afterwards, and nobody else is.
pub proof fn lemma_keep_open_members<T>(subs: Seq<T>, closed: Seq<bool>)
    requires
        subs.len() == closed.len(),
    ensures
        forall|i: int|
            0 <= i < subs.len() && !closed[i] ==> keep_open(subs, closed).contains(#[trigger] subs[i]),
        forall|j: int|
            0 <= j < keep_open(subs, closed).len() ==> exists|i: int|
                0 <= i < subs.len() && !closed[i] && subs[i] == #[trigger] keep_open(subs, closed)[j],
    decreases subs.len(),
{
    if subs.len() > 0 {
        let head = subs.drop_last();
        let flags = closed.drop_last();
        let kept = keep_open(subs, closed);
        let before = keep_open(head, flags);
        lemma_keep_open_members(head, flags);
        let last = subs.len() - 1;
        assert forall|i: int| 0 <= i < subs.len() && !closed[i] implies kept.contains(
            #[trigger] subs[i],
        ) by {
            if i < last {
                assert(head[i] == subs[i] && flags[i] == closed[i]);
                assert(before.contains(head[i]));
                let at = choose|at: int| 0 <= at < before.len() && before[at] == head[i];
                assert(kept[at] == subs[i]);
            } else {
                assert(kept[kept.len() - 1] == subs[i]);
            }
        }
        assert forall|j: int| 0 <= j < kept.len() implies exists|i: int|
            0 <= i < subs.len() && !closed[i] && subs[i] == #[trigger] kept[j] by {
            if j < before.len() {
                assert(kept[j] == before[j]);
                let i = choose|i: int| 0 <= i < head.len() && !flags[i] && head[i] == before[j];
                assert(0 <= i < subs.len() && !closed[i] && subs[i] == kept[j]);
            } else {
                assert(!closed[last] && subs[last] == kept[j]);
            }
        }
    }
}

/// Where no subscriber is flagged, pruning drops nobody.
pub proof fn lemma_keep_open_all_live<T>(subs: Seq<T>, closed: Seq<bool>)
    requires
        subs.len() == closed.len(),
        forall|i: int| 0 <= i < closed.len() ==> !closed[i],
    ensures
        keep_open(subs, closed) == subs,
    decreases subs.len(),
{
    if subs.len() > 0 {
        lemma_keep_open_all_live(subs.drop_last(), closed.drop_last());
        assert(subs.drop_last().push(subs.last()) =~= subs);
    } else {
        assert(keep_open(subs, closed) =~= subs);
    }
}

/// Drops from `subs` every entry whose flag in `closed` is set.
pub fn retain_open<T>(subs: &mut Vec<T>, closed: &Vec<bool>)
    requires
        old(subs)@.len() == closed@.len(),
    ensures
        final(subs)@ == keep_open(old(subs)@, closed@),
{
    let ghost before = subs@;
    let n: usize = closed.len();
    let mut kept: usize = 0;
    let mut seen: usize = 0;
    while seen < n
        invariant
            n == closed@.len(),
            before.len() == n,
            seen <= n,
            kept <= seen,
            subs@.len() == kept + (n - seen),
            subs@.take(kept as int) == keep_open(before.take(seen as int), closed@.take(seen as int)),
            subs@.skip(kept as int) == before.skip(seen as int),
        decreases n - seen,
    {
        let ghost prefix = subs@.take(kept as int);
        let ghost current = subs@;
        assert(before.take(seen + 1).drop_last() =~= before.take(seen as int));
        assert(closed@.take(seen + 1).drop_last() =~= closed@.take(seen as int));
        assert(current[kept as int] == current.skip(kept as int)[0]);
        assert forall|k: int| 0 <= k < n - seen - 1 implies #[trigger] before.skip(seen + 1)[k]
            == current[kept + k + 1] by {
            assert(current.skip(kept as int)[k + 1] == before.skip(seen as int)[k + 1]);
        }
        if closed[seen] {
            subs.remove(kept);
            assert(subs@.take(kept as int) =~= prefix);
            assert(subs@.skip(kept as int) =~= before.skip(seen + 1));
        } else {
            assert(subs@.take(kept + 1) =~= prefix.push(before[seen as int]));
            assert(subs@.skip(kept + 1) =~= before.skip(seen + 1));
            kept = kept + 1;
        }
        seen = seen + 1;
    }
    assert(subs@.take(kept as int) =~= subs@);
    assert(before.take(n as int) =~= before);
    assert(closed@.take(n as int) =~= closed@);
}

/// Whether `after` is `before` without some of its entries, the others in
/// their old order.
pub open spec fn pruned<T>(before: Seq<T>, after: Seq<T>) -> bool {
    exists|closed: Seq<bool>|
        closed.len() == before.len() && #[trigger] keep_open(before, closed) == after
}

/// Whether every send of a publish call was accepted.
pub open spec fn all_sent(outcomes: Seq<bool>) -> bool {
    forall|i: int| 0 <= i < outcomes.len() ==> outcomes[i]
}

/// The result of a publish call, given the outcome of the send to each live
/// subscriber: a success exactly when there was a live subscriber and every
/// send was accepted.
pub fn publish_outcome(outcomes: &Vec<bool>) -> (r: Result<(), ()>)
    ensures
        r is Ok <==> outcomes@.len() > 0 && all_sent(outcomes@),
{
    if outcomes.len() == 0 {
        return Err(());
    }
    let mut i: usize = 0;
    while i < outcomes.len()
        invariant
            i <= outcomes@.len(),
            forall|j: int| 0 <= j < i ==> outcomes@[j],
        decreases outcomes@.len() - i,
    {
        if !outcomes[i] {
            return Err(());
        }
        i = i + 1;
    }
    Ok(())
}

/// Calls `tokio::sync::mpsc::unbounded_channel` for `String` messages and
/// returns both halves. Nothing is claimed of them.
#[verifier::external_body]
fn open_channel() -> (r: (UnboundedSender<String>, UnboundedReceiver<String>)) {
    tokio::sync::mpsc::unbounded_channel::<String>()
}

/// Calls `UnboundedSender::is_closed`. The answer depends on whether the
/// receiving half still exists, so nothing is claimed of it.
#[verifier::external_body]
fn sender_is_closed(sender: &UnboundedSender<String>) -> (r: bool) {
    sender.is_closed()
}

/// Calls `UnboundedSender::send` and reports whether the message was
/// accepted. The answer depends on the receiving half, so nothing is claimed
/// of it.
#[verifier::external_body]
fn sender_send(sender: &UnboundedSender<String>, payload: String) -> (r: bool) {
    sender.send(payload).is_ok()
}

/// Asks every subscriber whether its receiving half is gone.
fn closed_flags(subs: &Vec<UnboundedSender<String>>) -> (flags: Vec<bool>)
    ensures
        flags@.len() == subs@.len(),
{
    let mut flags: Vec<bool> = Vec::new();
    let mut i: usize = 0;
    while i < subs.len()
        invariant
            i <= subs@.len(),
            flags@.len() == i,
        decreases subs@.len() - i,
    {
        flags.push(sender_is_closed(&subs[i]));
        i = i + 1;
    }
    flags
}

/// Makes the payloads of one publish call: one for each of `count`
/// subscribers, the payload at a position being what `payload_for` returns
/// for that position.
pub fn payloads_for<F: Fn(usize) -> String>(count: usize, payload_for: &F) -> (payloads: Vec<String>)
    requires
        forall|i: usize| call_requires(payload_for, (i,)),
    ensures
        payloads@.len() == count,
        forall|i: usize| i < count ==> call_ensures(payload_for, (i,), #[trigger] payloads@[i as int]),
{
    let mut payloads: Vec<String> = Vec::new();
    let mut i: usize = 0;
    while i < count
        invariant
            i <= count,
            payloads@.len() == i,
            forall|j: usize| call_requires(payload_for, (j,)),
            forall|j: usize| j < i ==> call_ensures(payload_for, (j,), #[trigger] payloads@[j as int]),
        decreases count - i,
    {
        let payload = payload_for(i);
        payloads.push(payload);
        i = i + 1;
    }
    payloads
}

/// Sends each subscriber the payload at its position and notes whether the
/// send was accepted.
fn send_all(subs: &Vec<UnboundedSender<String>>, payloads: &Vec<String>) -> (outcomes: Vec<bool>)
    requires
        payloads@.len() == subs@.len(),
    ensures
        outcomes@.len() == subs@.len(),
{
    let mut outcomes: Vec<bool> = Vec::new();
    let mut i: usize = 0;
    while i < subs.len()
        invariant
            i <= subs@.len(),
            payloads@.len() == subs@.len(),
            outcomes@.len() == i,
        decreases subs@.len() - i,
    {
        outcomes.push(sender_send(&subs[i], payloads[i].clone()));
        i = i + 1;
    }
    outcomes
}

/// One publish call as the bus prepared it: the event type, and the payloads
/// made for the live subscribers, by ordinal.
pub struct Publication {
    pub event: EventType,
    pub payloads: Seq<String>,
}

/// Whether every payload of a list has the given text.
pub open spec fn all_are(payloads: Seq<String>, text: Seq<char>) -> bool {
    forall|i: int| 0 <= i < payloads.len() ==> (#[trigger] payloads[i])@ == text
}

/// The registries of subscribers, one per event type.
pub struct EventBus {
    image_change: Vec<UnboundedSender<String>>,
    popup_show: Vec<UnboundedSender<String>>,
    popup_hide: Vec<UnboundedSender<String>>,
    orders_updated: Vec<UnboundedSender<String>>,
    prepared: Ghost<Seq<Publication>>,
}

impl EventBus {
    /// The subscribers registered for an event type, oldest first.
    pub closed spec fn subscribers(&self, event: EventType) -> Seq<UnboundedSender<String>> {
        match event {
            EventType::ImageChange => self.image_change@,
            EventType::PopupShow => self.popup_show@,
            EventType::PopupHide => self.popup_hide@,
            EventType::OrdersUpdated => self.orders_updated@,
        }
    }

    /// The publish calls that the bus has prepared, oldest first, each with
    /// the payloads it made for the subscribers' channels. It records what was
    /// computed for the channels, not that a payload was sent or received.
    pub closed spec fn prepared(&self) -> Seq<Publication> {
        self.prepared@
    }

    /// The payloads of the latest publish call, by ordinal.
    pub open spec fn last_payloads(&self) -> Seq<String> {
        self.prepared().last().payloads
    }

    /// The number of subscribers registered for an event type.
    pub fn subscriber_count(&self, event: EventType) -> (n: usize)
        ensures
            n == self.subscribers(event).len(),
    {
        match event {
            EventType::ImageChange => self.image_change.len(),
            EventType::PopupShow => self.popup_show.len(),
            EventType::PopupHide => self.popup_hide.len(),
            EventType::OrdersUpdated => self.orders_updated.len(),
        }
    }

    fn take_registry(&mut self, event: EventType) -> (subs: Vec<UnboundedSender<String>>)
        ensures
            subs@ == old(self).subscribers(event),
            final(self).prepared() == old(self).prepared(),
            forall|other: EventType|
                other != event ==> final(self).subscribers(other) == old(self).subscribers(other),
    {
        let mut subs: Vec<UnboundedSender<String>> = Vec::new();
        match event {
            EventType::ImageChange => std::mem::swap(&mut self.image_change, &mut subs),
            EventType::PopupShow => std::mem::swap(&mut self.popup_show, &mut subs),
            EventType::PopupHide => std::mem::swap(&mut self.popup_hide, &mut subs),
            EventType::OrdersUpdated => std::mem::swap(&mut self.orders_updated, &mut subs),
        }
        subs
    }

    fn put_registry(&mut self, event: EventType, subs: Vec<UnboundedSender<String>>)
        ensures
            final(self).subscribers(event) == subs@,
            final(self).prepared() == old(self).prepared(),
            forall|other: EventType|
                other != event ==> final(self).subscribers(other) == old(self).subscribers(other),
    {
        match event {
            EventType::ImageChange => { self.image_change = subs; },
            EventType::PopupShow => { self.popup_show = subs; },
            EventType::PopupHide => { self.popup_hide = subs; },
            EventType::OrdersUpdated => { self.orders_updated = subs; },
        }
    }

    /// What a publish call of type `event` does to the bus: the registry of
    /// `event` loses some of its entries, the others stay as they are, and
    /// one publication of that type is on record more, with one payload for
    /// each subscriber left.
    pub open spec fn after_publish(&self, before: EventBus, event: EventType) -> bool {
        &&& pruned(before.subscribers(event), self.subscribers(event))
        &&& self.subscribers(event).len() <= before.subscribers(event).len()
        &&& forall|other: EventType|
            other != event ==> self.subscribers(other) == before.subscribers(other)
        &&& self.prepared().len() == before.prepared().len() + 1
        &&& self.prepared().drop_last() == before.prepared()
        &&& self.prepared().last().event == event
        &&& self.last_payloads().len() == self.subscribers(event).len()
        &&& self.last_payloads().len() <= usize::MAX
    }

    /// Opens a channel, appends its sending half to the registry of `event`
    /// and returns the receiving half. The other registries stay as they are.
    pub fn register(&mut self, event: EventType) -> (receiver: UnboundedReceiver<String>)
        ensures
            final(self).subscribers(event).len() == old(self).subscribers(event).len() + 1,
            final(self).subscribers(event).drop_last() == old(self).subscribers(event),
            forall|other: EventType|
                other != event ==> final(self).subscribers(other) == old(self).subscribers(other),
            final(self).prepared() == old(self).prepared(),
    {
        let (sender, receiver) = open_channel();
        let mut subs = self.take_registry(event);
        let ghost before = subs@;
        subs.push(sender);
        assert(subs@.drop_last() =~= before);
        self.put_registry(event, subs);
        receiver
    }

    /// Publishes one event of type `event`.
    ///
    /// Subscribers whose receiving half is gone are dropped first. Then
    /// `payload_for` is called once for each of the others, with its position
    /// among them, and each is sent its payload. What is left in the
    /// registry is the old registry without some of its entries, in the old
    /// order. The result is a failure where no subscriber is left, or where a
    /// send to one of the remaining subscribers was refused. The other
    /// registries stay as they are.
    pub fn publish<F: Fn(usize) -> String>(&mut self, event: EventType, payload_for: F) -> (r: Result<
        (),
        (),
    >)
        requires
            forall|i: usize| call_requires(payload_for, (i,)),
        ensures
            final(self).after_publish(*old(self), event),
            forall|i: int|
                0 <= i < final(self).last_payloads().len() ==> call_ensures(
                    payload_for,
                    (i as usize,),
                    #[trigger] final(self).last_payloads()[i],
                ),
            final(self).subscribers(event).len() == 0 ==> r is Err,
    {
        let mut subs = self.take_registry(event);
        let ghost before = subs@;
        let closed = closed_flags(&subs);
        retain_open(&mut subs, &closed);
        proof {
            lemma_keep_open_len(before, closed@);
        }
        let payloads = payloads_for(subs.len(), &payload_for);
        let outcomes = send_all(&subs, &payloads);
        self.put_registry(event, subs);
        let ghost record = self.prepared@;
        self.prepared = Ghost(record.push(Publication { event, payloads: payloads@ }));
        proof {
            assert(self.prepared@.drop_last() =~= record);
            assert forall|i: int| 0 <= i < payloads@.len() implies call_ensures(
                payload_for,
                (i as usize,),
                #[trigger] payloads@[i],
            ) by {
                let at = i as usize;
                assert(call_ensures(payload_for, (at,), payloads@[at as int]));
            }
        }
        publish_outcome(&outcomes)
    }
}

/// The event types that a connection asks for. A type is asked for when its
/// field holds a value, whatever the value.
pub struct SubscriptionTarget {
    pub image_change: Option<String>,
    pub popup_show: Option<String>,
    pub popup_hide: Option<String>,
    pub orders_updated: Option<String>,
}

impl SubscriptionTarget {
    /// Whether the connection asks for events of this type.
    pub open spec fn wants(&self, event: EventType) -> bool {
        match event {
            EventType::ImageChange => self.image_change is Some,
            EventType::PopupShow => self.popup_show is Some,
            EventType::PopupHide => self.popup_hide is Some,
            EventType::OrdersUpdated => self.orders_updated is Some,
        }
    }

    /// The event types asked for, each once, in the order image change, popup
    /// show, popup hide, orders updated.
    pub open spec fn requested(&self) -> Seq<EventType> {
        only_if(self.wants(EventType::ImageChange), EventType::ImageChange) + only_if(
            self.wants(EventType::PopupShow),
            EventType::PopupShow,
        ) + only_if(self.wants(EventType::PopupHide), EventType::PopupHide) + only_if(
            self.wants(EventType::OrdersUpdated),
            EventType::OrdersUpdated,
        )
    }

    /// No event type is asked for twice, and the types asked for are those
    /// that the connection wants.
    pub proof fn lemma_requested_once(&self)
        ensures
            forall|i: int, j: int|
                0 <= i < j < self.requested().len() ==> self.requested()[i] != self.requested()[j],
            forall|event: EventType| self.requested().contains(event) <==> self.wants(event),
    {
        let r = self.requested();
        assert forall|event: EventType| r.contains(event) <==> self.wants(event) by {
            if self.wants(event) {
                let before = |e: EventType| if self.wants(e) { 1int } else { 0int };
                let at = match event {
                    EventType::ImageChange => 0,
                    EventType::PopupShow => before(EventType::ImageChange),
                    EventType::PopupHide => before(EventType::ImageChange) + before(
                        EventType::PopupShow,
                    ),
                    EventType::OrdersUpdated => before(EventType::ImageChange) + before(
                        EventType::PopupShow,
                    ) + before(EventType::PopupHide),
                };
                assert(r[at] == event);
            }
        }
    }
}

/// The sequence of `event` alone where `wanted` holds, else the empty one.
pub open spec fn only_if(wanted: bool, event: EventType) -> Seq<EventType> {
    if wanted {
        seq![event]
    } else {
        Seq::empty()
    }
}

/// One registration of a connection: the event type and the receiving half
/// on which its payloads arrive.
pub struct Subscription {
    pub event: EventType,
    pub receiver: UnboundedReceiver<String>,
}

/// The event types of a list of registrations.
pub open spec fn subscribed_events(streams: Seq<Subscription>) -> Seq<EventType> {
    streams.map_values(|s: Subscription| s.event)
}

/// Registers a connection for every event type it asks for, once each, and
/// returns the registrations in the order of `requested`. The registry of a
/// type asked for gains one subscriber at its end; the others stay as they
/// are.
pub fn get_subscribed_streams(bus: &mut EventBus, target: &SubscriptionTarget) -> (streams: Vec<
    Subscription,
>)
    ensures
        subscribed_events(streams@) == target.requested(),
        forall|event: EventType|
            target.wants(event) ==> final(bus).subscribers(event).len() == old(bus).subscribers(
                event,
            ).len() + 1 && final(bus).subscribers(event).drop_last() == old(bus).subscribers(
                event,
            ),
        forall|event: EventType|
            !target.wants(event) ==> final(bus).subscribers(event) == old(bus).subscribers(event),
        final(bus).prepared() == old(bus).prepared(),
{
    let mut streams: Vec<Subscription> = Vec::new();
    if target.image_change.is_some() {
        let receiver = bus.register(EventType::ImageChange);
        streams.push(Subscription { event: EventType::ImageChange, receiver });
    }
    if target.popup_show.is_some() {
        let receiver = bus.register(EventType::PopupShow);
        streams.push(Subscription { event: EventType::PopupShow, receiver });
    }
    if target.popup_hide.is_some() {
        let receiver = bus.register(EventType::PopupHide);
        streams.push(Subscription { event: EventType::PopupHide, receiver });
    }
    if target.orders_updated.is_some() {
        let receiver = bus.register(EventType::OrdersUpdated);
        streams.push(Subscription { event: EventType::OrdersUpdated, receiver });
    }
    assert(subscribed_events(streams@) =~= target.requested());
    streams
}

/// Creates a bus without subscribers.
pub fn new() -> (bus: EventBus)
    ensures
        forall|event: EventType| bus.subscribers(event).len() == 0,
        bus.prepared().len() == 0,
{
    EventBus {
        image_change: Vec::new(),
        popup_show: Vec::new(),
        popup_hide: Vec::new(),
        orders_updated: Vec::new(),
        prepared: Ghost(Seq::empty()),
    }
}

} // verus!
