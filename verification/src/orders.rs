//! The order ledger: the orders that wait to be served, and every order
//! ever taken.

use crate::events::all_are;
use crate::events::EventBus;
use crate::events::EventType;
use crate::json::decimal;
use crate::json::decimal_string;
use crate::json::json_string;
use crate::json::json_string_text;
use crate::json::text_of;
use crate::popups::apply;
use crate::popups::PopupInput;
use crate::popups::Popups;
use vstd::prelude::*;
use vstd::string::*;

verus! {

/// One order.
#[derive(Debug, PartialEq, Eq)]
pub struct Order {
    /// Milliseconds since the epoch at which the order was taken.
    pub timestamp: u128,
    /// What was ordered, in free form.
    pub order_type: String,
    /// The number under which the order is called out.
    pub number: u64,
}

/// An `Order` as a mathematical value.
pub struct OrderData {
    pub timestamp: u128,
    pub order_type: Seq<char>,
    pub number: u64,
}

impl View for Order {
    type V = OrderData;

    open spec fn view(&self) -> OrderData {
        OrderData { timestamp: self.timestamp, order_type: self.order_type@, number: self.number }
    }
}

impl Clone for Order {
    fn clone(&self) -> (r: Order)
        ensures
            r@ == self@,
    {
        Order {
            timestamp: self.timestamp,
            order_type: self.order_type.clone(),
            number: self.number,
        }
    }
}

/// The orders of a list as mathematical values.
pub open spec fn order_list(orders: Seq<Order>) -> Seq<OrderData> {
    orders.map_values(|order: Order| order@)
}

/// The orders of a list whose number is not `number`, in their old order.
pub open spec fn without_number(orders: Seq<OrderData>, number: u64) -> Seq<OrderData>
    decreases orders.len(),
{
    if orders.len() == 0 {
        Seq::empty()
    } else if orders.last().number == number {
        without_number(orders.drop_last(), number)
    } else {
        without_number(orders.drop_last(), number).push(orders.last())
    }
}

/// Removing a number that no order carries changes nothing.
pub proof fn lemma_remove_absent(orders: Seq<OrderData>, number: u64)
    requires
        forall|i: int| 0 <= i < orders.len() ==> orders[i].number != number,
    ensures
        without_number(orders, number) == orders,
    decreases orders.len(),
{
    if orders.len() > 0 {
        lemma_remove_absent(orders.drop_last(), number);
        assert(orders.drop_last().push(orders.last()) =~= orders);
    } else {
        assert(without_number(orders, number) =~= orders);
    }
}

/// After a number is removed no order carries it, and every order left was
/// there before.
pub proof fn lemma_removed_is_absent(orders: Seq<OrderData>, number: u64)
    ensures
        forall|i: int|
            0 <= i < without_number(orders, number).len() ==> (#[trigger] without_number(
                orders,
                number,
            )[i]).number != number,
        without_number(orders, number).len() <= orders.len(),
    decreases orders.len(),
{
    if orders.len() > 0 {
        lemma_removed_is_absent(orders.drop_last(), number);
    }
}

/// Removing the same number twice gives what removing it once gives: the
/// second removal finds nothing and returns the list unchanged.
pub proof fn lemma_remove_twice(orders: Seq<OrderData>, number: u64)
    ensures
        without_number(without_number(orders, number), number) == without_number(orders, number),
{
    lemma_removed_is_absent(orders, number);
    lemma_remove_absent(without_number(orders, number), number);
}

/// The JSON object with the three fields of an order, in the order
/// timestamp, type, number and without white space, given the JSON literal
/// of the type.
pub open spec fn order_object(timestamp: nat, kind: Seq<char>, number: nat) -> Seq<char> {
    "{\"timestamp\":"@ + decimal(timestamp) + ",\"type\":"@ + kind + ",\"number\":"@ + decimal(
        number,
    ) + "}"@
}

/// The JSON object of an order; nothing where the serializer fails on the
/// type.
pub open spec fn order_json(order: OrderData) -> Option<Seq<char>> {
    match json_string_text(order.order_type) {
        Some(kind) => Some(order_object(order.timestamp as nat, kind, order.number as nat)),
        None => None,
    }
}

/// The JSON objects of a list of orders, with a comma between neighbours;
/// nothing where the serializer fails on one of the orders.
pub open spec fn orders_joined(orders: Seq<OrderData>) -> Option<Seq<char>>
    decreases orders.len(),
{
    if orders.len() == 0 {
        Some(Seq::empty())
    } else {
        match (orders_joined(orders.drop_last()), order_json(orders.last())) {
            (Some(head), Some(item)) => Some(
                if orders.len() == 1 {
                    item
                } else {
                    head + ","@ + item
                },
            ),
            _ => None,
        }
    }
}

/// The JSON array of a list of orders; nothing where the serializer fails on
/// one of the orders.
pub open spec fn orders_json(orders: Seq<OrderData>) -> Option<Seq<char>> {
    match orders_joined(orders) {
        Some(body) => Some("["@ + body + "]"@),
        None => None,
    }
}

/// Where the serializer fails on the first `count` orders of a list, it
/// fails on the whole list.
pub proof fn lemma_joined_fails_with_prefix(orders: Seq<OrderData>, count: int)
    requires
        0 <= count <= orders.len(),
        orders_joined(orders.take(count)) is None,
    ensures
        orders_joined(orders) is None,
    decreases orders.len(),
{
    if count == orders.len() {
        assert(orders.take(count) =~= orders);
    } else {
        assert(orders.drop_last().take(count) =~= orders.take(count));
        lemma_joined_fails_with_prefix(orders.drop_last(), count);
    }
}

/// The document written for a list of orders: its JSON array, or an empty
/// array where the serializer fails.
pub open spec fn document_text(serialized: Option<Seq<char>>) -> Seq<char> {
    match serialized {
        Some(text) => text,
        None => "[]"@,
    }
}

/// Writes the JSON object of an order from its timestamp, the JSON literal
/// of its type, and its number.
pub fn order_text(timestamp: u128, kind: &str, number: u64) -> (r: String)
    ensures
        r@ == order_object(timestamp as nat, kind@, number as nat),
{
    let timestamp = decimal_string(timestamp);
    let number = decimal_string(number as u128);
    let mut out = String::from_str("{\"timestamp\":");
    out.append(timestamp.as_str());
    out.append(",\"type\":");
    out.append(kind);
    out.append(",\"number\":");
    out.append(number.as_str());
    out.append("}");
    out
}

/// Serializes an order as JSON. `None` stands for a failure of the
/// serializer on the order's type, which does not happen.
pub fn order_to_json(order: &Order) -> (r: Option<String>)
    ensures
        r is Some,
        text_of(r) == order_json(order@),
{
    let kind = match json_string(order.order_type.as_str()) {
        Some(t) => t,
        None => { return None; },
    };
    Some(order_text(order.timestamp, kind.as_str(), order.number))
}

/// Serializes a list of orders as a JSON array. `None` stands for a failure
/// of the serializer.
pub fn orders_to_json(orders: &Vec<Order>) -> (r: Option<String>)
    ensures
        r is Some,
        text_of(r) == orders_json(order_list(orders@)),
{
    let ghost list = order_list(orders@);
    let mut out = String::from_str("[");
    let mut i: usize = 0;
    assert(list.take(0) =~= Seq::<OrderData>::empty());
    assert(out@ =~= "["@ + Seq::<char>::empty());
    while i < orders.len()
        invariant
            i <= orders@.len(),
            list == order_list(orders@),
            orders_joined(list.take(i as int)) is Some,
            out@ == "["@ + orders_joined(list.take(i as int)).unwrap(),
        decreases orders@.len() - i,
    {
        proof {
            assert(list.take(i + 1).drop_last() =~= list.take(i as int));
            assert(list.take(i + 1).last() == orders@[i as int]@);
        }
        let item = match order_to_json(&orders[i]) {
            Some(t) => t,
            None => {
                proof {
                    lemma_joined_fails_with_prefix(list, i + 1);
                }
                return None;
            },
        };
        if i > 0 {
            out.append(",");
        } else {
            assert(orders_joined(list.take(0)).unwrap() =~= Seq::<char>::empty());
            assert(out@ =~= "["@);
        }
        out.append(item.as_str());
        assert(out@ =~= "["@ + orders_joined(list.take(i + 1)).unwrap());
        i = i + 1;
    }
    assert(list.take(i as int) =~= list);
    out.append("]");
    Some(out)
}

/// The document written for a list of orders: its JSON array, or an empty
/// array where the serializer failed.
pub fn document_or_empty(serialized: Option<String>) -> (document: String)
    ensures
        document@ == document_text(text_of(serialized)),
{
    match serialized {
        Some(text) => text,
        None => String::from_str("[]"),
    }
}

/// Copies a list of orders.
pub fn copy_orders(orders: &Vec<Order>) -> (r: Vec<Order>)
    ensures
        order_list(r@) == order_list(orders@),
{
    let mut out: Vec<Order> = Vec::new();
    let mut i: usize = 0;
    while i < orders.len()
        invariant
            i <= orders@.len(),
            order_list(out@) == order_list(orders@).take(i as int),
        decreases orders@.len() - i,
    {
        let ghost before = out@;
        out.push(orders[i].clone());
        assert(order_list(out@) =~= order_list(before).push(orders@[i as int]@));
        assert(order_list(out@) =~= order_list(orders@).take(i + 1));
        i = i + 1;
    }
    assert(order_list(orders@).take(i as int) =~= order_list(orders@));
    out
}

/// The ledger: the working set of orders not yet served, and the history of
/// every order taken.
pub struct OrderLedger {
    current: Vec<Order>,
    all: Vec<Order>,
}

impl OrderLedger {
    /// The working set, oldest first.
    pub closed spec fn current(&self) -> Seq<OrderData> {
        order_list(self.current@)
    }

    /// The history, oldest first.
    pub closed spec fn all(&self) -> Seq<OrderData> {
        order_list(self.all@)
    }

    /// Appends an order to the history and to the working set.
    pub fn record(&mut self, order: Order)
        ensures
            final(self).current() == old(self).current().push(order@),
            final(self).all() == old(self).all().push(order@),
    {
        self.all.push(order.clone());
        self.current.push(order);
        assert(order_list(self.all@) =~= order_list(old(self).all@).push(order@));
        assert(order_list(self.current@) =~= order_list(old(self).current@).push(order@));
    }

    /// Removes from the working set every order with the given number. The
    /// history stays as it is.
    pub fn remove(&mut self, number: u64)
        ensures
            final(self).current() == without_number(old(self).current(), number),
            final(self).all() == old(self).all(),
    {
        let ghost list = order_list(self.current@);
        let mut kept: Vec<Order> = Vec::new();
        let mut i: usize = 0;
        while i < self.current.len()
            invariant
                i <= self.current@.len(),
                list == order_list(self.current@),
                self.all == old(self).all,
                order_list(kept@) == without_number(list.take(i as int), number),
            decreases self.current@.len() - i,
        {
            assert(list.take(i + 1).drop_last() =~= list.take(i as int));
            assert(list.take(i + 1).last() == self.current@[i as int]@);
            if self.current[i].number != number {
                let ghost before = kept@;
                kept.push(self.current[i].clone());
                assert(order_list(kept@) =~= order_list(before).push(self.current@[i as int]@));
            }
            i = i + 1;
        }
        assert(list.take(i as int) =~= list);
        self.current = kept;
    }

    /// A copy of the working set.
    pub fn current_orders(&self) -> (orders: Vec<Order>)
        ensures
            order_list(orders@) == self.current(),
    {
        copy_orders(&self.current)
    }

    /// A copy of the history.
    pub fn statistics(&self) -> (orders: Vec<Order>)
        ensures
            order_list(orders@) == self.all(),
    {
        copy_orders(&self.all)
    }

    /// Whether `after` is `before` after the working set was announced:
    /// one event of order updates was published in which every subscriber
    /// got as its payload the JSON array of the working set; where the serializer
    /// fails on the working set, nothing was published.
    pub open spec fn announced(&self, before: EventBus, after: EventBus) -> bool {
        match orders_json(self.current()) {
            Some(text) => after.after_publish(before, EventType::OrdersUpdated) && all_are(
                after.last_payloads(),
                text,
            ),
            None => after == before,
        }
    }

    /// Publishes the working set to the subscribers of order updates. What
    /// the bus answers is ignored.
    pub fn announce(&self, bus: &mut EventBus)
        ensures
            final(bus).after_publish(*old(bus), EventType::OrdersUpdated),
            self.announced(*old(bus), *final(bus)),
    {
        match orders_to_json(&self.current) {
            Some(text) => {
                let payload = |_ordinal: usize| -> (s: String)
                    ensures
                        s@ == text@,
                    { text.clone() };
                let _ = bus.publish(EventType::OrdersUpdated, payload);
            },
            None => {},
        }
    }
}

/// The working set and the history with which a ledger starts, given what
/// was read back of each: both as read, or both empty where either could not
/// be read.
pub open spec fn restored(current: Option<Seq<OrderData>>, all: Option<Seq<OrderData>>) -> (
    Seq<OrderData>,
    Seq<OrderData>,
) {
    match (current, all) {
        (Some(c), Some(a)) => (c, a),
        _ => (Seq::empty(), Seq::empty()),
    }
}

/// A ledger that starts from the two lists of another has the same working
/// set and the same history.
pub proof fn lemma_reload_identical(ledger: OrderLedger)
    ensures
        restored(Some(ledger.current()), Some(ledger.all())) == (ledger.current(), ledger.all()),
{
}

/// What was read back of a list of orders, as a mathematical value.
pub open spec fn read_back(orders: Option<Vec<Order>>) -> Option<Seq<OrderData>> {
    match orders {
        Some(list) => Some(order_list(list@)),
        None => None,
    }
}

/// Builds the ledger from what was read back of the working set and of the
/// history. Where either could not be read as a list of orders, both start
/// empty.
pub fn load(current: Option<Vec<Order>>, all: Option<Vec<Order>>) -> (ledger: OrderLedger)
    ensures
        (ledger.current(), ledger.all()) == restored(read_back(current), read_back(all)),
{
    match (current, all) {
        (Some(c), Some(a)) => OrderLedger { current: c, all: a },
        _ => {
            let ledger = OrderLedger { current: Vec::new(), all: Vec::new() };
            assert(ledger.current() =~= Seq::<OrderData>::empty());
            assert(ledger.all() =~= Seq::<OrderData>::empty());
            ledger
        },
    }
}

/// The two documents that hold the ledger: first that of the working set,
/// then that of the history. Each is the JSON array of its list, or an empty
/// array where the serializer fails on the list.
pub fn save(ledger: &OrderLedger) -> (documents: (String, String))
    ensures
        documents.0@ == document_text(orders_json(ledger.current())),
        documents.1@ == document_text(orders_json(ledger.all())),
{
    let current = document_or_empty(orders_to_json(&ledger.current));
    let all = document_or_empty(orders_to_json(&ledger.all));
    (current, all)
}

/// Whether `persist` was called with the two documents of a ledger: that of
/// the working set first, then that of the history.
pub open spec fn persisted<P: FnOnce(String, String)>(persist: P, ledger: OrderLedger) -> bool {
    exists|current: String, all: String|
        current@ == document_text(orders_json(ledger.current())) && all@ == document_text(
            orders_json(ledger.all()),
        ) && #[trigger] call_ensures(persist, (current, all), ())
}

/// Takes an order: appends it to the history and to the working set, gives
/// the two documents of the ledger to `persist`, then publishes the working
/// set, and returns a copy of it.
pub fn create_order<P: FnOnce(String, String)>(
    ledger: &mut OrderLedger,
    bus: &mut EventBus,
    timestamp: u128,
    id: u64,
    body: String,
    persist: P,
) -> (orders: Vec<Order>)
    requires
        forall|current: String, all: String| call_requires(persist, (current, all)),
    ensures
        final(ledger).current() == old(ledger).current().push(
            (OrderData { timestamp: timestamp, order_type: body@, number: id }),
        ),
        final(ledger).all() == old(ledger).all().push(
            (OrderData { timestamp: timestamp, order_type: body@, number: id }),
        ),
        order_list(orders@) == final(ledger).current(),
        persisted(persist, *final(ledger)),
        final(bus).after_publish(*old(bus), EventType::OrdersUpdated),
        final(ledger).announced(*old(bus), *final(bus)),
{
    let order = Order { timestamp: timestamp, order_type: body, number: id };
    ledger.record(order);
    let (current, all) = save(ledger);
    persist(current, all);
    ledger.announce(bus);
    ledger.current_orders()
}

/// Queues the number of an order that is being served as a popup. This is
/// the first half of serving an order; it touches the queue alone, so that
/// the ledger need not be held while the popup is queued.
pub fn queue_served(popups: &mut Popups, id: u64)
    ensures
        final(popups).state() == apply(old(popups).state(), PopupInput::Add(decimal(id as nat))).0,
        final(popups).show_seconds() == old(popups).show_seconds(),
        final(popups).wait_seconds() == old(popups).wait_seconds(),
{
    popups.add_popup(decimal_string(id as u128));
}

/// Serves an order, once its popup is queued: removes every order with that
/// number from the working set, gives the two documents of the ledger to
/// `persist`, then publishes the working set, and returns a copy of it. The
/// history stays as it is.
pub fn serve_order<P: FnOnce(String, String)>(
    ledger: &mut OrderLedger,
    bus: &mut EventBus,
    id: u64,
    persist: P,
) -> (orders: Vec<Order>)
    requires
        forall|current: String, all: String| call_requires(persist, (current, all)),
    ensures
        final(ledger).current() == without_number(old(ledger).current(), id),
        final(ledger).all() == old(ledger).all(),
        order_list(orders@) == final(ledger).current(),
        persisted(persist, *final(ledger)),
        final(bus).after_publish(*old(bus), EventType::OrdersUpdated),
        final(ledger).announced(*old(bus), *final(bus)),
{
    ledger.remove(id);
    let (current, all) = save(ledger);
    persist(current, all);
    ledger.announce(bus);
    ledger.current_orders()
}

/// A copy of the history.
pub fn statistics(ledger: &OrderLedger) -> (orders: Vec<Order>)
    ensures
        order_list(orders@) == ledger.all(),
{
    ledger.statistics()
}

/// A copy of the working set.
pub fn current_orders(ledger: &OrderLedger) -> (orders: Vec<Order>)
    ensures
        order_list(orders@) == ledger.current(),
{
    ledger.current_orders()
}

} // verus!
