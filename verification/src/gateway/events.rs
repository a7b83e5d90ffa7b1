//! Event fan-out: a slot per event kind that keeps the most recent payload
//! and the subscribers of that kind, in the order they registered.
//!
//! Subscribers are known by handle. The slot decides who is told and in what
//! order; the caller owns the callbacks and runs them, each on its own, with
//! shared access to the payload in the slot.

use vstd::prelude::*;

verus! {

/// Handle of a subscriber, unique within its slot.
pub type SubscriberId = u64;

/// The slot of one event kind.
#[derive(Debug)]
pub struct GatewayEvent<T> {
    latest: Option<T>,
    subscribers: Vec<SubscriberId>,
    next_id: SubscriberId,
}

/// The mathematical content of a slot.
pub ghost struct SlotView<T> {
    /// The payload dispatched last, if any was.
    pub latest: Option<T>,
    /// The subscribers, in the order they registered.
    pub subscribers: Seq<SubscriberId>,
    /// How many handles the slot has given out. Handles are given out in
    /// order, from zero.
    pub issued: nat,
}

/// A slot in which nothing was dispatched and to which nobody ever
/// subscribed.
pub open spec fn empty_slot<T>() -> SlotView<T> {
    SlotView { latest: None, subscribers: Seq::empty(), issued: 0 }
}

impl<T> View for GatewayEvent<T> {
    type V = SlotView<T>;

    closed spec fn view(&self) -> SlotView<T> {
        SlotView {
            latest: self.latest,
            subscribers: self.subscribers@,
            issued: self.next_id as nat,
        }
    }
}

/// The subscribers without `id`, the others in their order.
pub open spec fn without(subscribers: Seq<SubscriberId>, id: SubscriberId) -> Seq<SubscriberId> {
    subscribers.filter(|other: SubscriberId| other != id)
}

/// One delivery: who is told, and of which payload, counted in the order
/// the payloads were dispatched.
pub type Delivery = (SubscriberId, int);

/// The deliveries that dispatching `count` payloads in a row causes: payload
/// by payload in the order received, and for each payload the subscribers in
/// the order they registered.
pub open spec fn deliveries(subscribers: Seq<SubscriberId>, count: nat) -> Seq<Delivery>
    decreases count,
{
    if count == 0 {
        Seq::<Delivery>::empty()
    } else {
        deliveries(subscribers, (count - 1) as nat) + Seq::new(
            subscribers.len(),
            |i: int| (subscribers[i], count - 1),
        )
    }
}

/// The slot after a payload was dispatched, and the subscribers that are
/// told of it: the slot holds the payload as the most recent one, and the
/// subscribers are those of the slot, in the order they registered.
pub open spec fn notified<T>(view: SlotView<T>, payload: T) -> (SlotView<T>, Seq<SubscriberId>) {
    (SlotView { latest: Some(payload), ..view }, view.subscribers)
}

/// The slot after the payloads were dispatched one after the other, and the
/// deliveries that this caused, in the order they were made.
pub open spec fn dispatched_all<T>(view: SlotView<T>, payloads: Seq<T>) -> (
    SlotView<T>,
    Seq<Delivery>,
)
    decreases payloads.len(),
{
    if payloads.len() == 0 {
        (view, Seq::<Delivery>::empty())
    } else {
        let (before, made) = dispatched_all(view, payloads.drop_last());
        let (after, told) = notified(before, payloads.last());
        (after, made + Seq::new(told.len(), |i: int| (told[i], payloads.len() - 1)))
    }
}

impl<T> GatewayEvent<T> {
    #[verifier::type_invariant]
    spec fn handles_are_spent(&self) -> bool {
        forall|i: int| 0 <= i < self.subscribers@.len() ==> self.subscribers@[i] < self.next_id
    }

    /// An empty slot: nothing dispatched, nobody subscribed.
    pub fn new() -> (slot: Self)
        ensures
            slot@ == empty_slot::<T>(),
    {
        GatewayEvent { latest: None, subscribers: Vec::new(), next_id: 0 }
    }

    /// Returns true if the slot is observed by at least one subscriber.
    pub fn is_observed(&self) -> (observed: bool)
        ensures
            observed == (self@.subscribers.len() > 0),
    {
        self.subscribers.len() > 0
    }

    /// The payload dispatched last.
    pub fn latest(&self) -> (latest: &Option<T>)
        ensures
            *latest == self@.latest,
    {
        &self.latest
    }

    /// Registers a subscriber behind those already there and returns its
    /// handle: the next one in order, which no subscriber of this slot
    /// holds. `None` once all handles below `u64::MAX` are given out; the
    /// slot is then left as it is.
    pub fn subscribe(&mut self) -> (handle: Option<SubscriberId>)
        ensures
            handle is Some <==> old(self)@.issued < u64::MAX,
            match handle {
                Some(id) => id == old(self)@.issued && !old(self)@.subscribers.contains(id)
                    && final(self)@ == (SlotView {
                    subscribers: old(self)@.subscribers.push(id),
                    issued: old(self)@.issued + 1,
                    ..old(self)@
                }),
                None => final(self)@ == old(self)@,
            },
    {
        proof {
            use_type_invariant(&*self);
        }
        if self.next_id == u64::MAX {
            return None;
        }
        let id = self.next_id;
        let mut subscribers = self.subscribers.clone();
        subscribers.push(id);
        self.next_id = id + 1;
        self.subscribers = subscribers;
        Some(id)
    }

    /// Removes a subscriber; the others keep their order. Returns whether it
    /// was subscribed.
    pub fn unsubscribe(&mut self, id: SubscriberId) -> (removed: bool)
        ensures
            removed == old(self)@.subscribers.contains(id),
            final(self)@ == (SlotView {
                subscribers: without(old(self)@.subscribers, id),
                ..old(self)@
            }),
    {
        proof {
            use_type_invariant(&*self);
        }
        let ghost before = self.subscribers@;
        let mut kept: Vec<SubscriberId> = Vec::new();
        let mut removed = false;
        let mut index: usize = 0;
        while index < self.subscribers.len()
            invariant
                index <= self.subscribers@.len(),
                self.subscribers@ == before,
                kept@ == without(before.subrange(0, index as int), id),
                removed == before.subrange(0, index as int).contains(id),
                forall|i: int| 0 <= i < kept@.len() ==> kept@[i] < self.next_id,
                forall|i: int| 0 <= i < before.len() ==> before[i] < self.next_id,
            decreases self.subscribers@.len() - index,
        {
            let current = self.subscribers[index];
            proof {
                reveal(Seq::filter);
                let prefix = before.subrange(0, index as int + 1);
                assert(prefix.drop_last() =~= before.subrange(0, index as int));
                assert(prefix.last() == current);
                if removed {
                    let at = choose|at: int|
                        0 <= at < index && before.subrange(0, index as int)[at] == id;
                    assert(prefix[at] == id);
                }
                if !removed && current != id {
                    assert forall|at: int| 0 <= at < prefix.len() implies prefix[at] != id by {
                        if at < index {
                            assert(before.subrange(0, index as int)[at] == prefix[at]);
                        }
                    }
                }
            }
            if current == id {
                removed = true;
            } else {
                kept.push(current);
            }
            index = index + 1;
        }
        proof {
            assert(before.subrange(0, index as int) =~= before);
        }
        self.subscribers = kept;
        removed
    }

    /// Stores the payload as the most recent one and returns the subscribers
    /// to tell of it, in the order they registered.
    pub fn notify(&mut self, payload: T) -> (told: Vec<SubscriberId>)
        ensures
            (final(self)@, told@) == notified(old(self)@, payload),
    {
        proof {
            use_type_invariant(&*self);
        }
        self.latest = Some(payload);
        self.subscribers.clone()
    }
}

/// Dispatching payloads one after the other leaves the subscribers as they
/// are, the slot holds the payload that came last, and the deliveries made
/// are those of `deliveries`: payload by payload in the order received, and
/// for each payload the subscribers in the order they registered.
pub proof fn lemma_dispatched_all<T>(view: SlotView<T>, payloads: Seq<T>)
    ensures
        dispatched_all(view, payloads).0.subscribers == view.subscribers,
        dispatched_all(view, payloads).0.issued == view.issued,
        payloads.len() > 0 ==> dispatched_all(view, payloads).0.latest == Some(payloads.last()),
        payloads.len() == 0 ==> dispatched_all(view, payloads).0 == view,
        dispatched_all(view, payloads).1 == deliveries(view.subscribers, payloads.len()),
    decreases payloads.len(),
{
    if payloads.len() > 0 {
        lemma_dispatched_all(view, payloads.drop_last());
        let told = dispatched_all(view, payloads.drop_last()).0.subscribers;
        assert(Seq::new(told.len(), |i: int| (told[i], payloads.len() - 1)) =~= Seq::new(
            view.subscribers.len(),
            |i: int| (view.subscribers[i], payloads.len() - 1),
        ));
    }
}

/// The deliveries of `count` payloads to `subscribers` are laid out payload
/// by payload: the delivery at position `payload × subscribers + place` tells
/// the subscriber at `place` of payload number `payload`.
pub proof fn lemma_delivery_at(
    subscribers: Seq<SubscriberId>,
    count: nat,
    payload: int,
    place: int,
)
    requires
        0 <= payload < count,
        0 <= place < subscribers.len(),
    ensures
        deliveries(subscribers, count).len() == count * subscribers.len(),
        0 <= payload * subscribers.len() + place < deliveries(subscribers, count).len(),
        deliveries(subscribers, count)[payload * subscribers.len() + place] == (
            subscribers[place],
            payload,
        ),
    decreases count,
{
    let width = subscribers.len() as int;
    lemma_deliveries_len(subscribers, count);
    lemma_deliveries_len(subscribers, (count - 1) as nat);
    assert(payload * width + place < count * width) by (nonlinear_arith)
        requires
            0 <= payload < count,
            0 <= place < width,
    ;
    assert(0 <= payload * width + place) by (nonlinear_arith)
        requires
            0 <= payload,
            0 <= place,
            0 <= width,
    ;
    assert((count - 1) * width == count * width - width) by (nonlinear_arith);
    if payload < count - 1 {
        lemma_delivery_at(subscribers, (count - 1) as nat, payload, place);
    } else {
        assert(payload * width == (count - 1) * width);
    }
}

/// `count` payloads cause one delivery per payload and subscriber.
pub proof fn lemma_deliveries_len(subscribers: Seq<SubscriberId>, count: nat)
    ensures
        deliveries(subscribers, count).len() == count * subscribers.len(),
    decreases count,
{
    let width = subscribers.len() as int;
    if count > 0 {
        lemma_deliveries_len(subscribers, (count - 1) as nat);
        assert((count - 1) * width + width == count * width) by (nonlinear_arith);
    } else {
        assert(0 * width == 0);
    }
}

/// Every delivery is found at the position of its payload and subscriber.
pub proof fn lemma_delivery_position(subscribers: Seq<SubscriberId>, count: nat, at: int)
    requires
        0 <= at < deliveries(subscribers, count).len(),
    ensures
        subscribers.len() > 0,
        0 <= at / (subscribers.len() as int) < count,
        deliveries(subscribers, count)[at] == (
            subscribers[at % (subscribers.len() as int)],
            at / (subscribers.len() as int),
        ),
{
    let width = subscribers.len() as int;
    lemma_deliveries_len(subscribers, count);
    if width == 0 {
        assert(count * width == 0) by (nonlinear_arith)
            requires
                width == 0,
        ;
    }
    let payload = at / width;
    let place = at % width;
    assert(at == payload * width + place && 0 <= place < width && 0 <= payload) by (nonlinear_arith)
        requires
            payload == at / width,
            place == at % width,
            width > 0,
            at >= 0,
    ;
    assert(payload < count) by (nonlinear_arith)
        requires
            at == payload * width + place,
            0 <= place,
            at < count * width,
            width > 0,
    ;
    lemma_delivery_at(subscribers, count, payload, place);
}

/// Subscribers observe payloads in the order received: of two deliveries,
/// the later one never tells of an earlier payload.
pub proof fn lemma_deliveries_in_arrival_order(
    subscribers: Seq<SubscriberId>,
    count: nat,
    earlier: int,
    later: int,
)
    requires
        0 <= earlier <= later < deliveries(subscribers, count).len(),
    ensures
        deliveries(subscribers, count)[earlier].1 <= deliveries(subscribers, count)[later].1,
{
    let width = subscribers.len() as int;
    lemma_delivery_position(subscribers, count, earlier);
    lemma_delivery_position(subscribers, count, later);
    assert(earlier / width <= later / width) by (nonlinear_arith)
        requires
            earlier <= later,
            width > 0,
    ;
}

/// The dispatcher of a connection: one slot per event kind, found by the
/// name of the kind. Payloads are kept as the JSON text they arrived in.
#[derive(Debug)]
pub struct Dispatcher {
    slots: Vec<(String, GatewayEvent<String>)>,
}

/// The mathematical content of a dispatcher: its kinds, in the order they
/// were registered, each with its slot.
pub type DispatcherView = Seq<(Seq<char>, SlotView<String>)>;

/// The place of the first slot at or after `start` whose kind is `kind`.
pub open spec fn slot_from(view: DispatcherView, kind: Seq<char>, start: int) -> Option<int>
    decreases view.len() - start,
{
    if start < 0 || start >= view.len() {
        None
    } else if view[start].0 == kind {
        Some(start)
    } else {
        slot_from(view, kind, start + 1)
    }
}

/// The place of the slot of `kind`, if the kind is registered.
pub open spec fn slot_of(view: DispatcherView, kind: Seq<char>) -> Option<int> {
    slot_from(view, kind, 0)
}

/// A place that `slot_from` finds lies in the dispatcher, at or after the
/// start, and holds the kind.
pub proof fn lemma_slot_found(view: DispatcherView, kind: Seq<char>, start: int)
    requires
        0 <= start,
    ensures
        slot_from(view, kind, start) is Some ==> start <= slot_from(view, kind, start)->0
            < view.len() && view[slot_from(view, kind, start)->0].0 == kind,
    decreases view.len() - start,
{
    if start < view.len() && view[start].0 != kind {
        lemma_slot_found(view, kind, start + 1);
    }
}

impl View for Dispatcher {
    type V = DispatcherView;

    closed spec fn view(&self) -> DispatcherView {
        Seq::new(self.slots@.len(), |i: int| (self.slots@[i].0@, self.slots@[i].1@))
    }
}

impl Dispatcher {
    /// A dispatcher that knows no event kind.
    pub fn new() -> (dispatcher: Self)
        ensures
            dispatcher@ == DispatcherView::empty(),
    {
        let dispatcher = Dispatcher { slots: Vec::new() };
        assert(dispatcher@ =~= DispatcherView::empty());
        dispatcher
    }

    /// Finds the slot of a kind.
    fn find(&self, kind: &str) -> (place: Option<usize>)
        ensures
            place is Some <==> slot_of(self@, kind@) is Some,
            place is Some ==> place->0 == slot_of(self@, kind@)->0 && place->0 < self.slots@.len(),
    {
        let wanted: String = kind.to_owned();
        let mut index: usize = 0;
        while index < self.slots.len()
            invariant
                index <= self.slots@.len(),
                wanted@ == kind@,
                slot_of(self@, kind@) == slot_from(self@, kind@, index as int),
            decreases self.slots@.len() - index,
        {
            if self.slots[index].0 == wanted {
                return Some(index);
            }
            index = index + 1;
        }
        None
    }

    /// Whether events of this kind are taken.
    pub fn knows(&self, kind: &str) -> (known: bool)
        ensures
            known == slot_of(self@, kind@) is Some,
    {
        self.find(kind).is_some()
    }

    /// Makes a kind known, with an empty slot behind those already there.
    /// Returns false, and changes nothing, if the kind is known already.
    pub fn register(&mut self, kind: &str) -> (added: bool)
        ensures
            added == slot_of(old(self)@, kind@) is None,
            added ==> final(self)@ == old(self)@.push((kind@, empty_slot::<String>())),
            !added ==> final(self)@ == old(self)@,
    {
        if self.find(kind).is_some() {
            return false;
        }
        let ghost before = self@;
        self.slots.push((kind.to_owned(), GatewayEvent::new()));
        assert(self@ =~= before.push((kind@, empty_slot::<String>())));
        true
    }

    /// Subscribes to a kind and returns the handle, the next one of that
    /// kind's slot. `None`, with nothing changed, if the kind is not known or
    /// its handles have run out.
    pub fn subscribe(&mut self, kind: &str) -> (handle: Option<SubscriberId>)
        ensures
            handle is Some <==> slot_of(old(self)@, kind@) is Some && old(self)@[slot_of(
                old(self)@,
                kind@,
            )->0].1.issued < u64::MAX,
            match handle {
                Some(id) => ({
                    let place = slot_of(old(self)@, kind@)->0;
                    let slot = old(self)@[place].1;
                    &&& id == slot.issued
                    &&& !slot.subscribers.contains(id)
                    &&& final(self)@ == old(self)@.update(
                        place,
                        (
                            kind@,
                            SlotView {
                                subscribers: slot.subscribers.push(id),
                                issued: slot.issued + 1,
                                ..slot
                            },
                        ),
                    )
                }),
                None => final(self)@ == old(self)@,
            },
    {
        match self.find(kind) {
            None => None,
            Some(place) => {
                let ghost before = self@;
                proof {
                    lemma_slot_found(before, kind@, 0);
                }
                let (name, mut slot) = self.slots.remove(place);
                let handle = slot.subscribe();
                let ghost after = slot@;
                self.slots.insert(place, (name, slot));
                proof {
                    match handle {
                        Some(_) => {
                            assert(self@ =~= before.update(place as int, (kind@, after)));
                        },
                        None => {
                            assert(self@ =~= before);
                        },
                    }
                }
                handle
            },
        }
    }

    /// Removes a subscriber of a kind. Returns whether it was subscribed.
    pub fn unsubscribe(&mut self, kind: &str, id: SubscriberId) -> (removed: bool)
        ensures
            match slot_of(old(self)@, kind@) {
                Some(place) => removed == old(self)@[place].1.subscribers.contains(id)
                    && final(self)@ == old(self)@.update(
                    place,
                    (
                        kind@,
                        SlotView {
                            subscribers: without(old(self)@[place].1.subscribers, id),
                            ..old(self)@[place].1
                        },
                    ),
                ),
                None => !removed && final(self)@ == old(self)@,
            },
    {
        match self.find(kind) {
            None => false,
            Some(place) => {
                let ghost before = self@;
                proof {
                    lemma_slot_found(before, kind@, 0);
                }
                let (name, mut slot) = self.slots.remove(place);
                let removed = slot.unsubscribe(id);
                let ghost after = slot@;
                self.slots.insert(place, (name, slot));
                assert(self@ =~= before.update(place as int, (kind@, after)));
                removed
            },
        }
    }

    /// Dispatches a payload to a kind: the slot of that kind takes it as the
    /// most recent one, and its subscribers are returned in the order they
    /// registered. The slots of other kinds are left alone. An event of a
    /// kind that is not known is dropped: `None`, with nothing changed.
    pub fn dispatch(&mut self, kind: &str, payload: String) -> (told: Option<Vec<SubscriberId>>)
        ensures
            match slot_of(old(self)@, kind@) {
                Some(place) => told is Some && told->0@ == old(self)@[place].1.subscribers
                    && final(self)@ == old(self)@.update(
                    place,
                    (kind@, SlotView { latest: Some(payload), ..old(self)@[place].1 }),
                ),
                None => told is None && final(self)@ == old(self)@,
            },
    {
        match self.find(kind) {
            None => None,
            Some(place) => {
                let ghost before = self@;
                proof {
                    lemma_slot_found(before, kind@, 0);
                }
                let (name, mut slot) = self.slots.remove(place);
                let told = slot.notify(payload);
                let ghost after = slot@;
                self.slots.insert(place, (name, slot));
                assert(self@ =~= before.update(place as int, (kind@, after)));
                Some(told)
            },
        }
    }

    /// The payload that was dispatched last to a kind.
    pub fn latest(&self, kind: &str) -> (latest: Option<&String>)
        ensures
            match slot_of(self@, kind@) {
                Some(place) => match self@[place].1.latest {
                    Some(payload) => latest is Some && *latest->0 == payload,
                    None => latest is None,
                },
                None => latest is None,
            },
    {
        match self.find(kind) {
            None => None,
            Some(place) => {
                proof {
                    lemma_slot_found(self@, kind@, 0);
                }
                self.slots[place].1.latest().as_ref()
            },
        }
    }
}

} // verus!
