//! The event bus: one first-in, first-out queue per registered component,
//! and broadcast of each published event to every subscriber but its
//! publisher.

use crate::messages::{CarMessage, ComponentId};
use std::collections::VecDeque;
use vstd::prelude::*;

verus! {

/// The bus as a mathematical value: the queue of each registered identity,
/// oldest event first, and the set of identities that receive events.
#[verifier::ext_equal]
pub struct BusModel {
    pub queues: Map<ComponentId, Seq<CarMessage>>,
    pub subscribed: Set<ComponentId>,
}

/// One publication: who published, and what.
pub type Post = (ComponentId, CarMessage);

impl BusModel {
    /// The bus with no queue and no subscriber.
    pub open spec fn empty() -> BusModel {
        BusModel { queues: Map::empty(), subscribed: Set::empty() }
    }

    pub open spec fn is_registered(self, id: ComponentId) -> bool {
        self.queues.contains_key(id)
    }

    pub open spec fn is_subscribed(self, id: ComponentId) -> bool {
        self.subscribed.contains(id)
    }

    /// The events waiting for `id`; none for an identity without a queue.
    pub open spec fn pending(self, id: ComponentId) -> Seq<CarMessage> {
        if self.queues.contains_key(id) {
            self.queues[id]
        } else {
            Seq::empty()
        }
    }

    /// Whether an event published by `from` is delivered to `id`.
    pub open spec fn receives(self, from: ComponentId, id: ComponentId) -> bool {
        self.is_registered(id) && self.is_subscribed(id) && id != from
    }

    /// Gives `id` an empty queue unless it has a queue already.
    pub open spec fn register(self, id: ComponentId) -> BusModel {
        if self.is_registered(id) {
            self
        } else {
            BusModel { queues: self.queues.insert(id, Seq::empty()), subscribed: self.subscribed }
        }
    }

    pub open spec fn subscribe_all(self, id: ComponentId) -> BusModel {
        BusModel { queues: self.queues, subscribed: self.subscribed.insert(id) }
    }

    /// Appends `event` to the queue of every identity that receives from
    /// `from`, and leaves every other queue as it is.
    pub open spec fn publish(self, from: ComponentId, event: CarMessage) -> BusModel {
        BusModel {
            queues: Map::new(
                |id: ComponentId| self.queues.contains_key(id),
                |id: ComponentId|
                    if self.receives(from, id) {
                        self.queues[id].push(event)
                    } else {
                        self.queues[id]
                    },
            ),
            subscribed: self.subscribed,
        }
    }

    /// Replaces the queue of `id`, if it has one.
    pub open spec fn with_queue(self, id: ComponentId, queue: Seq<CarMessage>) -> BusModel {
        if self.is_registered(id) {
            BusModel { queues: self.queues.insert(id, queue), subscribed: self.subscribed }
        } else {
            self
        }
    }

    /// The bus after the oldest event of `id` has been taken.
    pub open spec fn without_oldest(self, id: ComponentId) -> BusModel {
        if self.pending(id).len() > 0 {
            self.with_queue(id, self.pending(id).subrange(1, self.pending(id).len() as int))
        } else {
            self
        }
    }

    /// The oldest event waiting for `id`, if there is one.
    pub open spec fn oldest(self, id: ComponentId) -> Option<CarMessage> {
        if self.pending(id).len() > 0 {
            Some(self.pending(id)[0])
        } else {
            None
        }
    }

    /// The number of events waiting in all queues together.
    pub open spec fn total_pending(self) -> nat {
        self.pending(ComponentId::Engine).len() + self.pending(ComponentId::Brakes).len()
            + self.pending(ComponentId::Steering).len() + self.pending(
            ComponentId::Dashboard,
        ).len() + self.pending(ComponentId::CarSystem).len()
    }

    /// The bus after a series of publications, made in order.
    pub open spec fn publish_each(self, posts: Seq<Post>) -> BusModel
        decreases posts.len(),
    {
        if posts.len() == 0 {
            self
        } else {
            self.publish_each(posts.drop_last()).publish(posts.last().0, posts.last().1)
        }
    }
}

/// The publications of a series of events by one publisher, in order.
pub open spec fn posts_by(from: ComponentId, events: Seq<CarMessage>) -> Seq<Post> {
    events.map_values(|event: CarMessage| (from, event))
}

/// The events of `posts` that were not published by `id`, in order.
pub open spec fn events_of_others(posts: Seq<Post>, id: ComponentId) -> Seq<CarMessage>
    decreases posts.len(),
{
    if posts.len() == 0 {
        Seq::empty()
    } else if posts.last().0 != id {
        events_of_others(posts.drop_last(), id).push(posts.last().1)
    } else {
        events_of_others(posts.drop_last(), id)
    }
}

/// The central hub through which components exchange events.
pub struct MessageBus {
    queues: Vec<Option<VecDeque<CarMessage>>>,
    subscriptions: Vec<bool>,
}

impl View for MessageBus {
    type V = BusModel;

    closed spec fn view(&self) -> BusModel {
        BusModel {
            queues: Map::new(
                |id: ComponentId| self.queues@[id.slot_spec()] is Some,
                |id: ComponentId| self.queues@[id.slot_spec()]->Some_0@,
            ),
            subscribed: Set::new(|id: ComponentId| self.subscriptions@[id.slot_spec()]),
        }
    }
}

impl MessageBus {
    #[verifier::type_invariant]
    spec fn well_formed(&self) -> bool {
        self.queues@.len() == 5 && self.subscriptions@.len() == 5
    }

    /// A bus without queues or subscribers.
    pub fn new() -> (res: Self)
        ensures
            res@ == BusModel::empty(),
    {
        let mut queues: Vec<Option<VecDeque<CarMessage>>> = Vec::new();
        let mut subscriptions: Vec<bool> = Vec::new();
        let mut i: usize = 0;
        while i < 5
            invariant
                i <= 5,
                queues@.len() == i,
                subscriptions@.len() == i,
                forall|k: int| 0 <= k < i ==> queues@[k] is None,
                forall|k: int| 0 <= k < i ==> !subscriptions@[k],
            decreases 5 - i,
        {
            queues.push(None);
            subscriptions.push(false);
            i += 1;
        }
        let res = MessageBus { queues, subscriptions };
        assert(res@ =~= BusModel::empty());
        res
    }

    /// Creates the queue of a component. Registering again changes nothing:
    /// the component keeps its queue and what waits in it.
    pub fn register_component(&mut self, component_id: ComponentId)
        ensures
            final(self)@ == old(self)@.register(component_id),
    {
        proof {
            use_type_invariant(&*self);
        }
        let i = component_id.slot();
        if self.queues[i].is_none() {
            self.queues[i] = Some(VecDeque::new());
        }
        assert(self@ =~= old(self)@.register(component_id));
    }

    /// Marks a component as receiving every event that it did not publish.
    pub fn subscribe_all(&mut self, component_id: ComponentId)
        ensures
            final(self)@ == old(self)@.subscribe_all(component_id),
    {
        proof {
            use_type_invariant(&*self);
        }
        let i = component_id.slot();
        self.subscriptions[i] = true;
        assert(self@ =~= old(self)@.subscribe_all(component_id));
    }

    /// Delivers a copy of `message` to every registered subscriber other
    /// than `from`. Nothing is reported when nobody receives it.
    pub fn publish(&mut self, from: ComponentId, message: CarMessage)
        ensures
            final(self)@ == old(self)@.publish(from, message),
    {
        proof {
            use_type_invariant(&*self);
        }
        let sender = from.slot();
        let mut i: usize = 0;
        while i < 5
            invariant
                i <= 5,
                sender == from.slot_spec(),
                self.queues@.len() == 5,
                self.subscriptions@ == old(self).subscriptions@,
                self.subscriptions@.len() == 5,
                forall|k: int|
                    0 <= k < 5 ==> (#[trigger] self.queues@[k] is Some) == (old(
                        self,
                    ).queues@[k] is Some),
                forall|k: int|
                    i <= k < 5 && old(self).queues@[k] is Some ==> (
                    #[trigger] self.queues@[k])->Some_0@ == old(self).queues@[k]->Some_0@,
                forall|k: int|
                    0 <= k < i && old(self).queues@[k] is Some ==> (
                    #[trigger] self.queues@[k])->Some_0@ == if self.subscriptions@[k] && k
                        != sender {
                        old(self).queues@[k]->Some_0@.push(message)
                    } else {
                        old(self).queues@[k]->Some_0@
                    },
            decreases 5 - i,
        {
            if self.subscriptions[i] && i != sender {
                match &mut self.queues[i] {
                    Some(queue) => {
                        queue.push_back(message.clone());
                    },
                    None => {},
                }
            }
            i += 1;
        }
        assert(self@ =~= old(self)@.publish(from, message));
    }

    /// Publishes a series of events of one publisher, in order.
    pub fn publish_all(&mut self, from: ComponentId, messages: &Vec<CarMessage>)
        ensures
            final(self)@ == old(self)@.publish_each(posts_by(from, messages@)),
    {
        let mut i: usize = 0;
        assert(posts_by(from, messages@.take(0)) =~= Seq::<Post>::empty());
        while i < messages.len()
            invariant
                i <= messages@.len(),
                self@ == old(self)@.publish_each(posts_by(from, messages@.take(i as int))),
            decreases messages@.len() - i,
        {
            let ghost earlier = posts_by(from, messages@.take(i as int));
            let ghost now = posts_by(from, messages@.take(i + 1));
            assert(now.drop_last() =~= earlier);
            assert(now.last() == (from, messages@[i as int]));
            self.publish(from, messages[i].clone());
            i += 1;
        }
        assert(messages@.take(i as int) =~= messages@);
    }

    /// Whether events wait for the component.
    pub fn has_messages(&self, component_id: ComponentId) -> (res: bool)
        ensures
            res == (self@.pending(component_id).len() > 0),
    {
        proof {
            use_type_invariant(self);
        }
        match &self.queues[component_id.slot()] {
            Some(queue) => queue.len() > 0,
            None => false,
        }
    }

    /// The number of events that wait for the component.
    pub fn pending_count(&self, component_id: ComponentId) -> (res: usize)
        ensures
            res == self@.pending(component_id).len(),
    {
        proof {
            use_type_invariant(self);
        }
        match &self.queues[component_id.slot()] {
            Some(queue) => queue.len(),
            None => 0,
        }
    }

    /// Takes the oldest event that waits for the component. Returns at once,
    /// with `None`, when nothing waits or the component has no queue.
    pub fn receive(&mut self, component_id: ComponentId) -> (res: Option<CarMessage>)
        ensures
            res == old(self)@.oldest(component_id),
            final(self)@ == old(self)@.without_oldest(component_id),
    {
        proof {
            use_type_invariant(&*self);
        }
        let i = component_id.slot();
        let res = match &mut self.queues[i] {
            Some(queue) => queue.pop_front(),
            None => None,
        };
        assert(self@ =~= old(self)@.without_oldest(component_id));
        res
    }

    /// Takes every event that waits for the component, oldest first, and
    /// leaves its queue empty.
    pub fn receive_all(&mut self, component_id: ComponentId) -> (res: Vec<CarMessage>)
        ensures
            res@ == old(self)@.pending(component_id),
            final(self)@ == old(self)@.with_queue(component_id, Seq::empty()),
    {
        proof {
            use_type_invariant(&*self);
        }
        let i = component_id.slot();
        let mut result: Vec<CarMessage> = Vec::new();
        match &mut self.queues[i] {
            Some(queue) => {
                let ghost before = queue@;
                let count = queue.len();
                let mut taken: usize = 0;
                while taken < count
                    invariant
                        taken <= count,
                        count == before.len(),
                        result@ == before.subrange(0, taken as int),
                        queue@ == before.subrange(taken as int, count as int),
                    decreases count - taken,
                {
                    if let Some(msg) = queue.pop_front() {
                        result.push(msg);
                    }
                    taken += 1;
                }
                assert(result@ =~= before);
                assert(queue@ =~= Seq::<CarMessage>::empty());
            },
            None => {},
        }
        assert(self@ =~= old(self)@.with_queue(component_id, Seq::empty()));
        assert(result@ =~= old(self)@.pending(component_id));
        result
    }

    /// Discards every event that waits for the component.
    pub fn clear(&mut self, component_id: ComponentId)
        ensures
            final(self)@ == old(self)@.with_queue(component_id, Seq::empty()),
    {
        proof {
            use_type_invariant(&*self);
        }
        let i = component_id.slot();
        match &mut self.queues[i] {
            Some(queue) => {
                queue.clear();
            },
            None => {},
        }
        assert(self@ =~= old(self)@.with_queue(component_id, Seq::empty()));
    }

    /// The number of events that wait in all queues together.
    pub fn total_pending(&self) -> (res: usize)
        requires
            self@.total_pending() <= usize::MAX,
        ensures
            res == self@.total_pending(),
    {
        proof {
            use_type_invariant(self);
        }
        let engine = self.pending_count(ComponentId::Engine);
        let brakes = self.pending_count(ComponentId::Brakes);
        let steering = self.pending_count(ComponentId::Steering);
        let dashboard = self.pending_count(ComponentId::Dashboard);
        let system = self.pending_count(ComponentId::CarSystem);
        engine + brakes + steering + dashboard + system
    }
}

impl Default for MessageBus {
    fn default() -> (res: Self)
        ensures
            res@ == BusModel::empty(),
    {
        MessageBus::new()
    }
}

/// Broadcast: one publication appends the event to the queue of every
/// registered subscriber other than the publisher, and changes no other
/// queue, no registration and no subscription.
pub proof fn lemma_publish_reaches_exactly_the_others(
    bus: BusModel,
    from: ComponentId,
    event: CarMessage,
)
    ensures
        forall|id: ComponentId|
            bus.receives(from, id) ==> #[trigger] bus.publish(from, event).pending(id)
                == bus.pending(id).push(event),
        forall|id: ComponentId|
            !bus.receives(from, id) ==> #[trigger] bus.publish(from, event).pending(id)
                == bus.pending(id),
        forall|id: ComponentId|
            #[trigger] bus.publish(from, event).is_registered(id) == bus.is_registered(id),
        bus.publish(from, event).subscribed == bus.subscribed,
{
}

/// A series of publications keeps the order in which it was made: each
/// registered subscriber finds, behind what waited before, the events that
/// others published, oldest first; every other queue is unchanged.
pub proof fn lemma_publish_each_keeps_order(bus: BusModel, posts: Seq<Post>, id: ComponentId)
    ensures
        bus.publish_each(posts).subscribed == bus.subscribed,
        bus.publish_each(posts).is_registered(id) == bus.is_registered(id),
        bus.is_registered(id) && bus.is_subscribed(id) ==> bus.publish_each(posts).pending(id)
            == bus.pending(id) + events_of_others(posts, id),
        !(bus.is_registered(id) && bus.is_subscribed(id)) ==> bus.publish_each(posts).pending(id)
            == bus.pending(id),
    decreases posts.len(),
{
    if posts.len() == 0 {
        assert(bus.pending(id) + events_of_others(posts, id) =~= bus.pending(id));
    } else {
        let earlier = posts.drop_last();
        let before = bus.publish_each(earlier);
        lemma_publish_each_keeps_order(bus, earlier, id);
        lemma_publish_reaches_exactly_the_others(before, posts.last().0, posts.last().1);
        if bus.is_registered(id) && bus.is_subscribed(id) {
            if posts.last().0 != id {
                assert(before.receives(posts.last().0, id));
                assert((bus.pending(id) + events_of_others(earlier, id)).push(posts.last().1)
                    =~= bus.pending(id) + events_of_others(posts, id));
            } else {
                assert(!before.receives(posts.last().0, id));
            }
        } else {
            assert(!before.receives(posts.last().0, id));
        }
    }
}

/// No self-delivery: whatever a component publishes, its own queue stays as
/// it was, whether or not the component is subscribed.
pub proof fn lemma_no_self_delivery(bus: BusModel, posts: Seq<Post>, id: ComponentId)
    requires
        forall|i: int| 0 <= i < posts.len() ==> (#[trigger] posts[i]).0 == id,
    ensures
        bus.publish_each(posts).pending(id) == bus.pending(id),
    decreases posts.len(),
{
    if posts.len() > 0 {
        let earlier = posts.drop_last();
        assert forall|i: int| 0 <= i < earlier.len() implies (#[trigger] earlier[i]).0 == id by {
            assert(earlier[i] == posts[i]);
        }
        lemma_no_self_delivery(bus, earlier, id);
        assert(posts.last() == posts[posts.len() - 1]);
        assert(!bus.publish_each(earlier).receives(posts.last().0, id));
    }
}

/// Among the events that a component finds in its queue, none is one of
/// its own publications: each comes from a post of another component.
pub proof fn lemma_received_events_come_from_others(posts: Seq<Post>, id: ComponentId, k: int)
    requires
        0 <= k < events_of_others(posts, id).len(),
    ensures
        exists|i: int|
            0 <= i < posts.len() && (#[trigger] posts[i]).0 != id && posts[i].1
                == events_of_others(posts, id)[k],
    decreases posts.len(),
{
    let earlier = posts.drop_last();
    if posts.last().0 != id && k == events_of_others(earlier, id).len() {
        assert(posts[posts.len() - 1].0 != id);
    } else {
        lemma_received_events_come_from_others(earlier, id, k);
        let i = choose|i: int|
            0 <= i < earlier.len() && (#[trigger] earlier[i]).0 != id && earlier[i].1
                == events_of_others(earlier, id)[k];
        assert(posts[i] == earlier[i]);
    }
}

/// Idempotent registration: a second registration changes nothing, no
/// registration touches what waits in any queue, and the component has one
/// queue afterwards, added to those that were there.
pub proof fn lemma_register_is_idempotent(bus: BusModel, id: ComponentId)
    ensures
        bus.register(id).register(id) == bus.register(id),
        bus.is_registered(id) ==> bus.register(id) == bus,
        forall|other: ComponentId| #[trigger] bus.register(id).pending(other) == bus.pending(other),
        bus.register(id).queues.dom() == bus.queues.dom().insert(id),
        bus.register(id).subscribed == bus.subscribed,
{
    assert(bus.register(id).queues.dom() =~= bus.queues.dom().insert(id));
}

} // verus!
