use crate::task::{Action, SubscriptionTask, TaskPhase, TaskView};
use vstd::prelude::*;

verus! {

/// An active subscription: a topic relayed into a destination channel.
pub struct Subscription {
    pub id: u64,
    pub topic: String,
    pub destination: u64,
    pub interval: u64,
}

/// What a subscription is, as plain values.
pub struct SubscriptionView {
    pub id: u64,
    pub topic: Seq<char>,
    pub destination: u64,
    pub interval: u64,
}

impl View for Subscription {
    type V = SubscriptionView;

    open spec fn view(&self) -> SubscriptionView {
        SubscriptionView {
            id: self.id,
            topic: self.topic@,
            destination: self.destination,
            interval: self.interval,
        }
    }
}

/// Why a registry operation was refused.
#[derive(Debug, Clone, Copy, PartialEq, Eq, Structural)]
pub enum RegistryError {
    /// The topic is empty.
    InvalidTopic,
    /// The same topic is already relayed into the same destination.
    DuplicateSubscription,
    /// Every identifier has been handed out.
    IdsExhausted,
    /// No active subscription has that identifier.
    NotFound,
}

/// The registry's contents: the active subscriptions, oldest first, and the
/// identifier that the next one gets.
pub struct RegistryView {
    pub subs: Seq<SubscriptionView>,
    pub next_id: u64,
}

/// The set of active subscriptions; the one place where they are started and
/// stopped.
pub struct Registry {
    subs: Vec<Subscription>,
    next_id: u64,
}

impl View for Registry {
    type V = RegistryView;

    closed spec fn view(&self) -> RegistryView {
        RegistryView { subs: self.subs@.map_values(|s: Subscription| s@), next_id: self.next_id }
    }
}

/// Whether `subs` holds a subscription of `topic` into `destination`.
pub open spec fn has_pair(subs: Seq<SubscriptionView>, topic: Seq<char>, destination: u64) -> bool {
    exists|i: int| 0 <= i < subs.len() && subs[i].topic == topic && subs[i].destination == destination
}

/// Whether `subs` holds a subscription with identifier `id`.
pub open spec fn has_id(subs: Seq<SubscriptionView>, id: u64) -> bool {
    exists|i: int| 0 <= i < subs.len() && subs[i].id == id
}

impl RegistryView {
    /// Identifiers are unique and below `next_id`, and no two subscriptions
    /// share a (topic, destination) pair.
    pub open spec fn wf(self) -> bool {
        &&& forall|i: int| 0 <= i < self.subs.len() ==> self.subs[i].id < self.next_id
        &&& forall|i: int, j: int|
            0 <= i < j < self.subs.len() ==> self.subs[i].id != self.subs[j].id
        &&& forall|i: int, j: int|
            0 <= i < j < self.subs.len() ==> !(self.subs[i].topic == self.subs[j].topic
                && self.subs[i].destination == self.subs[j].destination)
    }

    /// The outcome of registering `topic` into `destination`: the new contents
    /// and the new subscription's identifier, or the error with the contents
    /// unchanged.
    pub open spec fn register(self, topic: Seq<char>, destination: u64, interval: u64) -> (
        RegistryView,
        Result<u64, RegistryError>,
    ) {
        if topic.len() == 0 {
            (self, Err(RegistryError::InvalidTopic))
        } else if has_pair(self.subs, topic, destination) {
            (self, Err(RegistryError::DuplicateSubscription))
        } else if self.next_id == u64::MAX {
            (self, Err(RegistryError::IdsExhausted))
        } else {
            (
                RegistryView {
                    subs: self.subs.push(
                        SubscriptionView { id: self.next_id, topic, destination, interval },
                    ),
                    next_id: (self.next_id + 1) as u64,
                },
                Ok(self.next_id),
            )
        }
    }

    /// The outcome of cancelling `id`: the contents without that subscription,
    /// or `NotFound` with the contents unchanged.
    pub open spec fn cancel(self, id: u64) -> (RegistryView, Result<(), RegistryError>) {
        if has_id(self.subs, id) {
            let i = choose|i: int| 0 <= i < self.subs.len() && self.subs[i].id == id;
            (RegistryView { subs: self.subs.remove(i), next_id: self.next_id }, Ok(()))
        } else {
            (self, Err(RegistryError::NotFound))
        }
    }
}

/// Registering the same (topic, destination) pair a second time is refused with
/// `DuplicateSubscription` and leaves the contents as the first registration
/// left them, which added exactly one subscription.
pub proof fn lemma_register_twice(
    m: RegistryView,
    topic: Seq<char>,
    destination: u64,
    first_interval: u64,
    second_interval: u64,
)
    requires
        m.wf(),
        m.register(topic, destination, first_interval).1 is Ok,
    ensures
        ({
            let m1 = m.register(topic, destination, first_interval).0;
            &&& m1.subs.len() == m.subs.len() + 1
            &&& m1.register(topic, destination, second_interval) == (
                m1,
                Err::<u64, RegistryError>(RegistryError::DuplicateSubscription),
            )
        }),
{
    let m1 = m.register(topic, destination, first_interval).0;
    let last = m.subs.len() as int;
    assert(m1.subs[last].topic == topic && m1.subs[last].destination == destination);
    assert(has_pair(m1.subs, topic, destination));
}

/// Cancelling the same identifier twice: the second call reports `NotFound`
/// and changes nothing.
pub proof fn lemma_cancel_twice(m: RegistryView, id: u64)
    requires
        m.wf(),
    ensures
        ({
            let m1 = m.cancel(id).0;
            m1.cancel(id) == (m1, Err::<(), RegistryError>(RegistryError::NotFound))
        }),
{
    let m1 = m.cancel(id).0;
    if has_id(m.subs, id) {
        let i = choose|i: int| 0 <= i < m.subs.len() && m.subs[i].id == id;
        if has_id(m1.subs, id) {
            let k = choose|k: int| 0 <= k < m1.subs.len() && m1.subs[k].id == id;
            if k < i {
                assert(m.subs[k].id == id);
            } else {
                assert(m.subs[k + 1].id == id);
            }
        }
    }
}

impl Registry {
    /// Identifiers are unique and fresh, and pairs are not repeated.
    #[verifier::type_invariant]
    spec fn inv(&self) -> bool {
        self@.wf()
    }

    /// An empty registry.
    pub fn new() -> (r: Registry)
        ensures
            r@.subs.len() == 0,
            r@.wf(),
    {
        Registry { subs: Vec::new(), next_id: 0 }
    }

    /// The number of active subscriptions.
    pub fn len(&self) -> (r: usize)
        ensures
            r == self@.subs.len(),
    {
        self.subs.len()
    }

    /// The active subscriptions, oldest first.
    pub fn list(&self) -> (r: &[Subscription])
        ensures
            r@.map_values(|s: Subscription| s@) == self@.subs,
    {
        self.subs.as_slice()
    }

    /// The position of the subscription with identifier `id`, if any.
    fn position(&self, id: u64) -> (r: Option<usize>)
        ensures
            r is None ==> !has_id(self@.subs, id),
            r matches Some(i) ==> i < self@.subs.len() && self@.subs[i as int].id == id,
    {
        let mut i: usize = 0;
        while i < self.subs.len()
            invariant
                i <= self.subs@.len(),
                forall|k: int| 0 <= k < i ==> self.subs@[k].id != id,
            decreases self.subs@.len() - i,
        {
            if self.subs[i].id == id {
                return Some(i);
            }
            i = i + 1;
        }
        assert(!has_id(self@.subs, id)) by {
            if has_id(self@.subs, id) {
                let k = choose|k: int| 0 <= k < self@.subs.len() && self@.subs[k].id == id;
                assert(self.subs@[k].id == id);
            }
        }
        None
    }

    /// Whether a subscription with identifier `id` is active.
    pub fn is_active(&self, id: u64) -> (r: bool)
        ensures
            r == has_id(self@.subs, id),
    {
        self.position(id).is_some()
    }

    /// Whether `topic` is already relayed into `destination`.
    fn contains_pair(&self, topic: &String, destination: u64) -> (r: bool)
        ensures
            r == has_pair(self@.subs, topic@, destination),
    {
        let mut i: usize = 0;
        while i < self.subs.len()
            invariant
                i <= self.subs@.len(),
                forall|k: int|
                    0 <= k < i ==> !(self.subs@[k].topic@ == topic@ && self.subs@[k].destination
                        == destination),
            decreases self.subs@.len() - i,
        {
            if self.subs[i].destination == destination && self.subs[i].topic == *topic {
                assert(self@.subs[i as int].topic == topic@);
                return true;
            }
            i = i + 1;
        }
        assert(!has_pair(self@.subs, topic@, destination)) by {
            if has_pair(self@.subs, topic@, destination) {
                let k = choose|k: int|
                    0 <= k < self@.subs.len() && self@.subs[k].topic == topic@
                        && self@.subs[k].destination == destination;
                assert(self.subs@[k].topic@ == topic@);
            }
        }
        false
    }

    /// Starts relaying `topic` into `destination` every `interval` ticks.
    pub fn register(&mut self, topic: String, destination: u64, interval: u64) -> (r: Result<
        u64,
        RegistryError,
    >)
        ensures
            (final(self)@, r) == old(self)@.register(topic@, destination, interval),
            final(self)@.wf(),
    {
        proof {
            use_type_invariant(&*self);
        }
        if topic.unicode_len() == 0 {
            return Err(RegistryError::InvalidTopic);
        }
        if self.contains_pair(&topic, destination) {
            return Err(RegistryError::DuplicateSubscription);
        }
        if self.next_id == u64::MAX {
            return Err(RegistryError::IdsExhausted);
        }
        let id = self.next_id;
        let ghost before = self@;
        let mut taken = Registry::new();
        std::mem::swap(self, &mut taken);
        let Registry { mut subs, next_id: _ } = taken;
        subs.push(Subscription { id, topic, destination, interval });
        assert(subs@.map_values(|s: Subscription| s@) == before.subs.push(
            SubscriptionView { id, topic: topic@, destination, interval },
        ));
        *self = Registry { subs, next_id: id + 1 };
        Ok(id)
    }

    /// Stops the subscription with identifier `id`; `NotFound` when none is
    /// active, which leaves the registry as it was.
    pub fn cancel(&mut self, id: u64) -> (r: Result<(), RegistryError>)
        ensures
            (final(self)@, r) == old(self)@.cancel(id),
            final(self)@.wf(),
    {
        proof {
            use_type_invariant(&*self);
        }
        match self.position(id) {
            None => Err(RegistryError::NotFound),
            Some(i) => {
                let ghost before = self@;
                proof {
                    let j = choose|j: int| 0 <= j < before.subs.len() && before.subs[j].id == id;
                    assert(j == i as int);
                }
                let mut taken = Registry::new();
                std::mem::swap(self, &mut taken);
                let Registry { mut subs, next_id } = taken;
                subs.remove(i);
                assert(subs@.map_values(|s: Subscription| s@) == before.subs.remove(i as int));
                *self = Registry { subs, next_id };
                Ok(())
            },
        }
    }

    /// Registers `topic` into `destination` and starts its task, which fetches
    /// `batch_size` items per cycle and picks one of the first `window`. On
    /// success it returns the new identifier, the task and the task's first
    /// action, a fetch; on failure the registry is unchanged and no task exists.
    pub fn subscribe(
        &mut self,
        topic: String,
        destination: u64,
        interval: u64,
        batch_size: usize,
        window: usize,
        fallback_image: String,
    ) -> (r: Result<(u64, SubscriptionTask, Action), RegistryError>)
        ensures
            final(self)@ == old(self)@.register(topic@, destination, interval).0,
            final(self)@.wf(),
            old(self)@.register(topic@, destination, interval).1 matches Err(e) ==> r == Err::<
                (u64, SubscriptionTask, Action),
                RegistryError,
            >(e),
            old(self)@.register(topic@, destination, interval).1 matches Ok(id) ==> (r matches Ok(
                (rid, t, a),
            ) && rid == id && t@ == (TaskView {
                topic: topic@,
                destination,
                interval,
                batch_size,
                window,
                fallback_image: fallback_image@,
                phase: TaskPhase::Polling,
            }) && (a matches Action::Fetch { topic: ft, size } && ft@ == topic@ && size
                == batch_size)),
    {
        proof {
            use_type_invariant(&*self);
        }
        let ghost topic_view = topic@;
        let task_topic = topic.clone();
        match self.register(topic, destination, interval) {
            Err(e) => Err(e),
            Ok(id) => {
                match SubscriptionTask::start(
                    task_topic,
                    destination,
                    interval,
                    batch_size,
                    window,
                    fallback_image,
                ) {
                    Ok((task, first)) => Ok((id, task, first)),
                    Err(_) => {
                        // `register` accepted the topic, so it is not empty
                        // and the task cannot refuse it.
                        assert(topic_view.len() == 0);
                        assert(false);
                        Err(RegistryError::InvalidTopic)
                    },
                }
            },
        }
    }
}

} // verus!
