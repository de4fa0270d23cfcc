//! Topic-based message routing.
//!
//! A [`MessageRouter`] keeps a registry of consumers parallel to one of
//! subscription sets, both fixed at registration time. An incoming generic
//! message is delivered, in registry order, to exactly the consumers whose
//! subscription set contains the message's type; unselected consumers are
//! never invoked. The selected consumers' replies are folded with
//! collect-all-successes semantics (see [`crate::aggregation`]): a hard
//! error from any selected consumer fails the whole send, naming the topic,
//! and otherwise the ordered list of non-empty replies is returned, with
//! consumers that replied nothing dropped.

use crate::aggregation::{collect_all_successes, lemma_collect_all_len_bound};
use crate::error::VadeResult;
use crate::traits::MessageConsumer;
use crate::vade_plugin::VadePluginResultValue;
use vstd::prelude::*;

verus! {

/// A generic message envelope: the mandatory `message_type` selects the
/// routing, the `data` is an opaque payload passed through as text to the
/// selected consumers.
pub struct GenericMessage {
    /// The message's topic; consumers subscribe to topics.
    pub message_type: String,
    /// Opaque data for the selected consumers, e.g. a serialized document.
    pub data: String,
}

/// Whether a subscription set contains the given topic.
pub open spec fn subscribed(topics: Seq<String>, topic: Seq<char>) -> bool {
    exists|i: int| 0 <= i < topics.len() && topics[i]@ == topic
}

/// Whether the topic list contains the given topic.
#[verifier::loop_isolation(false)]
pub fn contains_topic(topics: &Vec<String>, topic: &str) -> (b: bool)
    ensures
        b == subscribed(topics@, topic@),
{
    let owned_topic = topic.to_owned();
    let mut i: usize = 0;
    while i < topics.len()
        invariant
            i <= topics@.len(),
            forall|j: int| 0 <= j < i ==> topics@[j]@ != topic@,
        decreases topics@.len() - i,
    {
        if topics[i] == owned_topic {
            proof {
                assert(topics@[i as int]@ == topic@);
            }
            return true;
        }
        i += 1;
    }
    false
}

/// A consumer registered with an empty subscription set is subscribed to no
/// topic, so it is never selected and never receives a message.
pub proof fn lemma_empty_subscription_receives_nothing(topic: Seq<char>)
    ensures
        !subscribed(Seq::<String>::empty(), topic),
{
}

/// A registry of message consumers, each with the set of topics it
/// subscribed to when it was registered.
pub struct MessageRouter<C> {
    /// Registered consumers, in registration order.
    consumers: Vec<C>,
    /// One subscription set per consumer, at the consumer's registry index.
    subscriptions: Vec<Vec<String>>,
}

impl<C: MessageConsumer> MessageRouter<C> {
    /// Both registries stay in lockstep: one subscription set per consumer.
    pub closed spec fn wf(self) -> bool {
        self.consumers@.len() == self.subscriptions@.len()
    }

    /// How many consumers are registered.
    pub closed spec fn consumer_count(self) -> nat {
        self.consumers@.len()
    }

    /// The registered subscription sets, by consumer registry index.
    pub closed spec fn subscription_sets(self) -> Seq<Seq<String>> {
        self.subscriptions@.map_values(|topics: Vec<String>| topics@)
    }

    /// Creates a new `MessageRouter` instance with an empty registry.
    pub fn new() -> (router: MessageRouter<C>)
        ensures
            router.wf(),
            router.consumer_count() == 0,
            router.subscription_sets() == Seq::<Seq<String>>::empty(),
    {
        let router = MessageRouter { consumers: Vec::new(), subscriptions: Vec::new() };
        proof {
            assert(router.subscription_sets() =~= Seq::<Seq<String>>::empty());
        }
        router
    }

    /// Registers a new consumer together with the fixed set of message
    /// types it subscribes to; appends to the registry tail and never
    /// fails. A consumer registered with an empty topic set never receives
    /// messages.
    pub fn register_message_consumer(&mut self, topics: Vec<String>, consumer: Box<C>)
        requires
            old(self).wf(),
        ensures
            final(self).wf(),
            final(self).consumer_count() == old(self).consumer_count() + 1,
            final(self).subscription_sets() == old(self).subscription_sets().push(topics@),
    {
        self.consumers.push(*consumer);
        self.subscriptions.push(topics);
        proof {
            assert(final(self).subscription_sets() =~= old(self).subscription_sets().push(
                final(self).subscriptions@.last()@,
            ));
        }
    }

    /// Routes a generic message: selects, in registry order, every consumer
    /// whose subscription set contains the message's type, invokes exactly
    /// the selected consumers, and folds their replies with
    /// collect-all-successes semantics. A hard error from any selected
    /// consumer fails the whole send, naming the topic; otherwise the
    /// non-empty replies are returned in registry order, and a message no
    /// consumer subscribed to yields the empty list, not an error.
    ///
    /// # Arguments
    ///
    /// * `message` - the envelope to route
    #[verifier::loop_isolation(false)]
    pub fn send_message(&mut self, message: &GenericMessage) -> (r: VadeResult<Vec<Option<String>>>)
        requires
            old(self).wf(),
        ensures
            final(self).wf(),
            final(self).consumer_count() == old(self).consumer_count(),
            final(self).subscription_sets() == old(self).subscription_sets(),
            r is Ok ==> r->Ok_0@.len() <= old(self).consumer_count(),
            (forall|k: int|
                0 <= k < old(self).subscription_sets().len() ==> !subscribed(
                    old(self).subscription_sets()[k],
                    message.message_type@,
                )) ==> r is Ok && r->Ok_0@.len() == 0,
    {
        let mut outcomes: Vec<VadeResult<VadePluginResultValue<Option<String>>>> = Vec::new();
        let mut i: usize = 0;
        while i < self.consumers.len()
            invariant
                i <= self.consumers@.len(),
                self.consumers@.len() == old(self).consumers@.len(),
                self.subscriptions == old(self).subscriptions,
                outcomes@.len() <= i,
                (forall|k: int|
                    0 <= k < old(self).subscription_sets().len() ==> !subscribed(
                        old(self).subscription_sets()[k],
                        message.message_type@,
                    )) ==> outcomes@.len() == 0,
            decreases self.consumers@.len() - i,
        {
            if contains_topic(&self.subscriptions[i], message.message_type.as_str()) {
                proof {
                    assert(subscribed(old(self).subscription_sets()[i as int],
                        message.message_type@));
                }
                let outcome = match self.consumers[i].handle_message(
                    message.message_type.as_str(),
                    message.data.as_str(),
                ) {
                    Ok(Some(reply)) => Ok(VadePluginResultValue::Success(Some(reply))),
                    Ok(None) => Ok(VadePluginResultValue::Ignored),
                    Err(e) => Err(e),
                };
                outcomes.push(outcome);
            }
            i += 1;
        }
        proof {
            lemma_collect_all_len_bound(outcomes@);
        }
        collect_all_successes("send_message", message.message_type.as_str(), outcomes)
    }
}

} // verus!
