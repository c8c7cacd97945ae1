//! What holds of the protocol as a whole, proved over the values of the
//! broker's and the subscriber's state.

use vstd::prelude::*;
use crate::access::{AccessView, Role};
use crate::broker::{BrokerView, Payment};
use crate::envelope::EnvelopeView;
use crate::error::OracleError;
use crate::exchange::{
    delivery_check, publish_next_broker, publish_next_subscriber, publish_result, request_next_broker,
    request_next_subscriber, request_result,
};
use crate::subscriber::SubscriberView;

verus! {

/// Once a whitelisted publisher has published `data` on a topic, a request
/// for that topic is answered with `data` from the cache, unless the request
/// itself is turned away; answering it changes nothing.
pub proof fn published_data_is_served(
    broker: BrokerView,
    topic: Seq<u8>,
    data: Seq<u8>,
    publisher: Seq<u8>,
    envelope: EnvelopeView,
    auth: Set<Seq<u8>>,
    payment: Payment,
)
    requires
        broker.access.is_allowed(Role::Publisher, publisher),
    ensures
        broker.publish_result(topic, publisher) is Ok,
        broker.publish_next(topic, data, publisher).subscribe_result(topic, envelope, auth, payment)
            == match BrokerView::refusal(envelope, auth, payment) {
            Some(e) => Err::<Option<Seq<u8>>, OracleError>(e),
            None => Ok(Some(data)),
        },
        broker.publish_next(topic, data, publisher).subscribe_next(topic, envelope, auth, payment)
            == broker.publish_next(topic, data, publisher),
{
}

/// The cached value of a topic stays until the next successful publish on
/// that topic: no request changes the cache, and publishing on another topic
/// leaves it alone.
pub proof fn cache_lasts_until_next_publish(
    broker: BrokerView,
    topic: Seq<u8>,
    other: Seq<u8>,
    data: Seq<u8>,
    publisher: Seq<u8>,
    envelope: EnvelopeView,
    auth: Set<Seq<u8>>,
    payment: Payment,
)
    ensures
        broker.subscribe_next(other, envelope, auth, payment).store.cache == broker.store.cache,
        other != topic ==> broker.publish_next(other, data, publisher).store.cached(topic)
            == broker.store.cached(topic),
{
}

/// Two admitted requests for a topic without a cached value stand at the end
/// of its queue, in the order of the calls. On a topic that nobody has asked
/// for before, they are the whole queue.
pub proof fn requests_queue_in_call_order(
    broker: BrokerView,
    topic: Seq<u8>,
    first: EnvelopeView,
    first_auth: Set<Seq<u8>>,
    second: EnvelopeView,
    second_auth: Set<Seq<u8>>,
)
    requires
        broker.store.cached(topic) is None,
        first_auth.contains(first.subscriber),
        second_auth.contains(second.subscriber),
    ensures
        ({
            let after_first = broker.subscribe_next(topic, first, first_auth, Payment::Settled);
            let after_second = after_first.subscribe_next(topic, second, second_auth, Payment::Settled);
            &&& broker.subscribe_result(topic, first, first_auth, Payment::Settled) == Ok::<
                Option<Seq<u8>>,
                OracleError,
            >(None)
            &&& after_first.subscribe_result(topic, second, second_auth, Payment::Settled) == Ok::<
                Option<Seq<u8>>,
                OracleError,
            >(None)
            &&& after_second.store.waiting(topic) == broker.store.waiting(topic).push(first).push(second)
            &&& broker.store.waiting(topic).len() == 0 ==> after_second.store.waiting(topic) == seq![
                first,
                second,
            ]
        }),
{
    let after_first = broker.subscribe_next(topic, first, first_auth, Payment::Settled);
    let after_second = after_first.subscribe_next(topic, second, second_auth, Payment::Settled);
    if broker.store.waiting(topic).len() == 0 {
        assert(after_second.store.waiting(topic) =~= seq![first, second]);
    }
}

/// Publishing hands out the requests that waited on the topic, oldest first,
/// and right after a successful publish no request waits on it.
pub proof fn publish_empties_the_queue(broker: BrokerView, topic: Seq<u8>, data: Seq<u8>, publisher: Seq<u8>)
    requires
        broker.access.is_allowed(Role::Publisher, publisher),
    ensures
        broker.publish_result(topic, publisher) == Ok::<Seq<EnvelopeView>, OracleError>(
            broker.store.waiting(topic),
        ),
        broker.publish_next(topic, data, publisher).store.waiting(topic) == Seq::<EnvelopeView>::empty(),
        !broker.publish_next(topic, data, publisher).store.pending.contains_key(topic),
        broker.publish_next(topic, data, publisher).store.cached(topic) == Some(data),
{
}

/// Publishing on one topic leaves the requests that wait on another where
/// they are.
pub proof fn publish_keeps_other_queues(
    broker: BrokerView,
    topic: Seq<u8>,
    other: Seq<u8>,
    data: Seq<u8>,
    publisher: Seq<u8>,
)
    requires
        other != topic,
    ensures
        broker.publish_next(topic, data, publisher).store.waiting(other) == broker.store.waiting(other),
{
}

/// A publisher that was whitelisted and then taken off the whitelist cannot
/// publish: the attempt fails with `WhitelistViolation` and changes nothing.
/// If the publisher was not listed before, the state is the one in which it
/// never was.
pub proof fn denied_publisher_cannot_publish(
    broker: BrokerView,
    publisher: Seq<u8>,
    allow_auth: Set<Seq<u8>>,
    deny_auth: Set<Seq<u8>>,
    topic: Seq<u8>,
    data: Seq<u8>,
)
    requires
        broker.access.admin_among(allow_auth),
        broker.access.admin_among(deny_auth),
    ensures
        ({
            let denied = broker.allow_publisher_next(publisher, allow_auth).deny_publisher_next(
                publisher,
                deny_auth,
            );
            &&& denied.publish_result(topic, publisher) == Err::<Seq<EnvelopeView>, OracleError>(
                OracleError::WhitelistViolation,
            )
            &&& denied.publish_next(topic, data, publisher) == denied
            &&& !broker.access.is_allowed(Role::Publisher, publisher) ==> denied == broker
        }),
{
    let denied = broker.allow_publisher_next(publisher, allow_auth).deny_publisher_next(
        publisher,
        deny_auth,
    );
    if !broker.access.is_allowed(Role::Publisher, publisher) {
        assert(denied.access.allowed =~= broker.access.allowed);
    }
}

/// After one attempt to store an admin, every further attempt fails with
/// `DoubleInitialization` and leaves the stored admin as it is.
pub proof fn admin_is_set_once(access: AccessView, first: Seq<u8>, second: Seq<u8>)
    ensures
        access.set_admin_next(first).admin is Some,
        access.set_admin_next(first).set_admin_result() == Err::<(), OracleError>(
            OracleError::DoubleInitialization,
        ),
        access.set_admin_next(first).set_admin_next(second) == access.set_admin_next(first),
        access.admin is None ==> access.set_admin_next(first).admin == Some(first),
{
}

/// A publish by a principal that is not whitelisted fails with
/// `WhitelistViolation` and leaves the cache and every queue as they were.
pub proof fn unlisted_publish_changes_nothing(
    broker: BrokerView,
    topic: Seq<u8>,
    data: Seq<u8>,
    publisher: Seq<u8>,
)
    requires
        !broker.access.is_allowed(Role::Publisher, publisher),
    ensures
        broker.publish_result(topic, publisher) == Err::<Seq<EnvelopeView>, OracleError>(
            OracleError::WhitelistViolation,
        ),
        broker.publish_next(topic, data, publisher) == broker,
{
}

/// A request that is turned away, or answered from the cache, changes
/// nothing: only an admitted request for a topic without cached value is
/// queued.
pub proof fn only_admitted_misses_are_queued(
    broker: BrokerView,
    topic: Seq<u8>,
    envelope: EnvelopeView,
    auth: Set<Seq<u8>>,
    payment: Payment,
)
    ensures
        broker.subscribe_result(topic, envelope, auth, payment) != Ok::<Option<Seq<u8>>, OracleError>(
            None,
        ) ==> broker.subscribe_next(topic, envelope, auth, payment) == broker,
        broker.subscribe_result(topic, envelope, auth, payment) == Ok::<Option<Seq<u8>>, OracleError>(
            None,
        ) ==> broker.subscribe_next(topic, envelope, auth, payment).store.waiting(topic)
            == broker.store.waiting(topic).push(envelope),
        broker.subscribe_result(topic, envelope, auth, payment) is Ok ==> auth.contains(
            envelope.subscriber,
        ) && payment == Payment::Settled,
{
}

/// No topic ever has a cached value and waiting requests at once: requests
/// and publishes keep it so.
pub proof fn cache_and_queue_exclude_each_other(
    broker: BrokerView,
    topic: Seq<u8>,
    data: Seq<u8>,
    publisher: Seq<u8>,
    envelope: EnvelopeView,
    auth: Set<Seq<u8>>,
    payment: Payment,
)
    requires
        broker.store.exclusive(),
    ensures
        BrokerView::empty().store.exclusive(),
        broker.subscribe_next(topic, envelope, auth, payment).store.exclusive(),
        broker.publish_next(topic, data, publisher).store.exclusive(),
{
}

/// Requests and publishes never touch the admin or the whitelist, and a
/// change of the whitelist that the admin has not authorized changes nothing.
pub proof fn whitelist_changes_are_admin_gated(
    broker: BrokerView,
    topic: Seq<u8>,
    data: Seq<u8>,
    principal: Seq<u8>,
    envelope: EnvelopeView,
    auth: Set<Seq<u8>>,
    payment: Payment,
)
    ensures
        broker.subscribe_next(topic, envelope, auth, payment).access == broker.access,
        broker.publish_next(topic, data, principal).access == broker.access,
        !broker.access.admin_among(auth) ==> broker.allow_publisher_next(principal, auth) == broker
            && broker.deny_publisher_next(principal, auth) == broker,
{
}

/// A request that was parked is delivered by the next publish on its topic:
/// it is among the envelopes handed out, behind those that waited before it,
/// and a subscriber that trusts the broker then holds the published data.
pub proof fn parked_request_is_delivered(
    broker: BrokerView,
    subscriber: SubscriberView,
    topic: Seq<u8>,
    data: Seq<u8>,
    publisher: Seq<u8>,
    envelope: EnvelopeView,
    request_auth: Set<Seq<u8>>,
    delivery_auth: Set<Seq<u8>>,
)
    requires
        broker.subscribe_result(topic, envelope, request_auth, Payment::Settled) == Ok::<
            Option<Seq<u8>>,
            OracleError,
        >(None),
        broker.access.is_allowed(Role::Publisher, publisher),
        subscriber.trusts(envelope),
        delivery_auth.contains(envelope.broker),
    ensures
        ({
            let parked = broker.subscribe_next(topic, envelope, request_auth, Payment::Settled);
            &&& parked.publish_result(topic, publisher) == Ok::<Seq<EnvelopeView>, OracleError>(
                broker.store.waiting(topic).push(envelope),
            )
            &&& subscriber.async_check(envelope, delivery_auth) is Ok
            &&& subscriber.async_receive_next(topic, envelope, data, delivery_auth).data_of(topic)
                == Some(data)
        }),
{
}

/// A request that the broker parks is answered by the next publish with
/// delivery: the envelope is delivered behind those that waited before it,
/// the subscriber then holds the published data, no request waits on the
/// topic any more, and a further request is answered at once from the cache
/// without being queued.
pub proof fn exchange_round_trip(
    broker: BrokerView,
    subscriber: SubscriberView,
    topic: Seq<u8>,
    data: Seq<u8>,
    publisher: Seq<u8>,
    envelope: EnvelopeView,
    request_auth: Set<Seq<u8>>,
    delivery_auth: Set<Seq<u8>>,
)
    requires
        request_result(subscriber, broker, topic, envelope, request_auth, Payment::Settled) == Ok::<
            Option<Seq<u8>>,
            OracleError,
        >(None),
        broker.access.is_allowed(Role::Publisher, publisher),
        delivery_check(subscriber, broker.store.waiting(topic).push(envelope), delivery_auth) is Ok,
    ensures
        ({
            let parked = request_next_broker(
                subscriber,
                broker,
                topic,
                envelope,
                request_auth,
                Payment::Settled,
            );
            let asked = request_next_subscriber(
                subscriber,
                broker,
                topic,
                envelope,
                request_auth,
                Payment::Settled,
            );
            let served = publish_next_broker(parked, asked, topic, data, publisher, delivery_auth);
            let informed = publish_next_subscriber(parked, asked, topic, data, publisher, delivery_auth);
            &&& asked == subscriber
            &&& parked.store.waiting(topic) == broker.store.waiting(topic).push(envelope)
            &&& publish_result(parked, asked, topic, publisher, delivery_auth) == Ok::<
                Seq<EnvelopeView>,
                OracleError,
            >(broker.store.waiting(topic).push(envelope))
            &&& informed.data_of(topic) == Some(data)
            &&& served.store.waiting(topic) == Seq::<EnvelopeView>::empty()
            &&& request_result(informed, served, topic, envelope, request_auth, Payment::Settled)
                == Ok::<Option<Seq<u8>>, OracleError>(Some(data))
            &&& request_next_broker(informed, served, topic, envelope, request_auth, Payment::Settled)
                == served
        }),
{
}

/// Data that a subscriber takes within the request's own call or in a later
/// one is what it returns for the topic afterwards; data for one topic leaves
/// the others alone, and data from an untrusted broker is not taken.
pub proof fn received_data_is_kept(
    subscriber: SubscriberView,
    topic: Seq<u8>,
    other: Seq<u8>,
    envelope: EnvelopeView,
    data: Seq<u8>,
    auth: Set<Seq<u8>>,
)
    ensures
        subscriber.sync_check(envelope) is Ok ==> subscriber.sync_receive_next(
            topic,
            envelope,
            data,
        ).data_of(topic) == Some(data),
        subscriber.async_check(envelope, auth) is Ok ==> subscriber.async_receive_next(
            topic,
            envelope,
            data,
            auth,
        ).data_of(topic) == Some(data),
        other != topic ==> subscriber.sync_receive_next(topic, envelope, data).data_of(other)
            == subscriber.data_of(other),
        other != topic ==> subscriber.async_receive_next(topic, envelope, data, auth).data_of(other)
            == subscriber.data_of(other),
        !subscriber.trusts(envelope) ==> subscriber.sync_receive_next(topic, envelope, data)
            == subscriber && subscriber.async_receive_next(topic, envelope, data, auth) == subscriber,
{
}

} // verus!
