//! The two call chains of the protocol, run end to end between one broker
//! and one subscriber: a request, which the broker answers from its cache or
//! parks, and a publish, which delivers to every request that was parked.

use vstd::prelude::*;
use crate::auth::Authorization;
use crate::access::Role;
use crate::broker::{
    answer_view, drained_view, require_publisher_whitelisted, BrokerView, OracleBrokerContract, Payment,
};
use crate::bytes::{Data, Topic};
use crate::envelope::{envelope_views, Address, Envelope, EnvelopeView};
use crate::error::OracleError;
use crate::subscriber::{OracleSubscriberContract, SubscriberView};

verus! {

/// What a request returns: the refusal of the subscriber's guard, or else what
/// the broker answers.
pub open spec fn request_result(
    subscriber: SubscriberView,
    broker: BrokerView,
    topic: Seq<u8>,
    envelope: EnvelopeView,
    auth: Set<Seq<u8>>,
    payment: Payment,
) -> Result<Option<Seq<u8>>, OracleError> {
    match subscriber.request_check(envelope, auth) {
        Err(e) => Err(e),
        Ok(()) => broker.subscribe_result(topic, envelope, auth, payment),
    }
}

/// The broker after a request: as after the broker's own handling of it, if
/// the subscriber's guard lets the request through.
pub open spec fn request_next_broker(
    subscriber: SubscriberView,
    broker: BrokerView,
    topic: Seq<u8>,
    envelope: EnvelopeView,
    auth: Set<Seq<u8>>,
    payment: Payment,
) -> BrokerView {
    if subscriber.request_check(envelope, auth) is Ok {
        broker.subscribe_next(topic, envelope, auth, payment)
    } else {
        broker
    }
}

/// The subscriber after a request: it holds the answer if there was one.
pub open spec fn request_next_subscriber(
    subscriber: SubscriberView,
    broker: BrokerView,
    topic: Seq<u8>,
    envelope: EnvelopeView,
    auth: Set<Seq<u8>>,
    payment: Payment,
) -> SubscriberView {
    match request_result(subscriber, broker, topic, envelope, auth, payment) {
        Ok(Some(data)) => subscriber.receiving(topic, data),
        _ => subscriber,
    }
}

/// The first refusal among the deliveries of `envelopes`, in their order.
pub open spec fn delivery_check(subscriber: SubscriberView, envelopes: Seq<EnvelopeView>, auth: Set<Seq<u8>>) -> Result<
    (),
    OracleError,
>
    decreases envelopes.len(),
{
    if envelopes.len() == 0 {
        Ok(())
    } else {
        match subscriber.async_check(envelopes.first(), auth) {
            Err(e) => Err(e),
            Ok(()) => delivery_check(subscriber, envelopes.drop_first(), auth),
        }
    }
}

/// What a publish with delivery returns: the refusal of the publisher, the
/// first refusal of a delivery, or the envelopes that were delivered.
pub open spec fn publish_result(
    broker: BrokerView,
    subscriber: SubscriberView,
    topic: Seq<u8>,
    publisher: Seq<u8>,
    auth: Set<Seq<u8>>,
) -> Result<Seq<EnvelopeView>, OracleError> {
    match broker.publish_result(topic, publisher) {
        Err(e) => Err(e),
        Ok(waiting) => match delivery_check(subscriber, waiting, auth) {
            Err(e) => Err(e),
            Ok(()) => Ok(waiting),
        },
    }
}

/// The broker after a publish with delivery: as after its own handling of the
/// publish, if every delivery goes through.
pub open spec fn publish_next_broker(
    broker: BrokerView,
    subscriber: SubscriberView,
    topic: Seq<u8>,
    data: Seq<u8>,
    publisher: Seq<u8>,
    auth: Set<Seq<u8>>,
) -> BrokerView {
    if publish_result(broker, subscriber, topic, publisher, auth) is Ok {
        broker.publish_next(topic, data, publisher)
    } else {
        broker
    }
}

/// The subscriber after a publish with delivery: it holds the published data
/// if at least one request waited and every delivery went through.
pub open spec fn publish_next_subscriber(
    broker: BrokerView,
    subscriber: SubscriberView,
    topic: Seq<u8>,
    data: Seq<u8>,
    publisher: Seq<u8>,
    auth: Set<Seq<u8>>,
) -> SubscriberView {
    match publish_result(broker, subscriber, topic, publisher, auth) {
        Ok(delivered) => if delivered.len() > 0 {
            subscriber.receiving(topic, data)
        } else {
            subscriber
        },
        Err(_) => subscriber,
    }
}

proof fn delivery_check_covers_all(subscriber: SubscriberView, envelopes: Seq<EnvelopeView>, auth: Set<Seq<u8>>)
    requires
        delivery_check(subscriber, envelopes, auth) is Ok,
    ensures
        forall|i: int| 0 <= i < envelopes.len() ==> subscriber.async_check(#[trigger] envelopes[i], auth) is Ok,
    decreases envelopes.len(),
{
    if envelopes.len() > 0 {
        delivery_check_covers_all(subscriber, envelopes.drop_first(), auth);
        assert forall|i: int| 0 <= i < envelopes.len() implies subscriber.async_check(
            #[trigger] envelopes[i],
            auth,
        ) is Ok by {
            if i > 0 {
                assert(envelopes[i] == envelopes.drop_first()[i - 1]);
            }
        }
    }
}

/// Runs one request end to end and returns the data if the broker had it.
///
/// The subscriber's guard comes first, then the broker's handling of the
/// request; data that the broker returns is handed to the subscriber within
/// the same call. A refusal by either leaves both as they were.
pub fn request(
    subscriber: &mut OracleSubscriberContract,
    broker: &mut OracleBrokerContract,
    topic: &Topic,
    envelope: &Envelope,
    auth: &Authorization,
    payment: Payment,
) -> (answer: Result<Option<Data>, OracleError>)
    ensures
        answer_view(answer) == request_result(
            old(subscriber)@,
            old(broker)@,
            topic@,
            envelope@,
            auth@,
            payment,
        ),
        final(broker)@ == request_next_broker(
            old(subscriber)@,
            old(broker)@,
            topic@,
            envelope@,
            auth@,
            payment,
        ),
        final(subscriber)@ == request_next_subscriber(
            old(subscriber)@,
            old(broker)@,
            topic@,
            envelope@,
            auth@,
            payment,
        ),
{
    match subscriber.on_request(topic, envelope, auth) {
        Ok(()) => {},
        Err(e) => {
            return Err(e);
        },
    }
    match broker.on_subscribe(topic, envelope, auth, payment) {
        Ok(Some(data)) => {
            let taken = subscriber.on_sync_receive(topic, envelope, &data);
            assert(taken is Ok);
            Ok(Some(data))
        },
        Ok(None) => Ok(None),
        Err(e) => Err(e),
    }
}

/// Publishes `data` on `topic` and delivers it to the subscriber for every
/// request that waited, oldest first.
///
/// It fails, leaving broker and subscriber as they were, if the publisher is
/// not whitelisted (`WhitelistViolation`) or the subscriber would refuse one
/// of the deliveries (the first such refusal). Otherwise it returns the
/// envelopes that were delivered.
pub fn publish(
    broker: &mut OracleBrokerContract,
    subscriber: &mut OracleSubscriberContract,
    topic: &Topic,
    data: &Data,
    publisher: &Address,
    auth: &Authorization,
) -> (delivered: Result<Vec<Envelope>, OracleError>)
    ensures
        drained_view(delivered) == publish_result(
            old(broker)@,
            old(subscriber)@,
            topic@,
            publisher@,
            auth@,
        ),
        final(broker)@ == publish_next_broker(
            old(broker)@,
            old(subscriber)@,
            topic@,
            data@,
            publisher@,
            auth@,
        ),
        final(subscriber)@ == publish_next_subscriber(
            old(broker)@,
            old(subscriber)@,
            topic@,
            data@,
            publisher@,
            auth@,
        ),
{
    match require_publisher_whitelisted(broker.access(), publisher) {
        Ok(()) => {},
        Err(e) => {
            return Err(e);
        },
    }
    let waiting = broker.store().pending(topic);
    let ghost all = envelope_views(waiting@);
    let ghost before = subscriber@;
    let mut i: usize = 0;
    proof {
        assert(all.skip(0) =~= all);
    }
    while i < waiting.len()
        invariant
            i <= waiting@.len(),
            all == envelope_views(waiting@),
            all == old(broker)@.store.waiting(topic@),
            old(broker)@.access.is_allowed(Role::Publisher, publisher@),
            broker@ == old(broker)@,
            before == old(subscriber)@,
            subscriber@ == before,
            delivery_check(before, all, auth@) == delivery_check(before, all.skip(i as int), auth@),
        decreases waiting.len() - i,
    {
        proof {
            assert(all.skip(i as int).first() == waiting@[i as int]@);
            assert(all.skip(i as int).drop_first() =~= all.skip(i + 1));
        }
        match subscriber.check_delivery(&waiting[i], auth) {
            Ok(()) => {},
            Err(e) => {
                return Err(e);
            },
        }
        i += 1;
    }
    proof {
        assert(all.skip(i as int).len() == 0);
        delivery_check_covers_all(before, all, auth@);
    }
    let drained = match broker.on_publish(topic, data, publisher) {
        Ok(drained) => drained,
        Err(e) => {
            return Err(e);
        },
    };
    let mut j: usize = 0;
    while j < drained.len()
        invariant
            j <= drained@.len(),
            envelope_views(drained@) == all,
            all == old(broker)@.store.waiting(topic@),
            old(broker)@.access.is_allowed(Role::Publisher, publisher@),
            delivery_check(before, all, auth@) is Ok,
            broker@ == old(broker)@.publish_next(topic@, data@, publisher@),
            before == old(subscriber)@,
            forall|k: int| 0 <= k < all.len() ==> before.async_check(#[trigger] all[k], auth@) is Ok,
            subscriber@ == if j == 0 {
                before
            } else {
                before.receiving(topic@, data@)
            },
        decreases drained.len() - j,
    {
        proof {
            assert(all[j as int] == drained@[j as int]@);
            assert(before.receiving(topic@, data@).data =~= before.receiving(topic@, data@).receiving(
                topic@,
                data@,
            ).data);
        }
        let taken = subscriber.on_async_receive(topic, &drained[j], data, auth);
        assert(taken is Ok);
        j += 1;
    }
    Ok(drained)
}

} // verus!
