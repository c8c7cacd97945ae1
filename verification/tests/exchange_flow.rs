use oracle_pubsub::auth::Authorization;
use oracle_pubsub::broker::{OracleBrokerContract, Payment};
use oracle_pubsub::envelope::{Address, Envelope};
use oracle_pubsub::error::OracleError;
use oracle_pubsub::exchange::{publish, request};
use oracle_pubsub::subscriber::OracleSubscriberContract;

fn addr(name: &str) -> Address {
    Address::from_strkey(name)
}

fn envelope(subscriber: &str) -> Envelope {
    Envelope { subscriber: addr(subscriber), broker: addr("BROKER"), router: addr("ROUTER") }
}

fn signed(name: &str) -> Authorization {
    Authorization::from_signer(addr(name))
}

fn topic() -> Vec<u8> {
    b"PRICE/XLM".to_vec()
}

fn pair() -> (OracleBrokerContract, OracleSubscriberContract) {
    let mut broker = OracleBrokerContract::new();
    assert_eq!(broker.set_admin(addr("ADMIN")), Ok(()));
    assert_eq!(broker.allow_publisher(addr("P"), &signed("ADMIN")), Ok(()));
    let mut subscriber = OracleSubscriberContract::new();
    assert_eq!(subscriber.set_admin(addr("OWNER")), Ok(()));
    assert_eq!(subscriber.allow_broker(addr("BROKER"), &signed("OWNER")), Ok(()));
    (broker, subscriber)
}

#[test]
fn parked_request_is_delivered_by_publish() {
    let (mut broker, mut subscriber) = pair();
    let answer = request(&mut subscriber, &mut broker, &topic(), &envelope("S"), &signed("S"), Payment::Settled);
    assert_eq!(answer, Ok(None));
    assert_eq!(broker.store().pending(&topic()), vec![envelope("S")]);
    assert_eq!(subscriber.get_data(&topic()), None);

    let delivered = publish(&mut broker, &mut subscriber, &topic(), &vec![0x12, 0x34], &addr("P"), &signed("BROKER"));
    assert_eq!(delivered, Ok(vec![envelope("S")]));
    assert_eq!(broker.store().cache_get(&topic()), Some(vec![0x12, 0x34]));
    assert_eq!(broker.store().pending(&topic()), Vec::<Envelope>::new());
    assert_eq!(subscriber.get_data(&topic()), Some(vec![0x12, 0x34]));
}

#[test]
fn later_request_is_served_in_the_same_call() {
    let (mut broker, mut subscriber) = pair();
    assert_eq!(
        publish(&mut broker, &mut subscriber, &topic(), &vec![0x12, 0x34], &addr("P"), &signed("BROKER")),
        Ok(vec![])
    );
    assert_eq!(subscriber.get_data(&topic()), None);

    let answer = request(&mut subscriber, &mut broker, &topic(), &envelope("S2"), &signed("S2"), Payment::Settled);
    assert_eq!(answer, Ok(Some(vec![0x12, 0x34])));
    assert_eq!(subscriber.get_data(&topic()), Some(vec![0x12, 0x34]));
    assert_eq!(broker.store().pending(&topic()), Vec::<Envelope>::new());
}

#[test]
fn request_to_untrusted_broker_reaches_nobody() {
    let (mut broker, mut subscriber) = pair();
    let stray = Envelope { subscriber: addr("S"), broker: addr("ROGUE"), router: addr("ROUTER") };
    let answer = request(&mut subscriber, &mut broker, &topic(), &stray, &signed("S"), Payment::Settled);
    assert_eq!(answer, Err(OracleError::WhitelistViolation));
    assert_eq!(broker.store().pending(&topic()), Vec::<Envelope>::new());
}

#[test]
fn request_failures_leave_both_sides_unchanged() {
    let (mut broker, mut subscriber) = pair();
    let answer = request(&mut subscriber, &mut broker, &topic(), &envelope("S"), &signed("X"), Payment::Settled);
    assert_eq!(answer, Err(OracleError::AuthorizationError));
    let answer = request(&mut subscriber, &mut broker, &topic(), &envelope("S"), &signed("S"), Payment::InsufficientFunds);
    assert_eq!(answer, Err(OracleError::InsufficientFunds));
    let answer = request(&mut subscriber, &mut broker, &topic(), &envelope("S"), &signed("S"), Payment::Declined);
    assert_eq!(answer, Err(OracleError::PaymentFailure));
    assert_eq!(broker.store().pending(&topic()), Vec::<Envelope>::new());
    assert_eq!(subscriber.get_data(&topic()), None);
}

#[test]
fn publish_by_unlisted_principal_delivers_nothing() {
    let (mut broker, mut subscriber) = pair();
    assert_eq!(
        request(&mut subscriber, &mut broker, &topic(), &envelope("S"), &signed("S"), Payment::Settled),
        Ok(None)
    );
    let delivered = publish(&mut broker, &mut subscriber, &topic(), &vec![1], &addr("MALLORY"), &signed("BROKER"));
    assert_eq!(delivered, Err(OracleError::WhitelistViolation));
    assert_eq!(broker.store().cache_get(&topic()), None);
    assert_eq!(broker.store().pending(&topic()), vec![envelope("S")]);
    assert_eq!(subscriber.get_data(&topic()), None);
}

#[test]
fn refused_delivery_aborts_the_publish() {
    let (mut broker, mut subscriber) = pair();
    assert_eq!(
        request(&mut subscriber, &mut broker, &topic(), &envelope("S1"), &signed("S1"), Payment::Settled),
        Ok(None)
    );
    assert_eq!(
        request(&mut subscriber, &mut broker, &topic(), &envelope("S2"), &signed("S2"), Payment::Settled),
        Ok(None)
    );

    let delivered = publish(&mut broker, &mut subscriber, &topic(), &vec![1], &addr("P"), &signed("P"));
    assert_eq!(delivered, Err(OracleError::AuthorizationError));
    assert_eq!(broker.store().cache_get(&topic()), None);
    assert_eq!(broker.store().pending(&topic()), vec![envelope("S1"), envelope("S2")]);
    assert_eq!(subscriber.get_data(&topic()), None);

    assert_eq!(subscriber.deny_broker(addr("BROKER"), &signed("OWNER")), Ok(()));
    let delivered = publish(&mut broker, &mut subscriber, &topic(), &vec![1], &addr("P"), &signed("BROKER"));
    assert_eq!(delivered, Err(OracleError::WhitelistViolation));
    assert_eq!(broker.store().pending(&topic()), vec![envelope("S1"), envelope("S2")]);

    assert_eq!(subscriber.allow_broker(addr("BROKER"), &signed("OWNER")), Ok(()));
    let delivered = publish(&mut broker, &mut subscriber, &topic(), &vec![1], &addr("P"), &signed("BROKER"));
    assert_eq!(delivered, Ok(vec![envelope("S1"), envelope("S2")]));
    assert_eq!(subscriber.get_data(&topic()), Some(vec![1]));
    assert_eq!(broker.store().pending(&topic()), Vec::<Envelope>::new());
}
