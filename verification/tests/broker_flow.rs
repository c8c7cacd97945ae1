use oracle_pubsub::auth::Authorization;
use oracle_pubsub::broker::{DataKey, OracleBrokerContract, Payment, FEE_TOKEN, SUBSCRIPTION_FEE};
use oracle_pubsub::envelope::{Address, Envelope};
use oracle_pubsub::error::OracleError;

fn addr(name: &str) -> Address {
    Address::from_strkey(name)
}

fn envelope(subscriber: &str) -> Envelope {
    Envelope { subscriber: addr(subscriber), broker: addr("BROKER"), router: addr("ROUTER") }
}

fn signed(name: &str) -> Authorization {
    Authorization::from_signer(addr(name))
}

fn broker_with_publisher(publisher: &str) -> OracleBrokerContract {
    let mut broker = OracleBrokerContract::new();
    assert_eq!(broker.set_admin(addr("ADMIN")), Ok(()));
    assert_eq!(broker.allow_publisher(addr(publisher), &signed("ADMIN")), Ok(()));
    broker
}

fn topic() -> Vec<u8> {
    b"PRICE/XLM".to_vec()
}

#[test]
fn request_without_prior_publish_is_queued_and_then_delivered() {
    let mut broker = broker_with_publisher("P");
    let answer = broker.on_subscribe(&topic(), &envelope("S"), &signed("S"), Payment::Settled);
    assert_eq!(answer, Ok(None));
    assert_eq!(broker.store().pending(&topic()), vec![envelope("S")]);

    let drained = broker.on_publish(&topic(), &vec![0x12, 0x34], &addr("P"));
    assert_eq!(drained, Ok(vec![envelope("S")]));
    assert_eq!(broker.store().cache_get(&topic()), Some(vec![0x12, 0x34]));
    assert_eq!(broker.store().pending(&topic()), Vec::<Envelope>::new());
    assert!(!broker.store().has_pending(&topic()));
}

#[test]
fn request_after_publish_is_answered_from_cache() {
    let mut broker = broker_with_publisher("P");
    assert_eq!(broker.on_subscribe(&topic(), &envelope("S"), &signed("S"), Payment::Settled), Ok(None));
    assert_eq!(broker.on_publish(&topic(), &vec![0x12, 0x34], &addr("P")), Ok(vec![envelope("S")]));

    let answer = broker.on_subscribe(&topic(), &envelope("S2"), &signed("S2"), Payment::Settled);
    assert_eq!(answer, Ok(Some(vec![0x12, 0x34])));
    assert_eq!(broker.store().pending(&topic()), Vec::<Envelope>::new());
    assert_eq!(broker.store().cache_get(&topic()), Some(vec![0x12, 0x34]));
}

#[test]
fn publish_by_unlisted_principal_changes_nothing() {
    let mut broker = broker_with_publisher("P");
    assert_eq!(broker.on_subscribe(&topic(), &envelope("S"), &signed("S"), Payment::Settled), Ok(None));

    let drained = broker.on_publish(&topic(), &vec![0x12, 0x34], &addr("MALLORY"));
    assert_eq!(drained, Err(OracleError::WhitelistViolation));
    assert_eq!(broker.store().cache_get(&topic()), None);
    assert_eq!(broker.store().pending(&topic()), vec![envelope("S")]);
}

#[test]
fn publish_on_fresh_broker_is_a_whitelist_violation() {
    let mut broker = OracleBrokerContract::new();
    assert_eq!(broker.on_publish(&topic(), &vec![1], &addr("P")), Err(OracleError::WhitelistViolation));
    assert_eq!(broker.store().cache_get(&topic()), None);
}

#[test]
fn published_data_is_served_until_replaced() {
    let mut broker = broker_with_publisher("P");
    assert_eq!(broker.on_publish(&topic(), &vec![7, 7], &addr("P")), Ok(vec![]));
    for _ in 0..3 {
        let answer = broker.on_subscribe(&topic(), &envelope("S"), &signed("S"), Payment::Settled);
        assert_eq!(answer, Ok(Some(vec![7, 7])));
    }
    assert_eq!(broker.on_publish(&b"OTHER".to_vec(), &vec![9], &addr("P")), Ok(vec![]));
    let answer = broker.on_subscribe(&topic(), &envelope("S"), &signed("S"), Payment::Settled);
    assert_eq!(answer, Ok(Some(vec![7, 7])));
    assert_eq!(broker.on_publish(&topic(), &vec![8], &addr("P")), Ok(vec![]));
    let answer = broker.on_subscribe(&topic(), &envelope("S"), &signed("S"), Payment::Settled);
    assert_eq!(answer, Ok(Some(vec![8])));
}

#[test]
fn two_requests_queue_in_call_order() {
    let mut broker = broker_with_publisher("P");
    assert_eq!(broker.on_subscribe(&topic(), &envelope("S1"), &signed("S1"), Payment::Settled), Ok(None));
    assert_eq!(broker.on_subscribe(&topic(), &envelope("S2"), &signed("S2"), Payment::Settled), Ok(None));
    assert_eq!(broker.store().pending(&topic()), vec![envelope("S1"), envelope("S2")]);
    assert_eq!(
        broker.on_publish(&topic(), &vec![1], &addr("P")),
        Ok(vec![envelope("S1"), envelope("S2")])
    );
}

#[test]
fn queue_is_empty_right_after_publish() {
    let mut broker = broker_with_publisher("P");
    for name in ["A", "B", "C"] {
        assert_eq!(broker.on_subscribe(&topic(), &envelope(name), &signed(name), Payment::Settled), Ok(None));
    }
    assert!(broker.store().has_pending(&topic()));
    assert_eq!(
        broker.on_publish(&topic(), &vec![1], &addr("P")),
        Ok(vec![envelope("A"), envelope("B"), envelope("C")])
    );
    assert!(!broker.store().has_pending(&topic()));
    assert_eq!(broker.store().pending(&topic()), Vec::<Envelope>::new());
    assert_eq!(broker.on_publish(&topic(), &vec![2], &addr("P")), Ok(vec![]));
}

#[test]
fn publish_drains_only_its_own_topic() {
    let mut broker = broker_with_publisher("P");
    let other = b"PRICE/BTC".to_vec();
    assert_eq!(broker.on_subscribe(&topic(), &envelope("A"), &signed("A"), Payment::Settled), Ok(None));
    assert_eq!(broker.on_subscribe(&other, &envelope("B"), &signed("B"), Payment::Settled), Ok(None));
    assert_eq!(broker.on_subscribe(&topic(), &envelope("C"), &signed("C"), Payment::Settled), Ok(None));
    assert_eq!(broker.on_subscribe(&other, &envelope("D"), &signed("D"), Payment::Settled), Ok(None));

    assert_eq!(broker.on_publish(&topic(), &vec![1], &addr("P")), Ok(vec![envelope("A"), envelope("C")]));
    assert_eq!(broker.store().pending(&other), vec![envelope("B"), envelope("D")]);
    assert_eq!(broker.store().cache_get(&other), None);
    assert_eq!(broker.on_publish(&other, &vec![2], &addr("P")), Ok(vec![envelope("B"), envelope("D")]));
    assert_eq!(broker.store().cache_get(&topic()), Some(vec![1]));
    assert_eq!(broker.store().cache_get(&other), Some(vec![2]));
}

#[test]
fn denied_publisher_is_as_if_never_listed() {
    let mut broker = broker_with_publisher("P");
    assert_eq!(broker.allow_publisher(addr("Q"), &signed("ADMIN")), Ok(()));
    assert!(broker.has(&DataKey::PublisherWhitelist(addr("Q"))));
    assert_eq!(broker.deny_publisher(addr("Q"), &signed("ADMIN")), Ok(()));
    assert!(!broker.has(&DataKey::PublisherWhitelist(addr("Q"))));

    assert_eq!(broker.on_publish(&topic(), &vec![1], &addr("Q")), Err(OracleError::WhitelistViolation));
    assert_eq!(broker.on_publish(&topic(), &vec![1], &addr("NEVER")), Err(OracleError::WhitelistViolation));
    assert_eq!(broker.store().cache_get(&topic()), None);
    assert_eq!(broker.on_publish(&topic(), &vec![1], &addr("P")), Ok(vec![]));
}

#[test]
fn allowing_twice_then_denying_once_removes_the_publisher() {
    let mut broker = broker_with_publisher("P");
    assert_eq!(broker.allow_publisher(addr("P"), &signed("ADMIN")), Ok(()));
    assert_eq!(broker.deny_publisher(addr("P"), &signed("ADMIN")), Ok(()));
    assert_eq!(broker.on_publish(&topic(), &vec![1], &addr("P")), Err(OracleError::WhitelistViolation));
}

#[test]
fn denying_someone_not_listed_is_accepted() {
    let mut broker = broker_with_publisher("P");
    assert_eq!(broker.deny_publisher(addr("Q"), &signed("ADMIN")), Ok(()));
    assert!(broker.has(&DataKey::PublisherWhitelist(addr("P"))));
}

#[test]
fn second_set_admin_fails_and_keeps_the_first() {
    let mut broker = OracleBrokerContract::new();
    assert!(!broker.has(&DataKey::Admin));
    assert_eq!(broker.set_admin(addr("ADMIN")), Ok(()));
    assert!(broker.has(&DataKey::Admin));
    assert_eq!(broker.set_admin(addr("OTHER")), Err(OracleError::DoubleInitialization));
    assert_eq!(broker.set_admin(addr("ADMIN")), Err(OracleError::DoubleInitialization));
    assert_eq!(broker.access().admin(), Some(&addr("ADMIN")));
    assert_eq!(broker.allow_publisher(addr("P"), &signed("OTHER")), Err(OracleError::AuthorizationError));
    assert_eq!(broker.allow_publisher(addr("P"), &signed("ADMIN")), Ok(()));
}

#[test]
fn whitelist_changes_need_the_admin() {
    let mut broker = OracleBrokerContract::new();
    assert_eq!(broker.allow_publisher(addr("P"), &signed("P")), Err(OracleError::AuthorizationError));
    assert_eq!(broker.set_admin(addr("ADMIN")), Ok(()));
    assert_eq!(broker.allow_publisher(addr("P"), &Authorization::none()), Err(OracleError::AuthorizationError));
    assert_eq!(broker.allow_publisher(addr("P"), &signed("P")), Err(OracleError::AuthorizationError));
    assert!(!broker.has(&DataKey::PublisherWhitelist(addr("P"))));
    assert_eq!(broker.allow_publisher(addr("P"), &signed("ADMIN")), Ok(()));
    assert_eq!(broker.deny_publisher(addr("P"), &signed("P")), Err(OracleError::AuthorizationError));
    assert!(broker.has(&DataKey::PublisherWhitelist(addr("P"))));
}

#[test]
fn request_without_proof_of_intent_is_turned_away() {
    let mut broker = broker_with_publisher("P");
    let answer = broker.on_subscribe(&topic(), &envelope("S"), &signed("OTHER"), Payment::Settled);
    assert_eq!(answer, Err(OracleError::AuthorizationError));
    let answer = broker.on_subscribe(&topic(), &envelope("S"), &Authorization::none(), Payment::Settled);
    assert_eq!(answer, Err(OracleError::AuthorizationError));
    assert_eq!(broker.store().pending(&topic()), Vec::<Envelope>::new());
}

#[test]
fn request_without_fee_is_turned_away() {
    let mut broker = broker_with_publisher("P");
    let answer = broker.on_subscribe(&topic(), &envelope("S"), &signed("S"), Payment::InsufficientFunds);
    assert_eq!(answer, Err(OracleError::InsufficientFunds));
    let answer = broker.on_subscribe(&topic(), &envelope("S"), &signed("S"), Payment::Declined);
    assert_eq!(answer, Err(OracleError::PaymentFailure));
    assert_eq!(broker.store().pending(&topic()), Vec::<Envelope>::new());

    assert_eq!(broker.on_publish(&topic(), &vec![5], &addr("P")), Ok(vec![]));
    let answer = broker.on_subscribe(&topic(), &envelope("S"), &signed("S"), Payment::Declined);
    assert_eq!(answer, Err(OracleError::PaymentFailure));
}

#[test]
fn missing_proof_is_reported_before_missing_fee() {
    let mut broker = broker_with_publisher("P");
    let answer = broker.on_subscribe(&topic(), &envelope("S"), &Authorization::none(), Payment::Declined);
    assert_eq!(answer, Err(OracleError::AuthorizationError));
}

#[test]
fn fee_is_charged_to_the_requester() {
    let fee = OracleBrokerContract::subscription_fee(&envelope("S"));
    assert_eq!(fee.from, addr("S"));
    assert_eq!(fee.amount, 10_000_000);
    assert_eq!(fee.amount, SUBSCRIPTION_FEE);
    assert_eq!(fee.token, addr("CDLZFC3SYJYDZT7K67VZ75HPJVIEUVNIXF47ZG2FB2RMQQVU2HHGCYSC"));
    assert_eq!(fee.token.as_bytes().as_slice(), FEE_TOKEN.as_bytes());
}

#[test]
fn topic_key_is_held_while_cached_or_pending() {
    let mut broker = broker_with_publisher("P");
    assert!(!broker.has(&DataKey::Topic(topic())));
    assert_eq!(broker.on_subscribe(&topic(), &envelope("S"), &signed("S"), Payment::Settled), Ok(None));
    assert!(broker.has(&DataKey::Topic(topic())));
    assert!(!broker.store().cache_has(&topic()));
    assert_eq!(broker.on_publish(&topic(), &vec![1], &addr("P")), Ok(vec![envelope("S")]));
    assert!(broker.has(&DataKey::Topic(topic())));
    assert!(broker.store().cache_has(&topic()));
    assert!(!broker.has(&DataKey::Topic(b"OTHER".to_vec())));
}

#[test]
fn empty_topic_and_empty_data_are_ordinary_values() {
    let mut broker = broker_with_publisher("P");
    let empty: Vec<u8> = Vec::new();
    assert_eq!(broker.on_subscribe(&empty, &envelope("S"), &signed("S"), Payment::Settled), Ok(None));
    assert_eq!(broker.on_publish(&empty, &empty, &addr("P")), Ok(vec![envelope("S")]));
    assert_eq!(broker.on_subscribe(&empty, &envelope("S"), &signed("S"), Payment::Settled), Ok(Some(vec![])));
    assert_eq!(broker.store().cache_get(&vec![0]), None);
}
