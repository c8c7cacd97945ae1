use vstd::prelude::*;
use vstd::string::StringSliceAdditionalSpecFns;
use crate::access::{AccessControl, AccessView, Role};
use crate::auth::Authorization;
use crate::bytes::{bytes_copy, Data, Topic};
use crate::envelope::{envelope_views, Address, Envelope, EnvelopeView};
use crate::error::OracleError;
use crate::store::{EnvelopeStore, StoreView};

verus! {

/// What the fee for one request amounts to, in the smallest unit of the token.
pub const SUBSCRIPTION_FEE: i128 = 10000000;

/// The token in which the fee is charged.
pub const FEE_TOKEN: &'static str = "CDLZFC3SYJYDZT7K67VZ75HPJVIEUVNIXF47ZG2FB2RMQQVU2HHGCYSC";

/// The logical keys under which a broker keeps its state.
#[derive(Debug, PartialEq, Eq)]
pub enum DataKey {
    /// The admin.
    Admin,
    /// What the broker holds for a topic: the cached value or the pending
    /// requests.
    Topic(Topic),
    /// The whitelist flag of a publisher.
    PublisherWhitelist(Address),
}

/// The mathematical value of a [`DataKey`].
pub enum DataKeyView {
    Admin,
    Topic(Seq<u8>),
    PublisherWhitelist(Seq<u8>),
}

impl View for DataKey {
    type V = DataKeyView;

    open spec fn view(&self) -> DataKeyView {
        match self {
            DataKey::Admin => DataKeyView::Admin,
            DataKey::Topic(topic) => DataKeyView::Topic(topic@),
            DataKey::PublisherWhitelist(publisher) => DataKeyView::PublisherWhitelist(publisher@),
        }
    }
}

/// How the attempt to charge the fee for a request ended.
#[derive(Clone, Copy, Debug, PartialEq, Eq, Structural)]
pub enum Payment {
    /// The fee has moved from the requester to the broker.
    Settled,
    /// The requester cannot cover the fee.
    InsufficientFunds,
    /// The transfer was declined for another reason.
    Declined,
}

/// The transfer that pays for one request. The receiver is the broker.
#[derive(Debug, PartialEq, Eq)]
pub struct FeeTransfer {
    pub token: Address,
    pub from: Address,
    pub amount: i128,
}

/// The mathematical value of an [`OracleBrokerContract`].
pub struct BrokerView {
    pub access: AccessView,
    pub store: StoreView,
}

impl BrokerView {
    /// A broker without admin, publishers, cached values or pending requests.
    pub open spec fn empty() -> BrokerView {
        BrokerView { access: AccessView::empty(), store: StoreView::empty() }
    }

    /// Whether the state holds something under `key`.
    pub open spec fn holds(self, key: DataKeyView) -> bool {
        match key {
            DataKeyView::Admin => self.access.admin is Some,
            DataKeyView::Topic(topic) => self.store.cache.contains_key(topic)
                || self.store.pending.contains_key(topic),
            DataKeyView::PublisherWhitelist(publisher) => self.access.is_allowed(
                Role::Publisher,
                publisher,
            ),
        }
    }

    /// The state after an attempt to store `admin`.
    pub open spec fn set_admin_next(self, admin: Seq<u8>) -> BrokerView {
        BrokerView { access: self.access.set_admin_next(admin), store: self.store }
    }

    /// The state after an attempt to whitelist `publisher`.
    pub open spec fn allow_publisher_next(self, publisher: Seq<u8>, auth: Set<Seq<u8>>) -> BrokerView {
        BrokerView { access: self.access.allow_next(Role::Publisher, publisher, auth), store: self.store }
    }

    /// The state after an attempt to take `publisher` off the whitelist.
    pub open spec fn deny_publisher_next(self, publisher: Seq<u8>, auth: Set<Seq<u8>>) -> BrokerView {
        BrokerView { access: self.access.deny_next(Role::Publisher, publisher, auth), store: self.store }
    }

    /// Why a request is turned away, if it is: the requester's proof of intent
    /// is absent, or the fee was not paid.
    pub open spec fn refusal(envelope: EnvelopeView, auth: Set<Seq<u8>>, payment: Payment) -> Option<
        OracleError,
    > {
        if !auth.contains(envelope.subscriber) {
            Some(OracleError::AuthorizationError)
        } else {
            match payment {
                Payment::Settled => None,
                Payment::InsufficientFunds => Some(OracleError::InsufficientFunds),
                Payment::Declined => Some(OracleError::PaymentFailure),
            }
        }
    }

    /// What a request for `topic` returns: the cached value if there is one,
    /// nothing if the request is parked, or the reason for turning it away.
    pub open spec fn subscribe_result(
        self,
        topic: Seq<u8>,
        envelope: EnvelopeView,
        auth: Set<Seq<u8>>,
        payment: Payment,
    ) -> Result<Option<Seq<u8>>, OracleError> {
        match Self::refusal(envelope, auth, payment) {
            Some(e) => Err(e),
            None => Ok(self.store.cached(topic)),
        }
    }

    /// The state after a request for `topic`: the envelope is queued if the
    /// request is admitted and nothing is cached; otherwise nothing changes.
    pub open spec fn subscribe_next(
        self,
        topic: Seq<u8>,
        envelope: EnvelopeView,
        auth: Set<Seq<u8>>,
        payment: Payment,
    ) -> BrokerView {
        if Self::refusal(envelope, auth, payment) is None && self.store.cached(topic) is None {
            BrokerView { access: self.access, store: self.store.enqueueing(topic, envelope) }
        } else {
            self
        }
    }

    /// What publishing on `topic` returns: the requests that waited on it,
    /// oldest first, or `WhitelistViolation` for a publisher not listed.
    pub open spec fn publish_result(self, topic: Seq<u8>, publisher: Seq<u8>) -> Result<
        Seq<EnvelopeView>,
        OracleError,
    > {
        if self.access.is_allowed(Role::Publisher, publisher) {
            Ok(self.store.waiting(topic))
        } else {
            Err(OracleError::WhitelistViolation)
        }
    }

    /// The state after publishing `data` on `topic`: for a listed publisher the
    /// value is cached and the topic's queue is empty; otherwise nothing
    /// changes.
    pub open spec fn publish_next(self, topic: Seq<u8>, data: Seq<u8>, publisher: Seq<u8>) -> BrokerView {
        if self.access.is_allowed(Role::Publisher, publisher) {
            BrokerView { access: self.access, store: self.store.caching(topic, data).draining(topic) }
        } else {
            self
        }
    }
}

/// The view of what a request returned.
pub open spec fn answer_view(answer: Result<Option<Data>, OracleError>) -> Result<
    Option<Seq<u8>>,
    OracleError,
> {
    match answer {
        Ok(Some(data)) => Ok(Some(data@)),
        Ok(None) => Ok(None),
        Err(e) => Err(e),
    }
}

/// The view of what publishing returned.
pub open spec fn drained_view(drained: Result<Vec<Envelope>, OracleError>) -> Result<
    Seq<EnvelopeView>,
    OracleError,
> {
    match drained {
        Ok(envelopes) => Ok(envelope_views(envelopes@)),
        Err(e) => Err(e),
    }
}

/// Succeeds if `publisher` is on the publisher whitelist, fails with
/// `WhitelistViolation` if not.
pub fn require_publisher_whitelisted(access: &AccessControl, publisher: &Address) -> (result: Result<
    (),
    OracleError,
>)
    ensures
        result == access@.whitelist_check(Role::Publisher, publisher@),
{
    if access.is_allowed(Role::Publisher, publisher) {
        Ok(())
    } else {
        Err(OracleError::WhitelistViolation)
    }
}

/// The broker: it caches the value published last on each topic, answers
/// requests from that cache, and parks the requests it cannot answer until
/// the next value is published.
pub struct OracleBrokerContract {
    access: AccessControl,
    store: EnvelopeStore,
}

impl View for OracleBrokerContract {
    type V = BrokerView;

    closed spec fn view(&self) -> BrokerView {
        BrokerView { access: self.access@, store: self.store@ }
    }
}

impl OracleBrokerContract {
    /// A broker without admin, publishers, cached values or pending requests.
    pub fn new() -> (broker: OracleBrokerContract)
        ensures
            broker@ == BrokerView::empty(),
    {
        OracleBrokerContract { access: AccessControl::new(), store: EnvelopeStore::new() }
    }

    /// A broker made of the given access state and store.
    pub fn from_parts(access: AccessControl, store: EnvelopeStore) -> (broker: OracleBrokerContract)
        ensures
            broker@ == (BrokerView { access: access@, store: store@ }),
    {
        OracleBrokerContract { access, store }
    }

    /// The admin and the publisher whitelist.
    pub fn access(&self) -> (access: &AccessControl)
        ensures
            access@ == self@.access,
    {
        &self.access
    }

    /// The cache and the pending requests.
    pub fn store(&self) -> (store: &EnvelopeStore)
        ensures
            store@ == self@.store,
    {
        &self.store
    }

    /// Whether the state holds something under `key`.
    pub fn has(&self, key: &DataKey) -> (present: bool)
        ensures
            present == self@.holds(key@),
    {
        match key {
            DataKey::Admin => self.access.admin().is_some(),
            DataKey::Topic(topic) => self.store.cache_has(topic) || self.store.has_pending(topic),
            DataKey::PublisherWhitelist(publisher) => self.access.is_allowed(Role::Publisher, publisher),
        }
    }

    /// Stores the admin. Fails with `DoubleInitialization`, changing nothing,
    /// if an admin has been stored before.
    pub fn set_admin(&mut self, admin: Address) -> (result: Result<(), OracleError>)
        ensures
            result == old(self)@.access.set_admin_result(),
            final(self)@ == old(self)@.set_admin_next(admin@),
    {
        self.access.set_admin(admin)
    }

    /// Puts `publisher` on the publisher whitelist. Fails with
    /// `AuthorizationError`, changing nothing, unless the call acts for the
    /// admin.
    pub fn allow_publisher(&mut self, publisher: Address, auth: &Authorization) -> (result: Result<
        (),
        OracleError,
    >)
        ensures
            result == old(self)@.access.admin_check(auth@),
            final(self)@ == old(self)@.allow_publisher_next(publisher@, auth@),
    {
        self.access.allow(Role::Publisher, publisher, auth)
    }

    /// Takes `publisher` off the publisher whitelist. Fails with
    /// `AuthorizationError`, changing nothing, unless the call acts for the
    /// admin.
    pub fn deny_publisher(&mut self, publisher: Address, auth: &Authorization) -> (result: Result<
        (),
        OracleError,
    >)
        ensures
            result == old(self)@.access.admin_check(auth@),
            final(self)@ == old(self)@.deny_publisher_next(publisher@, auth@),
    {
        self.access.deny(Role::Publisher, &publisher, auth)
    }

    /// The transfer that pays for the request in `envelope`: the fixed fee,
    /// from the requester to the broker.
    pub fn subscription_fee(envelope: &Envelope) -> (fee: FeeTransfer)
        ensures
            fee.token@ == FEE_TOKEN.spec_bytes(),
            fee.from@ == envelope.subscriber@,
            fee.amount == SUBSCRIPTION_FEE,
    {
        FeeTransfer {
            token: Address::from_strkey(FEE_TOKEN),
            from: envelope.subscriber.clone(),
            amount: SUBSCRIPTION_FEE,
        }
    }

    /// Handles a request for the data of `topic`.
    ///
    /// The request is turned away, and nothing changes, if the requester's
    /// proof of intent is absent (`AuthorizationError`) or the fee was not paid
    /// (`InsufficientFunds`, `PaymentFailure`). Otherwise the cached value is
    /// returned if the topic has one, and stays cached; if it has none, the
    /// envelope is put at the end of the topic's queue and nothing is returned.
    pub fn on_subscribe(
        &mut self,
        topic: &Topic,
        envelope: &Envelope,
        auth: &Authorization,
        payment: Payment,
    ) -> (answer: Result<Option<Data>, OracleError>)
        ensures
            answer_view(answer) == old(self)@.subscribe_result(topic@, envelope@, auth@, payment),
            final(self)@ == old(self)@.subscribe_next(topic@, envelope@, auth@, payment),
    {
        if !auth.authorizes(&envelope.subscriber) {
            return Err(OracleError::AuthorizationError);
        }
        match payment {
            Payment::Settled => {},
            Payment::InsufficientFunds => {
                return Err(OracleError::InsufficientFunds);
            },
            Payment::Declined => {
                return Err(OracleError::PaymentFailure);
            },
        }
        match self.store.cache_get(topic) {
            Some(data) => Ok(Some(data)),
            None => {
                self.store.enqueue(bytes_copy(topic), envelope.clone());
                Ok(None)
            },
        }
    }

    /// Publishes `data` on `topic`.
    ///
    /// For a publisher that is not whitelisted it fails with
    /// `WhitelistViolation` and changes nothing. Otherwise `data` becomes the
    /// cached value of the topic, and the requests that waited on it leave the
    /// queue together and are returned, oldest first, for delivery.
    pub fn on_publish(&mut self, topic: &Topic, data: &Data, publisher: &Address) -> (drained: Result<
        Vec<Envelope>,
        OracleError,
    >)
        ensures
            drained_view(drained) == old(self)@.publish_result(topic@, publisher@),
            final(self)@ == old(self)@.publish_next(topic@, data@, publisher@),
    {
        match require_publisher_whitelisted(&self.access, publisher) {
            Ok(()) => {},
            Err(e) => {
                return Err(e);
            },
        }
        self.store.cache_set(bytes_copy(topic), bytes_copy(data));
        let envelopes = self.store.drain(topic);
        Ok(envelopes)
    }
}

} // verus!
