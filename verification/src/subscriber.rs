use vstd::prelude::*;
use crate::access::{AccessControl, AccessView, Role};
use crate::auth::Authorization;
use crate::bytes::{bytes_copy, Data, Topic};
use crate::cache::{value_at, TopicCache};
use crate::envelope::{Address, Envelope, EnvelopeView};
use crate::error::OracleError;

verus! {

/// The logical keys under which a subscriber keeps its state.
#[derive(Debug, PartialEq, Eq)]
pub enum DataKey {
    /// The admin.
    Admin,
    /// The value received last for a topic.
    Topic(Topic),
    /// The whitelist flag of a broker.
    BrokerWhitelist(Address),
}

/// The mathematical value of a [`DataKey`].
pub enum DataKeyView {
    Admin,
    Topic(Seq<u8>),
    BrokerWhitelist(Seq<u8>),
}

impl View for DataKey {
    type V = DataKeyView;

    open spec fn view(&self) -> DataKeyView {
        match self {
            DataKey::Admin => DataKeyView::Admin,
            DataKey::Topic(topic) => DataKeyView::Topic(topic@),
            DataKey::BrokerWhitelist(broker) => DataKeyView::BrokerWhitelist(broker@),
        }
    }
}

/// What reconciling keeps of an incoming value: the value itself, so that the
/// latest value replaces what was there.
pub open spec fn reconciled(incoming: Seq<u8>) -> Seq<u8> {
    incoming
}

/// The mathematical value of an [`OracleSubscriberContract`].
pub struct SubscriberView {
    pub access: AccessView,
    pub data: Map<Seq<u8>, Seq<u8>>,
}

impl SubscriberView {
    /// A subscriber without admin, brokers or data.
    pub open spec fn empty() -> SubscriberView {
        SubscriberView { access: AccessView::empty(), data: Map::empty() }
    }

    /// Whether the state holds something under `key`.
    pub open spec fn holds(self, key: DataKeyView) -> bool {
        match key {
            DataKeyView::Admin => self.access.admin is Some,
            DataKeyView::Topic(topic) => self.data.contains_key(topic),
            DataKeyView::BrokerWhitelist(broker) => self.access.is_allowed(Role::Broker, broker),
        }
    }

    /// The state after an attempt to store `admin`.
    pub open spec fn set_admin_next(self, admin: Seq<u8>) -> SubscriberView {
        SubscriberView { access: self.access.set_admin_next(admin), data: self.data }
    }

    /// The state after an attempt to whitelist `broker`.
    pub open spec fn allow_broker_next(self, broker: Seq<u8>, auth: Set<Seq<u8>>) -> SubscriberView {
        SubscriberView { access: self.access.allow_next(Role::Broker, broker, auth), data: self.data }
    }

    /// The state after an attempt to take `broker` off the whitelist.
    pub open spec fn deny_broker_next(self, broker: Seq<u8>, auth: Set<Seq<u8>>) -> SubscriberView {
        SubscriberView { access: self.access.deny_next(Role::Broker, broker, auth), data: self.data }
    }

    /// The value received last for `topic`, if any was.
    pub open spec fn data_of(self, topic: Seq<u8>) -> Option<Seq<u8>> {
        value_at(self.data, topic)
    }

    /// Whether the broker named in `envelope` is on the broker whitelist.
    pub open spec fn trusts(self, envelope: EnvelopeView) -> bool {
        self.access.is_allowed(Role::Broker, envelope.broker)
    }

    /// The guard on a request before it goes to the broker.
    pub open spec fn request_check(self, envelope: EnvelopeView, auth: Set<Seq<u8>>) -> Result<
        (),
        OracleError,
    > {
        if !self.trusts(envelope) {
            Err(OracleError::WhitelistViolation)
        } else if !auth.contains(envelope.subscriber) {
            Err(OracleError::AuthorizationError)
        } else {
            Ok(())
        }
    }

    /// The guard on data that arrives within the request's own call.
    pub open spec fn sync_check(self, envelope: EnvelopeView) -> Result<(), OracleError> {
        if !self.trusts(envelope) {
            Err(OracleError::WhitelistViolation)
        } else {
            Ok(())
        }
    }

    /// The guard on data that arrives in a later call: that call must come
    /// from the broker itself.
    pub open spec fn async_check(self, envelope: EnvelopeView, auth: Set<Seq<u8>>) -> Result<
        (),
        OracleError,
    > {
        if !self.trusts(envelope) {
            Err(OracleError::WhitelistViolation)
        } else if !auth.contains(envelope.broker) {
            Err(OracleError::AuthorizationError)
        } else {
            Ok(())
        }
    }

    /// This state with what reconciling keeps of `data` stored for `topic`.
    pub open spec fn receiving(self, topic: Seq<u8>, data: Seq<u8>) -> SubscriberView {
        SubscriberView { access: self.access, data: self.data.insert(topic, reconciled(data)) }
    }

    /// The state after data arrived within the request's own call.
    pub open spec fn sync_receive_next(self, topic: Seq<u8>, envelope: EnvelopeView, data: Seq<u8>) -> SubscriberView {
        if self.sync_check(envelope) is Ok {
            self.receiving(topic, data)
        } else {
            self
        }
    }

    /// The state after data arrived in a later call.
    pub open spec fn async_receive_next(
        self,
        topic: Seq<u8>,
        envelope: EnvelopeView,
        data: Seq<u8>,
        auth: Set<Seq<u8>>,
    ) -> SubscriberView {
        if self.async_check(envelope, auth) is Ok {
            self.receiving(topic, data)
        } else {
            self
        }
    }
}

/// Reconciles an incoming value with what is known: the latest value wins.
pub fn reconcile_data(data: Data) -> (kept: Data)
    ensures
        kept@ == reconciled(data@),
{
    data
}

/// Succeeds if `broker` is on the broker whitelist, fails with
/// `WhitelistViolation` if not.
pub fn require_broker_whitelisted(access: &AccessControl, broker: &Address) -> (result: Result<
    (),
    OracleError,
>)
    ensures
        result == access@.whitelist_check(Role::Broker, broker@),
{
    if access.is_allowed(Role::Broker, broker) {
        Ok(())
    } else {
        Err(OracleError::WhitelistViolation)
    }
}

/// The subscriber: it takes data only from the brokers on its whitelist and
/// keeps, per topic, the value it received last.
pub struct OracleSubscriberContract {
    access: AccessControl,
    data: TopicCache,
}

impl View for OracleSubscriberContract {
    type V = SubscriberView;

    closed spec fn view(&self) -> SubscriberView {
        SubscriberView { access: self.access@, data: self.data@ }
    }
}

impl OracleSubscriberContract {
    /// A subscriber without admin, brokers or data.
    pub fn new() -> (subscriber: OracleSubscriberContract)
        ensures
            subscriber@ == SubscriberView::empty(),
    {
        OracleSubscriberContract { access: AccessControl::new(), data: TopicCache::new() }
    }

    /// A subscriber made of the given access state and data.
    pub fn from_parts(access: AccessControl, data: TopicCache) -> (subscriber: OracleSubscriberContract)
        ensures
            subscriber@ == (SubscriberView { access: access@, data: data@ }),
    {
        OracleSubscriberContract { access, data }
    }

    /// The admin and the broker whitelist.
    pub fn access(&self) -> (access: &AccessControl)
        ensures
            access@ == self@.access,
    {
        &self.access
    }

    /// Whether the state holds something under `key`.
    pub fn has(&self, key: &DataKey) -> (present: bool)
        ensures
            present == self@.holds(key@),
    {
        match key {
            DataKey::Admin => self.access.admin().is_some(),
            DataKey::Topic(topic) => self.data.has(topic),
            DataKey::BrokerWhitelist(broker) => self.access.is_allowed(Role::Broker, broker),
        }
    }

    /// Stores the admin. Fails with `DoubleInitialization`, changing nothing,
    /// if an admin has been stored before.
    pub fn set_admin(&mut self, admin: Address) -> (result: Result<(), OracleError>)
        ensures
            result == old(self)@.access.set_admin_result(),
            final(self)@ == old(self)@.set_admin_next(admin@),
    {
        self.access.set_admin(admin)
    }

    /// Puts `broker` on the broker whitelist. Fails with
    /// `AuthorizationError`, changing nothing, unless the call acts for the
    /// admin.
    pub fn allow_broker(&mut self, broker: Address, auth: &Authorization) -> (result: Result<
        (),
        OracleError,
    >)
        ensures
            result == old(self)@.access.admin_check(auth@),
            final(self)@ == old(self)@.allow_broker_next(broker@, auth@),
    {
        self.access.allow(Role::Broker, broker, auth)
    }

    /// Takes `broker` off the broker whitelist. Fails with
    /// `AuthorizationError`, changing nothing, unless the call acts for the
    /// admin.
    pub fn deny_broker(&mut self, broker: Address, auth: &Authorization) -> (result: Result<
        (),
        OracleError,
    >)
        ensures
            result == old(self)@.access.admin_check(auth@),
            final(self)@ == old(self)@.deny_broker_next(broker@, auth@),
    {
        self.access.deny(Role::Broker, &broker, auth)
    }

    /// The value received last for `topic`; nothing if none was.
    pub fn get_data(&self, topic: &Topic) -> (data: Option<Data>)
        ensures
            match data {
                Some(d) => self@.data_of(topic@) == Some(d@),
                None => self@.data_of(topic@) is None,
            },
    {
        self.data.get(topic)
    }

    /// Guards a request before it goes to the broker: the broker must be on
    /// the whitelist (`WhitelistViolation`), and the requester's proof of
    /// intent must be present (`AuthorizationError`). It stores nothing.
    pub fn on_request(&self, topic: &Topic, envelope: &Envelope, auth: &Authorization) -> (result: Result<
        (),
        OracleError,
    >)
        ensures
            result == self@.request_check(envelope@, auth@),
    {
        match require_broker_whitelisted(&self.access, &envelope.broker) {
            Ok(()) => {},
            Err(e) => {
                return Err(e);
            },
        }
        if !auth.authorizes(&envelope.subscriber) {
            return Err(OracleError::AuthorizationError);
        }
        Ok(())
    }

    /// Guards a delivery that arrives in a later call: the broker must be on
    /// the whitelist (`WhitelistViolation`), and the call must come from the
    /// broker itself (`AuthorizationError`). It stores nothing.
    pub fn check_delivery(&self, envelope: &Envelope, auth: &Authorization) -> (result: Result<
        (),
        OracleError,
    >)
        ensures
            result == self@.async_check(envelope@, auth@),
    {
        match require_broker_whitelisted(&self.access, &envelope.broker) {
            Ok(()) => {},
            Err(e) => {
                return Err(e);
            },
        }
        if !auth.authorizes(&envelope.broker) {
            return Err(OracleError::AuthorizationError);
        }
        Ok(())
    }

    /// Takes data that the broker returned within the request's own call.
    /// Fails with `WhitelistViolation`, changing nothing, if the broker is not
    /// on the whitelist; otherwise reconciles the data and stores the result
    /// for `topic`.
    pub fn on_sync_receive(&mut self, topic: &Topic, envelope: &Envelope, data: &Data) -> (result: Result<
        (),
        OracleError,
    >)
        ensures
            result == old(self)@.sync_check(envelope@),
            final(self)@ == old(self)@.sync_receive_next(topic@, envelope@, data@),
    {
        match require_broker_whitelisted(&self.access, &envelope.broker) {
            Ok(()) => {},
            Err(e) => {
                return Err(e);
            },
        }
        self.data.set(bytes_copy(topic), reconcile_data(bytes_copy(data)));
        Ok(())
    }

    /// Takes data that the broker delivers after publishing. Fails, changing
    /// nothing, if the broker is not on the whitelist (`WhitelistViolation`) or
    /// the call does not come from the broker itself (`AuthorizationError`);
    /// otherwise reconciles the data and stores the result for `topic`.
    pub fn on_async_receive(
        &mut self,
        topic: &Topic,
        envelope: &Envelope,
        data: &Data,
        auth: &Authorization,
    ) -> (result: Result<(), OracleError>)
        ensures
            result == old(self)@.async_check(envelope@, auth@),
            final(self)@ == old(self)@.async_receive_next(topic@, envelope@, data@, auth@),
    {
        match self.check_delivery(envelope, auth) {
            Ok(()) => {},
            Err(e) => {
                return Err(e);
            },
        }
        self.data.set(bytes_copy(topic), reconcile_data(bytes_copy(data)));
        Ok(())
    }
}

} // verus!
