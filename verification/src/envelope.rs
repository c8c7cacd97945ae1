use vstd::prelude::*;
use vstd::slice::slice_to_vec;
use vstd::string::StringSliceAdditionalSpecFns;
use crate::bytes::{bytes_copy, bytes_eq};

verus! {

/// The identity of a principal: an account or a contract instance.
#[derive(Debug, PartialEq, Eq)]
pub struct Address {
    id: Vec<u8>,
}

impl View for Address {
    type V = Seq<u8>;

    closed spec fn view(&self) -> Seq<u8> {
        self.id@
    }
}

impl Address {
    /// The principal identified by `id`.
    pub fn new(id: Vec<u8>) -> (address: Address)
        ensures
            address@ == id@,
    {
        Address { id }
    }

    /// The principal whose identity is written as the text `strkey`.
    pub fn from_strkey(strkey: &str) -> (address: Address)
        ensures
            address@ == strkey.spec_bytes(),
    {
        Address { id: slice_to_vec(strkey.as_bytes()) }
    }

    /// The bytes that identify this principal.
    pub fn as_bytes(&self) -> (id: &Vec<u8>)
        ensures
            id@ == self@,
    {
        &self.id
    }

    /// Whether both addresses name the same principal.
    pub fn same(&self, other: &Address) -> (same: bool)
        ensures
            same == (self@ == other@),
    {
        bytes_eq(&self.id, &other.id)
    }
}

impl Clone for Address {
    fn clone(&self) -> (copy: Address)
        ensures
            copy@ == self@,
    {
        Address { id: bytes_copy(&self.id) }
    }
}

/// One pending request for data: who asked, which broker was asked, and
/// through which subscriber instance the answer is to be delivered.
#[derive(Debug, PartialEq, Eq)]
pub struct Envelope {
    pub subscriber: Address,
    pub broker: Address,
    pub router: Address,
}

/// The mathematical value of an [`Envelope`].
pub struct EnvelopeView {
    pub subscriber: Seq<u8>,
    pub broker: Seq<u8>,
    pub router: Seq<u8>,
}

impl View for Envelope {
    type V = EnvelopeView;

    open spec fn view(&self) -> EnvelopeView {
        EnvelopeView {
            subscriber: self.subscriber@,
            broker: self.broker@,
            router: self.router@,
        }
    }
}

impl Clone for Envelope {
    fn clone(&self) -> (copy: Envelope)
        ensures
            copy@ == self@,
    {
        Envelope {
            subscriber: self.subscriber.clone(),
            broker: self.broker.clone(),
            router: self.router.clone(),
        }
    }
}

/// The views of a sequence of envelopes, in the same order.
pub open spec fn envelope_views(envelopes: Seq<Envelope>) -> Seq<EnvelopeView> {
    envelopes.map_values(|e: Envelope| e@)
}

} // verus!
