use vstd::prelude::*;
use crate::bytes::{bytes_eq, Data, Topic};
use crate::cache::{value_at, TopicCache};
use crate::envelope::{envelope_views, Envelope, EnvelopeView};

verus! {

/// The mathematical value of an [`EnvelopeStore`]: the cached value of each
/// topic that has one, and the queue of each topic on which requests wait.
pub struct StoreView {
    pub cache: Map<Seq<u8>, Seq<u8>>,
    pub pending: Map<Seq<u8>, Seq<EnvelopeView>>,
}

impl StoreView {
    /// Nothing cached and nothing pending.
    pub open spec fn empty() -> StoreView {
        StoreView { cache: Map::empty(), pending: Map::empty() }
    }

    /// The cached value of `topic`, if it has one.
    pub open spec fn cached(self, topic: Seq<u8>) -> Option<Seq<u8>> {
        value_at(self.cache, topic)
    }

    /// The requests that wait on `topic`, oldest first.
    pub open spec fn waiting(self, topic: Seq<u8>) -> Seq<EnvelopeView> {
        if self.pending.contains_key(topic) {
            self.pending[topic]
        } else {
            Seq::empty()
        }
    }

    /// This store with `data` as the cached value of `topic`.
    pub open spec fn caching(self, topic: Seq<u8>, data: Seq<u8>) -> StoreView {
        StoreView { cache: self.cache.insert(topic, data), pending: self.pending }
    }

    /// This store with `envelope` behind the requests that wait on `topic`.
    pub open spec fn enqueueing(self, topic: Seq<u8>, envelope: EnvelopeView) -> StoreView {
        StoreView {
            cache: self.cache,
            pending: self.pending.insert(topic, self.waiting(topic).push(envelope)),
        }
    }

    /// This store with no request waiting on `topic`.
    pub open spec fn draining(self, topic: Seq<u8>) -> StoreView {
        StoreView { cache: self.cache, pending: self.pending.remove(topic) }
    }

    /// No topic has both a cached value and waiting requests.
    pub open spec fn exclusive(self) -> bool {
        forall|topic: Seq<u8>| self.cache.contains_key(topic) ==> !self.pending.contains_key(topic)
    }
}

struct PendingRequest {
    topic: Topic,
    envelope: Envelope,
}

/// The envelopes of the requests for `topic`, in the order of the queue.
spec fn requests_for(queue: Seq<PendingRequest>, topic: Seq<u8>) -> Seq<EnvelopeView>
    decreases queue.len(),
{
    if queue.len() == 0 {
        Seq::empty()
    } else if queue.last().topic@ == topic {
        requests_for(queue.drop_last(), topic).push(queue.last().envelope@)
    } else {
        requests_for(queue.drop_last(), topic)
    }
}

proof fn requests_for_push(queue: Seq<PendingRequest>, request: PendingRequest, topic: Seq<u8>)
    ensures
        requests_for(queue.push(request), topic) == if request.topic@ == topic {
            requests_for(queue, topic).push(request.envelope@)
        } else {
            requests_for(queue, topic)
        },
{
    assert(queue.push(request).drop_last() =~= queue);
}

proof fn requests_for_grows(queue: Seq<PendingRequest>, upto: int, topic: Seq<u8>)
    requires
        0 <= upto <= queue.len(),
    ensures
        requests_for(queue.take(upto), topic).len() <= requests_for(queue, topic).len(),
    decreases queue.len() - upto,
{
    if upto == queue.len() {
        assert(queue.take(upto) =~= queue);
    } else {
        assert(queue.take(upto + 1).drop_last() =~= queue.take(upto));
        requests_for_grows(queue, upto + 1, topic);
    }
}

/// The per-topic queues of pending requests and the per-topic cache of the
/// value published last.
pub struct EnvelopeStore {
    cache: TopicCache,
    queue: Vec<PendingRequest>,
}

impl View for EnvelopeStore {
    type V = StoreView;

    closed spec fn view(&self) -> StoreView {
        StoreView {
            cache: self.cache@,
            pending: Map::new(
                |t: Seq<u8>| requests_for(self.queue@, t).len() > 0,
                |t: Seq<u8>| requests_for(self.queue@, t),
            ),
        }
    }
}

impl EnvelopeStore {
    /// A store with nothing cached and nothing pending.
    pub fn new() -> (store: EnvelopeStore)
        ensures
            store@ == StoreView::empty(),
    {
        let store = EnvelopeStore { cache: TopicCache::new(), queue: Vec::new() };
        proof {
            assert(store@.pending =~= Map::empty());
        }
        store
    }

    /// The cached value of `topic`, if it has one. The cache keeps it.
    pub fn cache_get(&self, topic: &Topic) -> (data: Option<Data>)
        ensures
            match data {
                Some(d) => self@.cached(topic@) == Some(d@),
                None => self@.cached(topic@) is None,
            },
    {
        self.cache.get(topic)
    }

    /// Makes `data` the cached value of `topic`, whatever was cached before.
    pub fn cache_set(&mut self, topic: Topic, data: Data)
        ensures
            final(self)@ == old(self)@.caching(topic@, data@),
    {
        self.cache.set(topic, data);
    }

    /// Whether `topic` has a cached value.
    pub fn cache_has(&self, topic: &Topic) -> (present: bool)
        ensures
            present == self@.cache.contains_key(topic@),
    {
        self.cache.has(topic)
    }

    /// Whether a request waits on `topic`.
    pub fn has_pending(&self, topic: &Topic) -> (present: bool)
        ensures
            present == self@.pending.contains_key(topic@),
    {
        let mut i: usize = 0;
        while i < self.queue.len()
            invariant
                i <= self.queue@.len(),
                requests_for(self.queue@.take(i as int), topic@).len() == 0,
            decreases self.queue.len() - i,
        {
            proof {
                assert(self.queue@.take(i + 1).drop_last() =~= self.queue@.take(i as int));
                requests_for_grows(self.queue@, i + 1, topic@);
            }
            if bytes_eq(&self.queue[i].topic, topic) {
                return true;
            }
            i += 1;
        }
        proof {
            assert(self.queue@.take(i as int) =~= self.queue@);
        }
        false
    }

    /// Puts `envelope` behind the requests that wait on `topic`.
    pub fn enqueue(&mut self, topic: Topic, envelope: Envelope)
        ensures
            final(self)@ == old(self)@.enqueueing(topic@, envelope@),
    {
        let ghost before = self.queue@;
        let request = PendingRequest { topic, envelope };
        self.queue.push(request);
        proof {
            assert forall|t: Seq<u8>|
                requests_for(self.queue@, t) == if request.topic@ == t {
                    requests_for(before, t).push(request.envelope@)
                } else {
                    requests_for(before, t)
                } by {
                requests_for_push(before, request, t);
            }
            assert(old(self)@.waiting(request.topic@) =~= requests_for(before, request.topic@));
            assert(final(self)@.pending =~= old(self)@.pending.insert(
                request.topic@,
                old(self)@.waiting(request.topic@).push(request.envelope@),
            ));
        }
    }

    /// The requests that wait on `topic`, oldest first. They stay queued.
    pub fn pending(&self, topic: &Topic) -> (waiting: Vec<Envelope>)
        ensures
            envelope_views(waiting@) == self@.waiting(topic@),
    {
        let mut waiting: Vec<Envelope> = Vec::new();
        let mut i: usize = 0;
        while i < self.queue.len()
            invariant
                i <= self.queue@.len(),
                envelope_views(waiting@) == requests_for(self.queue@.take(i as int), topic@),
            decreases self.queue.len() - i,
        {
            proof {
                assert(self.queue@.take(i + 1).drop_last() =~= self.queue@.take(i as int));
            }
            if bytes_eq(&self.queue[i].topic, topic) {
                let ghost seen = waiting@;
                let envelope = self.queue[i].envelope.clone();
                waiting.push(envelope);
                proof {
                    assert(envelope_views(waiting@) =~= envelope_views(seen).push(envelope@));
                }
            }
            i += 1;
        }
        proof {
            assert(self.queue@.take(i as int) =~= self.queue@);
        }
        waiting
    }

    /// Takes all requests that wait on `topic` out of the store, in one step,
    /// and returns them oldest first.
    pub fn drain(&mut self, topic: &Topic) -> (drained: Vec<Envelope>)
        ensures
            envelope_views(drained@) == old(self)@.waiting(topic@),
            final(self)@ == old(self)@.draining(topic@),
    {
        let ghost before = self.queue@;
        let mut all: Vec<PendingRequest> = Vec::new();
        std::mem::swap(&mut self.queue, &mut all);
        let mut kept: Vec<PendingRequest> = Vec::new();
        let mut drained: Vec<Envelope> = Vec::new();
        for request in it: all.into_iter()
            invariant
                it.seq() == before,
                envelope_views(drained@) == requests_for(before.take(it.index() as int), topic@),
                requests_for(kept@, topic@) == Seq::<EnvelopeView>::empty(),
                forall|t: Seq<u8>|
                    t != topic@ ==> requests_for(kept@, t) == requests_for(
                        before.take(it.index() as int),
                        t,
                    ),
        {
            let ghost n = it.index() as int;
            let ghost kept_before = kept@;
            proof {
                assert(before.take(n + 1).drop_last() =~= before.take(n));
                assert(before.take(n + 1).last() == request);
            }
            if bytes_eq(&request.topic, topic) {
                let ghost seen = drained@;
                proof {
                    assert forall|t: Seq<u8>| t != topic@ implies requests_for(kept@, t)
                        == requests_for(before.take(n + 1), t) by {}
                }
                drained.push(request.envelope);
                proof {
                    assert(envelope_views(drained@) =~= envelope_views(seen).push(request.envelope@));
                }
            } else {
                kept.push(request);
                proof {
                    assert forall|t: Seq<u8>| requests_for(kept@, t) == if request.topic@ == t {
                        requests_for(kept_before, t).push(request.envelope@)
                    } else {
                        requests_for(kept_before, t)
                    } by {
                        requests_for_push(kept_before, request, t);
                    }
                }
            }
        }
        self.queue = kept;
        proof {
            assert(before.take(before.len() as int) =~= before);
            assert(final(self)@.pending =~= old(self)@.pending.remove(topic@));
        }
        drained
    }
}

} // verus!
