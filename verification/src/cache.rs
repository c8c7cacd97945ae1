use vstd::prelude::*;
use crate::bytes::{bytes_copy, bytes_eq, Data, Topic};

verus! {

struct CacheSlot {
    topic: Topic,
    data: Data,
}

/// The value of the last slot for `topic`.
spec fn slot_value(slots: Seq<CacheSlot>, topic: Seq<u8>) -> Option<Seq<u8>>
    decreases slots.len(),
{
    if slots.len() == 0 {
        None
    } else if slots.last().topic@ == topic {
        Some(slots.last().data@)
    } else {
        slot_value(slots.drop_last(), topic)
    }
}

proof fn slot_value_push(slots: Seq<CacheSlot>, slot: CacheSlot, topic: Seq<u8>)
    ensures
        slot_value(slots.push(slot), topic) == if slot.topic@ == topic {
            Some(slot.data@)
        } else {
            slot_value(slots, topic)
        },
{
    assert(slots.push(slot).drop_last() =~= slots);
}

proof fn slot_value_update(slots: Seq<CacheSlot>, at: int, slot: CacheSlot, topic: Seq<u8>)
    requires
        0 <= at < slots.len(),
        slots[at].topic@ == slot.topic@,
        forall|j: int| at < j < slots.len() ==> slots[j].topic@ != slot.topic@,
    ensures
        slot_value(slots.update(at, slot), topic) == if slot.topic@ == topic {
            Some(slot.data@)
        } else {
            slot_value(slots, topic)
        },
    decreases slots.len(),
{
    let updated = slots.update(at, slot);
    if at == slots.len() - 1 {
        assert(updated.drop_last() =~= slots.drop_last());
    } else {
        assert(updated.drop_last() =~= slots.drop_last().update(at, slot));
        slot_value_update(slots.drop_last(), at, slot, topic);
    }
}

/// One value per topic: the one that was set last.
pub struct TopicCache {
    slots: Vec<CacheSlot>,
}

impl View for TopicCache {
    type V = Map<Seq<u8>, Seq<u8>>;

    closed spec fn view(&self) -> Map<Seq<u8>, Seq<u8>> {
        Map::new(
            |t: Seq<u8>| slot_value(self.slots@, t) is Some,
            |t: Seq<u8>| slot_value(self.slots@, t)->Some_0,
        )
    }
}

/// The value that `cache` holds for `topic`, if it holds one.
pub open spec fn value_at(cache: Map<Seq<u8>, Seq<u8>>, topic: Seq<u8>) -> Option<Seq<u8>> {
    if cache.contains_key(topic) {
        Some(cache[topic])
    } else {
        None
    }
}

impl TopicCache {
    /// A cache without values.
    pub fn new() -> (cache: TopicCache)
        ensures
            cache@ == Map::<Seq<u8>, Seq<u8>>::empty(),
    {
        let cache = TopicCache { slots: Vec::new() };
        proof {
            assert(cache@ =~= Map::empty());
        }
        cache
    }

    /// The value of `topic`, if it has one. The cache keeps it.
    pub fn get(&self, topic: &Topic) -> (data: Option<Data>)
        ensures
            match data {
                Some(d) => value_at(self@, topic@) == Some(d@),
                None => value_at(self@, topic@) is None,
            },
    {
        let mut i: usize = self.slots.len();
        proof {
            assert(self.slots@.take(i as int) =~= self.slots@);
        }
        while i > 0
            invariant
                i <= self.slots@.len(),
                slot_value(self.slots@, topic@) == slot_value(self.slots@.take(i as int), topic@),
            decreases i,
        {
            i -= 1;
            proof {
                assert(self.slots@.take(i + 1).drop_last() =~= self.slots@.take(i as int));
            }
            if bytes_eq(&self.slots[i].topic, topic) {
                return Some(bytes_copy(&self.slots[i].data));
            }
        }
        None
    }

    /// Whether `topic` has a value.
    pub fn has(&self, topic: &Topic) -> (present: bool)
        ensures
            present == self@.contains_key(topic@),
    {
        let mut i: usize = self.slots.len();
        proof {
            assert(self.slots@.take(i as int) =~= self.slots@);
        }
        while i > 0
            invariant
                i <= self.slots@.len(),
                slot_value(self.slots@, topic@) == slot_value(self.slots@.take(i as int), topic@),
            decreases i,
        {
            i -= 1;
            proof {
                assert(self.slots@.take(i + 1).drop_last() =~= self.slots@.take(i as int));
            }
            if bytes_eq(&self.slots[i].topic, topic) {
                return true;
            }
        }
        false
    }

    /// Makes `data` the value of `topic`, whatever it was before.
    pub fn set(&mut self, topic: Topic, data: Data)
        ensures
            final(self)@ == old(self)@.insert(topic@, data@),
    {
        let ghost before = self.slots@;
        let ghost key = topic@;
        let ghost value = data@;
        let mut i: usize = self.slots.len();
        let mut found: Option<usize> = None;
        while i > 0 && found.is_none()
            invariant
                self.slots@ == before,
                i <= before.len(),
                found is None ==> forall|j: int| i <= j < before.len() ==> before[j].topic@ != topic@,
                found is Some ==> found->Some_0 == i && i < before.len() && before[i as int].topic@
                    == topic@ && forall|j: int| i < j < before.len() ==> before[j].topic@ != topic@,
            decreases i,
        {
            i -= 1;
            if bytes_eq(&self.slots[i].topic, &topic) {
                found = Some(i);
            }
        }
        let slot = CacheSlot { topic, data };
        match found {
            Some(at) => {
                self.slots.set(at, slot);
                proof {
                    assert forall|t: Seq<u8>|
                        slot_value(self.slots@, t) == if t == key {
                            Some(value)
                        } else {
                            slot_value(before, t)
                        } by {
                        slot_value_update(before, at as int, slot, t);
                    }
                }
            },
            None => {
                self.slots.push(slot);
                proof {
                    assert forall|t: Seq<u8>|
                        slot_value(self.slots@, t) == if t == key {
                            Some(value)
                        } else {
                            slot_value(before, t)
                        } by {
                        slot_value_push(before, slot, t);
                    }
                }
            },
        }
        proof {
            assert(final(self)@ =~= old(self)@.insert(key, value));
        }
    }
}

} // verus!
