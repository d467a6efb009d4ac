//! Capacity-limited containers for a span's attributes, events and links,
//! which count what they had to drop.
use vstd::prelude::*;

use crate::common::{attributes_eq, same_attributes, KeyValue, Value};

verus! {

/// What a bounded sequence holds after `v` is offered to it: below the capacity
/// `v` is appended; at the capacity the oldest entry is evicted to make room;
/// with a capacity of zero nothing is kept.
pub open spec fn bounded_push<T>(s: Seq<T>, cap: nat, v: T) -> Seq<T> {
    if cap == 0 {
        s
    } else if s.len() < cap {
        s.push(v)
    } else {
        s.drop_first().push(v)
    }
}

/// Whether offering one more entry to a sequence of length `len` drops an entry.
pub open spec fn push_drops(len: nat, cap: nat) -> bool {
    len >= cap
}

/// What a bounded sequence holds after each of `vs` is offered to it in turn.
pub open spec fn bounded_push_all<T>(s: Seq<T>, cap: nat, vs: Seq<T>) -> Seq<T>
    decreases vs.len(),
{
    if vs.len() == 0 {
        s
    } else {
        bounded_push_all(bounded_push(s, cap, vs[0]), cap, vs.drop_first())
    }
}

/// The number of entries lost when `k` entries are offered to a sequence of
/// length `len`: whatever goes beyond the capacity.
pub open spec fn overflow(len: nat, cap: nat, k: nat) -> nat {
    if len + k <= cap {
        0
    } else {
        (len + k - cap) as nat
    }
}

/// A `u32` counter raised by `k`, held at the largest `u32` instead of passing it.
pub open spec fn saturating_add(n: u32, k: nat) -> u32 {
    if n + k >= u32::MAX {
        u32::MAX
    } else {
        (n + k) as u32
    }
}

/// Offering one entry keeps a sequence within its capacity, and what is lost
/// from one entry and then from the rest is what is lost from all of them.
proof fn lemma_push_step<T>(s: Seq<T>, cap: nat, v: T, k: nat)
    requires
        s.len() <= cap,
    ensures
        bounded_push(s, cap, v).len() <= cap,
        bounded_push(s, cap, v).len() == if push_drops(s.len(), cap) { s.len() } else { s.len() + 1 },
        overflow(s.len(), cap, k + 1) == (if push_drops(s.len(), cap) { 1nat } else { 0nat })
            + overflow(bounded_push(s, cap, v).len(), cap, k),
{
}

/// Raising a saturating counter twice is raising it once by the sum.
proof fn lemma_saturating_add_twice(n: u32, a: nat, b: nat)
    ensures
        saturating_add(saturating_add(n, a), b) == saturating_add(n, a + b),
{
}

/// Offering entries to a bounded sequence never takes it past its capacity, and
/// its length grows by exactly the number of entries offered minus the overflow.
pub proof fn lemma_bounded_push_all_len<T>(s: Seq<T>, cap: nat, vs: Seq<T>)
    requires
        s.len() <= cap,
    ensures
        bounded_push_all(s, cap, vs).len() <= cap,
        bounded_push_all(s, cap, vs).len() + overflow(s.len(), cap, vs.len()) == s.len() + vs.len(),
    decreases vs.len(),
{
    if vs.len() > 0 {
        let t = bounded_push(s, cap, vs[0]);
        lemma_push_step(s, cap, vs[0], (vs.len() - 1) as nat);
        lemma_bounded_push_all_len(t, cap, vs.drop_first());
    }
}

/// An ordered sequence that holds at most `max_len` entries. Once it is full,
/// each new entry evicts the oldest one, and every lost entry is counted.
#[derive(Clone, Debug)]
pub struct EvictedQueue<T> {
    items: Vec<T>,
    max_len: u32,
    dropped_count: u32,
}

impl<T> View for EvictedQueue<T> {
    type V = Seq<T>;

    closed spec fn view(&self) -> Seq<T> {
        self.items@
    }
}

impl<T> EvictedQueue<T> {
    /// The capacity the queue was made with.
    pub closed spec fn capacity(&self) -> nat {
        self.max_len as nat
    }

    /// How many entries were lost to the capacity so far.
    pub closed spec fn dropped(&self) -> u32 {
        self.dropped_count
    }

    /// The queue never holds more than its capacity.
    pub closed spec fn wf(&self) -> bool {
        self.items@.len() <= self.max_len
    }

    /// An empty queue that keeps at most `max_len` entries.
    pub fn new(max_len: u32) -> (r: Self)
        ensures
            r.wf(),
            r@ == Seq::<T>::empty(),
            r.capacity() == max_len as nat,
            r.dropped() == 0,
    {
        EvictedQueue { items: Vec::new(), max_len, dropped_count: 0 }
    }

    /// Offers `value` to the queue; at capacity the oldest entry is evicted.
    pub fn push_back(&mut self, value: T)
        requires
            old(self).wf(),
        ensures
            final(self).wf(),
            final(self)@ == bounded_push(old(self)@, old(self).capacity(), value),
            final(self).capacity() == old(self).capacity(),
            final(self).dropped() == saturating_add(
                old(self).dropped(),
                if push_drops(old(self)@.len(), old(self).capacity()) { 1nat } else { 0nat },
            ),
    {
        if self.items.len() as u64 >= self.max_len as u64 {
            self.dropped_count = self.dropped_count.saturating_add(1);
            if self.max_len > 0 {
                self.items.remove(0);
                self.items.push(value);
            }
        } else {
            self.items.push(value);
        }
    }

    /// Offers each of `values` in turn, oldest first.
    pub fn extend(&mut self, values: Vec<T>)
        requires
            old(self).wf(),
        ensures
            final(self).wf(),
            final(self)@ == bounded_push_all(old(self)@, old(self).capacity(), values@),
            final(self).capacity() == old(self).capacity(),
            final(self).dropped() == saturating_add(
                old(self).dropped(),
                overflow(old(self)@.len(), old(self).capacity(), values@.len()),
            ),
    {
        let mut rest = values;
        while rest.len() > 0
            invariant
                self.wf(),
                self.capacity() == old(self).capacity(),
                bounded_push_all(self@, self.capacity(), rest@) == bounded_push_all(
                    old(self)@,
                    old(self).capacity(),
                    values@,
                ),
                saturating_add(self.dropped(), overflow(self@.len(), self.capacity(), rest@.len()))
                    == saturating_add(
                    old(self).dropped(),
                    overflow(old(self)@.len(), old(self).capacity(), values@.len()),
                ),
            decreases rest.len(),
        {
            let ghost before = self@;
            let ghost dropped_before = self.dropped();
            let ghost rest_before = rest@;
            let v = rest.remove(0);
            proof {
                assert(rest_before.drop_first() == rest@);
                lemma_push_step(before, self.capacity(), v, rest@.len());
            }
            self.push_back(v);
            proof {
                lemma_saturating_add_twice(
                    dropped_before,
                    if push_drops(before.len(), self.capacity()) { 1nat } else { 0nat },
                    overflow(self@.len(), self.capacity(), rest@.len()),
                );
            }
        }
    }

    /// The number of entries held.
    pub fn len(&self) -> (r: usize)
        ensures
            r == self@.len(),
    {
        self.items.len()
    }

    /// Whether the queue holds no entry.
    pub fn is_empty(&self) -> (r: bool)
        ensures
            r == (self@.len() == 0),
    {
        self.items.len() == 0
    }

    /// The capacity the queue was made with.
    pub fn max_len(&self) -> (r: u32)
        ensures
            r as nat == self.capacity(),
    {
        self.max_len
    }

    /// How many entries were lost to the capacity so far.
    pub fn dropped_count(&self) -> (r: u32)
        ensures
            r == self.dropped(),
    {
        self.dropped_count
    }

    /// The entries held, oldest first.
    pub fn as_slice(&self) -> (r: &[T])
        ensures
            r@ == self@,
    {
        self.items.as_slice()
    }
}

/// Whether no key occurs twice among the attributes.
pub open spec fn keys_unique(s: Seq<KeyValue>) -> bool {
    forall|i: int, j: int|
        0 <= i < s.len() && 0 <= j < s.len() && i != j ==> (#[trigger] s[i]).key@ != (#[trigger] s[j]).key@
}

/// Whether some attribute has the key `k`.
pub open spec fn has_key(s: Seq<KeyValue>, k: Seq<char>) -> bool {
    exists|i: int| 0 <= i < s.len() && (#[trigger] s[i]).key@ == k
}

/// What an attribute map holds after `kv` is set in it: a present key is
/// moved to the end with its new value; a new key is offered as to a bounded
/// sequence.
pub open spec fn map_insert(s: Seq<KeyValue>, cap: nat, kv: KeyValue) -> Seq<KeyValue> {
    if has_key(s, kv.key@) {
        let i = choose|i: int| 0 <= i < s.len() && (#[trigger] s[i]).key@ == kv.key@;
        s.remove(i).push(kv)
    } else {
        bounded_push(s, cap, kv)
    }
}

/// Whether setting `kv` drops an entry: only a new key, at capacity.
pub open spec fn map_insert_drops(s: Seq<KeyValue>, cap: nat, kv: KeyValue) -> bool {
    !has_key(s, kv.key@) && push_drops(s.len(), cap)
}

/// What an attribute map holds after each of `vs` is set in it in turn.
pub open spec fn map_insert_all(s: Seq<KeyValue>, cap: nat, vs: Seq<KeyValue>) -> Seq<KeyValue>
    decreases vs.len(),
{
    if vs.len() == 0 {
        s
    } else {
        map_insert_all(map_insert(s, cap, vs[0]), cap, vs.drop_first())
    }
}

/// How many entries are dropped while each of `vs` is set in turn.
pub open spec fn map_drops_all(s: Seq<KeyValue>, cap: nat, vs: Seq<KeyValue>) -> nat
    decreases vs.len(),
{
    if vs.len() == 0 {
        0
    } else {
        (if map_insert_drops(s, cap, vs[0]) { 1nat } else { 0nat }) + map_drops_all(
            map_insert(s, cap, vs[0]),
            cap,
            vs.drop_first(),
        )
    }
}

proof fn lemma_keys_unique_remove(s: Seq<KeyValue>, k: int)
    requires
        keys_unique(s),
        0 <= k < s.len(),
    ensures
        keys_unique(s.remove(k)),
{
    let t = s.remove(k);
    assert forall|a: int, b: int|
        0 <= a < t.len() && 0 <= b < t.len() && a != b implies (#[trigger] t[a]).key@ != (
        #[trigger] t[b]).key@ by {
        let oa = if a < k { a } else { a + 1 };
        let ob = if b < k { b } else { b + 1 };
        assert(t[a] == s[oa] && t[b] == s[ob]);
    }
}

/// Setting attributes whose keys are all new, and new to each other, behaves
/// as offering them to a bounded sequence: the map never holds more than its
/// capacity, and exactly the overflow is dropped.
pub proof fn lemma_new_keys_overflow(s: Seq<KeyValue>, cap: nat, vs: Seq<KeyValue>)
    requires
        s.len() <= cap,
        keys_unique(s + vs),
    ensures
        map_insert_all(s, cap, vs) == bounded_push_all(s, cap, vs),
        map_insert_all(s, cap, vs).len() <= cap,
        map_drops_all(s, cap, vs) == overflow(s.len(), cap, vs.len()),
    decreases vs.len(),
{
    lemma_bounded_push_all_len(s, cap, vs);
    if vs.len() > 0 {
        let v = vs[0];
        let rest = vs.drop_first();
        let all = s + vs;
        assert(!has_key(s, v.key@)) by {
            assert forall|i: int| 0 <= i < s.len() implies (#[trigger] s[i]).key@ != v.key@ by {
                assert(all[i] == s[i] && all[s.len() as int] == v);
            }
        }
        let t = bounded_push(s, cap, v);
        lemma_push_step(s, cap, v, (vs.len() - 1) as nat);
        if cap == 0 {
            assert(t + rest =~= all.remove(s.len() as int));
            lemma_keys_unique_remove(all, s.len() as int);
        } else if s.len() < cap {
            assert(t + rest =~= all);
        } else {
            assert(t + rest =~= all.remove(0));
            lemma_keys_unique_remove(all, 0);
        }
        lemma_new_keys_overflow(t, cap, rest);
    }
}

/// An ordered attribute map that holds at most `max_len` keys. Setting a key
/// that is present replaces its value and makes it the most recent entry; a new
/// key at capacity evicts the least recently set one, and the loss is counted.
#[derive(Clone, Debug)]
pub struct EvictedHashMap {
    entries: Vec<KeyValue>,
    max_len: u32,
    dropped_count: u32,
}

impl View for EvictedHashMap {
    type V = Seq<KeyValue>;

    /// The entries, least recently set first.
    closed spec fn view(&self) -> Seq<KeyValue> {
        self.entries@
    }
}

impl EvictedHashMap {
    /// The capacity the map was made with.
    pub closed spec fn capacity(&self) -> nat {
        self.max_len as nat
    }

    /// How many entries were lost to the capacity so far.
    pub closed spec fn dropped(&self) -> u32 {
        self.dropped_count
    }

    /// The map never holds more than its capacity, nor a key twice.
    pub closed spec fn wf(&self) -> bool {
        self.entries@.len() <= self.max_len && keys_unique(self.entries@)
    }

    /// An empty map that keeps at most `max_len` keys.
    pub fn new(max_len: u32) -> (r: Self)
        ensures
            r.wf(),
            r@ == Seq::<KeyValue>::empty(),
            r.capacity() == max_len as nat,
            r.dropped() == 0,
    {
        EvictedHashMap { entries: Vec::new(), max_len, dropped_count: 0 }
    }

    /// The position of the entry with key `key`, if there is one.
    fn position(&self, key: &String) -> (r: Option<usize>)
        requires
            self.wf(),
        ensures
            r is None <==> !has_key(self@, key@),
            r matches Some(i) ==> i < self@.len() && self@[i as int].key@ == key@,
    {
        let mut i: usize = 0;
        while i < self.entries.len()
            invariant
                0 <= i <= self.entries@.len(),
                forall|j: int| 0 <= j < i ==> (#[trigger] self.entries@[j]).key@ != key@,
            decreases self.entries@.len() - i,
        {
            if self.entries[i].key == *key {
                return Some(i);
            }
            i = i + 1;
        }
        None
    }

    /// Sets `item.key` to `item.value`.
    pub fn insert(&mut self, item: KeyValue)
        requires
            old(self).wf(),
        ensures
            final(self).wf(),
            final(self).capacity() == old(self).capacity(),
            final(self)@ == map_insert(old(self)@, old(self).capacity(), item),
            forall|i: int|
                0 <= i < old(self)@.len() && (#[trigger] old(self)@[i]).key@ == item.key@
                    ==> final(self)@ == old(self)@.remove(i).push(item),
            final(self).dropped() == saturating_add(
                old(self).dropped(),
                if map_insert_drops(old(self)@, old(self).capacity(), item) { 1nat } else { 0nat },
            ),
    {
        let ghost s = self.entries@;
        match self.position(&item.key) {
            Some(i) => {
                self.entries.remove(i);
                self.entries.push(item);
                proof {
                    let t = s.remove(i as int).push(item);
                    assert(t == self.entries@);
                    assert forall|a: int, b: int|
                        0 <= a < t.len() && 0 <= b < t.len() && a != b implies
                        (#[trigger] t[a]).key@ != (#[trigger] t[b]).key@ by {
                        let oa = if a < i { a } else if a < t.len() - 1 { a + 1 } else { i as int };
                        let ob = if b < i { b } else if b < t.len() - 1 { b + 1 } else { i as int };
                        assert(t[a] == s[oa] || (a == t.len() - 1 && t[a] == item));
                        assert(s[oa].key@ == t[a].key@);
                        assert(s[ob].key@ == t[b].key@);
                    }
                }
            },
            None => {
                if self.entries.len() as u64 >= self.max_len as u64 {
                    self.dropped_count = self.dropped_count.saturating_add(1);
                    if self.max_len > 0 {
                        self.entries.remove(0);
                        self.entries.push(item);
                    }
                } else {
                    self.entries.push(item);
                }
                proof {
                    let t = self.entries@;
                    assert forall|a: int, b: int|
                        0 <= a < t.len() && 0 <= b < t.len() && a != b implies
                        (#[trigger] t[a]).key@ != (#[trigger] t[b]).key@ by {
                        if t.len() > s.len() || self.max_len == 0 {
                            if a < t.len() - 1 && b < t.len() - 1 {
                                assert(t[a] == s[a] && t[b] == s[b]);
                            } else if a == t.len() - 1 && t.len() > s.len() {
                                assert(t[b] == s[b]);
                            } else if t.len() > s.len() {
                                assert(t[a] == s[a]);
                            }
                        } else {
                            if a < t.len() - 1 && b < t.len() - 1 {
                                assert(t[a] == s[a + 1] && t[b] == s[b + 1]);
                            } else if a == t.len() - 1 {
                                assert(t[b] == s[b + 1]);
                            } else {
                                assert(t[a] == s[a + 1]);
                            }
                        }
                    }
                }
            },
        }
    }

    /// The value set for `key`, if it is present.
    pub fn get(&self, key: &String) -> (r: Option<&Value>)
        requires
            self.wf(),
        ensures
            r is None <==> !has_key(self@, key@),
            forall|i: int|
                0 <= i < self@.len() && (#[trigger] self@[i]).key@ == key@ ==> r == Some(
                    &self@[i].value,
                ),
    {
        match self.position(key) {
            Some(i) => Some(&self.entries[i].value),
            None => None,
        }
    }

    /// The number of keys held.
    pub fn len(&self) -> (r: usize)
        ensures
            r == self@.len(),
    {
        self.entries.len()
    }

    /// Whether the map holds no key.
    pub fn is_empty(&self) -> (r: bool)
        ensures
            r == (self@.len() == 0),
    {
        self.entries.len() == 0
    }

    /// The capacity the map was made with.
    pub fn max_len(&self) -> (r: u32)
        ensures
            r as nat == self.capacity(),
    {
        self.max_len
    }

    /// How many entries were lost to the capacity so far.
    pub fn dropped_count(&self) -> (r: u32)
        ensures
            r == self.dropped(),
    {
        self.dropped_count
    }

    /// The entries, least recently set first.
    pub fn as_slice(&self) -> (r: &[KeyValue])
        ensures
            r@ == self@,
    {
        self.entries.as_slice()
    }
}

impl EvictedHashMap {
    /// Whether two maps hold the same attributes in the same order, with the
    /// same capacity and the same count of lost entries.
    pub open spec fn same(&self, o: &EvictedHashMap) -> bool {
        &&& same_attributes(self@, o@)
        &&& self.capacity() == o.capacity()
        &&& self.dropped() == o.dropped()
    }
}

impl PartialEq for EvictedHashMap {
    fn eq(&self, o: &EvictedHashMap) -> (r: bool) {
        attributes_eq(&self.entries, &o.entries) && self.max_len == o.max_len && self.dropped_count
            == o.dropped_count
    }
}

impl vstd::std_specs::cmp::PartialEqSpecImpl for EvictedHashMap {
    open spec fn obeys_eq_spec() -> bool {
        true
    }

    open spec fn eq_spec(&self, o: &EvictedHashMap) -> bool {
        self.same(o)
    }
}

} // verus!
