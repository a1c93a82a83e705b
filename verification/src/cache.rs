//! The response cache: a mapping from normalized query keys to cached
//! response messages with a TTL-derived expiry time. A lookup never returns
//! an entry whose expiry has passed; expired entries are overwritten in place
//! by the next store for their key (there is no background sweep). A response
//! with no answer records, or whose minimum answer TTL is zero, is not cached.

use vstd::prelude::*;
use vstd::pervasive::VecAdditionalExecFns;

use crate::message::{
    compute_key, copy_bytes, key_eq, key_of, AnswerSpec, DnsMessage, MessageSpec, QueryKey,
    QuerySpec,
};

verus! {

/// Spec-level image of one cache entry: its key, the cached response, the
/// raw wire form of that response, and the expiry instant.
#[verifier::ext_equal]
pub struct SlotSpec {
    pub key: Seq<QuerySpec>,
    pub resp: MessageSpec,
    pub raw: Seq<u8>,
    pub expires: u64,
}

struct Slot {
    key: QueryKey,
    resp: DnsMessage,
    raw: Vec<u8>,
    expires: u64,
}

impl View for Slot {
    type V = SlotSpec;

    closed spec fn view(&self) -> SlotSpec {
        SlotSpec { key: self.key@, resp: self.resp@, raw: self.raw@, expires: self.expires }
    }
}

/// A cloned cache hit: the cached response message together with the raw
/// bytes it was decoded from, ready to be sent back as the reply.
pub struct CachedResponse {
    pub message: DnsMessage,
    pub raw: Vec<u8>,
}

/// The minimum TTL across a sequence of answer records (zero if empty).
pub open spec fn min_ttl(answers: Seq<AnswerSpec>) -> u32
    decreases answers.len(),
{
    if answers.len() == 0 {
        0
    } else if answers.len() == 1 {
        answers[0].ttl
    } else {
        let rest = min_ttl(answers.drop_last());
        if answers.last().ttl <= rest {
            answers.last().ttl
        } else {
            rest
        }
    }
}

/// Whether a response message is stored at all: it must carry a query
/// section to derive a key from, at least one answer record, and a positive
/// minimum TTL. A zero TTL means "do not cache", and an answerless response
/// is deliberately not cached (the fixed negative-caching policy).
pub open spec fn cacheable(m: MessageSpec) -> bool {
    m.queries.len() > 0 && m.answers.len() > 0 && min_ttl(m.answers) > 0
}

/// The expiry instant of a response stored at `now`: `now` plus the minimum
/// answer TTL, saturating at the largest representable instant.
pub open spec fn expiry_of(now: u64, m: MessageSpec) -> u64 {
    if now + min_ttl(m.answers) > u64::MAX {
        u64::MAX
    } else {
        (now + min_ttl(m.answers)) as u64
    }
}

/// What a stored entry yields at time `now`: its response and raw bytes
/// while `now` is before the expiry, nothing from the expiry on.
pub open spec fn slot_live(s: SlotSpec, now: u64) -> Option<(MessageSpec, Seq<u8>)> {
    if now < s.expires {
        Some((s.resp, s.raw))
    } else {
        None
    }
}

/// The result of a cache lookup: what the first entry bearing the key yields
/// at `now`, or nothing if no entry bears the key.
pub open spec fn spec_lookup(s: Seq<SlotSpec>, k: Seq<QuerySpec>, now: u64) -> Option<
    (MessageSpec, Seq<u8>),
>
    decreases s.len(),
{
    if s.len() == 0 {
        None
    } else if s[0].key == k {
        slot_live(s[0], now)
    } else {
        spec_lookup(s.drop_first(), k, now)
    }
}

/// Storing an entry: the first entry bearing the same key is overwritten,
/// else the entry is appended.
pub open spec fn spec_insert(s: Seq<SlotSpec>, slot: SlotSpec) -> Seq<SlotSpec>
    decreases s.len(),
{
    if s.len() == 0 {
        seq![slot]
    } else if s[0].key == slot.key {
        seq![slot] + s.drop_first()
    } else {
        seq![s[0]] + spec_insert(s.drop_first(), slot)
    }
}

/// The effect of `Cache::put`: a cacheable response is stored under its own
/// key with its TTL-derived expiry; any other response leaves the cache
/// unchanged.
pub open spec fn spec_put(s: Seq<SlotSpec>, m: MessageSpec, raw: Seq<u8>, now: u64) -> Seq<
    SlotSpec,
> {
    if cacheable(m) {
        spec_insert(
            s,
            SlotSpec { key: key_of(m), resp: m, raw, expires: expiry_of(now, m) },
        )
    } else {
        s
    }
}

/// The shared response cache of the upstream client.
pub struct Cache {
    slots: Vec<Slot>,
}

impl View for Cache {
    type V = Seq<SlotSpec>;

    closed spec fn view(&self) -> Seq<SlotSpec> {
        self.slots@.map_values(|s: Slot| s@)
    }
}

impl Cache {
    /// Every entry is stored under the key derived from its own response, so
    /// a hit always returns a response that matches the lookup key.
    pub closed spec fn wf(&self) -> bool {
        forall|i: int|
            0 <= i < self@.len() ==> (#[trigger] self@[i]).key == key_of(self@[i].resp)
    }

    /// An empty cache.
    pub fn new() -> (r: Cache)
        ensures
            r.wf(),
            r@ == Seq::<SlotSpec>::empty(),
    {
        let r = Cache { slots: Vec::new() };
        proof {
            assert(r@ =~= Seq::<SlotSpec>::empty());
        }
        r
    }

    /// Returns a clone of the live entry for the query's normalized key, or
    /// nothing. A miss has no side effect. A returned response always bears
    /// a query section with the same key as the request's.
    pub fn get(&self, query: &DnsMessage, now: u64) -> (r: Option<CachedResponse>)
        requires
            self.wf(),
        ensures
            match r {
                Some(cr) => spec_lookup(self@, key_of(query@), now) == Some(
                    (cr.message@, cr.raw@),
                ) && key_of(cr.message@) == key_of(query@),
                None => spec_lookup(self@, key_of(query@), now) is None,
            },
    {
        let k = compute_key(query);
        let n = self.slots.len();
        let mut i: usize = 0;
        while i < n
            invariant
                self.wf(),
                n == self.slots.len(),
                i <= n,
                k@ == key_of(query@),
                forall|j: int| 0 <= j < i ==> (#[trigger] self@[j]).key != k@,
            decreases n - i,
        {
            let slot = &self.slots[i];
            proof {
                assert(self@[i as int] == self.slots@[i as int]@);
            }
            if key_eq(&slot.key, &k) {
                proof {
                    lemma_lookup_match(self@, k@, now, i as int);
                }
                if now < slot.expires {
                    let cr = CachedResponse {
                        message: slot.resp.clone(),
                        raw: copy_bytes(&slot.raw),
                    };
                    return Some(cr);
                } else {
                    return None;
                }
            }
            i = i + 1;
        }
        proof {
            lemma_lookup_none(self@, k@, now);
        }
        None
    }

    /// Stores a response under the key derived from its own query section,
    /// expiring the minimum answer TTL after `now`; overwrites the entry for
    /// that key if one exists. A response that is not cacheable (no query
    /// section, no answers, or zero minimum TTL) leaves the cache unchanged.
    pub fn put(&mut self, message: &DnsMessage, raw: &Vec<u8>, now: u64)
        requires
            old(self).wf(),
        ensures
            final(self).wf(),
            final(self)@ == spec_put(old(self)@, message@, raw@, now),
    {
        if message.queries.len() == 0 {
            return ;
        }
        if message.answers.len() == 0 {
            return ;
        }
        let ttl = min_answer_ttl(message);
        if ttl == 0 {
            return ;
        }
        let expires: u64 = if now > u64::MAX - (ttl as u64) {
            u64::MAX
        } else {
            now + (ttl as u64)
        };
        let key = compute_key(message);
        let slot = Slot { key, resp: message.clone(), raw: copy_bytes(raw), expires };
        let ghost target = slot@;
        proof {
            assert(target == SlotSpec {
                key: key_of(message@),
                resp: message@,
                raw: raw@,
                expires: expiry_of(now, message@),
            });
        }
        let n = self.slots.len();
        let mut i: usize = 0;
        while i < n
            invariant
                self == old(self),
                self.wf(),
                n == self.slots.len(),
                i <= n,
                slot@ == target,
                cacheable(message@),
                target == (SlotSpec {
                    key: key_of(message@),
                    resp: message@,
                    raw: raw@,
                    expires: expiry_of(now, message@),
                }),
                forall|j: int| 0 <= j < i ==> (#[trigger] self@[j]).key != target.key,
            decreases n - i,
        {
            proof {
                assert(self@[i as int] == self.slots@[i as int]@);
            }
            if key_eq(&self.slots[i].key, &slot.key) {
                proof {
                    lemma_insert_at(self@, target, i as int);
                }
                self.slots.set(i, slot);
                proof {
                    assert(self@ =~= old(self)@.update(i as int, target));
                    assert(cacheable(message@));
                    assert(self@ == spec_insert(old(self)@, target));
                    assert(self@ == spec_put(old(self)@, message@, raw@, now));
                    assert forall|j: int|
                        0 <= j < self@.len() implies (#[trigger] self@[j]).key == key_of(
                        self@[j].resp,
                    ) by {
                        if j != i {
                            assert(old(self)@[j].key == key_of(old(self)@[j].resp));
                        }
                    }
                }
                return ;
            }
            i = i + 1;
        }
        proof {
            lemma_insert_push(self@, target);
        }
        self.slots.push(slot);
        proof {
            assert(self@ =~= old(self)@.push(target));
            assert(cacheable(message@));
            assert(self@ == spec_insert(old(self)@, target));
            assert(self@ == spec_put(old(self)@, message@, raw@, now));
            assert forall|j: int|
                0 <= j < self@.len() implies (#[trigger] self@[j]).key == key_of(
                self@[j].resp,
            ) by {
                if j != old(self)@.len() {
                    assert(old(self)@[j].key == key_of(old(self)@[j].resp));
                }
            }
        }
    }
}

/// The minimum TTL across the answer records of a message.
pub fn min_answer_ttl(m: &DnsMessage) -> (r: u32)
    requires
        m@.answers.len() > 0,
    ensures
        r == min_ttl(m@.answers),
{
    let mut acc: u32 = m.answers[0].ttl;
    proof {
        assert(m@.answers.subrange(0, 1) =~= seq![m@.answers[0]]);
        assert(min_ttl(m@.answers.subrange(0, 1)) == m@.answers[0].ttl);
    }
    let mut i: usize = 1;
    while i < m.answers.len()
        invariant
            1 <= i <= m.answers.len(),
            m@.answers.len() == m.answers.len(),
            acc == min_ttl(m@.answers.subrange(0, i as int)),
        decreases m.answers.len() - i,
    {
        let t = m.answers[i].ttl;
        proof {
            let pre = m@.answers.subrange(0, i as int);
            let ext = m@.answers.subrange(0, i + 1);
            assert(ext.drop_last() =~= pre);
            assert(ext.last() == m@.answers[i as int]);
        }
        if t < acc {
            acc = t;
        }
        i = i + 1;
    }
    proof {
        assert(m@.answers.subrange(0, m@.answers.len() as int) =~= m@.answers);
    }
    acc
}

proof fn lemma_lookup_match(s: Seq<SlotSpec>, k: Seq<QuerySpec>, now: u64, i: int)
    requires
        0 <= i < s.len(),
        s[i].key == k,
        forall|j: int| 0 <= j < i ==> (#[trigger] s[j]).key != k,
    ensures
        spec_lookup(s, k, now) == slot_live(s[i], now),
    decreases i,
{
    if i == 0 {
    } else {
        assert(s[0].key != k);
        assert(s.drop_first()[i - 1] == s[i]);
        assert(forall|j: int| 0 <= j < i - 1 ==> (#[trigger] s.drop_first()[j]) == s[j + 1]);
        lemma_lookup_match(s.drop_first(), k, now, i - 1);
    }
}

proof fn lemma_lookup_none(s: Seq<SlotSpec>, k: Seq<QuerySpec>, now: u64)
    requires
        forall|j: int| 0 <= j < s.len() ==> (#[trigger] s[j]).key != k,
    ensures
        spec_lookup(s, k, now) is None,
    decreases s.len(),
{
    if s.len() == 0 {
    } else {
        assert(forall|j: int|
            0 <= j < s.len() - 1 ==> (#[trigger] s.drop_first()[j]) == s[j + 1]);
        lemma_lookup_none(s.drop_first(), k, now);
    }
}

proof fn lemma_insert_at(s: Seq<SlotSpec>, slot: SlotSpec, i: int)
    requires
        0 <= i < s.len(),
        s[i].key == slot.key,
        forall|j: int| 0 <= j < i ==> (#[trigger] s[j]).key != slot.key,
    ensures
        spec_insert(s, slot) == s.update(i, slot),
    decreases i,
{
    if i == 0 {
        assert(seq![slot] + s.drop_first() =~= s.update(0, slot));
    } else {
        assert(s[0].key != slot.key);
        assert(s.drop_first()[i - 1] == s[i]);
        assert(forall|j: int| 0 <= j < i - 1 ==> (#[trigger] s.drop_first()[j]) == s[j + 1]);
        lemma_insert_at(s.drop_first(), slot, i - 1);
        assert(seq![s[0]] + s.drop_first().update(i - 1, slot) =~= s.update(i, slot));
    }
}

proof fn lemma_insert_push(s: Seq<SlotSpec>, slot: SlotSpec)
    requires
        forall|j: int| 0 <= j < s.len() ==> (#[trigger] s[j]).key != slot.key,
    ensures
        spec_insert(s, slot) == s.push(slot),
    decreases s.len(),
{
    if s.len() == 0 {
        assert(seq![slot] =~= s.push(slot));
    } else {
        assert(forall|j: int|
            0 <= j < s.len() - 1 ==> (#[trigger] s.drop_first()[j]) == s[j + 1]);
        lemma_insert_push(s.drop_first(), slot);
        assert(seq![s[0]] + s.drop_first().push(slot) =~= s.push(slot));
    }
}

/// How a store changes later lookups: for the stored key the fresh entry
/// alone decides (live before its expiry, gone from it on), and for every
/// other key the lookup is exactly what it was before.
pub proof fn lemma_lookup_insert(s: Seq<SlotSpec>, slot: SlotSpec, k: Seq<QuerySpec>, now: u64)
    ensures
        spec_lookup(spec_insert(s, slot), k, now) == if k == slot.key {
            slot_live(slot, now)
        } else {
            spec_lookup(s, k, now)
        },
    decreases s.len(),
{
    if s.len() == 0 {
        let t = seq![slot];
        assert(spec_insert(s, slot) == t);
        assert(t[0] == slot);
        if k == slot.key {
            assert(spec_lookup(t, k, now) == slot_live(slot, now));
        } else {
            assert(t.drop_first() =~= Seq::<SlotSpec>::empty());
            assert(spec_lookup(t, k, now) == spec_lookup(t.drop_first(), k, now));
            assert(spec_lookup(t, k, now) is None);
        }
    } else if s[0].key == slot.key {
        let t = seq![slot] + s.drop_first();
        assert(spec_insert(s, slot) == t);
        assert(t.len() == 1 + s.drop_first().len());
        assert(t[0] == slot);
        if k == slot.key {
            assert(spec_lookup(t, k, now) == slot_live(slot, now));
        } else {
            assert(t.drop_first() =~= s.drop_first());
            assert(spec_lookup(t, k, now) == spec_lookup(s.drop_first(), k, now));
            assert(spec_lookup(s, k, now) == spec_lookup(s.drop_first(), k, now));
        }
    } else {
        let t = seq![s[0]] + spec_insert(s.drop_first(), slot);
        assert(spec_insert(s, slot) == t);
        assert(t.len() == 1 + spec_insert(s.drop_first(), slot).len());
        assert(t[0] == s[0]);
        assert(t.drop_first() =~= spec_insert(s.drop_first(), slot));
        lemma_lookup_insert(s.drop_first(), slot, k, now);
        if k == s[0].key {
            assert(k != slot.key);
            assert(spec_lookup(t, k, now) == slot_live(s[0], now));
            assert(spec_lookup(s, k, now) == slot_live(s[0], now));
        } else {
            assert(spec_lookup(t, k, now) == spec_lookup(t.drop_first(), k, now));
            assert(spec_lookup(s, k, now) == spec_lookup(s.drop_first(), k, now));
        }
    }
}

/// Idempotence within the TTL window: once a cacheable response is stored at
/// `t_store`, a lookup for the same key at any `t_query` before the entry's
/// expiry returns exactly that response, so no second upstream round trip is
/// needed.
pub proof fn lemma_cached_hit_within_ttl(
    s: Seq<SlotSpec>,
    m: MessageSpec,
    raw: Seq<u8>,
    t_store: u64,
    t_query: u64,
    q: MessageSpec,
)
    requires
        cacheable(m),
        key_of(q) == key_of(m),
        t_query < expiry_of(t_store, m),
    ensures
        spec_lookup(spec_put(s, m, raw, t_store), key_of(q), t_query) == Some((m, raw)),
{
    let slot = SlotSpec { key: key_of(m), resp: m, raw, expires: expiry_of(t_store, m) };
    lemma_lookup_insert(s, slot, key_of(q), t_query);
}

/// Expiry: once the minimum answer TTL has elapsed, a lookup for the stored
/// key misses, so a repeated identical query triggers a fresh upstream round
/// trip rather than returning the stale entry.
pub proof fn lemma_expired_entry_misses(
    s: Seq<SlotSpec>,
    m: MessageSpec,
    raw: Seq<u8>,
    t_store: u64,
    t_query: u64,
    q: MessageSpec,
)
    requires
        cacheable(m),
        key_of(q) == key_of(m),
        t_query >= expiry_of(t_store, m),
    ensures
        spec_lookup(spec_put(s, m, raw, t_store), key_of(q), t_query) is None,
{
    let slot = SlotSpec { key: key_of(m), resp: m, raw, expires: expiry_of(t_store, m) };
    lemma_lookup_insert(s, slot, key_of(q), t_query);
}

/// No cross-talk between keys: storing one response never changes what a
/// lookup under any other key returns, so concurrently dispatched distinct
/// queries cannot disturb one another's cached answers.
pub proof fn lemma_unrelated_keys_unchanged(
    s: Seq<SlotSpec>,
    m: MessageSpec,
    raw: Seq<u8>,
    t_store: u64,
    k: Seq<QuerySpec>,
    now: u64,
)
    requires
        k != key_of(m),
    ensures
        spec_lookup(spec_put(s, m, raw, t_store), k, now) == spec_lookup(s, k, now),
{
    if cacheable(m) {
        let slot = SlotSpec { key: key_of(m), resp: m, raw, expires: expiry_of(t_store, m) };
        lemma_lookup_insert(s, slot, k, now);
    }
}

} // verus!
