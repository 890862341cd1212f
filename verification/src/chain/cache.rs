//! Process-wide cache of immutable ERC-20 facts.
//!
//! `name` / `symbol` / `decimals` / `totalSupply` never change, so keying by
//! address and caching forever is safe. A token's later graduation reuses its
//! launch lookup, and the few quote tokens that recur on every launch are
//! fetched once.
//!
//! Two-generation eviction: when the hot generation fills, it becomes the
//! cold one and a fresh hot generation starts. An entry survives at least
//! `CAP` further inserts of other tokens, with no per-entry bookkeeping.

use vstd::prelude::*;
use crate::primitives::{Address, U256};

verus! {

/// Immutable ERC-20 facts of one token; a field is `None` when its call
/// failed.
#[derive(Clone, Debug)]
pub struct TokenFacts {
    pub name: Option<String>,
    pub symbol: Option<String>,
    pub decimals: Option<u8>,
    pub total_supply: Option<U256>,
}

impl Default for TokenFacts {
    /// No fact known.
    fn default() -> (r: TokenFacts)
        ensures
            r.name is None,
            r.symbol is None,
            r.decimals is None,
            r.total_supply is None,
    {
        TokenFacts { name: None, symbol: None, decimals: None, total_supply: None }
    }
}

impl TokenFacts {
    /// Worth caching only if a call actually returned something.
    pub open spec fn spec_is_useful(&self) -> bool {
        self.symbol is Some || self.decimals is Some || self.total_supply is Some
    }

    /// Worth caching only if a call actually returned something.
    pub fn is_useful(&self) -> (r: bool)
        ensures
            r == self.spec_is_useful(),
    {
        self.symbol.is_some() || self.decimals.is_some() || self.total_supply.is_some()
    }

    /// A copy of these facts.
    pub fn duplicate(&self) -> (r: TokenFacts)
        ensures
            r == *self,
    {
        let name = match &self.name {
            Some(n) => Some(n.clone()),
            None => None,
        };
        let symbol = match &self.symbol {
            Some(n) => Some(n.clone()),
            None => None,
        };
        TokenFacts { name, symbol, decimals: self.decimals, total_supply: self.total_supply }
    }
}

/// Capacity of one generation.
pub const CAP: usize = 4096;

/// One cached entry.
pub type Entry = (Address, TokenFacts);

/// Index of the last entry of `g` keyed by `key`, or -1.
pub open spec fn find(g: Seq<Entry>, key: Seq<u8>) -> int
    decreases g.len(),
{
    if g.len() == 0 {
        -1
    } else if g.last().0.bytes@ == key {
        g.len() - 1
    } else {
        find(g.drop_last(), key)
    }
}

/// The facts a generation holds for `key`.
pub open spec fn lookup(g: Seq<Entry>, key: Seq<u8>) -> Option<TokenFacts> {
    let i = find(g, key);
    if i >= 0 {
        Some(g[i].1)
    } else {
        None
    }
}

/// A generation after storing `f` under `a`: the entry of that key is
/// replaced, or a new entry is appended.
pub open spec fn insert(g: Seq<Entry>, a: Address, f: TokenFacts) -> Seq<Entry> {
    let i = find(g, a.bytes@);
    if i >= 0 {
        g.update(i, (a, f))
    } else {
        g.push((a, f))
    }
}

/// No key occurs twice in a generation.
pub open spec fn distinct_keys(g: Seq<Entry>) -> bool {
    forall|i: int, j: int| 0 <= i < j < g.len() ==> g[i].0.bytes@ != g[j].0.bytes@
}

/// The cache read: the hot generation first, then the cold one.
pub open spec fn cache_get(hot: Seq<Entry>, cold: Seq<Entry>, key: Seq<u8>) -> Option<TokenFacts> {
    match lookup(hot, key) {
        Some(f) => Some(f),
        None => lookup(cold, key),
    }
}

/// The cache write: a full hot generation becomes the cold one first.
pub open spec fn cache_put(hot: Seq<Entry>, cold: Seq<Entry>, a: Address, f: TokenFacts) -> (
    Seq<Entry>,
    Seq<Entry>,
) {
    if hot.len() >= CAP {
        (insert(Seq::empty(), a, f), hot)
    } else {
        (insert(hot, a, f), cold)
    }
}

/// The cache after a sequence of writes, in order.
pub open spec fn cache_put_all(hot: Seq<Entry>, cold: Seq<Entry>, writes: Seq<Entry>) -> (
    Seq<Entry>,
    Seq<Entry>,
)
    decreases writes.len(),
{
    if writes.len() == 0 {
        (hot, cold)
    } else {
        let (h, c) = cache_put_all(hot, cold, writes.drop_last());
        cache_put(h, c, writes.last().0, writes.last().1)
    }
}

proof fn lemma_find_range(g: Seq<Entry>, key: Seq<u8>)
    ensures
        -1 <= find(g, key) < g.len(),
        find(g, key) >= 0 ==> g[find(g, key)].0.bytes@ == key,
        find(g, key) >= 0 ==> forall|j: int|
            find(g, key) < j < g.len() ==> g[j].0.bytes@ != key,
        find(g, key) == -1 ==> forall|j: int| 0 <= j < g.len() ==> g[j].0.bytes@ != key,
    decreases g.len(),
{
    if g.len() > 0 {
        let d = g.drop_last();
        lemma_find_range(d, key);
        assert forall|j: int| 0 <= j < d.len() implies d[j] == g[j] by {}
    }
}

/// `find` reads only the keys: replacing an entry by one with the same key
/// leaves every search where it was.
proof fn lemma_find_same_keys(g: Seq<Entry>, i: int, e: Entry, key: Seq<u8>)
    requires
        0 <= i < g.len(),
        e.0.bytes@ == g[i].0.bytes@,
    ensures
        find(g.update(i, e), key) == find(g, key),
    decreases g.len(),
{
    let u = g.update(i, e);
    if i == g.len() - 1 {
        assert(u.drop_last() =~= g.drop_last());
    } else {
        assert(u.drop_last() =~= g.drop_last().update(i, e));
        lemma_find_same_keys(g.drop_last(), i, e, key);
    }
}

/// A generation gives back what was just stored, and nothing else changes.
pub proof fn lemma_insert_lookup(g: Seq<Entry>, a: Address, f: TokenFacts, key: Seq<u8>)
    ensures
        lookup(insert(g, a, f), a.bytes@) == Some(f),
        key != a.bytes@ ==> lookup(insert(g, a, f), key) == lookup(g, key),
        insert(g, a, f).len() <= g.len() + 1,
        distinct_keys(g) ==> distinct_keys(insert(g, a, f)),
{
    lemma_find_range(g, a.bytes@);
    lemma_find_range(g, key);
    let i = find(g, a.bytes@);
    let r = insert(g, a, f);
    if i >= 0 {
        lemma_find_same_keys(g, i, (a, f), a.bytes@);
        lemma_find_same_keys(g, i, (a, f), key);
        lemma_find_range(r, key);
        assert(distinct_keys(g) ==> distinct_keys(r));
    } else {
        assert(r.drop_last() =~= g);
        lemma_find_range(r, key);
        if key != a.bytes@ {
            assert(find(r, key) == find(g, key));
        }
        assert(distinct_keys(g) ==> distinct_keys(r)) by {
            if distinct_keys(g) {
                assert forall|x: int, y: int| 0 <= x < y < r.len() implies r[x].0.bytes@
                    != r[y].0.bytes@ by {
                    if y == g.len() {
                        assert(r[x] == g[x]);
                    }
                }
            }
        }
    }
}

/// The cache keeps both generations free of repeated keys, the hot one at
/// most `CAP` entries long.
pub struct FactCache {
    hot: Vec<Entry>,
    cold: Vec<Entry>,
}

impl FactCache {
    /// The hot generation.
    pub closed spec fn hot(&self) -> Seq<Entry> {
        self.hot@
    }

    /// The cold generation.
    pub closed spec fn cold(&self) -> Seq<Entry> {
        self.cold@
    }

    /// Well-formedness: distinct keys in each generation, and both
    /// generations within capacity.
    pub open spec fn wf(&self) -> bool {
        &&& distinct_keys(self.hot())
        &&& distinct_keys(self.cold())
        &&& self.hot().len() <= CAP
        &&& self.cold().len() <= CAP
    }

    /// What a read of `key` returns.
    pub open spec fn spec_get(&self, key: Seq<u8>) -> Option<TokenFacts> {
        cache_get(self.hot(), self.cold(), key)
    }

    /// An empty cache.
    pub fn new() -> (c: FactCache)
        ensures
            c.wf(),
            c.hot().len() == 0,
            c.cold().len() == 0,
    {
        FactCache { hot: Vec::new(), cold: Vec::new() }
    }

    fn find_in(g: &Vec<Entry>, addr: &Address) -> (r: Option<usize>)
        ensures
            match r {
                Some(i) => i as int == find(g@, addr.bytes@),
                None => find(g@, addr.bytes@) == -1,
            },
    {
        let mut i: usize = g.len();
        assert(g@.subrange(0, i as int) =~= g@);
        while i > 0
            invariant
                i <= g@.len(),
                find(g@, addr.bytes@) == find(g@.subrange(0, i as int), addr.bytes@),
            decreases i,
        {
            let ghost pre = g@.subrange(0, i as int);
            if g[i - 1].0.same(addr) {
                return Some(i - 1);
            }
            assert(pre.drop_last() =~= g@.subrange(0, i - 1));
            i = i - 1;
        }
        None
    }

    /// The facts cached for `addr`, hot generation first.
    pub fn get(&self, addr: &Address) -> (r: Option<TokenFacts>)
        ensures
            r == self.spec_get(addr.bytes@),
    {
        proof {
            lemma_find_range(self.hot@, addr.bytes@);
            lemma_find_range(self.cold@, addr.bytes@);
        }
        match Self::find_in(&self.hot, addr) {
            Some(i) => Some(self.hot[i].1.duplicate()),
            None => match Self::find_in(&self.cold, addr) {
                Some(i) => Some(self.cold[i].1.duplicate()),
                None => None,
            },
        }
    }

    /// Stores `facts` under `addr`. When the hot generation is full it
    /// becomes the cold one and a fresh hot generation takes the entry.
    pub fn put(&mut self, addr: Address, facts: TokenFacts)
        requires
            old(self).wf(),
        ensures
            final(self).wf(),
            (final(self).hot(), final(self).cold()) == cache_put(
                old(self).hot(),
                old(self).cold(),
                addr,
                facts,
            ),
    {
        let ghost f = facts;
        proof {
            lemma_insert_lookup(self.hot@, addr, facts, addr.bytes@);
            lemma_insert_lookup(Seq::empty(), addr, facts, addr.bytes@);
        }
        if self.hot.len() >= CAP {
            let mut fresh: Vec<Entry> = Vec::new();
            std::mem::swap(&mut self.hot, &mut fresh);
            self.cold = fresh;
            assert(self.hot@ =~= Seq::<Entry>::empty());
        }
        proof {
            lemma_insert_lookup(self.hot@, addr, facts, addr.bytes@);
            lemma_find_range(self.hot@, addr.bytes@);
        }
        let ghost before = self.hot@;
        match Self::find_in(&self.hot, &addr) {
            Some(i) => {
                self.hot.set(i, (addr, facts));
                assert(self.hot@ =~= insert(before, addr, f));
            },
            None => {
                self.hot.push((addr, facts));
                assert(self.hot@ =~= insert(before, addr, f));
            },
        }
    }

    /// Caches `facts` under `addr` only when some call returned something:
    /// an all-`None` answer is not worth keeping.
    pub fn store_if_useful(&mut self, addr: Address, facts: TokenFacts)
        requires
            old(self).wf(),
        ensures
            final(self).wf(),
            facts.spec_is_useful() ==> (final(self).hot(), final(self).cold()) == cache_put(
                old(self).hot(),
                old(self).cold(),
                addr,
                facts,
            ),
            !facts.spec_is_useful() ==> final(self).hot() == old(self).hot() && final(self).cold()
                == old(self).cold(),
    {
        if facts.is_useful() {
            self.put(addr, facts);
        }
    }
}

/// A read right after a write gives back what was written; the write leaves
/// every other key's answer unchanged.
pub proof fn lemma_get_after_put(
    hot: Seq<Entry>,
    cold: Seq<Entry>,
    a: Address,
    f: TokenFacts,
    key: Seq<u8>,
)
    ensures
        ({
            let (h, c) = cache_put(hot, cold, a, f);
            cache_get(h, c, a.bytes@) == Some(f)
        }),
        ({
            let (h, c) = cache_put(hot, cold, a, f);
            hot.len() < CAP && key != a.bytes@ ==> cache_get(h, c, key) == cache_get(
                hot,
                cold,
                key,
            )
        }),
{
    lemma_insert_lookup(hot, a, f, key);
    lemma_insert_lookup(Seq::empty(), a, f, key);
}

/// Puts keep the hot generation within capacity.
proof fn lemma_put_bounded(hot: Seq<Entry>, cold: Seq<Entry>, a: Address, f: TokenFacts)
    requires
        hot.len() <= CAP,
    ensures
        cache_put(hot, cold, a, f).0.len() <= CAP,
        hot.len() >= CAP ==> cache_put(hot, cold, a, f).0.len() == 1,
        hot.len() < CAP ==> cache_put(hot, cold, a, f).0.len() <= hot.len() + 1,
{
    lemma_insert_lookup(hot, a, f, a.bytes@);
    lemma_insert_lookup(Seq::empty(), a, f, a.bytes@);
    lemma_find_range(Seq::<Entry>::empty(), a.bytes@);
}

/// The cache is bounded: whatever is written, neither generation grows past
/// `CAP` entries, so the cache never holds more than `2 * CAP`.
pub proof fn lemma_cache_bounded(hot: Seq<Entry>, cold: Seq<Entry>, writes: Seq<Entry>)
    requires
        hot.len() <= CAP,
        cold.len() <= CAP,
    ensures
        ({
            let (h, c) = cache_put_all(hot, cold, writes);
            h.len() <= CAP && c.len() <= CAP && h.len() + c.len() <= 2 * CAP
        }),
    decreases writes.len(),
{
    if writes.len() > 0 {
        lemma_cache_bounded(hot, cold, writes.drop_last());
        let (h, c) = cache_put_all(hot, cold, writes.drop_last());
        lemma_put_bounded(h, c, writes.last().0, writes.last().1);
    }
}

/// The facts of the last write of `key` in `writes`, if any.
pub open spec fn last_write(writes: Seq<Entry>, key: Seq<u8>) -> Option<TokenFacts>
    decreases writes.len(),
{
    if writes.len() == 0 {
        None
    } else if writes.last().0.bytes@ == key {
        Some(writes.last().1)
    } else {
        last_write(writes.drop_last(), key)
    }
}

/// A read never gives back a stale value: after any sequence of writes, a
/// key reads as nothing (evicted) or as its latest write, or, when it was
/// not written, as what it read before.
pub proof fn lemma_get_latest(hot: Seq<Entry>, cold: Seq<Entry>, writes: Seq<Entry>, key: Seq<u8>)
    ensures
        ({
            let (h, c) = cache_put_all(hot, cold, writes);
            cache_get(h, c, key) is None || cache_get(h, c, key) == match last_write(writes, key) {
                Some(f) => Some(f),
                None => cache_get(hot, cold, key),
            }
        }),
    decreases writes.len(),
{
    if writes.len() > 0 {
        let prev = writes.drop_last();
        lemma_get_latest(hot, cold, prev, key);
        let (h, c) = cache_put_all(hot, cold, prev);
        let w = writes.last();
        lemma_get_after_put(h, c, w.0, w.1, key);
        lemma_insert_lookup(Seq::empty(), w.0, w.1, key);
        lemma_find_range(Seq::<Entry>::empty(), key);
    }
}

/// Two-generation eviction: once written, an entry stays readable across at
/// least `CAP` further writes of other tokens.
pub proof fn lemma_entry_survives(
    hot: Seq<Entry>,
    cold: Seq<Entry>,
    a: Address,
    f: TokenFacts,
    later: Seq<Entry>,
)
    requires
        hot.len() <= CAP,
        later.len() <= CAP,
        forall|i: int| 0 <= i < later.len() ==> later[i].0.bytes@ != a.bytes@,
    ensures
        ({
            let (h, c) = cache_put(hot, cold, a, f);
            let (h2, c2) = cache_put_all(h, c, later);
            cache_get(h2, c2, a.bytes@) == Some(f)
        }),
    decreases later.len(),
{
    let (h, c) = cache_put(hot, cold, a, f);
    lemma_put_bounded(hot, cold, a, f);
    lemma_insert_lookup(hot, a, f, a.bytes@);
    lemma_insert_lookup(Seq::empty(), a, f, a.bytes@);
    lemma_survives_aux(h, c, a, f, later);
}

/// After `n` writes of other keys since `a` was written: `a` is still in the
/// hot generation with `f`, or it sits in the cold one with `f` while the hot
/// generation has taken at most `n` entries.
proof fn lemma_survives_aux(
    h: Seq<Entry>,
    c: Seq<Entry>,
    a: Address,
    f: TokenFacts,
    later: Seq<Entry>,
)
    requires
        h.len() <= CAP,
        lookup(h, a.bytes@) == Some(f),
        later.len() <= CAP,
        forall|i: int| 0 <= i < later.len() ==> later[i].0.bytes@ != a.bytes@,
    ensures
        ({
            let (h2, c2) = cache_put_all(h, c, later);
            &&& h2.len() <= CAP
            &&& (lookup(h2, a.bytes@) == Some(f) || (lookup(h2, a.bytes@) is None && lookup(
                c2,
                a.bytes@,
            ) == Some(f) && h2.len() <= later.len()))
        }),
    decreases later.len(),
{
    if later.len() > 0 {
        let prev = later.drop_last();
        assert forall|i: int| 0 <= i < prev.len() implies prev[i].0.bytes@ != a.bytes@ by {
            assert(prev[i] == later[i]);
        }
        lemma_survives_aux(h, c, a, f, prev);
        let (h1, c1) = cache_put_all(h, c, prev);
        let w = later.last();
        assert(w.0.bytes@ != a.bytes@);
        lemma_put_bounded(h1, c1, w.0, w.1);
        lemma_insert_lookup(h1, w.0, w.1, a.bytes@);
        lemma_insert_lookup(Seq::empty(), w.0, w.1, a.bytes@);
        lemma_find_range(Seq::<Entry>::empty(), a.bytes@);
    }
}


/// No entry of `g` is keyed by `key`.
pub open spec fn keys_avoid(g: Seq<Entry>, key: Seq<u8>) -> bool {
    forall|i: int| 0 <= i < g.len() ==> g[i].0.bytes@ != key
}

/// `w`'s keys are pairwise distinct, differ from `key`, and from every key
/// of `g`.
pub open spec fn fresh_writes(w: Seq<Entry>, g: Seq<Entry>, key: Seq<u8>) -> bool {
    &&& forall|i: int, j: int| 0 <= i < j < w.len() ==> w[i].0.bytes@ != w[j].0.bytes@
    &&& forall|i: int| 0 <= i < w.len() ==> w[i].0.bytes@ != key
    &&& forall|i: int, j: int|
        0 <= i < w.len() && 0 <= j < g.len() ==> w[i].0.bytes@ != g[j].0.bytes@
}

/// What a store leaves in a generation: the old entries, with the new one
/// replacing the entry of its key or appended.
proof fn lemma_insert_entries(g: Seq<Entry>, a: Address, f: TokenFacts)
    ensures
        insert(g, a, f).len() >= 1,
        insert(g, a, f).len() <= g.len() + 1,
        forall|k: int|
            0 <= k < insert(g, a, f).len() ==> insert(g, a, f)[k] == (a, f) || (k < g.len()
                && insert(g, a, f)[k] == g[k]),
        keys_avoid(g, a.bytes@) ==> insert(g, a, f) == g.push((a, f)),
{
    lemma_find_range(g, a.bytes@);
}

/// A write of a key absent from a generation appends it.
proof fn lemma_insert_fresh(g: Seq<Entry>, e: Entry)
    requires
        keys_avoid(g, e.0.bytes@),
    ensures
        insert(g, e.0, e.1) == g.push(e),
{
    lemma_insert_entries(g, e.0, e.1);
}

/// The cache after the first `m` of a run of fresh writes that follow a
/// store: the hot generation fills, is rotated out, the next one fills and
/// is rotated out too, after which nothing from before the run is left.
proof fn lemma_evict_phases(h0: Seq<Entry>, c0: Seq<Entry>, w: Seq<Entry>, key: Seq<u8>, m: int)
    requires
        1 <= h0.len() <= CAP,
        fresh_writes(w, h0, key),
        0 <= m <= w.len(),
    ensures
        ({
            let (hm, cm) = cache_put_all(h0, c0, w.take(m));
            let j = CAP - h0.len();
            &&& m <= j ==> hm == h0 + w.take(m) && cm == c0
            &&& j < m <= j + CAP ==> hm == w.subrange(j, m) && cm == h0 + w.take(j)
            &&& m > j + CAP ==> keys_avoid(hm, key) && keys_avoid(cm, key)
        }),
    decreases m,
{
    let j = CAP - h0.len();
    if m == 0 {
        assert(w.take(0) =~= Seq::<Entry>::empty());
        assert(h0 + w.take(0) =~= h0);
    } else {
        lemma_evict_phases(h0, c0, w, key, m - 1);
        assert(w.take(m).drop_last() =~= w.take(m - 1));
        let (hp, cp) = cache_put_all(h0, c0, w.take(m - 1));
        let e = w[m - 1];
        assert(w.take(m).last() == e);
        assert((e.0, e.1) == e);
        if m - 1 < j {
            assert(keys_avoid(hp, e.0.bytes@)) by {
                assert forall|i: int| 0 <= i < hp.len() implies hp[i].0.bytes@ != e.0.bytes@ by {
                    if i < h0.len() {
                        assert(hp[i] == h0[i]);
                    } else {
                        assert(hp[i] == w[i - h0.len()]);
                    }
                }
            }
            lemma_insert_fresh(hp, e);
            assert(hp.push(e) =~= h0 + w.take(m));
        } else if m - 1 == j {
            assert(hp.len() == CAP);
            lemma_insert_fresh(Seq::<Entry>::empty(), e);
            assert(Seq::<Entry>::empty().push(e) =~= w.subrange(j, m));
        } else if m - 1 < j + CAP {
            assert(keys_avoid(hp, e.0.bytes@)) by {
                assert forall|i: int| 0 <= i < hp.len() implies hp[i].0.bytes@ != e.0.bytes@ by {
                    assert(hp[i] == w[j + i]);
                }
            }
            lemma_insert_fresh(hp, e);
            assert(hp.push(e) =~= w.subrange(j, m));
        } else if m - 1 == j + CAP {
            assert(hp.len() == CAP);
            lemma_insert_fresh(Seq::<Entry>::empty(), e);
            assert forall|i: int| 0 <= i < hp.len() implies hp[i].0.bytes@ != key by {
                assert(hp[i] == w[j + i]);
            }
            let (hm, cm) = cache_put(hp, cp, e.0, e.1);
            assert(hm =~= seq![e]);
            assert(keys_avoid(hm, key));
            assert(keys_avoid(cm, key));
        } else {
            lemma_insert_entries(hp, e.0, e.1);
            lemma_insert_entries(Seq::<Entry>::empty(), e.0, e.1);
            let (hm, cm) = cache_put(hp, cp, e.0, e.1);
            assert(e.0.bytes@ != key);
            assert(keys_avoid(hm, key)) by {
                if hp.len() >= CAP {
                    assert forall|i: int| 0 <= i < hm.len() implies hm[i].0.bytes@ != key by {
                        assert(hm[i] == (e.0, e.1));
                    }
                } else {
                    assert forall|i: int| 0 <= i < hm.len() implies hm[i].0.bytes@ != key by {
                        if hm[i] != (e.0, e.1) {
                            assert(hm[i] == hp[i]);
                        }
                    }
                }
            }
            assert(keys_avoid(cm, key));
        }
    }
}

/// Two-generation eviction, the other bound: an entry is gone once `2 * CAP`
/// fresh tokens (distinct, and none already in the hot generation) have been
/// written after it.
pub proof fn lemma_entry_evicted(
    hot: Seq<Entry>,
    cold: Seq<Entry>,
    a: Address,
    f: TokenFacts,
    later: Seq<Entry>,
)
    requires
        hot.len() <= CAP,
        later.len() >= 2 * CAP,
        fresh_writes(later, hot, a.bytes@),
    ensures
        ({
            let (h, c) = cache_put(hot, cold, a, f);
            let (h2, c2) = cache_put_all(h, c, later);
            cache_get(h2, c2, a.bytes@) is None
        }),
{
    let (h, c) = cache_put(hot, cold, a, f);
    lemma_put_bounded(hot, cold, a, f);
    lemma_insert_entries(hot, a, f);
    lemma_insert_entries(Seq::<Entry>::empty(), a, f);
    assert(fresh_writes(later, h, a.bytes@)) by {
        assert forall|i: int, k: int|
            0 <= i < later.len() && 0 <= k < h.len() implies later[i].0.bytes@
            != h[k].0.bytes@ by {
            if h[k].0.bytes@ != a.bytes@ {
                assert(h[k] == hot[k]);
            }
        }
    }
    lemma_evict_phases(h, c, later, a.bytes@, later.len() as int);
    assert(later.take(later.len() as int) =~= later);
    let (h2, c2) = cache_put_all(h, c, later);
    lemma_find_range(h2, a.bytes@);
    lemma_find_range(c2, a.bytes@);
}

/// What makes facts worth caching: the name alone never decides — facts
/// that differ only in the name are equally useful; facts with every field
/// known are useful, facts with none known are not; and learning more facts
/// never makes them useless.
pub proof fn lemma_usefulness(f: TokenFacts, g: TokenFacts)
    ensures
        f.symbol == g.symbol && f.decimals == g.decimals && f.total_supply == g.total_supply
            ==> (f.spec_is_useful() <==> g.spec_is_useful()),
        f.name is Some && f.symbol is Some && f.decimals is Some && f.total_supply is Some
            ==> f.spec_is_useful(),
        f.name is None && f.symbol is None && f.decimals is None && f.total_supply is None
            ==> !f.spec_is_useful(),
        (f.name is Some ==> g.name is Some) && (f.symbol is Some ==> g.symbol is Some) && (
        f.decimals is Some ==> g.decimals is Some) && (f.total_supply is Some
            ==> g.total_supply is Some) && f.spec_is_useful() ==> g.spec_is_useful(),
        f.symbol is Some ==> f.spec_is_useful(),
        f.decimals is Some ==> f.spec_is_useful(),
        f.total_supply is Some ==> f.spec_is_useful(),
{
}

} // verus!
