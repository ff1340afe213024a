//! The time-bounded recommendation cache.  A canonical query key maps to
//! the gift records computed for it; each record carries the time it was
//! computed at, a record older than the time-to-live is never served, and
//! an explicit maintenance pass removes what has fully expired.
//!
//! The cache holds no size bound beyond expiry: callers that need one run
//! the maintenance pass on a schedule of their own.

use vstd::prelude::*;
use crate::gift::CachedGift;
use crate::seqs::lemma_filter_push;

verus! {

/// One cache slot: a canonical query key and the gift records computed
/// for it.
#[derive(Debug)]
pub struct CacheEntry {
    pub query_key: String,
    pub gifts: Vec<CachedGift>,
}

/// The records of `gs` still fresh at `now` under `ttl`: computed no
/// later than `now` and younger than `ttl` seconds.
pub open spec fn fresh_gifts(gs: Seq<CachedGift>, now: int, ttl: int) -> Seq<CachedGift> {
    gs.filter(|g: CachedGift| g.cached_at <= now && now - g.cached_at < ttl)
}

/// Index of the first entry for `k`, `-1` when there is none.
spec fn find_at(es: Seq<CacheEntry>, k: Seq<char>) -> int
    decreases es.len(),
{
    if es.len() == 0 {
        -1
    } else if es[0].query_key@ == k {
        0
    } else {
        let r = find_at(es.drop_first(), k);
        if r == -1 {
            -1
        } else {
            r + 1
        }
    }
}

proof fn lemma_find_at_props(es: Seq<CacheEntry>, k: Seq<char>)
    ensures
        -1 <= find_at(es, k) < es.len(),
        find_at(es, k) == -1 ==> forall|j: int|
            0 <= j < es.len() ==> (#[trigger] es[j].query_key@) != k,
        find_at(es, k) >= 0 ==> 0 <= find_at(es, k) < es.len() && es[find_at(
            es,
            k,
        )].query_key@ == k && (forall|j: int|
            0 <= j < find_at(es, k) ==> (#[trigger] es[j].query_key@) != k),
    decreases es.len(),
{
    if es.len() == 0 {
    } else if es[0].query_key@ == k {
    } else {
        lemma_find_at_props(es.drop_first(), k);
        assert(forall|j: int|
            0 <= j < es.len() - 1 ==> (#[trigger] es.drop_first()[j].query_key@) == es[j
                + 1].query_key@);
        assert(forall|j: int|
            1 <= j < es.len() ==> (#[trigger] es[j].query_key@) == es.drop_first()[j
                - 1].query_key@);
        if find_at(es.drop_first(), k) == -1 {
            assert(find_at(es, k) == -1);
            assert forall|j: int| 0 <= j < es.len() implies (#[trigger] es[j].query_key@) != k by {
                if j >= 1 {
                    assert(es.drop_first()[j - 1].query_key@ != k);
                }
            }
        } else {
            assert(find_at(es, k) == find_at(es.drop_first(), k) + 1);
        }
    }
}

proof fn lemma_find_at_from(es: Seq<CacheEntry>, k: Seq<char>, i: int)
    requires
        0 <= i < es.len(),
        es[i].query_key@ == k,
        forall|j: int| 0 <= j < i ==> (#[trigger] es[j].query_key@) != k,
    ensures
        find_at(es, k) == i,
    decreases i,
{
    if i == 0 {
    } else {
        assert(es[0].query_key@ != k);
        assert(forall|j: int|
            0 <= j < es.len() - 1 ==> (#[trigger] es.drop_first()[j].query_key@) == es[j
                + 1].query_key@);
        assert(forall|j: int|
            1 <= j < es.len() ==> (#[trigger] es[j].query_key@) == es.drop_first()[j
                - 1].query_key@);
        lemma_find_at_from(es.drop_first(), k, i - 1);
    }
}

/// Total number of gift records over all entries.
spec fn spec_total(es: Seq<CacheEntry>) -> int
    decreases es.len(),
{
    if es.len() == 0 {
        0
    } else {
        es[0].gifts@.len() + spec_total(es.drop_first())
    }
}

proof fn lemma_total_push(es: Seq<CacheEntry>, e: CacheEntry)
    ensures
        spec_total(es.push(e)) == spec_total(es) + e.gifts@.len(),
    decreases es.len(),
{
    if es.len() == 0 {
        assert(es.push(e).drop_first() =~= es);
    } else {
        assert(es.push(e).drop_first() =~= es.drop_first().push(e));
        lemma_total_push(es.drop_first(), e);
    }
}

proof fn lemma_total_update(es: Seq<CacheEntry>, i: int, e: CacheEntry)
    requires
        0 <= i < es.len(),
    ensures
        spec_total(es.update(i, e)) == spec_total(es) - es[i].gifts@.len() + e.gifts@.len(),
    decreases i,
{
    if i == 0 {
        assert(es.update(0, e).drop_first() =~= es.drop_first());
    } else {
        assert(es.update(i, e).drop_first() =~= es.drop_first().update(i - 1, e));
        lemma_total_update(es.drop_first(), i - 1, e);
    }
}

proof fn lemma_total_remove(es: Seq<CacheEntry>, i: int)
    requires
        0 <= i < es.len(),
    ensures
        spec_total(es.remove(i)) == spec_total(es) - es[i].gifts@.len(),
    decreases i,
{
    if i == 0 {
        assert(es.remove(0) =~= es.drop_first());
    } else {
        assert(es.remove(i).drop_first() =~= es.drop_first().remove(i - 1));
        lemma_total_remove(es.drop_first(), i - 1);
    }
}

/// Smaller of two mathematical integers.
pub open spec fn min_int(a: int, b: int) -> int {
    if a <= b {
        a
    } else {
        b
    }
}

/// Freshly stamped records all come back: a list whose every record is
/// stamped `now` is exactly what `fresh_gifts` keeps at `now`, for any
/// positive time-to-live.  Together with the contracts of `set` and
/// `get`, this is the cache round trip: what `put` stores at `now`,
/// `get` at `now` returns whole.
pub proof fn lemma_fresh_now(gs: Seq<CachedGift>, now: u64, ttl: u64)
    requires
        ttl > 0,
        forall|i: int| 0 <= i < gs.len() ==> (#[trigger] gs[i]).cached_at == now,
    ensures
        fresh_gifts(gs, now as int, ttl as int) == gs,
    decreases gs.len(),
{
    reveal(Seq::filter);
    if gs.len() == 0 {
        assert(fresh_gifts(gs, now as int, ttl as int) =~= gs);
    } else {
        assert(forall|i: int|
            0 <= i < gs.drop_last().len() ==> (#[trigger] gs.drop_last()[i]).cached_at == now);
        lemma_fresh_now(gs.drop_last(), now, ttl);
        assert(gs.drop_last().push(gs.last()) =~= gs);
    }
}

/// Nothing survives its time-to-live: once `later` is `ttl` or more past
/// the stamp of every record, `fresh_gifts` keeps none of them.  Together
/// with the contract of `get`, this is the expiry half of the round trip:
/// after the time-to-live elapses, `get` returns nothing.
pub proof fn lemma_fresh_expired(gs: Seq<CachedGift>, now: u64, later: int, ttl: u64)
    requires
        forall|i: int| 0 <= i < gs.len() ==> (#[trigger] gs[i]).cached_at == now,
        later >= now + ttl,
    ensures
        fresh_gifts(gs, later, ttl as int) == Seq::<CachedGift>::empty(),
    decreases gs.len(),
{
    reveal(Seq::filter);
    if gs.len() == 0 {
        assert(fresh_gifts(gs, later, ttl as int) =~= Seq::<CachedGift>::empty());
    } else {
        assert(forall|i: int|
            0 <= i < gs.drop_last().len() ==> (#[trigger] gs.drop_last()[i]).cached_at == now);
        lemma_fresh_expired(gs.drop_last(), now, later, ttl);
        assert(!(later - gs.last().cached_at < ttl));
    }
}

/// The time-bounded store of computed gift lists.
#[derive(Debug)]
pub struct GiftCache {
    entries: Vec<CacheEntry>,
    ttl: u64,
}

/// Finds the first entry for `key`, together with the fact that nothing
/// before it matches.
fn position_of(es: &Vec<CacheEntry>, key: &str) -> (r: Option<usize>)
    ensures
        match r {
            Option::Some(i) => i < es@.len() && es@[i as int].query_key@ == key@ && (forall|j: int|
                0 <= j < i ==> (#[trigger] es@[j].query_key@) != key@),
            Option::None => forall|j: int|
                0 <= j < es@.len() ==> (#[trigger] es@[j].query_key@) != key@,
        },
{
    let n = es.len();
    let mut i: usize = 0;
    while i < n
        invariant
            n == es@.len(),
            i <= n,
            forall|j: int| 0 <= j < i ==> (#[trigger] es@[j].query_key@) != key@,
        decreases n - i,
    {
        let e = &es[i];
        if crate::text::str_eq(e.query_key.as_str(), key) {
            return Option::Some(i);
        }
        i = i + 1;
    }
    Option::None
}

/// Keeps of `gs` only the records fresh at `now`, copying them out.
fn filter_fresh(gs: &Vec<CachedGift>, now: u64, ttl: u64) -> (r: Vec<CachedGift>)
    ensures
        r@ == fresh_gifts(gs@, now as int, ttl as int),
{
    let n = gs.len();
    let mut r: Vec<CachedGift> = Vec::new();
    let mut i: usize = 0;
    while i < n
        invariant
            n == gs@.len(),
            i <= n,
            r@ == fresh_gifts(gs@.take(i as int), now as int, ttl as int),
        decreases n - i,
    {
        let g = &gs[i];
        proof {
            assert(gs@.take(i + 1 as int) =~= gs@.take(i as int).push(gs@[i as int]));
            lemma_filter_push(
                gs@.take(i as int),
                gs@[i as int],
                |g: CachedGift| g.cached_at <= now as int && now as int - g.cached_at < ttl as int,
            );
        }
        if g.cached_at <= now && now - g.cached_at < ttl {
            r.push(g.dup());
        }
        i = i + 1;
    }
    proof {
        assert(gs@.take(n as int) =~= gs@);
    }
    r
}

impl GiftCache {
    #[verifier::type_invariant]
    spec fn wf(self) -> bool {
        forall|i: int, j: int|
            0 <= i < j < self.entries@.len() ==> (#[trigger] self.entries@[i].query_key@) != (
            #[trigger] self.entries@[j].query_key@)
    }

    /// The configured time-to-live, in seconds.
    pub closed spec fn spec_ttl(&self) -> int {
        self.ttl as int
    }

    /// Whether the cache holds an entry for key `k`.
    pub closed spec fn has_key(&self, k: Seq<char>) -> bool {
        find_at(self.entries@, k) >= 0
    }

    /// The records stored under `k`.
    pub closed spec fn gifts_at(&self, k: Seq<char>) -> Seq<CachedGift> {
        self.entries@[find_at(self.entries@, k)].gifts@
    }

    /// Total number of stored gift records.
    pub closed spec fn total_count(&self) -> int {
        spec_total(self.entries@)
    }

    /// An empty cache with the given time-to-live in seconds.
    pub fn new(ttl_seconds: u64) -> (r: Self)
        ensures
            r.spec_ttl() == ttl_seconds,
            forall|k: Seq<char>| !(#[trigger] r.has_key(k)),
            r.total_count() == 0,
    {
        let r = GiftCache { entries: Vec::new(), ttl: ttl_seconds };
        proof {
            assert(forall|k: Seq<char>| find_at(r.entries@, k) == -1);
        }
        r
    }

    /// Stores `gifts` under `key`, replacing whatever the key held.
    /// Atomic towards readers: callers guard the cache with a lock, and a
    /// reader sees either the old entry or the new one, never a part.
    pub fn set(&mut self, key: String, gifts: Vec<CachedGift>)
        ensures
            final (self).spec_ttl() == old(self).spec_ttl(),
            final (self).has_key(key@),
            final (self).gifts_at(key@) == gifts@,
            forall|k: Seq<char>|
                k != key@ ==> #[trigger] final (self).has_key(k) == old(self).has_key(k),
            forall|k: Seq<char>|
                k != key@ && old(self).has_key(k) ==> #[trigger] final (self).gifts_at(k) == old(
                    self,
                ).gifts_at(k),
            final (self).total_count() == old(self).total_count() + gifts@.len() - (if old(
                self,
            ).has_key(key@) {
                old(self).gifts_at(key@).len() as int
            } else {
                0
            }),
    {
        proof {
            use_type_invariant(&*self);
        }
        let ghost old_es = self.entries@;
        let mut es: Vec<CacheEntry> = Vec::new();
        core::mem::swap(&mut es, &mut self.entries);
        let idx = position_of(&es, key.as_str());
        match idx {
            Option::Some(i) => {
                proof {
                    lemma_find_at_from(old_es, key@, i as int);
                }
                let e = CacheEntry { query_key: key, gifts };
                proof {
                    lemma_total_update(old_es, i as int, e);
                }
                es.set(i, e);
                let ghost new_es = es@;
                proof {
                    assert(forall|j: int|
                        0 <= j < new_es.len() ==> (#[trigger] new_es[j].query_key@)
                            == old_es[j].query_key@);
                    assert(forall|j: int|
                        0 <= j < old_es.len() ==> (#[trigger] old_es[j].query_key@)
                            == new_es[j].query_key@);
                    lemma_find_at_from(new_es, e.query_key@, i as int);
                    assert forall|k: Seq<char>| k != e.query_key@ implies (find_at(new_es, k) >= 0
                        <==> find_at(old_es, k) >= 0) && (find_at(old_es, k) >= 0 ==> find_at(
                        new_es,
                        k,
                    ) == find_at(old_es, k) && new_es[find_at(new_es, k)].gifts@ == old_es[find_at(
                        old_es,
                        k,
                    )].gifts@) by {
                        lemma_find_at_props(old_es, k);
                        lemma_find_at_props(new_es, k);
                        if find_at(old_es, k) >= 0 {
                            lemma_find_at_from(new_es, k, find_at(old_es, k));
                        }
                        if find_at(new_es, k) >= 0 {
                            let p = find_at(new_es, k);
                            assert(new_es[p].query_key@ == k);
                            assert(old_es[p].query_key@ == k);
                            lemma_find_at_from(old_es, k, p);
                        }
                    }
                }
                self.entries = es;
            },
            Option::None => {
                proof {
                    lemma_find_at_props(old_es, key@);
                    lemma_total_push(old_es, CacheEntry { query_key: key, gifts });
                }
                let e = CacheEntry { query_key: key, gifts };
                es.push(e);
                let ghost new_es = es@;
                proof {
                    assert(forall|j: int|
                        0 <= j < old_es.len() ==> (#[trigger] new_es[j].query_key@)
                            == old_es[j].query_key@);
                    assert(forall|j: int|
                        0 <= j < old_es.len() ==> (#[trigger] old_es[j].query_key@)
                            == new_es[j].query_key@);
                    lemma_find_at_from(new_es, e.query_key@, old_es.len() as int);
                    assert forall|k: Seq<char>| k != e.query_key@ implies (find_at(new_es, k) >= 0
                        <==> find_at(old_es, k) >= 0) && (find_at(old_es, k) >= 0 ==> find_at(
                        new_es,
                        k,
                    ) == find_at(old_es, k) && new_es[find_at(new_es, k)].gifts@ == old_es[find_at(
                        old_es,
                        k,
                    )].gifts@) by {
                        lemma_find_at_props(old_es, k);
                        lemma_find_at_props(new_es, k);
                        if find_at(old_es, k) >= 0 {
                            lemma_find_at_from(new_es, k, find_at(old_es, k));
                        }
                        if find_at(new_es, k) >= 0 {
                            let p = find_at(new_es, k);
                            assert(new_es[p].query_key@ == k);
                            assert(p < old_es.len());
                            assert(old_es[p].query_key@ == k);
                            lemma_find_at_from(old_es, k, p);
                        }
                    }
                }
                self.entries = es;
            },
        }
    }

    /// The fresh records under `key` at time `now`, if any remain; an
    /// entry whose records have all aged out yields nothing.
    pub fn get(&self, key: &str, now: u64) -> (r: Option<Vec<CachedGift>>)
        ensures
            match r {
                Option::Some(v) => self.has_key(key@) && v@ == fresh_gifts(
                    self.gifts_at(key@),
                    now as int,
                    self.spec_ttl(),
                ) && v@.len() > 0,
                Option::None => !self.has_key(key@) || fresh_gifts(
                    self.gifts_at(key@),
                    now as int,
                    self.spec_ttl(),
                ).len() == 0,
            },
    {
        let idx = position_of(&self.entries, key);
        match idx {
            Option::Some(i) => {
                proof {
                    lemma_find_at_from(self.entries@, key@, i as int);
                }
                let e = &self.entries[i];
                let fresh = filter_fresh(&e.gifts, now, self.ttl);
                if fresh.len() > 0 {
                    Option::Some(fresh)
                } else {
                    Option::None
                }
            },
            Option::None => {
                proof {
                    lemma_find_at_props(self.entries@, key@);
                }
                Option::None
            },
        }
    }

    /// Appends one record under `key`, creating the entry if the key is
    /// new.
    pub fn add(&mut self, key: String, gift: CachedGift)
        ensures
            final (self).spec_ttl() == old(self).spec_ttl(),
            final (self).has_key(key@),
            final (self).gifts_at(key@) == (if old(self).has_key(key@) {
                old(self).gifts_at(key@).push(gift)
            } else {
                seq![gift]
            }),
            forall|k: Seq<char>|
                k != key@ ==> #[trigger] final (self).has_key(k) == old(self).has_key(k),
            forall|k: Seq<char>|
                k != key@ && old(self).has_key(k) ==> #[trigger] final (self).gifts_at(k) == old(
                    self,
                ).gifts_at(k),
            final (self).total_count() == old(self).total_count() + 1,
    {
        proof {
            use_type_invariant(&*self);
        }
        let idx = position_of(&self.entries, key.as_str());
        match idx {
            Option::Some(i) => {
                proof {
                    lemma_find_at_from(self.entries@, key@, i as int);
                }
                let e = &self.entries[i];
                let mut gs: Vec<CachedGift> = Vec::new();
                let m = e.gifts.len();
                let mut p: usize = 0;
                while p < m
                    invariant
                        m == e.gifts@.len(),
                        p <= m,
                        gs@ == e.gifts@.take(p as int),
                    decreases m - p,
                {
                    gs.push(e.gifts[p].dup());
                    proof {
                        assert(e.gifts@.take(p + 1 as int) =~= e.gifts@.take(p as int).push(
                            e.gifts@[p as int],
                        ));
                    }
                    p = p + 1;
                }
                proof {
                    assert(e.gifts@.take(m as int) =~= e.gifts@);
                }
                gs.push(gift);
                self.set(key, gs);
            },
            Option::None => {
                proof {
                    lemma_find_at_props(self.entries@, key@);
                }
                let mut gs: Vec<CachedGift> = Vec::new();
                gs.push(gift);
                proof {
                    assert(gs@ =~= seq![gift]);
                }
                self.set(key, gs);
            },
        }
    }

    /// Drops the entry under `key`, if any.
    pub fn remove(&mut self, key: &str)
        ensures
            final (self).spec_ttl() == old(self).spec_ttl(),
            !final (self).has_key(key@),
            forall|k: Seq<char>|
                k != key@ ==> #[trigger] final (self).has_key(k) == old(self).has_key(k),
            forall|k: Seq<char>|
                k != key@ && old(self).has_key(k) ==> #[trigger] final (self).gifts_at(k) == old(
                    self,
                ).gifts_at(k),
            final (self).total_count() == old(self).total_count() - (if old(self).has_key(key@) {
                old(self).gifts_at(key@).len() as int
            } else {
                0
            }),
    {
        proof {
            use_type_invariant(&*self);
        }
        let ghost old_es = self.entries@;
        let idx = position_of(&self.entries, key);
        match idx {
            Option::Some(i) => {
                proof {
                    lemma_find_at_from(old_es, key@, i as int);
                    lemma_total_remove(old_es, i as int);
                }
                let mut es: Vec<CacheEntry> = Vec::new();
                core::mem::swap(&mut es, &mut self.entries);
                es.remove(i);
                let ghost new_es = es@;
                proof {
                    assert(forall|j: int|
                        0 <= j < i ==> (#[trigger] new_es[j]) == old_es[j]);
                    assert(forall|j: int|
                        i <= j < new_es.len() ==> (#[trigger] new_es[j]) == old_es[j + 1]);
                    assert(forall|j: int|
                        0 <= j < i ==> (#[trigger] new_es[j].query_key@) == old_es[j].query_key@);
                    assert(forall|j: int|
                        i <= j < new_es.len() ==> (#[trigger] new_es[j].query_key@) == old_es[j
                            + 1].query_key@);
                    assert(forall|j: int|
                        0 <= j < i ==> (#[trigger] old_es[j].query_key@) == new_es[j].query_key@);
                    assert(forall|j: int|
                        i < j < old_es.len() ==> (#[trigger] old_es[j].query_key@) == new_es[j
                            - 1].query_key@);
                    lemma_find_at_props(new_es, key@);
                    if find_at(new_es, key@) >= 0 {
                        // a second entry for the key would break uniqueness
                        let p = find_at(new_es, key@);
                        let q: int = if p < i {
                            p
                        } else {
                            p + 1
                        };
                        assert(new_es[p].query_key@ == key@);
                        assert(old_es[q] == new_es[p]);
                        assert(old_es[q].query_key@ == key@);
                        assert(old_es[i as int].query_key@ == key@);
                        assert(q != i);
                        assert(false);
                    }
                    assert forall|k: Seq<char>| k != key@ implies (find_at(new_es, k) >= 0 <==>
                        find_at(old_es, k) >= 0) && (find_at(old_es, k) >= 0 ==> new_es[find_at(
                        new_es,
                        k,
                    )].gifts@ == old_es[find_at(old_es, k)].gifts@) by {
                        lemma_find_at_props(old_es, k);
                        lemma_find_at_props(new_es, k);
                        if find_at(old_es, k) >= 0 {
                            let r = find_at(old_es, k);
                            if r < i {
                                lemma_find_at_from(new_es, k, r);
                            } else {
                                lemma_find_at_from(new_es, k, r - 1);
                            }
                        } else {
                            if find_at(new_es, k) >= 0 {
                                let p = find_at(new_es, k);
                                assert(new_es[p].query_key@ == k);
                                if p < i {
                                    assert(old_es[p].query_key@ == k);
                                } else {
                                    assert(old_es[p + 1].query_key@ == k);
                                }
                                assert(false);
                            }
                        }
                    }
                }
                self.entries = es;
            },
            Option::None => {
                proof {
                    lemma_find_at_props(old_es, key@);
                }
            },
        }
    }

    /// Removes every record that has aged out, drops the entries left
    /// empty, and reports how many records went.  The count saturates at
    /// the machine word, a bound it cannot reach in practice.
    pub fn cleanup_expired(&mut self, now: u64) -> (removed: usize)
        ensures
            final (self).spec_ttl() == old(self).spec_ttl(),
            forall|k: Seq<char>|
                #[trigger] final (self).has_key(k) <==> (old(self).has_key(k) && fresh_gifts(
                    old(self).gifts_at(k),
                    now as int,
                    old(self).spec_ttl(),
                ).len() > 0),
            forall|k: Seq<char>|
                #[trigger] final (self).has_key(k) ==> final (self).gifts_at(k) == fresh_gifts(
                    old(self).gifts_at(k),
                    now as int,
                    old(self).spec_ttl(),
                ),
            final (self).total_count() <= old(self).total_count(),
            removed as int == min_int(
                old(self).total_count() - final (self).total_count(),
                usize::MAX as int,
            ),
    {
        proof {
            use_type_invariant(&*self);
        }
        let ghost old_es = self.entries@;
        let ttl = self.ttl;
        let mut es: Vec<CacheEntry> = Vec::new();
        core::mem::swap(&mut es, &mut self.entries);
        let n = es.len();
        let mut removed: usize = 0;
        let mut j: usize = 0;
        proof {
            assert(forall|k: Seq<char>| find_at(self.entries@, k) == -1);
        }
        while j < n
            invariant
                n == old_es.len(),
                es@ == old_es,
                j <= n,
                self.ttl == ttl,
                forall|i1: int, i2: int|
                    0 <= i1 < i2 < old_es.len() ==> (#[trigger] old_es[i1].query_key@) != (
                    #[trigger] old_es[i2].query_key@),
                forall|k: Seq<char>|
                    #[trigger] self.has_key(k) ==> exists|j2: int|
                        0 <= j2 < j && (#[trigger] old_es[j2].query_key@) == k && fresh_gifts(
                            old_es[j2].gifts@,
                            now as int,
                            ttl as int,
                        ).len() > 0,
                forall|j2: int|
                    0 <= j2 < j && fresh_gifts(
                        (#[trigger] old_es[j2].gifts@),
                        now as int,
                        ttl as int,
                    ).len() > 0 ==> self.has_key(old_es[j2].query_key@) && self.gifts_at(
                        old_es[j2].query_key@,
                    ) == fresh_gifts(old_es[j2].gifts@, now as int, ttl as int),
                self.total_count() <= spec_total(old_es.take(j as int)),
                removed as int == min_int(
                    spec_total(old_es.take(j as int)) - self.total_count(),
                    usize::MAX as int,
                ),
            decreases n - j,
        {
            let e = &es[j];
            let fresh = filter_fresh(&e.gifts, now, ttl);
            let gl = e.gifts.len();
            let fl = fresh.len();
            proof {
                broadcast use vstd::seq_lib::group_seq_properties;
                assert(fresh@.len() <= e.gifts@.len()) by {
                    e.gifts@.lemma_filter_len(
                        |g: CachedGift| g.cached_at <= now as int && now as int - g.cached_at
                            < ttl as int,
                    );
                }
                assert(old_es.take(j + 1 as int) =~= old_es.take(j as int).push(
                    old_es[j as int],
                ));
                lemma_total_push(old_es.take(j as int), old_es[j as int]);
            }
            if fl > 0 {
                proof {
                    if self.has_key(e.query_key@) {
                        let j2 = choose|j2: int|
                            0 <= j2 < j && (#[trigger] old_es[j2].query_key@) == e.query_key@
                                && fresh_gifts(old_es[j2].gifts@, now as int, ttl as int).len()
                                > 0;
                        assert(old_es[j2].query_key@ == old_es[j as int].query_key@);
                        assert(false);
                    }
                }
                self.set(e.query_key.clone(), fresh);
            }
            let d = gl - fl;
            removed = if removed <= usize::MAX - d {
                removed + d
            } else {
                usize::MAX
            };
            j = j + 1;
            proof {
                assert forall|j2: int|
                    0 <= j2 < j && fresh_gifts(
                        (#[trigger] old_es[j2].gifts@),
                        now as int,
                        ttl as int,
                    ).len() > 0 implies self.has_key(old_es[j2].query_key@) && self.gifts_at(
                    old_es[j2].query_key@,
                ) == fresh_gifts(old_es[j2].gifts@, now as int, ttl as int) by {
                    if j2 < j - 1 {
                        assert(old_es[j2].query_key@ != old_es[j - 1].query_key@);
                    }
                }
            }
        }
        proof {
            assert(old_es.take(n as int) =~= old_es);
            assert forall|k: Seq<char>|
                #[trigger] self.has_key(k) <==> (find_at(old_es, k) >= 0 && fresh_gifts(
                    old_es[find_at(old_es, k)].gifts@,
                    now as int,
                    ttl as int,
                ).len() > 0) by {
                lemma_find_at_props(old_es, k);
                if self.has_key(k) {
                    let j2 = choose|j2: int|
                        0 <= j2 < n && (#[trigger] old_es[j2].query_key@) == k && fresh_gifts(
                            old_es[j2].gifts@,
                            now as int,
                            ttl as int,
                        ).len() > 0;
                    if find_at(old_es, k) == -1 {
                        assert(false);
                    }
                    assert(find_at(old_es, k) == j2);
                }
                if find_at(old_es, k) >= 0 && fresh_gifts(
                    old_es[find_at(old_es, k)].gifts@,
                    now as int,
                    ttl as int,
                ).len() > 0 {
                    assert(self.has_key(old_es[find_at(old_es, k)].query_key@));
                }
            }
            assert forall|k: Seq<char>| #[trigger] self.has_key(k) implies self.gifts_at(k)
                == fresh_gifts(
                old_es[find_at(old_es, k)].gifts@,
                now as int,
                ttl as int,
            ) by {
                lemma_find_at_props(old_es, k);
                let j2 = choose|j2: int|
                    0 <= j2 < n && (#[trigger] old_es[j2].query_key@) == k && fresh_gifts(
                        old_es[j2].gifts@,
                        now as int,
                        ttl as int,
                    ).len() > 0;
                assert(find_at(old_es, k) == j2);
            }
        }
        removed
    }

    /// Drops every entry.
    pub fn clear(&mut self)
        ensures
            final (self).spec_ttl() == old(self).spec_ttl(),
            forall|k: Seq<char>| !(#[trigger] final (self).has_key(k)),
            final (self).total_count() == 0,
    {
        self.entries = Vec::new();
        proof {
            assert(forall|k: Seq<char>| find_at(self.entries@, k) == -1);
        }
    }
}

} // verus!
