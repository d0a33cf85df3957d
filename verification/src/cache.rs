//! The bounded count cache.
//!
//! Each entity kind keeps a small key-to-count cache, read-through and
//! never proactively invalidated: the archive only changes between runs of
//! the separate ingestion process, so staleness after an external write is
//! an accepted trade-off of this design, not a correctness bug. The bound
//! is a performance knob; when a cache is full the oldest entry leaves.

use vstd::prelude::*;

use crate::category::CategoryKind;
use crate::search::{PostOrderBy, SearchQuery, raw_author_ids, raw_collection_ids, raw_platform_ids, raw_tag_ids};

verus! {

/// The flattened filter signature a cached search total is keyed by.
#[derive(Debug)]
pub struct SearchKey {
    pub search: String,
    pub tags: Vec<u32>,
    pub collections: Vec<u32>,
    pub authors: Vec<u32>,
    pub platforms: Vec<u32>,
    pub order_by: PostOrderBy,
}

impl View for SearchKey {
    type V = (Seq<char>, Seq<u32>, Seq<u32>, Seq<u32>, Seq<u32>, PostOrderBy);

    open spec fn view(&self) -> Self::V {
        (self.search@, self.tags@, self.collections@, self.authors@, self.platforms@, self.order_by)
    }
}

/// The cache key one search's total lives under: the full filter
/// signature.
pub open spec fn search_cache_key(q: SearchQuery) -> CountKeyV {
    CountKeyV::Search(q.sig())
}

/// Flattens a search query into the key its total is cached by.
pub fn search_key_of(q: &SearchQuery) -> (r: SearchKey)
    ensures
        r@ == q.sig(),
{
    SearchKey {
        search: q.search.clone(),
        tags: raw_tag_ids(&q.tags),
        collections: raw_collection_ids(&q.collections),
        authors: raw_author_ids(&q.authors),
        platforms: raw_platform_ids(&q.platforms),
        order_by: q.order_by,
    }
}

/// A key a count can be cached under: a whole table's unfiltered total, a
/// single category row's post total, or a full search filter signature.
#[derive(Debug)]
pub enum CountKey {
    Table(CategoryKind),
    Id(u32),
    Search(SearchKey),
}

/// The mathematical value of a [`CountKey`].
pub enum CountKeyV {
    Table(CategoryKind),
    Id(u32),
    Search((Seq<char>, Seq<u32>, Seq<u32>, Seq<u32>, Seq<u32>, PostOrderBy)),
}

impl View for CountKey {
    type V = CountKeyV;

    open spec fn view(&self) -> CountKeyV {
        match self {
            CountKey::Table(k) => CountKeyV::Table(*k),
            CountKey::Id(i) => CountKeyV::Id(*i),
            CountKey::Search(s) => CountKeyV::Search(s@),
        }
    }
}

fn u32_vec_eq(a: &Vec<u32>, b: &Vec<u32>) -> (r: bool)
    ensures
        r == (a@ == b@),
{
    if a.len() != b.len() {
        proof {
            assert(a@ != b@) by {
                assert(a@.len() != b@.len());
            };
        }
        return false;
    }
    let mut i: usize = 0;
    while i < a.len()
        invariant
            i <= a.len(),
            a@.len() == b@.len(),
            forall|j: int| 0 <= j < i ==> a@[j] == b@[j],
        decreases a.len() - i,
    {
        if a[i] != b[i] {
            return false;
        }
        i = i + 1;
    }
    proof {
        assert(a@ =~= b@);
    }
    true
}

fn search_key_eq(a: &SearchKey, b: &SearchKey) -> (r: bool)
    ensures
        r == (a@ == b@),
{
    a.search == b.search && u32_vec_eq(&a.tags, &b.tags) && u32_vec_eq(
        &a.collections,
        &b.collections,
    ) && u32_vec_eq(&a.authors, &b.authors) && u32_vec_eq(&a.platforms, &b.platforms)
        && a.order_by == b.order_by
}

fn count_key_eq(a: &CountKey, b: &CountKey) -> (r: bool)
    ensures
        r == (a@ == b@),
{
    match (a, b) {
        (CountKey::Table(x), CountKey::Table(y)) => x == y,
        (CountKey::Id(x), CountKey::Id(y)) => x == y,
        (CountKey::Search(x), CountKey::Search(y)) => search_key_eq(x, y),
        _ => false,
    }
}

/// Every key of `post` other than `kv` was already bound in `pre`, to the
/// same count: an update never corrupts an unrelated cached count.
pub open spec fn preserves_others(
    pre: Map<CountKeyV, u64>,
    post: Map<CountKeyV, u64>,
    kv: CountKeyV,
) -> bool {
    forall|k2: CountKeyV| #![trigger post.contains_key(k2)]
        post.contains_key(k2) && k2 != kv ==> pre.contains_key(k2) && post[k2] == pre[k2]
}

/// No two entries share a key.
pub open spec fn distinct_keys(s: Seq<(CountKey, u64)>) -> bool {
    forall|i: int, j: int| 0 <= i < j < s.len() ==> s[i].0@ != s[j].0@
}

/// The key-to-count map an entry list denotes.
pub open spec fn map_of(s: Seq<(CountKey, u64)>) -> Map<CountKeyV, u64>
    decreases s.len(),
{
    if s.len() == 0 {
        Map::empty()
    } else {
        map_of(s.drop_last()).insert(s.last().0@, s.last().1)
    }
}

proof fn lemma_map_of_index(s: Seq<(CountKey, u64)>, i: int)
    requires
        distinct_keys(s),
        0 <= i < s.len(),
    ensures
        map_of(s).contains_key(s[i].0@),
        map_of(s)[s[i].0@] == s[i].1,
    decreases s.len(),
{
    if i == s.len() - 1 {
    } else {
        assert(s.drop_last()[i] == s[i]);
        lemma_map_of_index(s.drop_last(), i);
        assert(s[i].0@ != s.last().0@);
    }
}

proof fn lemma_map_of_absent(s: Seq<(CountKey, u64)>, kv: CountKeyV)
    requires
        forall|j: int| 0 <= j < s.len() ==> s[j].0@ != kv,
    ensures
        !map_of(s).contains_key(kv),
    decreases s.len(),
{
    if s.len() > 0 {
        lemma_map_of_absent(s.drop_last(), kv);
    }
}

proof fn lemma_map_of_entry(s: Seq<(CountKey, u64)>, kv: CountKeyV)
    requires
        map_of(s).contains_key(kv),
    ensures
        exists|i: int|
            0 <= i < s.len() && #[trigger] s[i].0@ == kv && s[i].1 == map_of(s)[kv],
    decreases s.len(),
{
    if s.last().0@ == kv {
        assert(s[s.len() - 1].0@ == kv && s[s.len() - 1].1 == map_of(s)[kv]);
    } else {
        lemma_map_of_entry(s.drop_last(), kv);
        let i = choose|i: int|
            0 <= i < s.drop_last().len() && #[trigger] s.drop_last()[i].0@ == kv && s.drop_last()[
                i
            ].1 == map_of(s.drop_last())[kv];
        assert(s[i].0@ == kv && s[i].1 == map_of(s)[kv]);
    }
}

/// A bounded key-to-count cache with read-through discipline: on a miss the
/// caller computes the count and stores it. Entries leave only by eviction,
/// oldest first, once the bound is reached.
#[derive(Debug)]
pub struct CountCache {
    capacity: usize,
    entries: Vec<(CountKey, u64)>,
}

impl CountCache {
    /// The cache is well formed: a positive bound the entry list respects,
    /// and no key stored twice.
    pub closed spec fn wf(&self) -> bool {
        &&& self.capacity >= 1
        &&& self.entries@.len() <= self.capacity
        &&& distinct_keys(self.entries@)
    }

    /// The map of cached counts.
    pub closed spec fn view(&self) -> Map<CountKeyV, u64> {
        map_of(self.entries@)
    }

    /// An empty cache that holds at most `capacity` counts.
    pub fn new(capacity: usize) -> (r: CountCache)
        requires
            capacity >= 1,
        ensures
            r.wf(),
            r@ == Map::<CountKeyV, u64>::empty(),
    {
        CountCache { capacity, entries: Vec::new() }
    }

    /// Looks a key up: `Some` exactly when the key is cached, holding the
    /// cached count.
    pub fn lookup(&self, k: &CountKey) -> (r: Option<u64>)
        requires
            self.wf(),
        ensures
            match r {
                Some(v) => self@.contains_key(k@) && self@[k@] == v,
                None => !self@.contains_key(k@),
            },
    {
        let mut i: usize = 0;
        while i < self.entries.len()
            invariant
                self.wf(),
                i <= self.entries@.len(),
                forall|j: int| 0 <= j < i ==> self.entries@[j].0@ != k@,
            decreases self.entries@.len() - i,
        {
            if count_key_eq(&self.entries[i].0, k) {
                proof {
                    lemma_map_of_index(self.entries@, i as int);
                }
                return Some(self.entries[i].1);
            }
            i = i + 1;
        }
        proof {
            lemma_map_of_absent(self.entries@, k@);
        }
        None
    }

    /// Stores a count under a key. Afterwards the key holds exactly this
    /// count; every other key the cache then holds was already cached with
    /// the same count (storing may evict the oldest entry, never corrupt
    /// one).
    pub fn store(&mut self, k: CountKey, v: u64)
        requires
            old(self).wf(),
        ensures
            final(self).wf(),
            final(self)@.contains_key(k@),
            final(self)@[k@] == v,
            preserves_others(old(self)@, final(self)@, k@),
    {
        let ghost kv = k@;
        let ghost s0 = self.entries@;
        let mut i: usize = 0;
        while i < self.entries.len()
            invariant
                self.wf(),
                self.entries@ == s0,
                s0 == old(self).entries@,
                self.capacity == old(self).capacity,
                i <= self.entries@.len(),
                forall|j: int| 0 <= j < i ==> self.entries@[j].0@ != kv,
                kv == k@,
            decreases self.entries@.len() - i,
        {
            if count_key_eq(&self.entries[i].0, &k) {
                self.entries[i] = (k, v);
                proof {
                    let s1 = self.entries@;
                    assert(s1 == s0.update(i as int, s1[i as int]));
                    assert(s1[i as int].0@ == kv && s1[i as int].1 == v);
                    assert(distinct_keys(s1)) by {
                        assert forall|a: int, b: int| 0 <= a < b < s1.len() implies s1[a].0@
                            != s1[b].0@ by {
                            assert(s0[a].0@ != s0[b].0@);
                            if a != i && b != i {
                                assert(s1[a] == s0[a] && s1[b] == s0[b]);
                            }
                        };
                    };
                    lemma_map_of_index(s1, i as int);
                    assert(old(self)@ == map_of(s0));
                    assert(self@ == map_of(s1));
                    assert forall|k2: CountKeyV|
                        map_of(s1).contains_key(k2) && k2 != kv implies map_of(s0).contains_key(
                        k2,
                    ) && #[trigger] map_of(s1)[k2] == map_of(s0)[k2] by {
                        lemma_map_of_entry(s1, k2);
                        let e = choose|e: int|
                            0 <= e < s1.len() && #[trigger] s1[e].0@ == k2 && s1[e].1 == map_of(
                                s1,
                            )[k2];
                        assert(e != i);
                        assert(s1[e] == s0[e]);
                        lemma_map_of_index(s0, e);
                    };
                    assert forall|k2: CountKeyV| #![trigger self@.contains_key(k2)]
                        self@.contains_key(k2) && k2 != k@ implies old(self)@.contains_key(k2)
                        && self@[k2] == old(self)@[k2] by {
                        assert(map_of(s1).contains_key(k2) && k2 != kv);
                        assert(map_of(s1)[k2] == map_of(s0)[k2]);
                    };
                    assert(preserves_others(old(self)@, self@, k@));
                }
                return ;
            }
            i = i + 1;
        }
        proof {
            assert(forall|j: int| 0 <= j < s0.len() ==> s0[j].0@ != kv);
            lemma_map_of_absent(s0, kv);
        }
        if self.entries.len() >= self.capacity {
            self.entries.remove(0);
            proof {
                let s1 = self.entries@;
                assert(forall|j: int| 0 <= j < s1.len() ==> s1[j] == s0[j + 1]);
            }
        }
        let ghost s1 = self.entries@;
        proof {
            assert(forall|j: int| 0 <= j < s1.len() ==> s1[j].0@ != kv);
            assert(distinct_keys(s1)) by {
                assert forall|a: int, b: int| 0 <= a < b < s1.len() implies s1[a].0@ != s1[b].0@
                    by {
                    if s1.len() < s0.len() {
                        assert(s1[a] == s0[a + 1] && s1[b] == s0[b + 1]);
                    }
                };
            };
            assert(s1.len() < self.capacity || s1.len() + 1 <= self.capacity);
        }
        self.entries.push((k, v));
        proof {
            let s2 = self.entries@;
            assert(s2.drop_last() =~= s1);
            assert(s2.last() == (k, v));
            assert(distinct_keys(s2)) by {
                assert forall|a: int, b: int| 0 <= a < b < s2.len() implies s2[a].0@ != s2[b].0@
                    by {
                    if b == s2.len() - 1 {
                        assert(s2[a] == s1[a]);
                        assert(s1[a].0@ != kv);
                    } else {
                        assert(s2[a] == s1[a] && s2[b] == s1[b]);
                    }
                };
            };
            assert(map_of(s2) == map_of(s1).insert(kv, v));
            assert(old(self)@ == map_of(s0));
            assert(self@ == map_of(s2));
            assert forall|k2: CountKeyV|
                map_of(s2).contains_key(k2) && k2 != kv implies map_of(s0).contains_key(k2)
                && #[trigger] map_of(s2)[k2] == map_of(s0)[k2] by {
                assert(map_of(s2).contains_key(k2) && map_of(s2)[k2] == map_of(s1)[k2]);
                lemma_map_of_entry(s1, k2);
                let e = choose|e: int|
                    0 <= e < s1.len() && #[trigger] s1[e].0@ == k2 && s1[e].1 == map_of(s1)[k2];
                if s1.len() < s0.len() {
                    assert(s1[e] == s0[e + 1]);
                    lemma_map_of_index(s0, e + 1);
                } else {
                    assert(s1[e] == s0[e]);
                    lemma_map_of_index(s0, e);
                }
            };
            assert forall|k2: CountKeyV| #![trigger self@.contains_key(k2)]
                self@.contains_key(k2) && k2 != k@ implies old(self)@.contains_key(k2)
                && self@[k2] == old(self)@[k2] by {
                assert(map_of(s2).contains_key(k2) && k2 != kv);
                assert(map_of(s2)[k2] == map_of(s0)[k2]);
            };
            assert(preserves_others(old(self)@, self@, k@));
        }
    }
}

/// One bounded count cache per entity kind, plus one for whole tables and
/// one for compound search totals. The bounds mirror how often each kind of
/// key recurs; they are performance knobs, not correctness limits.
#[derive(Debug)]
pub struct Caches {
    pub tables: CountCache,
    pub tags: CountCache,
    pub authors: CountCache,
    pub platforms: CountCache,
    pub collections: CountCache,
    pub search: CountCache,
}

impl Caches {
    /// All six caches are well formed.
    pub open spec fn wf(&self) -> bool {
        &&& self.tables.wf()
        &&& self.tags.wf()
        &&& self.authors.wf()
        &&& self.platforms.wf()
        &&& self.collections.wf()
        &&& self.search.wf()
    }

    /// Six empty caches at their configured bounds.
    pub fn new() -> (r: Caches)
        ensures
            r.wf(),
            r.tables@ == Map::<CountKeyV, u64>::empty(),
            r.tags@ == Map::<CountKeyV, u64>::empty(),
            r.authors@ == Map::<CountKeyV, u64>::empty(),
            r.platforms@ == Map::<CountKeyV, u64>::empty(),
            r.collections@ == Map::<CountKeyV, u64>::empty(),
            r.search@ == Map::<CountKeyV, u64>::empty(),
    {
        Caches {
            tables: CountCache::new(5),
            tags: CountCache::new(8),
            authors: CountCache::new(16),
            platforms: CountCache::new(4),
            collections: CountCache::new(8),
            search: CountCache::new(32),
        }
    }
}

} // verus!
