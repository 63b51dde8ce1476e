//! A bounded key-value store of fetched raw pages. The key is a (query
//! text, integer offset) pair, the value the raw HTML document text. The
//! store holds at most its fixed capacity of entries; storing beyond that
//! evicts the least-recently-used key, and a lookup hit marks its key
//! most-recently-used. Entries are never invalidated otherwise: a stored
//! page is served until capacity pressure evicts it.
//!
//! The entry sequence is kept in recency order, least-recently-used first,
//! and every operation's contract is stated over that sequence of entry
//! views. `spec_lookup` — the key-to-value mapping the sequence denotes —
//! is proved invariant under a lookup, which is what makes a repeated fetch
//! of the same key hit the cache and return identical content.

use vstd::prelude::*;
use vstd::string::StrSliceExecFns;

verus! {

/// Are two strings equal, character for character?
pub fn str_eq(a: &str, b: &str) -> (r: bool)
    ensures
        r == (a@ == b@),
{
    let alen = a.unicode_len();
    let blen = b.unicode_len();
    if alen != blen {
        return false;
    }
    let mut i: usize = 0;
    while i < alen
        invariant
            a@.len() == alen,
            b@.len() == blen,
            alen == blen,
            i <= alen,
            forall|j: int| 0 <= j < i ==> a@[j] == b@[j],
        decreases alen - i,
    {
        if a.get_char(i) != b.get_char(i) {
            return false;
        }
        i = i + 1;
    }
    proof {
        assert(a@ =~= b@);
    }
    true
}

/// One cached page.
pub struct CacheEntry {
    pub query: String,
    pub offset: usize,
    pub body: String,
}

/// The mathematical shape of one cached page.
pub ghost struct EntryView {
    pub query: Seq<char>,
    pub offset: int,
    pub body: Seq<char>,
}

impl View for CacheEntry {
    type V = EntryView;

    open spec fn view(&self) -> EntryView {
        EntryView { query: self.query@, offset: self.offset as int, body: self.body@ }
    }
}

/// Does this entry carry the given key?
pub open spec fn holds_key(e: EntryView, q: Seq<char>, off: int) -> bool {
    e.query == q && e.offset == off
}

/// No two entries carry the same key.
pub open spec fn unique_keys(es: Seq<EntryView>) -> bool {
    forall|i: int, j: int|
        0 <= i < j < es.len() ==> !holds_key(#[trigger] es[j], (#[trigger] es[i]).query, es[i].offset)
}

/// The position of the entry carrying a key, or `None` when no entry does.
pub open spec fn spec_find(es: Seq<EntryView>, q: Seq<char>, off: int) -> Option<int>
    decreases es.len(),
{
    if es.len() == 0 {
        None
    } else if holds_key(es.last(), q, off) {
        Some(es.len() - 1)
    } else {
        spec_find(es.drop_last(), q, off)
    }
}

/// The key-to-value mapping an entry sequence denotes: the body stored
/// under a key, or `None` on a miss.
pub open spec fn spec_lookup(es: Seq<EntryView>, q: Seq<char>, off: int) -> Option<Seq<char>> {
    match spec_find(es, q, off) {
        Some(i) => Some(es[i].body),
        None => None,
    }
}

/// A found position is in range and carries the key; a miss means no
/// position does.
pub proof fn lemma_find_props(es: Seq<EntryView>, q: Seq<char>, off: int)
    ensures
        match spec_find(es, q, off) {
            Some(i) => 0 <= i < es.len() && holds_key(es[i], q, off),
            None => forall|k: int| 0 <= k < es.len() ==> !holds_key(#[trigger] es[k], q, off),
        },
    decreases es.len(),
{
    if es.len() > 0 && !holds_key(es.last(), q, off) {
        lemma_find_props(es.drop_last(), q, off);
        match spec_find(es.drop_last(), q, off) {
            Some(i) => {
                assert(es.drop_last()[i] == es[i]);
            },
            None => {
                assert forall|k: int| 0 <= k < es.len() implies !holds_key(
                    #[trigger] es[k],
                    q,
                    off,
                ) by {
                    if k < es.len() - 1 {
                        assert(es.drop_last()[k] == es[k]);
                        assert(!holds_key(es.drop_last()[k], q, off));
                    }
                }
            },
        }
    }
}

/// Appending an entry makes it the one a search finds for its own key and
/// changes no other key's position.
pub proof fn lemma_find_push(es: Seq<EntryView>, e: EntryView, q: Seq<char>, off: int)
    ensures
        spec_find(es.push(e), q, off) == (if holds_key(e, q, off) {
            Some(es.len() as int)
        } else {
            spec_find(es, q, off)
        }),
{
    assert(es.push(e).drop_last() =~= es);
}

/// Dropping the last entry preserves key uniqueness.
pub proof fn lemma_unique_drop_last(es: Seq<EntryView>)
    requires
        unique_keys(es),
        es.len() > 0,
    ensures
        unique_keys(es.drop_last()),
{
}

/// Removing one entry removes exactly its key from the mapping: a search
/// for that key now misses, and every other key still maps to the same
/// body.
pub proof fn lemma_lookup_remove(es: Seq<EntryView>, i: int, q: Seq<char>, off: int)
    requires
        unique_keys(es),
        0 <= i < es.len(),
    ensures
        spec_lookup(es.remove(i), q, off) == (if holds_key(es[i], q, off) {
            None::<Seq<char>>
        } else {
            spec_lookup(es, q, off)
        }),
    decreases es.len(),
{
    lemma_find_props(es, q, off);
    lemma_find_props(es.remove(i), q, off);
    if i == es.len() - 1 {
        assert(es.remove(i) =~= es.drop_last());
        if holds_key(es[i], q, off) {
            assert forall|k: int| 0 <= k < es.drop_last().len() implies !holds_key(
                #[trigger] es.drop_last()[k],
                q,
                off,
            ) by {
                assert(es.drop_last()[k] == es[k]);
            }
            lemma_find_props(es.drop_last(), q, off);
        }
    } else {
        assert(es.remove(i).last() == es.last());
        assert(es.remove(i).drop_last() =~= es.drop_last().remove(i));
        lemma_unique_drop_last(es);
        lemma_lookup_remove(es.drop_last(), i, q, off);
        if holds_key(es.last(), q, off) {
            assert(!holds_key(es[i], q, off));
        }
    }
}

/// An entry's own key maps to its body.
pub proof fn lemma_lookup_at(es: Seq<EntryView>, i: int)
    requires
        unique_keys(es),
        0 <= i < es.len(),
    ensures
        spec_lookup(es, es[i].query, es[i].offset) == Some(es[i].body),
    decreases es.len(),
{
    lemma_find_props(es, es[i].query, es[i].offset);
    match spec_find(es, es[i].query, es[i].offset) {
        Some(j) => {
            if i != j {
                assert(holds_key(es[j], es[i].query, es[i].offset));
                assert(false);
            }
        },
        None => {
            assert(!holds_key(es[i], es[i].query, es[i].offset));
            assert(false);
        },
    }
}

/// Marking an entry most-recently-used — moving it to the end — leaves the
/// key-to-value mapping untouched.
pub proof fn lemma_lookup_refresh(es: Seq<EntryView>, i: int, q: Seq<char>, off: int)
    requires
        unique_keys(es),
        0 <= i < es.len(),
    ensures
        spec_lookup(es.remove(i).push(es[i]), q, off) == spec_lookup(es, q, off),
{
    lemma_find_push(es.remove(i), es[i], q, off);
    lemma_lookup_remove(es, i, q, off);
    if holds_key(es[i], q, off) {
        lemma_lookup_at(es, i);
        assert(es[i].query == q && es[i].offset == off);
        assert(spec_lookup(es.remove(i).push(es[i]), q, off) == Some(es[i].body));
    } else {
        let rem = es.remove(i);
        lemma_find_props(rem, q, off);
        match spec_find(rem, q, off) {
            Some(j) => {
                assert(rem.push(es[i])[j] == rem[j]);
            },
            None => {
            },
        }
    }
}

/// The bounded, recency-ordered store of fetched pages.
pub struct PageCache {
    entries: Vec<CacheEntry>,
    capacity: usize,
}

impl PageCache {
    /// The stored entries as views, least-recently-used first.
    pub closed spec fn entries(self) -> Seq<EntryView> {
        self.entries@.map_values(|e: CacheEntry| e@)
    }

    /// The bound the store was constructed with.
    pub closed spec fn capacity(self) -> int {
        self.capacity as int
    }

    /// The store never exceeds its (positive) capacity and never holds two
    /// entries under one key.
    pub open spec fn wf(self) -> bool {
        self.capacity() >= 1 && self.entries().len() <= self.capacity() && unique_keys(
            self.entries(),
        )
    }

    /// An empty store with the given capacity.
    pub fn new(capacity: usize) -> (r: PageCache)
        requires
            capacity >= 1,
        ensures
            r.wf(),
            r.entries() == Seq::<EntryView>::empty(),
            r.capacity() == capacity,
    {
        let r = PageCache { entries: Vec::new(), capacity };
        proof {
            assert(r.entries() =~= Seq::<EntryView>::empty());
        }
        r
    }

    /// How many pages are stored.
    pub fn len(&self) -> (r: usize)
        ensures
            r == self.entries().len(),
    {
        self.entries.len()
    }

    /// The position of the entry carrying the key, by linear scan.
    fn find_index(&self, query: &str, offset: usize) -> (r: Option<usize>)
        requires
            self.wf(),
        ensures
            r matches Some(i) ==> 0 <= i < self.entries().len() && holds_key(
                self.entries()[i as int],
                query@,
                offset as int,
            ),
            r is None ==> spec_find(self.entries(), query@, offset as int) is None,
    {
        let n = self.entries.len();
        let mut i: usize = 0;
        while i < n
            invariant
                self.wf(),
                n == self.entries().len(),
                i <= n,
                forall|j: int| 0 <= j < i ==> !holds_key(#[trigger] self.entries()[j], query@, offset as int),
            decreases n - i,
        {
            let e = &self.entries[i];
            if e.offset == offset && str_eq(e.query.as_str(), query) {
                return Some(i);
            }
            i = i + 1;
        }
        proof {
            lemma_find_props(self.entries(), query@, offset as int);
        }
        None
    }

    /// Look a key up. On a hit the stored body comes back and the key is
    /// marked most-recently-used; on a miss nothing changes. Either way the
    /// key-to-value mapping of the store is exactly what it was.
    pub fn lookup(&mut self, query: &str, offset: usize) -> (r: Option<String>)
        requires
            old(self).wf(),
        ensures
            final(self).wf(),
            final(self).capacity() == old(self).capacity(),
            r.deep_view() == spec_lookup(old(self).entries(), query@, offset as int),
            forall|q: Seq<char>, off: int|
                spec_lookup(final(self).entries(), q, off) == spec_lookup(
                    old(self).entries(),
                    q,
                    off,
                ),
            r is None ==> final(self).entries() == old(self).entries(),
            r is Some ==> exists|i: int|
                0 <= i < old(self).entries().len() && holds_key(
                    old(self).entries()[i],
                    query@,
                    offset as int,
                ) && final(self).entries() == old(self).entries().remove(i).push(
                    old(self).entries()[i],
                ),
    {
        let found = self.find_index(query, offset);
        match found {
            Some(i) => {
                let ghost es = self.entries();
                let ghost gi = i as int;
                let e = self.entries.remove(i);
                let body = e.body.clone();
                self.entries.push(e);
                proof {
                    assert(self.entries() =~= es.remove(gi).push(es[gi]));
                    lemma_lookup_at(es, gi);
                    assert forall|q: Seq<char>, off: int|
                        spec_lookup(self.entries(), q, off) == spec_lookup(es, q, off) by {
                        lemma_lookup_refresh(es, gi, q, off);
                    }
                    assert(unique_keys(self.entries())) by {
                        lemma_find_props(self.entries(), es[gi].query, es[gi].offset);
                        assert forall|a: int, b: int|
                            0 <= a < b < self.entries().len() implies !holds_key(
                            #[trigger] self.entries()[b],
                            (#[trigger] self.entries()[a]).query,
                            self.entries()[a].offset,
                        ) by {
                            let n = es.len();
                            let ea = if a < gi { es[a] } else if a < n - 1 { es[a + 1] } else { es[gi] };
                            let eb = if b < gi { es[b] } else if b < n - 1 { es[b + 1] } else { es[gi] };
                            assert(self.entries()[a] == ea);
                            assert(self.entries()[b] == eb);
                        }
                    }
                }
                Some(body)
            },
            None => {
                proof {
                    lemma_find_props(self.entries(), query@, offset as int);
                }
                None
            },
        }
    }

    /// Store a body under a key: any entry already carrying the key is
    /// replaced, the key becomes most-recently-used, and when the store
    /// would exceed its capacity the least-recently-used entry is evicted.
    /// Afterwards the key maps to exactly this body.
    pub fn store(&mut self, query: &str, offset: usize, body: String)
        requires
            old(self).wf(),
        ensures
            final(self).wf(),
            final(self).capacity() == old(self).capacity(),
            spec_lookup(final(self).entries(), query@, offset as int) == Some(body@),
            final(self).entries() == spec_store(
                old(self).entries(),
                EntryView { query: query@, offset: offset as int, body: body@ },
                old(self).capacity(),
            ),
    {
        let ghost es = self.entries();
        let ghost ev = EntryView { query: query@, offset: offset as int, body: body@ };
        let found = self.find_index(query, offset);
        if let Some(i) = found {
            let ghost gi = i as int;
            let _ = self.entries.remove(i);
            proof {
                assert(self.entries() =~= es.remove(gi));
                lemma_find_props(es, query@, offset as int);
                assert(spec_find(es, query@, offset as int) == Some(gi)) by {
                    lemma_find_props(es, query@, offset as int);
                    let f = spec_find(es, query@, offset as int);
                    if f is None {
                        assert(!holds_key(es[gi], query@, offset as int));
                        assert(false);
                    } else {
                        let j = f->Some_0;
                        if j != gi {
                            assert(holds_key(es[j], query@, offset as int));
                            assert(holds_key(es[gi], query@, offset as int));
                            assert(false);
                        }
                    }
                }
                assert(unique_keys(es.remove(gi))) by {
                    lemma_unique_remove(es, gi);
                }
            }
        } else {
            proof {
                lemma_find_props(es, query@, offset as int);
            }
        }
        let ghost base = self.entries();
        self.entries.push(CacheEntry { query: query.to_owned(), offset, body });
        proof {
            assert(self.entries() =~= base.push(ev));
        }
        if self.entries.len() > self.capacity {
            let ghost pushed = self.entries();
            let _ = self.entries.remove(0);
            proof {
                assert(self.entries() =~= pushed.subrange(1, pushed.len() as int));
            }
        }
        proof {
            assert(self.entries().last() == ev);
            assert(unique_keys(base.push(ev))) by {
                lemma_find_props(base, query@, offset as int);
            }
            assert(unique_keys(self.entries()));
            assert(self.entries() == spec_store(es, ev, old(self).capacity()));
        }
    }
}

/// Removing any one entry preserves key uniqueness.
pub proof fn lemma_unique_remove(es: Seq<EntryView>, i: int)
    requires
        unique_keys(es),
        0 <= i < es.len(),
    ensures
        unique_keys(es.remove(i)),
{
    assert forall|a: int, b: int|
        0 <= a < b < es.remove(i).len() implies !holds_key(
        #[trigger] es.remove(i)[b],
        (#[trigger] es.remove(i)[a]).query,
        es.remove(i)[a].offset,
    ) by {
        let ea = if a < i { es[a] } else { es[a + 1] };
        let eb = if b < i { es[b] } else { es[b + 1] };
        assert(es.remove(i)[a] == ea);
        assert(es.remove(i)[b] == eb);
    }
}

/// Idempotent cache hit: when an entry carries a key, a lookup of that key
/// returns exactly that entry's body, and — since a hit only moves the entry
/// to the most-recently-used end — a lookup of the same key on the resulting
/// store returns the identical body again. A fetch therefore never reaches
/// the network twice for one key: the second call is answered from the
/// store, with the content the first call put there.
pub proof fn lemma_cache_hit_idempotent(es: Seq<EntryView>, i: int, q: Seq<char>, off: int)
    requires
        unique_keys(es),
        0 <= i < es.len(),
        holds_key(es[i], q, off),
    ensures
        spec_lookup(es, q, off) == Some(es[i].body),
        spec_lookup(es.remove(i).push(es[i]), q, off) == Some(es[i].body),
{
    lemma_lookup_at(es, i);
    assert(es[i].query == q && es[i].offset == off);
    lemma_lookup_refresh(es, i, q, off);
}

/// What storing an entry does to the recency sequence: the entry replaces
/// any entry already carrying its key and goes to the most-recently-used
/// end, and the least-recently-used entry leaves when the sequence would
/// exceed the capacity.
pub open spec fn spec_store(es: Seq<EntryView>, e: EntryView, cap: int) -> Seq<EntryView> {
    let base = match spec_find(es, e.query, e.offset) {
        Some(i) => es.remove(i),
        None => es,
    };
    let pushed = base.push(e);
    if pushed.len() > cap {
        pushed.subrange(1, pushed.len() as int)
    } else {
        pushed
    }
}

} // verus!
