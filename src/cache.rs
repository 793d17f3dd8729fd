//! The cache store: JSON text under string keys, each entry with an expiry instant
//! (epoch seconds), single-key delete, and bulk delete by prefix pattern.
use vstd::prelude::*;
use crate::node::{lookup, pairs_view};

verus! {

/// A cached value and the instant from which it is expired.
#[derive(Debug)]
pub struct CacheEntry {
    pub value: String,
    pub expires_at: u64,
}

impl View for CacheEntry {
    type V = (Seq<char>, u64);

    open spec fn view(&self) -> (Seq<char>, u64) {
        (self.value@, self.expires_at)
    }
}

/// Whether `key` falls under `pattern`: a pattern that ends in `*` covers every key
/// that starts with what precedes the `*`; any other pattern covers itself alone.
pub open spec fn pattern_matches(pattern: Seq<char>, key: Seq<char>) -> bool {
    if pattern.len() > 0 && pattern.last() == '*' {
        let prefix = pattern.drop_last();
        prefix.len() <= key.len() && key.take(prefix.len() as int) == prefix
    } else {
        key == pattern
    }
}

/// The instant at which an entry written at `now` with `ttl` seconds expires.
pub open spec fn expiry(now: u64, ttl: u64) -> u64 {
    if now + ttl > u64::MAX { u64::MAX } else { (now + ttl) as u64 }
}

pub type CacheMap = Map<Seq<char>, (Seq<char>, u64)>;

/// What a read of `key` at `now` sees: the value of an entry that has not expired.
pub open spec fn live_value(m: CacheMap, key: Seq<char>, now: u64) -> Option<Seq<char>> {
    if m.contains_key(key) && now < m[key].1 {
        Some(m[key].0)
    } else {
        None
    }
}

/// The entries whose keys do not fall under `pattern`: what a bulk delete leaves.
pub open spec fn without_pattern(m: CacheMap, pattern: Seq<char>) -> CacheMap {
    m.restrict(m.dom().filter(|k: Seq<char>| !pattern_matches(pattern, k)))
}

pub open spec fn map_of(s: Seq<(Seq<char>, (Seq<char>, u64))>) -> CacheMap {
    Map::new(|k: Seq<char>| lookup(s, k) is Some, |k: Seq<char>| lookup(s, k)->Some_0)
}

proof fn lemma_lookup_push<V>(s: Seq<(Seq<char>, V)>, x: (Seq<char>, V), k: Seq<char>)
    ensures
        lookup(s.push(x), k) == (if lookup(s, k) is Some {
            lookup(s, k)
        } else if x.0 == k {
            Some(x.1)
        } else {
            None
        }),
    decreases s.len(),
{
    if s.len() > 0 {
        assert(s.push(x)[0] == s[0]);
        assert(s.push(x).drop_first() =~= s.drop_first().push(x));
        lemma_lookup_push(s.drop_first(), x, k);
    } else {
        assert(s.push(x)[0] == x);
        assert(s.push(x).drop_first() =~= Seq::<(Seq<char>, V)>::empty());
        assert(lookup(Seq::<(Seq<char>, V)>::empty(), k) is None);
    }
}

/// A model of the cache store's contract, held in this process: the same `get`, `set`,
/// `delete` and `delete_all`, with the clock passed in. The service itself keeps its
/// cache in Redis; this model is what the tests and the laws below run against, and
/// what the laws say of the store holds of Redis only as far as Redis keeps that
/// contract.
pub struct MemoryCache {
    entries: Vec<(String, CacheEntry)>,
}

impl View for MemoryCache {
    type V = CacheMap;

    closed spec fn view(&self) -> CacheMap {
        map_of(pairs_view(self.entries@))
    }
}

/// Whether two strings are equal, character by character.
pub fn str_eq(a: &str, b: &str) -> (r: bool)
    ensures
        r == (a@ == b@),
{
    let n = a.unicode_len();
    if n != b.unicode_len() {
        return false;
    }
    let mut i: usize = 0;
    while i < n
        invariant
            n == a@.len(),
            n == b@.len(),
            i <= n,
            forall|j: int| 0 <= j < i ==> a@[j] == b@[j],
        decreases n - i,
    {
        if a.get_char(i) != b.get_char(i) {
            return false;
        }
        i = i + 1;
    }
    assert(a@ =~= b@);
    true
}

/// Whether `key` falls under `pattern` (see `pattern_matches`).
pub fn matches_pattern(pattern: &str, key: &str) -> (r: bool)
    ensures
        r == pattern_matches(pattern@, key@),
{
    let pl = pattern.unicode_len();
    if pl > 0 && pattern.get_char(pl - 1) == '*' {
        let m = pl - 1;
        let kl = key.unicode_len();
        if m > kl {
            return false;
        }
        let mut i: usize = 0;
        while i < m
            invariant
                m == pattern@.len() - 1,
                m <= key@.len(),
                i <= m,
                forall|j: int| 0 <= j < i ==> pattern@[j] == key@[j],
            decreases m - i,
        {
            if pattern.get_char(i) != key.get_char(i) {
                assert(key@.take(m as int)[i as int] != pattern@.drop_last()[i as int]);
                return false;
            }
            i = i + 1;
        }
        assert(key@.take(m as int) =~= pattern@.drop_last());
        true
    } else {
        str_eq(key, pattern)
    }
}

/// Whether an entry named `k` stays when `pattern` is deleted: as a single key where
/// `exact`, as a pattern otherwise.
pub open spec fn survives(pattern: Seq<char>, exact: bool, k: Seq<char>) -> bool {
    if exact {
        k != pattern
    } else {
        !pattern_matches(pattern, k)
    }
}

/// The entries of `s` that survive the deletion of `pattern`, in order.
fn retain_surviving(s: Vec<(String, CacheEntry)>, pattern: &str, exact: bool) -> (r: Vec<(String, CacheEntry)>)
    ensures
        forall|k: Seq<char>| #[trigger] lookup(pairs_view(r@), k) == if survives(pattern@, exact, k) {
            lookup(pairs_view(s@), k)
        } else {
            None
        },
{
    let mut out: Vec<(String, CacheEntry)> = Vec::new();
    let mut rest = s;
    let ghost all = rest@;
    let n = rest.len();
    let mut i: usize = 0;
    while i < n
        invariant
            n == all.len(),
            i <= n,
            rest@ == all.skip(i as int),
            forall|k: Seq<char>| #[trigger] lookup(pairs_view(out@), k) == if survives(pattern@, exact, k) {
                lookup(pairs_view(all.take(i as int)), k)
            } else {
                None
            },
        decreases n - i,
    {
        let e = rest.remove(0);
        assert(all[i as int] == e);
        let ghost ev = (e.0@, e.1@);
        let ghost before = out@;
        let kept = if exact {
            !str_eq(e.0.as_str(), pattern)
        } else {
            !matches_pattern(pattern, e.0.as_str())
        };
        assert(kept == survives(pattern@, exact, ev.0));
        assert(pairs_view(all.take(i + 1)) =~= pairs_view(all.take(i as int)).push(ev));
        if kept {
            out.push(e);
            assert(pairs_view(out@) =~= pairs_view(before).push(ev));
        }
        assert forall|k: Seq<char>| #[trigger] lookup(pairs_view(out@), k) == if survives(pattern@, exact, k) {
            lookup(pairs_view(all.take(i + 1)), k)
        } else {
            None
        } by {
            lemma_lookup_push(pairs_view(all.take(i as int)), ev, k);
            if kept {
                lemma_lookup_push(pairs_view(before), ev, k);
            }
        }
        i = i + 1;
        assert(rest@ =~= all.skip(i as int));
    }
    assert(all.take(n as int) =~= all);
    out
}


impl MemoryCache {
    pub fn new() -> (r: MemoryCache)
        ensures
            r@ == CacheMap::empty(),
    {
        let r = MemoryCache { entries: Vec::new() };
        assert(r@ =~= CacheMap::empty());
        r
    }

    /// The value under `key` as a read at `now` sees it: `None` where there is no
    /// entry or it has expired.
    pub fn get(&self, key: &str, now: u64) -> (r: Option<String>)
        ensures
            match r {
                Some(v) => live_value(self@, key@, now) == Some(v@),
                None => live_value(self@, key@, now) is None,
            },
    {
        match crate::node::find_key(&self.entries, key) {
            Some(i) => {
                if now < self.entries[i].1.expires_at {
                    Some(self.entries[i].1.value.clone())
                } else {
                    None
                }
            },
            None => None,
        }
    }

    fn take_entries(&mut self) -> (r: Vec<(String, CacheEntry)>)
        ensures
            r@ == old(self).entries@,
            final(self).entries@.len() == 0,
    {
        let mut r: Vec<(String, CacheEntry)> = Vec::new();
        std::mem::swap(&mut r, &mut self.entries);
        r
    }

    /// Writes `value` under `key`, expiring `ttl` seconds after `now`; an entry already
    /// under `key` is replaced, its expiry with it.
    pub fn set(&mut self, key: &str, value: String, ttl: u64, now: u64)
        ensures
            final(self)@ == old(self)@.insert(key@, (value@, expiry(now, ttl))),
    {
        let ghost before = pairs_view(self.entries@);
        let all = self.take_entries();
        let mut kept = retain_surviving(all, key, true);
        let ghost mid = pairs_view(kept@);
        let expires_at = if ttl > u64::MAX - now { u64::MAX } else { now + ttl };
        let ghost ev = (key@, (value@, expires_at));
        kept.push((String::from_str(key), CacheEntry { value, expires_at }));
        assert(pairs_view(kept@) =~= mid.push(ev));
        self.entries = kept;
        assert forall|k: Seq<char>| #[trigger] lookup(pairs_view(self.entries@), k) == if k == key@ {
            Some(ev.1)
        } else {
            lookup(before, k)
        } by {
            lemma_lookup_push(mid, ev, k);
        }
        assert(self@ =~= map_of(before).insert(key@, (value@, expiry(now, ttl))));
    }

    /// Removes the entry under `key`, if any.
    pub fn delete(&mut self, key: &str)
        ensures
            final(self)@ == old(self)@.remove(key@),
    {
        let ghost before = pairs_view(self.entries@);
        let all = self.take_entries();
        self.entries = retain_surviving(all, key, true);
        assert(self@ =~= map_of(before).remove(key@));
    }

    /// Removes every entry whose key falls under `pattern`, and no other.
    pub fn delete_all(&mut self, pattern: &str)
        ensures
            final(self)@ == without_pattern(old(self)@, pattern@),
    {
        let ghost before = pairs_view(self.entries@);
        let all = self.take_entries();
        self.entries = retain_surviving(all, pattern, false);
        assert(self@ =~= without_pattern(map_of(before), pattern@));
    }
}


/// The time to live, in seconds, of an entry that a read puts back in the cache.
pub const CACHE_TTL_SECONDS: u64 = 300;

/// The number of keys that one scan round trip asks for.
pub const SCAN_PAGE_SIZE: u64 = 100;

/// The key of a family's collection read: `<family>:all`.
pub open spec fn all_key(family: Seq<char>) -> Seq<char> {
    family + ":all"@
}

/// The key of one resource's read: `<family>:<id>`.
pub open spec fn item_key(family: Seq<char>, id: Seq<char>) -> Seq<char> {
    family + ":"@ + id
}

/// The pattern that covers a whole family: `<family>:*`.
pub open spec fn family_pattern(family: Seq<char>) -> Seq<char> {
    family + ":*"@
}

pub fn key_all(family: &str) -> (r: String)
    ensures
        r@ == all_key(family@),
{
    let mut r = String::from_str(family);
    r.append(":all");
    r
}

pub fn key_for(family: &str, id: &str) -> (r: String)
    ensures
        r@ == item_key(family@, id@),
{
    let mut r = String::from_str(family);
    r.append(":");
    r.append(id);
    r
}

pub fn pattern_for(family: &str) -> (r: String)
    ensures
        r@ == family_pattern(family@),
{
    let mut r = String::from_str(family);
    r.append(":*");
    r
}

/// A family's pattern covers each of its resource keys and its collection key.
pub proof fn lemma_family_pattern_covers(family: Seq<char>, id: Seq<char>)
    ensures
        pattern_matches(family_pattern(family), item_key(family, id)),
        pattern_matches(family_pattern(family), all_key(family)),
{
    reveal_strlit(":*");
    reveal_strlit(":");
    reveal_strlit(":all");
    let p = family_pattern(family);
    assert(p.drop_last() =~= family + ":"@);
    assert(item_key(family, id).take(family.len() + 1 as int) =~= family + ":"@);
    assert(all_key(family).take(family.len() + 1 as int) =~= family + ":"@);
}

/// A family name: not empty, and without `:`.
pub open spec fn is_family(f: Seq<char>) -> bool {
    f.len() > 0 && forall|i: int| 0 <= i < f.len() ==> f[i] != ':'
}

/// The pattern of one family covers no key of another.
pub proof fn lemma_family_pattern_exact(f1: Seq<char>, f2: Seq<char>, id: Seq<char>)
    requires
        is_family(f1),
        is_family(f2),
        f1 != f2,
    ensures
        !pattern_matches(family_pattern(f1), item_key(f2, id)),
        !pattern_matches(family_pattern(f1), all_key(f2)),
{
    reveal_strlit(":*");
    reveal_strlit(":");
    reveal_strlit(":all");
    let pre = family_pattern(f1).drop_last();
    assert(pre =~= f1 + ":"@);
    let a = item_key(f2, id);
    let b = all_key(f2);
    if f1.len() < f2.len() {
        assert(pre[f1.len() as int] == ':');
        assert(a[f1.len() as int] == f2[f1.len() as int]);
        assert(b[f1.len() as int] == f2[f1.len() as int]);
        if a.len() >= pre.len() {
            assert(a.take(pre.len() as int)[f1.len() as int] != pre[f1.len() as int]);
        }
        if b.len() >= pre.len() {
            assert(b.take(pre.len() as int)[f1.len() as int] != pre[f1.len() as int]);
        }
    } else if f1.len() > f2.len() {
        assert(a[f2.len() as int] == ':');
        assert(b[f2.len() as int] == ':');
        assert(pre[f2.len() as int] == f1[f2.len() as int]);
        if a.len() >= pre.len() {
            assert(a.take(pre.len() as int)[f2.len() as int] != pre[f2.len() as int]);
        }
        if b.len() >= pre.len() {
            assert(b.take(pre.len() as int)[f2.len() as int] != pre[f2.len() as int]);
        }
    } else {
        if a.len() >= pre.len() && a.take(pre.len() as int) == pre {
            assert forall|i: int| 0 <= i < f1.len() implies f1[i] == f2[i] by {
                assert(a.take(pre.len() as int)[i] == pre[i]);
            }
            assert(f1 =~= f2);
        }
        if b.len() >= pre.len() && b.take(pre.len() as int) == pre {
            assert forall|i: int| 0 <= i < f1.len() implies f1[i] == f2[i] by {
                assert(b.take(pre.len() as int)[i] == pre[i]);
            }
            assert(f1 =~= f2);
        }
    }
}

/// Bulk delete of one family removes every key of that family and leaves each key
/// of every other family as it was.
pub proof fn lemma_delete_all_scope(m: CacheMap, f1: Seq<char>, f2: Seq<char>, id: Seq<char>)
    requires
        is_family(f1),
        is_family(f2),
        f1 != f2,
    ensures
        !without_pattern(m, family_pattern(f1)).contains_key(item_key(f1, id)),
        !without_pattern(m, family_pattern(f1)).contains_key(all_key(f1)),
        without_pattern(m, family_pattern(f1)).contains_key(item_key(f2, id)) == m.contains_key(item_key(f2, id)),
        without_pattern(m, family_pattern(f1)).contains_key(item_key(f2, id)) ==> without_pattern(
            m,
            family_pattern(f1),
        )[item_key(f2, id)] == m[item_key(f2, id)],
        without_pattern(m, family_pattern(f1)).contains_key(all_key(f2)) == m.contains_key(all_key(f2)),
{
    lemma_family_pattern_covers(f1, id);
    lemma_family_pattern_exact(f1, f2, id);
}

/// An entry written with a time to live is seen by every read before it expires,
/// and by none from the moment it expires.
pub proof fn lemma_ttl(m: CacheMap, key: Seq<char>, v: Seq<char>, ttl: u64, now: u64, later: u64)
    requires
        now + ttl <= u64::MAX,
    ensures
        now <= later < now + ttl ==> live_value(m.insert(key, (v, expiry(now, ttl))), key, later) == Some(v),
        later >= now + ttl ==> live_value(m.insert(key, (v, expiry(now, ttl))), key, later) is None,
{
}

/// What a cache-aside read does with what the cache returned.
#[derive(Debug)]
pub enum ReadPlan {
    /// Return the cached text; the graph store is not asked.
    Serve(String),
    /// Recompute from the graph store, then put the result back under the key.
    Recompute,
}

pub enum ReadPlanView {
    Serve(Seq<char>),
    Recompute,
}

impl View for ReadPlan {
    type V = ReadPlanView;

    open spec fn view(&self) -> ReadPlanView {
        match self {
            ReadPlan::Serve(s) => ReadPlanView::Serve(s@),
            ReadPlan::Recompute => ReadPlanView::Recompute,
        }
    }
}

pub open spec fn read_plan_of(cached: Option<Seq<char>>) -> ReadPlanView {
    match cached {
        Some(v) => ReadPlanView::Serve(v),
        None => ReadPlanView::Recompute,
    }
}

pub fn plan_read(cached: Option<String>) -> (r: ReadPlan)
    ensures
        r@ == read_plan_of(match cached {
            Some(v) => Some(v@),
            None => None,
        }),
{
    match cached {
        Some(v) => ReadPlan::Serve(v),
        None => ReadPlan::Recompute,
    }
}

/// Cache-aside over one key of a family: after the family is invalidated, the first
/// read recomputes; once the recomputed text is put back with the usual time to live,
/// a second read within that time serves it without the graph store.
pub proof fn lemma_cache_aside(
    m: CacheMap,
    family: Seq<char>,
    key: Seq<char>,
    fresh: Seq<char>,
    first: u64,
    second: u64,
)
    requires
        key == all_key(family) || exists|id: Seq<char>| key == item_key(family, id),
        first <= second < first + CACHE_TTL_SECONDS,
        first + CACHE_TTL_SECONDS <= u64::MAX,
    ensures
        ({
            let cleared = without_pattern(m, family_pattern(family));
            let refilled = cleared.insert(key, (fresh, expiry(first, CACHE_TTL_SECONDS)));
            &&& read_plan_of(live_value(cleared, key, first)) == ReadPlanView::Recompute
            &&& read_plan_of(live_value(refilled, key, second)) == ReadPlanView::Serve(fresh)
        }),
{
    if key == all_key(family) {
        lemma_family_pattern_covers(family, Seq::empty());
    } else {
        let id = choose|id: Seq<char>| key == item_key(family, id);
        lemma_family_pattern_covers(family, id);
    }
}

/// The decisions of a bulk delete against a store that is scanned page by page with
/// a cursor: scan from cursor `0`, delete each page's keys, and stop when the store
/// hands back cursor `0`.
pub struct ScanDelete {
    pattern: String,
    cursor: u64,
    finished: bool,
}

pub struct ScanDeleteView {
    pub pattern: Seq<char>,
    pub cursor: u64,
    pub finished: bool,
}

impl View for ScanDelete {
    type V = ScanDeleteView;

    closed spec fn view(&self) -> ScanDeleteView {
        ScanDeleteView { pattern: self.pattern@, cursor: self.cursor, finished: self.finished }
    }
}

/// One scan round trip: from `cursor`, keys under `pattern`, about `count` of them.
#[derive(Debug)]
pub struct ScanRequest {
    pub cursor: u64,
    pub pattern: String,
    pub count: u64,
}

impl ScanDelete {
    pub fn new(pattern: &str) -> (r: ScanDelete)
        ensures
            r@ == (ScanDeleteView { pattern: pattern@, cursor: 0, finished: false }),
    {
        ScanDelete { pattern: String::from_str(pattern), cursor: 0, finished: false }
    }

    pub fn is_finished(&self) -> (r: bool)
        ensures
            r == self@.finished,
    {
        self.finished
    }

    /// The next round trip to make, or `None` once the scan has come back to cursor `0`.
    pub fn next_scan(&self) -> (r: Option<ScanRequest>)
        ensures
            r is None <==> self@.finished,
            r matches Some(q) ==> q.cursor == self@.cursor && q.pattern@ == self@.pattern
                && q.count == SCAN_PAGE_SIZE,
    {
        if self.finished {
            None
        } else {
            Some(ScanRequest { cursor: self.cursor, pattern: self.pattern.clone(), count: SCAN_PAGE_SIZE })
        }
    }

    /// Takes in one page (the cursor the store handed back, and the keys it found) and
    /// returns the keys to delete: all of them. Each page's deletions stand on their own,
    /// so the scan may stop between pages and start over.
    pub fn on_page(&mut self, next_cursor: u64, keys: Vec<String>) -> (r: Vec<String>)
        ensures
            r@ == keys@,
            final(self)@ == (ScanDeleteView {
                pattern: old(self)@.pattern,
                cursor: next_cursor,
                finished: next_cursor == 0,
            }),
    {
        self.cursor = next_cursor;
        self.finished = next_cursor == 0;
        keys
    }
}

} // verus!
