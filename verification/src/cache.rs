//! Per-device cache of enumerated media items.
//!
//! The cache maps a device id to the listing produced by one enumeration
//! pass.  It is viewed as a `Map<Seq<char>, Seq<MediaItem>>`; the entries are
//! kept in a vector whose keys are pairwise distinct.  Listings are
//! invalidated wholesale: an entry is dropped on device disconnect or on an
//! explicit refresh, never edited in place.

use vstd::prelude::*;

use crate::device::MediaItem;

verus! {

/// One cached listing: the device id it belongs to and the items found.
pub struct CacheEntry {
    pub device_id: String,
    pub items: Vec<MediaItem>,
}

/// The per-device media cache.
pub struct MediaCache {
    entries: Vec<CacheEntry>,
}

/// The map described by a sequence of cache entries: later entries win,
/// though under [`distinct_keys`] each key occurs at most once.
pub open spec fn entries_map(s: Seq<CacheEntry>) -> Map<Seq<char>, Seq<MediaItem>>
    decreases s.len(),
{
    if s.len() == 0 {
        Map::empty()
    } else {
        entries_map(s.drop_last()).insert(s.last().device_id@, s.last().items@)
    }
}

/// Some entry of `s` carries the key `k`.
pub open spec fn has_key(s: Seq<CacheEntry>, k: Seq<char>) -> bool {
    exists|i: int| 0 <= i < s.len() && s[i].device_id@ == k
}

/// No two entries of `s` share a key.
pub open spec fn distinct_keys(s: Seq<CacheEntry>) -> bool {
    forall|i: int, j: int| 0 <= i < j < s.len() ==> s[i].device_id@ != s[j].device_id@
}

/// The set of views of the strings in `s`.
pub open spec fn str_view_set(s: Seq<String>) -> Set<Seq<char>> {
    Set::new(|k: Seq<char>| exists|i: int| 0 <= i < s.len() && s[i]@ == k)
}

proof fn lemma_entries_map_dom(s: Seq<CacheEntry>, k: Seq<char>)
    ensures
        entries_map(s).contains_key(k) <==> has_key(s, k),
    decreases s.len(),
{
    if s.len() > 0 {
        lemma_entries_map_dom(s.drop_last(), k);
        if s.last().device_id@ == k {
            assert(s[s.len() - 1].device_id@ == k);
        } else {
            if has_key(s, k) {
                let i = choose|i: int| 0 <= i < s.len() && s[i].device_id@ == k;
                assert(s.drop_last()[i] == s[i]);
            }
            if has_key(s.drop_last(), k) {
                let i = choose|i: int|
                    0 <= i < s.drop_last().len() && s.drop_last()[i].device_id@ == k;
                assert(s[i] == s.drop_last()[i]);
            }
        }
    }
}

proof fn lemma_entries_map_get(s: Seq<CacheEntry>, i: int)
    requires
        distinct_keys(s),
        0 <= i < s.len(),
    ensures
        entries_map(s).contains_key(s[i].device_id@),
        entries_map(s)[s[i].device_id@] == s[i].items@,
    decreases s.len(),
{
    if i < s.len() - 1 {
        assert(distinct_keys(s.drop_last())) by {
            assert(forall|a: int, b: int|
                0 <= a < b < s.drop_last().len() ==> s.drop_last()[a] == s[a]
                    && s.drop_last()[b] == s[b]);
        }
        lemma_entries_map_get(s.drop_last(), i);
        assert(s.drop_last()[i] == s[i]);
        assert(s[i].device_id@ != s.last().device_id@);
    }
}

proof fn lemma_distinct_drop_last(s: Seq<CacheEntry>)
    requires
        distinct_keys(s),
        s.len() > 0,
    ensures
        distinct_keys(s.drop_last()),
{
    assert(forall|a: int, b: int|
        0 <= a < b < s.drop_last().len() ==> s.drop_last()[a] == s[a] && s.drop_last()[b]
            == s[b]);
}

proof fn lemma_distinct_remove(s: Seq<CacheEntry>, i: int)
    requires
        distinct_keys(s),
        0 <= i < s.len(),
    ensures
        distinct_keys(s.remove(i)),
{
    let t = s.remove(i);
    assert forall|a: int, b: int| 0 <= a < b < t.len() implies t[a].device_id@ != t[b].device_id@ by {
        let a0: int = if a < i { a } else { a + 1 };
        let b0: int = if b < i { b } else { b + 1 };
        assert(t[a] == s[a0]);
        assert(t[b] == s[b0]);
    }
}

proof fn lemma_entries_map_remove(s: Seq<CacheEntry>, i: int)
    requires
        distinct_keys(s),
        0 <= i < s.len(),
    ensures
        entries_map(s.remove(i)) == entries_map(s).remove(s[i].device_id@),
    decreases s.len(),
{
    let k = s[i].device_id@;
    if i == s.len() - 1 {
        assert(s.remove(i) =~= s.drop_last());
        lemma_entries_map_dom(s.drop_last(), k);
        assert(!has_key(s.drop_last(), k)) by {
            assert(forall|j: int|
                0 <= j < s.drop_last().len() ==> s.drop_last()[j] == s[j]);
        }
        assert(entries_map(s.drop_last()) =~= entries_map(s).remove(k));
    } else {
        lemma_distinct_drop_last(s);
        lemma_entries_map_remove(s.drop_last(), i);
        assert(s.remove(i).drop_last() =~= s.drop_last().remove(i));
        assert(s.remove(i).last() == s.last());
        assert(s.drop_last()[i] == s[i]);
        assert(k != s.last().device_id@);
        assert(entries_map(s.remove(i)) == entries_map(s.drop_last().remove(i)).insert(
            s.last().device_id@,
            s.last().items@,
        ));
        assert(entries_map(s.drop_last()).remove(k).insert(s.last().device_id@, s.last().items@)
            =~= entries_map(s.drop_last()).insert(s.last().device_id@, s.last().items@).remove(k));
    }
}

impl View for MediaCache {
    type V = Map<Seq<char>, Seq<MediaItem>>;

    closed spec fn view(&self) -> Map<Seq<char>, Seq<MediaItem>> {
        entries_map(self.entries@)
    }
}

impl MediaCache {
    /// The cache's internal invariant: entry keys are pairwise distinct.
    pub closed spec fn wf(&self) -> bool {
        distinct_keys(self.entries@)
    }

    /// An empty cache.
    pub fn new() -> (r: Self)
        ensures
            r.wf(),
            r@ == Map::<Seq<char>, Seq<MediaItem>>::empty(),
    {
        MediaCache { entries: Vec::new() }
    }

    fn index_of(&self, device_id: &String) -> (r: Option<usize>)
        ensures
            match r {
                Some(i) => i < self.entries@.len() && self.entries@[i as int].device_id@
                    == device_id@,
                None => !has_key(self.entries@, device_id@),
            },
    {
        let n = self.entries.len();
        let mut i: usize = 0;
        while i < n
            invariant
                n == self.entries@.len(),
                i <= n,
                forall|j: int| 0 <= j < i ==> self.entries@[j].device_id@ != device_id@,
            decreases n - i,
        {
            if self.entries[i].device_id == *device_id {
                return Some(i);
            }
            i += 1;
        }
        None
    }

    /// The cached listing for `device_id`, if one is present.
    pub fn get(&self, device_id: &String) -> (r: Option<&Vec<MediaItem>>)
        requires
            self.wf(),
        ensures
            match r {
                Some(items) => self@.contains_key(device_id@) && items@ == self@[device_id@],
                None => !self@.contains_key(device_id@),
            },
    {
        match self.index_of(device_id) {
            Some(i) => {
                proof {
                    lemma_entries_map_get(self.entries@, i as int);
                }
                Some(&self.entries[i].items)
            },
            None => {
                proof {
                    lemma_entries_map_dom(self.entries@, device_id@);
                }
                None
            },
        }
    }

    /// Drops any cached listing for `device_id`; idempotent.
    pub fn remove(&mut self, device_id: &String)
        requires
            old(self).wf(),
        ensures
            final(self).wf(),
            final(self)@ == old(self)@.remove(device_id@),
    {
        match self.index_of(device_id) {
            Some(i) => {
                proof {
                    lemma_entries_map_remove(self.entries@, i as int);
                    lemma_distinct_remove(self.entries@, i as int);
                }
                self.entries.remove(i);
            },
            None => {
                proof {
                    lemma_entries_map_dom(self.entries@, device_id@);
                    assert(old(self)@ =~= old(self)@.remove(device_id@));
                }
            },
        }
    }

    /// Stores `items` as the listing for `device_id`, replacing any
    /// previous one.
    pub fn set_items(&mut self, device_id: String, items: Vec<MediaItem>)
        requires
            old(self).wf(),
        ensures
            final(self).wf(),
            final(self)@ == old(self)@.insert(device_id@, items@),
    {
        self.remove(&device_id);
        proof {
            lemma_entries_map_dom(self.entries@, device_id@);
        }
        let ghost pre = self.entries@;
        let ghost k = device_id@;
        let ghost v = items@;
        self.entries.push(CacheEntry { device_id, items });
        proof {
            assert(self.entries@.drop_last() =~= pre);
            assert(entries_map(self.entries@) == entries_map(pre).insert(k, v));
            assert(entries_map(pre).insert(k, v) =~= old(self)@.remove(k).insert(k, v));
            assert(old(self)@.remove(k).insert(k, v) =~= old(self)@.insert(k, v));
            assert forall|a: int, b: int|
                0 <= a < b < self.entries@.len() implies self.entries@[a].device_id@
                != self.entries@[b].device_id@ by {
                if b == self.entries@.len() - 1 {
                    assert(pre[a] == self.entries@[a]);
                    assert(!has_key(pre, k));
                } else {
                    assert(pre[a] == self.entries@[a]);
                    assert(pre[b] == self.entries@[b]);
                }
            }
        }
    }

    /// Keeps only the entries whose key is the view of some string in
    /// `keep`; every other listing is dropped.
    pub fn retain_keys(&mut self, keep: &Vec<String>)
        requires
            old(self).wf(),
        ensures
            final(self).wf(),
            final(self)@ == old(self)@.restrict(str_view_set(keep@)),
    {
        let ghost ks = str_view_set(keep@);
        let ghost all = self.entries@;
        let n = self.entries.len();
        let mut kept: Vec<CacheEntry> = Vec::new();
        let mut i: usize = 0;
        while i < n
            invariant
                n == all.len(),
                i <= n,
                self.entries@ == all,
                distinct_keys(all),
                ks == str_view_set(keep@),
                distinct_keys(kept@),
                entries_map(kept@) == entries_map(all.take(i as int)).restrict(ks),
                forall|k: Seq<char>| has_key(kept@, k) ==> has_key(all.take(i as int), k),
            decreases n - i,
        {
            let ghost prefix = all.take(i as int);
            let ghost longer = all.take(i as int + 1);
            proof {
                assert(longer.drop_last() =~= prefix);
                assert(longer.last() == all[i as int]);
            }
            let e = &self.entries[i];
            let ghost ek = e.device_id@;
            let keep_this = string_in_list(keep, &e.device_id);
            if keep_this {
                let ghost kept_pre = kept@;
                kept.push(CacheEntry { device_id: e.device_id.clone(), items: e.items.clone() });
                proof {
                    assert(kept@.drop_last() =~= kept_pre);
                    assert(kept@.last().device_id@ == ek);
                    assert(kept@.last().items@ == all[i as int].items@);
                    assert(entries_map(kept@) == entries_map(kept_pre).insert(
                        ek,
                        all[i as int].items@,
                    ));
                    assert(entries_map(longer) == entries_map(prefix).insert(
                        ek,
                        all[i as int].items@,
                    ));
                    assert(entries_map(prefix).insert(ek, all[i as int].items@).restrict(ks)
                        =~= entries_map(prefix).restrict(ks).insert(ek, all[i as int].items@));
                    assert forall|a: int, b: int|
                        0 <= a < b < kept@.len() implies kept@[a].device_id@
                        != kept@[b].device_id@ by {
                        if b == kept@.len() - 1 {
                            assert(kept_pre[a] == kept@[a]);
                            assert(!has_key(prefix, ek)) by {
                                if has_key(prefix, ek) {
                                    let j = choose|j: int|
                                        0 <= j < prefix.len() && prefix[j].device_id@ == ek;
                                    assert(prefix[j] == all[j]);
                                }
                            }
                            assert(has_key(kept_pre, kept@[a].device_id@));
                            assert(has_key(prefix, kept@[a].device_id@));
                        } else {
                            assert(kept_pre[a] == kept@[a]);
                            assert(kept_pre[b] == kept@[b]);
                        }
                    }
                    assert forall|k: Seq<char>| has_key(kept@, k) implies has_key(longer, k) by {
                        let j = choose|j: int| 0 <= j < kept@.len() && kept@[j].device_id@ == k;
                        if j < kept@.len() - 1 {
                            assert(kept_pre[j] == kept@[j]);
                            assert(has_key(kept_pre, k));
                            assert(has_key(prefix, k));
                            let j2 = choose|j2: int|
                                0 <= j2 < prefix.len() && prefix[j2].device_id@ == k;
                            assert(longer[j2] == prefix[j2]);
                        } else {
                            assert(longer[longer.len() - 1].device_id@ == k);
                        }
                    }
                }
            } else {
                proof {
                    assert(entries_map(longer) == entries_map(prefix).insert(
                        ek,
                        all[i as int].items@,
                    ));
                    assert(entries_map(prefix).insert(ek, all[i as int].items@).restrict(ks)
                        =~= entries_map(prefix).restrict(ks));
                    assert forall|k: Seq<char>| has_key(kept@, k) implies has_key(longer, k) by {
                        assert(has_key(prefix, k));
                        let j2 = choose|j2: int|
                            0 <= j2 < prefix.len() && prefix[j2].device_id@ == k;
                        assert(longer[j2] == prefix[j2]);
                    }
                }
            }
            i += 1;
        }
        proof {
            assert(all.take(n as int) =~= all);
        }
        self.entries = kept;
    }
}

/// Whether some string in `list` has the same characters as `s`.
pub fn string_in_list(list: &Vec<String>, s: &String) -> (r: bool)
    ensures
        r == str_view_set(list@).contains(s@),
{
    let n = list.len();
    let mut i: usize = 0;
    while i < n
        invariant
            n == list@.len(),
            i <= n,
            forall|j: int| 0 <= j < i ==> list@[j]@ != s@,
        decreases n - i,
    {
        if list[i] == *s {
            return true;
        }
        i += 1;
    }
    false
}

} // verus!
