//! The per-run zone-name cache: zone id to zone name, populated lazily on
//! the first successful lookup of each zone and never invalidated.

use vstd::prelude::*;

verus! {

/// Maps zone ids to resolved zone names. Entries are only ever added,
/// never changed or removed, so a name once returned is returned forever.
pub struct ZoneCache {
    entries: Vec<(String, String)>,
}

/// The map described by an entry list.
pub open spec fn entries_map(s: Seq<(String, String)>) -> Map<Seq<char>, Seq<char>>
    decreases s.len(),
{
    if s.len() == 0 {
        Map::empty()
    } else {
        entries_map(s.drop_last()).insert(s.last().0@, s.last().1@)
    }
}

impl View for ZoneCache {
    type V = Map<Seq<char>, Seq<char>>;

    closed spec fn view(&self) -> Map<Seq<char>, Seq<char>> {
        entries_map(self.entries@)
    }
}

/// A key is in the map exactly when some entry carries it, and the value
/// of a key held by exactly one entry is that entry's.
proof fn lemma_entries_map(s: Seq<(String, String)>, key: Seq<char>)
    ensures
        entries_map(s).contains_key(key) <==> exists|j: int| 0 <= j < s.len() && s[j].0@ == key,
        forall|j: int|
            0 <= j < s.len() && s[j].0@ == key && (forall|k: int|
                j < k < s.len() ==> s[k].0@ != key) ==> entries_map(s)[key] == s[j].1@,
    decreases s.len(),
{
    if s.len() > 0 {
        lemma_entries_map(s.drop_last(), key);
        assert forall|j: int|
            0 <= j < s.len() && s[j].0@ == key && (forall|k: int|
                j < k < s.len() ==> s[k].0@ != key) implies entries_map(s)[key] == s[j].1@ by {
            if j == s.len() - 1 {
                assert(s.last() == s[j]);
            } else {
                assert(s.last().0@ != key);
                assert(s.drop_last()[j] == s[j]);
                assert(forall|k: int| j < k < s.drop_last().len() ==> s.drop_last()[k].0@ != key);
            }
        }
        if entries_map(s).contains_key(key) {
            if s.last().0@ == key {
                assert(s[s.len() - 1].0@ == key);
            } else {
                let j = choose|j: int| 0 <= j < s.drop_last().len() && s.drop_last()[j].0@ == key;
                assert(s[j].0@ == key);
            }
        }
        if exists|j: int| 0 <= j < s.len() && s[j].0@ == key {
            let j = choose|j: int| 0 <= j < s.len() && s[j].0@ == key;
            if j < s.len() - 1 {
                assert(s.drop_last()[j].0@ == key);
            }
        }
    }
}

impl ZoneCache {
    /// Distinct entries carry distinct zone ids.
    pub closed spec fn wf(&self) -> bool {
        forall|j: int, k: int|
            0 <= j < k < self.entries@.len() ==> self.entries@[j].0@ != self.entries@[k].0@
    }

    /// An empty cache.
    pub fn new() -> (r: ZoneCache)
        ensures
            r@ == Map::<Seq<char>, Seq<char>>::empty(),
            r.wf(),
    {
        ZoneCache { entries: Vec::new() }
    }

    /// The cached name for `zone_id`, if resolution already succeeded once.
    pub fn lookup(&self, zone_id: &str) -> (r: Option<String>)
        requires
            self.wf(),
        ensures
            match r {
                Some(name) => self@.contains_key(zone_id@) && name@ == self@[zone_id@],
                None => !self@.contains_key(zone_id@),
            },
    {
        let key = zone_id.to_owned();
        let mut i: usize = 0;
        while i < self.entries.len()
            invariant
                i <= self.entries@.len(),
                key@ == zone_id@,
                self.wf(),
                forall|j: int| 0 <= j < i ==> self.entries@[j].0@ != zone_id@,
            decreases self.entries@.len() - i,
        {
            if self.entries[i].0 == key {
                proof {
                    lemma_entries_map(self.entries@, zone_id@);
                }
                return Some(self.entries[i].1.clone());
            }
            i = i + 1;
        }
        proof {
            lemma_entries_map(self.entries@, zone_id@);
        }
        None
    }

    /// Records the resolved name for a zone id not cached yet.
    pub fn insert(&mut self, zone_id: &str, name: &str)
        requires
            old(self).wf(),
            !old(self)@.contains_key(zone_id@),
        ensures
            final(self)@ == old(self)@.insert(zone_id@, name@),
            final(self).wf(),
    {
        proof {
            lemma_entries_map(self.entries@, zone_id@);
        }
        self.entries.push((zone_id.to_owned(), name.to_owned()));
        proof {
            assert(self.entries@.drop_last() =~= old(self).entries@);
        }
    }
}

} // verus!
