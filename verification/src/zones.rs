//! Zone and record descriptions as returned by the provider's listing
//! endpoints, used by the one-shot discovery mode.

use vstd::prelude::*;

verus! {

/// The view of a sequence of strings.
pub open spec fn strs_view(v: Seq<String>) -> Seq<Seq<char>> {
    v.map_values(|s: String| s@)
}

/// One zone as listed by the provider.
pub struct ZoneInfo {
    pub id: String,
    pub name: String,
    pub ns: Vec<String>,
    pub owner: String,
    pub status: String,
    pub ttl: u64,
    pub records_count: u64,
    pub is_secondary_dns: bool,
}

/// Mathematical model of a `ZoneInfo`.
pub struct ZoneInfoV {
    pub id: Seq<char>,
    pub name: Seq<char>,
    pub ns: Seq<Seq<char>>,
    pub owner: Seq<char>,
    pub status: Seq<char>,
    pub ttl: u64,
    pub records_count: u64,
    pub is_secondary_dns: bool,
}

impl View for ZoneInfo {
    type V = ZoneInfoV;

    open spec fn view(&self) -> ZoneInfoV {
        ZoneInfoV {
            id: self.id@,
            name: self.name@,
            ns: strs_view(self.ns@),
            owner: self.owner@,
            status: self.status@,
            ttl: self.ttl,
            records_count: self.records_count,
            is_secondary_dns: self.is_secondary_dns,
        }
    }
}

impl ZoneInfo {
    /// A copy with the same contents.
    pub fn duplicate(&self) -> (r: ZoneInfo)
        ensures
            r@ == self@,
    {
        let r = ZoneInfo {
            id: self.id.clone(),
            name: self.name.clone(),
            ns: clone_strings(&self.ns),
            owner: self.owner.clone(),
            status: self.status.clone(),
            ttl: self.ttl,
            records_count: self.records_count,
            is_secondary_dns: self.is_secondary_dns,
        };
        proof {
            assert(r@.ns =~= self@.ns);
        }
        r
    }
}

/// One record as listed by the provider.
pub struct RecordEntry {
    pub record_type: String,
    pub id: String,
    pub name: String,
    pub value: String,
}

/// Mathematical model of a `RecordEntry`.
pub struct RecordEntryV {
    pub record_type: Seq<char>,
    pub id: Seq<char>,
    pub name: Seq<char>,
    pub value: Seq<char>,
}

impl View for RecordEntry {
    type V = RecordEntryV;

    open spec fn view(&self) -> RecordEntryV {
        RecordEntryV {
            record_type: self.record_type@,
            id: self.id@,
            name: self.name@,
            value: self.value@,
        }
    }
}

impl RecordEntry {
    /// A copy with the same contents.
    pub fn duplicate(&self) -> (r: RecordEntry)
        ensures
            r@ == self@,
    {
        RecordEntry {
            record_type: self.record_type.clone(),
            id: self.id.clone(),
            name: self.name.clone(),
            value: self.value.clone(),
        }
    }
}

/// A copy of a vector of strings with the same contents.
fn clone_strings(v: &Vec<String>) -> (r: Vec<String>)
    ensures
        strs_view(r@) == strs_view(v@),
        r@.len() == v@.len(),
{
    let mut r: Vec<String> = Vec::new();
    let mut i: usize = 0;
    while i < v.len()
        invariant
            i <= v@.len(),
            r@.len() == i,
            forall|j: int| 0 <= j < i ==> r@[j]@ == v@[j]@,
        decreases v@.len() - i,
    {
        r.push(v[i].clone());
        i = i + 1;
    }
    proof {
        assert(strs_view(r@) =~= strs_view(v@));
    }
    r
}

} // verus!
