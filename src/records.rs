use vstd::prelude::*;
use crate::address::Family;

verus! {

/// A zone as the provider lists it.
#[derive(Clone, Debug)]
pub struct Zone {
    pub id: String,
    pub name: String,
}

/// A DNS record as the provider lists it within a zone.
#[derive(Clone, Debug)]
pub struct DnsRecord {
    pub id: String,
    pub name: String,
    pub type_: String,
    pub content: String,
    pub zone_id: String,
    pub zone_name: String,
}

/// The text `s` with every letter in upper case.
pub uninterp spec fn upper_of(s: Seq<char>) -> Seq<char>;

/// Relies on `str::to_uppercase`: the result depends on the characters alone.
#[verifier::external_body]
fn uppercase(s: &str) -> (r: String)
    ensures
        r@ == upper_of(s@),
{
    s.to_uppercase()
}

/// The family that an upper-cased record type names: `A` or `AAAA`.
pub open spec fn family_of_upper(u: Seq<char>) -> Option<Family> {
    if u == seq!['A'] {
        Some(Family::V4)
    } else if u == seq!['A', 'A', 'A', 'A'] {
        Some(Family::V6)
    } else {
        None
    }
}

/// The family that a record type names, compared without regard to case.
pub open spec fn record_family_of(t: Seq<char>) -> Option<Family> {
    family_of_upper(upper_of(t))
}

/// The family that an already upper-cased record type names, if it is an
/// address type.
pub fn family_from_upper(u: &str) -> (r: Option<Family>)
    ensures
        r == family_of_upper(u@),
{
    let n = u.unicode_len();
    if n == 1 && u.get_char(0) == 'A' {
        assert(u@ =~= seq!['A']);
        Some(Family::V4)
    } else if n == 4 && u.get_char(0) == 'A' && u.get_char(1) == 'A' && u.get_char(2) == 'A'
        && u.get_char(3) == 'A' {
        assert(u@ =~= seq!['A', 'A', 'A', 'A']);
        Some(Family::V6)
    } else {
        proof {
            if u@ == seq!['A'] {
                assert(u@[0] == 'A');
            }
            if u@ == seq!['A', 'A', 'A', 'A'] {
                assert(u@[0] == 'A' && u@[1] == 'A' && u@[2] == 'A' && u@[3] == 'A');
            }
        }
        None
    }
}

/// The family that a record type names, compared without regard to case.
pub fn record_family(t: &str) -> (r: Option<Family>)
    ensures
        r == record_family_of(t@),
{
    let u = uppercase(t);
    family_from_upper(u.as_str())
}

/// The zone with exactly this name is at index `i`, and none before it.
pub open spec fn first_zone_named(zones: Seq<Zone>, name: Seq<char>, i: int) -> bool {
    &&& 0 <= i < zones.len()
    &&& zones[i].name@ == name
    &&& forall|j: int| 0 <= j < i ==> zones[j].name@ != name
}

pub open spec fn zone_named(zones: Seq<Zone>, name: Seq<char>) -> bool {
    exists|i: int| 0 <= i < zones.len() && zones[i].name@ == name
}

/// The position of the first zone whose name equals `name` exactly, if any.
pub fn find_zone(zones: &Vec<Zone>, name: &str) -> (r: Option<usize>)
    ensures
        match r {
            Some(i) => first_zone_named(zones@, name@, i as int),
            None => !zone_named(zones@, name@),
        },
{
    let wanted = String::from_str(name);
    let mut i: usize = 0;
    while i < zones.len()
        invariant
            i <= zones.len(),
            wanted@ == name@,
            forall|j: int| 0 <= j < i ==> zones@[j].name@ != name@,
        decreases zones.len() - i,
    {
        if zones[i].name == wanted {
            return Some(i);
        }
        i = i + 1;
    }
    None
}

/// Record `i` carries the name `name` and an address type.
pub open spec fn selects(records: Seq<DnsRecord>, name: Seq<char>, i: int) -> bool {
    records[i].name@ == name && record_family_of(records[i].type_@) is Some
}

/// The positions, in order, among the first `n` records, of those that carry
/// the name `name` and an address type.
pub open spec fn selected_among(records: Seq<DnsRecord>, name: Seq<char>, n: nat) -> Seq<usize>
    decreases n,
{
    if n == 0 {
        Seq::empty()
    } else {
        let rest = selected_among(records, name, (n - 1) as nat);
        if selects(records, name, n - 1) {
            rest.push((n - 1) as usize)
        } else {
            rest
        }
    }
}

pub open spec fn selected(records: Seq<DnsRecord>, name: Seq<char>) -> Seq<usize> {
    selected_among(records, name, records.len())
}

/// The positions, in order, of the records that carry the name `name` and the
/// type `A` or `AAAA` in any case.
pub fn select_records(records: &Vec<DnsRecord>, name: &str) -> (r: Vec<usize>)
    ensures
        r@ == selected(records@, name@),
{
    let wanted = String::from_str(name);
    let mut r: Vec<usize> = Vec::new();
    let mut i: usize = 0;
    while i < records.len()
        invariant
            i <= records.len(),
            wanted@ == name@,
            r@ == selected_among(records@, name@, i as nat),
        decreases records.len() - i,
    {
        if records[i].name == wanted && record_family(records[i].type_.as_str()).is_some() {
            r.push(i);
        }
        i = i + 1;
    }
    r
}

} // verus!
