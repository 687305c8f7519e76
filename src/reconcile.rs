use vstd::prelude::*;
use crate::address::{
    address_literal_of, desired_of, parse_address, Family, IpAddress, ResolvedAddresses,
};
use crate::config::{Config, ZoneRecords};
use crate::names::{fqdn, fqdn_of};
use crate::records::{
    find_zone, record_family, record_family_of, select_records, selected, selected_among, selects,
    zone_named, DnsRecord, Zone,
};

verus! {

/// What to do with one selected record.
#[derive(Clone, Copy, Debug, PartialEq, Eq, Structural)]
pub enum Action {
    /// The record already holds this address: no call is made.
    Current(IpAddress),
    /// The record's content is to be set to this address.
    Patch(IpAddress),
    /// The record's family was not resolved on this host: skipped.
    FamilyUnavailable,
    /// The record is not an address record: skipped.
    NonAddress,
}

/// Why a configured label produced no record to act on.
#[derive(Clone, Copy, Debug, PartialEq, Eq, Structural)]
pub enum SkipReason {
    /// The provider lists no zone of the configured name.
    ZoneNotFound,
    /// The zone's records could not be listed.
    RecordsUnavailable,
    /// The zone holds no `A` or `AAAA` record of the label's name.
    RecordNotFound,
}

/// One outcome of planning: a label skipped, or a decision on one record.
/// `label` is the label's position in its zone's configuration, `record` the
/// record's position in the zone's listing.
#[derive(Clone, Copy, Debug, PartialEq, Eq, Structural)]
pub enum Step {
    Skip { label: usize, reason: SkipReason },
    Record { label: usize, record: usize, action: Action },
}

/// The decision on a record of family `fam` whose content reads as `current`.
pub open spec fn action_of(
    fam: Option<Family>,
    current: Option<IpAddress>,
    a: ResolvedAddresses,
) -> Action {
    match fam {
        None => Action::NonAddress,
        Some(f) => match desired_of(f, a) {
            None => Action::FamilyUnavailable,
            Some(ip) => if current == Some(ip) {
                Action::Current(ip)
            } else {
                Action::Patch(ip)
            },
        },
    }
}

pub open spec fn record_action(r: DnsRecord, a: ResolvedAddresses) -> Action {
    action_of(record_family_of(r.type_@), address_literal_of(r.content@), a)
}

/// The steps for label `l`: one per selected record, in listing order, or a
/// single skip where no record carries the label's name.
pub open spec fn label_steps(
    l: usize,
    label: Seq<char>,
    zone: Seq<char>,
    records: Seq<DnsRecord>,
    a: ResolvedAddresses,
) -> Seq<Step> {
    let idx = selected(records, fqdn_of(label, zone));
    if idx.len() == 0 {
        seq![Step::Skip { label: l, reason: SkipReason::RecordNotFound }]
    } else {
        idx.map_values(
            |k: usize| Step::Record { label: l, record: k, action: record_action(records[k as int], a) },
        )
    }
}

/// The steps for the first `n` labels, label after label.
pub open spec fn labels_steps(
    labels: Seq<String>,
    zone: Seq<char>,
    records: Seq<DnsRecord>,
    a: ResolvedAddresses,
    n: nat,
) -> Seq<Step>
    decreases n,
{
    if n == 0 {
        Seq::empty()
    } else {
        labels_steps(labels, zone, records, a, (n - 1) as nat) + label_steps(
            (n - 1) as usize,
            labels[n - 1]@,
            zone,
            records,
            a,
        )
    }
}

/// One skip of the given reason for each of `n` labels.
pub open spec fn skips(n: nat, reason: SkipReason) -> Seq<Step> {
    Seq::new(n, |i: int| Step::Skip { label: i as usize, reason: reason })
}

pub open spec fn fetched_view(f: Option<Vec<DnsRecord>>) -> Option<Seq<DnsRecord>> {
    match f {
        Some(v) => Some(v@),
        None => None,
    }
}

/// The steps for one configured zone, given the provider's zones and what
/// listing that zone's records gave (`None`: the listing failed).
pub open spec fn zone_plan(
    entry: ZoneRecords,
    zones: Seq<Zone>,
    fetched: Option<Seq<DnsRecord>>,
    a: ResolvedAddresses,
) -> Seq<Step> {
    if !zone_named(zones, entry.zone@) {
        skips(entry.labels@.len(), SkipReason::ZoneNotFound)
    } else {
        match fetched {
            None => skips(entry.labels@.len(), SkipReason::RecordsUnavailable),
            Some(rs) => labels_steps(entry.labels@, entry.zone@, rs, a, entry.labels@.len()),
        }
    }
}

/// The steps for each configured zone, in configuration order.
pub open spec fn run_plan(
    entries: Seq<ZoneRecords>,
    zones: Seq<Zone>,
    fetched: Seq<Option<Vec<DnsRecord>>>,
    a: ResolvedAddresses,
) -> Seq<Seq<Step>> {
    Seq::new(entries.len(), |k: int| zone_plan(entries[k], zones, fetched_view(fetched[k]), a))
}

/// Every position that selection gives lies among the first `n` records and
/// picks a record that selection accepts.
pub proof fn lemma_selected_among(records: Seq<DnsRecord>, name: Seq<char>, n: nat)
    requires
        n <= records.len(),
        n <= usize::MAX,
    ensures
        forall|j: int|
            0 <= j < selected_among(records, name, n).len() ==> {
                let k = #[trigger] selected_among(records, name, n)[j];
                &&& k < n
                &&& selects(records, name, k as int)
            },
    decreases n,
{
    if n > 0 {
        let rest = selected_among(records, name, (n - 1) as nat);
        lemma_selected_among(records, name, (n - 1) as nat);
        assert forall|j: int| 0 <= j < selected_among(records, name, n).len() implies {
            let k = #[trigger] selected_among(records, name, n)[j];
            &&& k < n
            &&& selects(records, name, k as int)
        } by {
            if j < rest.len() {
                assert(selected_among(records, name, n)[j] == rest[j]);
            }
        }
    }
}

/// The decision on a record of family `fam` whose content reads as `current`:
/// skip a record that is not an address record or whose family was not
/// resolved, else keep it if it already holds the resolved address, else patch it.
pub fn decide_action(fam: Option<Family>, current: Option<IpAddress>, a: &ResolvedAddresses) -> (r:
    Action)
    ensures
        r == action_of(fam, current, *a),
{
    match fam {
        None => Action::NonAddress,
        Some(f) => match a.desired(f) {
            None => Action::FamilyUnavailable,
            Some(ip) => {
                if current == Some(ip) {
                    Action::Current(ip)
                } else {
                    Action::Patch(ip)
                }
            },
        },
    }
}

/// The decision on one record, reading its type without regard to case and
/// its content as an IP literal.
pub fn decide(record: &DnsRecord, a: &ResolvedAddresses) -> (r: Action)
    ensures
        r == record_action(*record, *a),
{
    let fam = record_family(record.type_.as_str());
    let current = parse_address(record.content.as_str());
    decide_action(fam, current, a)
}

/// The steps for one configured label of a zone whose records were listed.
pub fn plan_label(
    l: usize,
    label: &str,
    zone: &str,
    records: &Vec<DnsRecord>,
    a: &ResolvedAddresses,
) -> (r: Vec<Step>)
    ensures
        r@ == label_steps(l, label@, zone@, records@, *a),
{
    let name = fqdn(label, zone);
    let idx = select_records(records, name.as_str());
    let mut r: Vec<Step> = Vec::new();
    if idx.len() == 0 {
        r.push(Step::Skip { label: l, reason: SkipReason::RecordNotFound });
        assert(r@ =~= label_steps(l, label@, zone@, records@, *a));
        return r;
    }
    let count = records.len();
    proof {
        lemma_selected_among(records@, name@, count as nat);
    }
    let mut j: usize = 0;
    while j < idx.len()
        invariant
            j <= idx@.len(),
            idx@ == selected(records@, name@),
            name@ == fqdn_of(label@, zone@),
            forall|m: int| 0 <= m < idx@.len() ==> #[trigger] idx@[m] < records@.len(),
            r@ =~= idx@.take(j as int).map_values(
                |k: usize|
                    Step::Record { label: l, record: k, action: record_action(records@[k as int], *a) },
            ),
        decreases idx@.len() - j,
    {
        let k = idx[j];
        assert(k < records@.len());
        let action = decide(&records[k], a);
        r.push(Step::Record { label: l, record: k, action: action });
        assert(idx@.take(j + 1) =~= idx@.take(j as int).push(k));
        j = j + 1;
    }
    assert(idx@.take(j as int) =~= idx@);
    r
}

/// The steps for all labels of a zone whose records were listed.
pub fn plan_labels(
    labels: &Vec<String>,
    zone: &str,
    records: &Vec<DnsRecord>,
    a: &ResolvedAddresses,
) -> (r: Vec<Step>)
    ensures
        r@ == labels_steps(labels@, zone@, records@, *a, labels@.len()),
{
    let mut r: Vec<Step> = Vec::new();
    let mut i: usize = 0;
    while i < labels.len()
        invariant
            i <= labels@.len(),
            r@ == labels_steps(labels@, zone@, records@, *a, i as nat),
        decreases labels@.len() - i,
    {
        let mut steps = plan_label(i, labels[i].as_str(), zone, records, a);
        r.append(&mut steps);
        i = i + 1;
    }
    r
}

/// One skip of the given reason for each of `n` labels.
pub fn skip_all(n: usize, reason: SkipReason) -> (r: Vec<Step>)
    ensures
        r@ == skips(n as nat, reason),
{
    let mut r: Vec<Step> = Vec::new();
    let mut i: usize = 0;
    while i < n
        invariant
            i <= n,
            r@ =~= skips(i as nat, reason),
        decreases n - i,
    {
        r.push(Step::Skip { label: i, reason: reason });
        i = i + 1;
    }
    r
}

/// The steps for one configured zone: every label skipped where the provider
/// lists no zone of that name or its records could not be listed (`fetched`
/// is `None`), else the steps of each label in turn.
pub fn plan_zone(
    entry: &ZoneRecords,
    zones: &Vec<Zone>,
    fetched: &Option<Vec<DnsRecord>>,
    a: &ResolvedAddresses,
) -> (r: Vec<Step>)
    ensures
        r@ == zone_plan(*entry, zones@, fetched_view(*fetched), *a),
{
    match find_zone(zones, entry.zone.as_str()) {
        None => skip_all(entry.labels.len(), SkipReason::ZoneNotFound),
        Some(_) => match fetched {
            None => skip_all(entry.labels.len(), SkipReason::RecordsUnavailable),
            Some(records) => plan_labels(&entry.labels, entry.zone.as_str(), records, a),
        },
    }
}

/// The steps for every configured zone, in configuration order; `fetched[k]`
/// is what listing the records of configured zone `k` gave.
pub fn plan_run(
    config: &Config,
    zones: &Vec<Zone>,
    fetched: &Vec<Option<Vec<DnsRecord>>>,
    a: &ResolvedAddresses,
) -> (r: Vec<Vec<Step>>)
    requires
        fetched@.len() == config.records@.len(),
    ensures
        r@.len() == config.records@.len(),
        forall|k: int|
            0 <= k < r@.len() ==> #[trigger] r@[k]@ == run_plan(
                config.records@,
                zones@,
                fetched@,
                *a,
            )[k],
{
    let mut r: Vec<Vec<Step>> = Vec::new();
    let mut k: usize = 0;
    while k < config.records.len()
        invariant
            k <= config.records@.len(),
            fetched@.len() == config.records@.len(),
            r@.len() == k,
            forall|m: int|
                0 <= m < k ==> #[trigger] r@[m]@ == zone_plan(
                    config.records@[m],
                    zones@,
                    fetched_view(fetched@[m]),
                    *a,
                ),
        decreases config.records@.len() - k,
    {
        let steps = plan_zone(&config.records[k], zones, &fetched[k], a);
        r.push(steps);
        k = k + 1;
    }
    r
}

} // verus!
