use vstd::prelude::*;
use crate::address::{address_literal_of, Family, IpAddress, ResolvedAddresses};
use crate::config::ZoneRecords;
use crate::names::fqdn_of;
use crate::reconcile::{
    fetched_view, label_steps, labels_steps, lemma_selected_among, record_action, run_plan, skips,
    zone_plan, Action, SkipReason, Step,
};
use crate::records::{
    record_family_of, selected, selected_among, selects, zone_named, DnsRecord, Zone,
};

verus! {

/// What every step for the first `n` labels says: a record step names one of
/// those labels, a record that the label's name selects, and the decision on
/// that record; a skip names one of those labels, none of whose records was
/// selected.
pub open spec fn steps_sound(
    steps: Seq<Step>,
    labels: Seq<String>,
    zone: Seq<char>,
    records: Seq<DnsRecord>,
    a: ResolvedAddresses,
    n: nat,
) -> bool {
    forall|k: int|
        0 <= k < steps.len() ==> match #[trigger] steps[k] {
            Step::Record { label, record, action } => {
                &&& label < n
                &&& record < records.len()
                &&& selects(records, fqdn_of(labels[label as int]@, zone), record as int)
                &&& action == record_action(records[record as int], a)
            },
            Step::Skip { label, reason } => {
                &&& label < n
                &&& reason == SkipReason::RecordNotFound
                &&& selected(records, fqdn_of(labels[label as int]@, zone)).len() == 0
            },
        }
}

/// Every step planned for the labels of a listed zone is sound.
pub proof fn lemma_steps_sound(
    labels: Seq<String>,
    zone: Seq<char>,
    records: Seq<DnsRecord>,
    a: ResolvedAddresses,
    n: nat,
)
    requires
        n <= labels.len(),
        n <= usize::MAX,
        records.len() <= usize::MAX,
    ensures
        steps_sound(labels_steps(labels, zone, records, a, n), labels, zone, records, a, n),
    decreases n,
{
    if n > 0 {
        let m = (n - 1) as nat;
        lemma_steps_sound(labels, zone, records, a, m);
        let name = fqdn_of(labels[m as int]@, zone);
        lemma_selected_among(records, name, records.len());
        let front = labels_steps(labels, zone, records, a, m);
        let back = label_steps(m as usize, labels[m as int]@, zone, records, a);
        let all = labels_steps(labels, zone, records, a, n);
        assert(all == front + back);
        assert forall|k: int| 0 <= k < all.len() implies match #[trigger] all[k] {
            Step::Record { label, record, action } => {
                &&& label < n
                &&& record < records.len()
                &&& selects(records, fqdn_of(labels[label as int]@, zone), record as int)
                &&& action == record_action(records[record as int], a)
            },
            Step::Skip { label, reason } => {
                &&& label < n
                &&& reason == SkipReason::RecordNotFound
                &&& selected(records, fqdn_of(labels[label as int]@, zone)).len() == 0
            },
        } by {
            if k < front.len() {
                assert(all[k] == front[k]);
            } else {
                assert(all[k] == back[k - front.len()]);
                let j = k - front.len();
                if selected(records, name).len() > 0 {
                    let s = selected(records, name)[j];
                    assert(selected_among(records, name, records.len())[j] == s);
                }
            }
        }
    }
}

/// Two listings that agree on every record's name and type select the same
/// records.
pub proof fn lemma_selection_ignores_content(
    before: Seq<DnsRecord>,
    after: Seq<DnsRecord>,
    name: Seq<char>,
    n: nat,
)
    requires
        n <= before.len(),
        after.len() == before.len(),
        forall|i: int|
            0 <= i < before.len() ==> #[trigger] after[i].name@ == before[i].name@
                && after[i].type_@ == before[i].type_@,
    ensures
        selected_among(after, name, n) == selected_among(before, name, n),
    decreases n,
{
    if n > 0 {
        lemma_selection_ignores_content(before, after, name, (n - 1) as nat);
        assert(after[n - 1].name@ == before[n - 1].name@);
    }
}

/// Step `s` and step `t` skip the same label for the same reason, or act on the
/// same record for the same label.
pub open spec fn same_target(s: Step, t: Step) -> bool {
    match (s, t) {
        (Step::Skip { .. }, Step::Skip { .. }) => s == t,
        (Step::Record { label: l1, record: r1, .. }, Step::Record { label: l2, record: r2, .. }) => {
            l1 == l2 && r1 == r2
        },
        _ => false,
    }
}

/// Two listings that agree on every record's name and type give plans of the
/// same shape: step for step the same label and record.
pub proof fn lemma_same_shape(
    labels: Seq<String>,
    zone: Seq<char>,
    before: Seq<DnsRecord>,
    after: Seq<DnsRecord>,
    a: ResolvedAddresses,
    n: nat,
)
    requires
        n <= labels.len(),
        after.len() == before.len(),
        forall|i: int|
            0 <= i < before.len() ==> #[trigger] after[i].name@ == before[i].name@
                && after[i].type_@ == before[i].type_@,
    ensures
        labels_steps(labels, zone, after, a, n).len() == labels_steps(labels, zone, before, a, n).len(),
        forall|k: int|
            0 <= k < labels_steps(labels, zone, before, a, n).len() ==> same_target(
                #[trigger] labels_steps(labels, zone, before, a, n)[k],
                labels_steps(labels, zone, after, a, n)[k],
            ),
    decreases n,
{
    if n > 0 {
        let m = (n - 1) as nat;
        lemma_same_shape(labels, zone, before, after, a, m);
        let name = fqdn_of(labels[m as int]@, zone);
        lemma_selection_ignores_content(before, after, name, before.len());
        let f1 = labels_steps(labels, zone, before, a, m);
        let f2 = labels_steps(labels, zone, after, a, m);
        let b1 = label_steps(m as usize, labels[m as int]@, zone, before, a);
        let b2 = label_steps(m as usize, labels[m as int]@, zone, after, a);
        let s1 = labels_steps(labels, zone, before, a, n);
        let s2 = labels_steps(labels, zone, after, a, n);
        assert(s1 == f1 + b1);
        assert(s2 == f2 + b2);
        assert forall|k: int| 0 <= k < s1.len() implies same_target(#[trigger] s1[k], s2[k]) by {
            if k < f1.len() {
                assert(s1[k] == f1[k]);
                assert(s2[k] == f2[k]);
            } else {
                assert(s1[k] == b1[k - f1.len()]);
                assert(s2[k] == b2[k - f1.len()]);
            }
        }
    }
}

/// Record `i` is patched to `ip` by one of the steps.
pub open spec fn patched_to(steps: Seq<Step>, i: usize, ip: IpAddress) -> bool {
    exists|k: int|
        0 <= k < steps.len() && #[trigger] steps[k] == (Step::Record {
            label: steps[k]->Record_label,
            record: i,
            action: Action::Patch(ip),
        })
}

/// Reconciling twice changes nothing the second time. Let a first run plan
/// `steps` for a listed zone. If afterwards every record that it patched holds
/// the address it was patched to, and every other record reads as before, with
/// names and types unchanged and the same resolved addresses, then a second
/// run patches nothing.
pub proof fn lemma_second_run_patches_nothing(
    labels: Seq<String>,
    zone: Seq<char>,
    before: Seq<DnsRecord>,
    after: Seq<DnsRecord>,
    a: ResolvedAddresses,
)
    requires
        labels.len() <= usize::MAX,
        before.len() <= usize::MAX,
        after.len() == before.len(),
        forall|i: int|
            0 <= i < before.len() ==> #[trigger] after[i].name@ == before[i].name@
                && after[i].type_@ == before[i].type_@,
        forall|i: usize, ip: IpAddress|
            #[trigger] patched_to(labels_steps(labels, zone, before, a, labels.len()), i, ip)
                ==> address_literal_of(after[i as int].content@) == Some(ip),
        forall|i: int|
            0 <= i < before.len() && (forall|ip: IpAddress|
                !#[trigger] patched_to(labels_steps(labels, zone, before, a, labels.len()), i as usize, ip))
                ==> #[trigger] address_literal_of(after[i].content@) == address_literal_of(
                before[i].content@,
            ),
    ensures
        forall|k: int|
            0 <= k < labels_steps(labels, zone, after, a, labels.len()).len() ==> !(
            #[trigger] labels_steps(labels, zone, after, a, labels.len())[k] is Record
                && labels_steps(labels, zone, after, a, labels.len())[k]->Record_action is Patch),
{
    let n = labels.len();
    let s1 = labels_steps(labels, zone, before, a, n);
    let s2 = labels_steps(labels, zone, after, a, n);
    lemma_steps_sound(labels, zone, before, a, n);
    lemma_steps_sound(labels, zone, after, a, n);
    lemma_same_shape(labels, zone, before, after, a, n);
    assert forall|k: int| 0 <= k < s2.len() implies !(#[trigger] s2[k] is Record
        && s2[k]->Record_action is Patch) by {
        assert(same_target(s1[k], s2[k]));
        if s2[k] is Record {
            let i = s2[k]->Record_record;
            let ii = i as int;
            assert(after[ii].type_@ == before[ii].type_@);
            match record_action(before[ii], a) {
                Action::Patch(ip) => {
                    assert(s1[k] == (Step::Record {
                        label: s1[k]->Record_label,
                        record: i,
                        action: Action::Patch(ip),
                    }));
                    assert(patched_to(s1, i, ip));
                },
                _ => {
                    assert forall|ip: IpAddress| !patched_to(s1, i, ip) by {
                        if patched_to(s1, i, ip) {
                            let w = choose|w: int|
                                0 <= w < s1.len() && #[trigger] s1[w] == (Step::Record {
                                    label: s1[w]->Record_label,
                                    record: i,
                                    action: Action::Patch(ip),
                                });
                            assert(s1[w] is Record);
                        }
                    }
                    assert(address_literal_of(after[ii].content@) == address_literal_of(
                        before[ii].content@,
                    ));
                },
            }
        }
    }
}

/// With IPv4 resolved and IPv6 not, every `AAAA` record of a zone is skipped
/// for want of its family, while every `A` record is kept or patched to the
/// resolved IPv4 address exactly as it would be otherwise.
pub proof fn lemma_family_isolation(
    entry: ZoneRecords,
    zones: Seq<Zone>,
    fetched: Option<Vec<DnsRecord>>,
    a: ResolvedAddresses,
)
    requires
        a.ipv4 is Some,
        a.ipv6 is None,
        entry.labels@.len() <= usize::MAX,
        fetched is Some ==> fetched->Some_0@.len() <= usize::MAX,
    ensures
        forall|k: int|
            0 <= k < zone_plan(entry, zones, fetched_view(fetched), a).len() && (
            #[trigger] zone_plan(entry, zones, fetched_view(fetched), a)[k]) is Record ==> {
                let s = zone_plan(entry, zones, fetched_view(fetched), a)[k];
                let r = fetched->Some_0@[s->Record_record as int];
                &&& record_family_of(r.type_@) == Some(Family::V6) ==> s->Record_action
                    == Action::FamilyUnavailable
                &&& record_family_of(r.type_@) == Some(Family::V4) ==> (s->Record_action
                    == Action::Current(IpAddress::V4(a.ipv4->Some_0)) || s->Record_action
                    == Action::Patch(IpAddress::V4(a.ipv4->Some_0)))
            },
{
    let plan = zone_plan(entry, zones, fetched_view(fetched), a);
    if zone_named(zones, entry.zone@) && fetched is Some {
        let rs = fetched->Some_0@;
        lemma_steps_sound(entry.labels@, entry.zone@, rs, a, entry.labels@.len());
    }
}

/// A configured zone that the provider does not list yields one skip for each
/// of its labels, and leaves the other zones' steps as they would be if it were
/// not configured at all.
pub proof fn lemma_missing_zone_isolated(
    entries: Seq<ZoneRecords>,
    zones: Seq<Zone>,
    fetched: Seq<Option<Vec<DnsRecord>>>,
    a: ResolvedAddresses,
    k: int,
)
    requires
        0 <= k < entries.len(),
        fetched.len() == entries.len(),
        !zone_named(zones, entries[k].zone@),
    ensures
        run_plan(entries, zones, fetched, a)[k] == skips(
            entries[k].labels@.len(),
            SkipReason::ZoneNotFound,
        ),
        forall|j: int|
            0 <= j < entries.len() && j != k ==> #[trigger] run_plan(entries, zones, fetched, a)[j]
                == run_plan(entries.remove(k), zones, fetched.remove(k), a)[if j < k {
                j
            } else {
                j - 1
            }],
{
}

/// A label whose name selects no address record yields one skip and nothing else.
pub proof fn lemma_missing_record_single_skip(
    l: usize,
    label: Seq<char>,
    zone: Seq<char>,
    records: Seq<DnsRecord>,
    a: ResolvedAddresses,
)
    requires
        forall|i: int| 0 <= i < records.len() ==> !selects(records, fqdn_of(label, zone), i),
    ensures
        label_steps(l, label, zone, records, a) == seq![
            Step::Skip { label: l, reason: SkipReason::RecordNotFound },
        ],
{
    let name = fqdn_of(label, zone);
    lemma_nothing_selected(records, name, records.len());
}

/// Where no record is selectable, selection is empty.
proof fn lemma_nothing_selected(records: Seq<DnsRecord>, name: Seq<char>, n: nat)
    requires
        n <= records.len(),
        forall|i: int| 0 <= i < records.len() ==> !selects(records, name, i),
    ensures
        selected_among(records, name, n).len() == 0,
    decreases n,
{
    if n > 0 {
        lemma_nothing_selected(records, name, (n - 1) as nat);
    }
}

} // verus!
