use cloudflare_ddns::address::{address_warnings, IpAddress, ResolvedAddresses};
use cloudflare_ddns::config::{Config, ZoneRecords};
use cloudflare_ddns::errors::ErrorKind;
use cloudflare_ddns::reconcile::{
    decide, plan_label, plan_run, plan_zone, Action, SkipReason, Step,
};
use cloudflare_ddns::records::{find_zone, record_family, select_records, DnsRecord, Zone};
use cloudflare_ddns::address::Family;

fn zone(id: &str, name: &str) -> Zone {
    Zone { id: id.to_string(), name: name.to_string() }
}

fn record(id: &str, name: &str, type_: &str, content: &str) -> DnsRecord {
    DnsRecord {
        id: id.to_string(),
        name: name.to_string(),
        type_: type_.to_string(),
        content: content.to_string(),
        zone_id: "z1".to_string(),
        zone_name: "example.com".to_string(),
    }
}

fn entry(zone: &str, labels: &[&str]) -> ZoneRecords {
    ZoneRecords {
        zone: zone.to_string(),
        labels: labels.iter().map(|l| l.to_string()).collect(),
    }
}

fn v4(a: u8, b: u8, c: u8, d: u8) -> u32 {
    u32::from_be_bytes([a, b, c, d])
}

#[test]
fn end_to_end_example_patches_both_records() {
    let config = Config {
        api_token: "token".to_string(),
        records: vec![entry("example.com", &["@", "www"])],
    };
    let zones = vec![zone("z1", "example.com")];
    let records = vec![
        record("r1", "example.com", "A", "1.1.1.1"),
        record("r2", "www.example.com", "A", "9.9.9.9"),
    ];
    let addrs = ResolvedAddresses { ipv4: Some(v4(2, 2, 2, 2)), ipv6: None };
    let plan = plan_run(&config, &zones, &vec![Some(records)], &addrs);
    let want = IpAddress::V4(v4(2, 2, 2, 2));
    assert_eq!(plan.len(), 1);
    assert_eq!(
        plan[0],
        vec![
            Step::Record { label: 0, record: 0, action: Action::Patch(want) },
            Step::Record { label: 1, record: 1, action: Action::Patch(want) },
        ]
    );
}

#[test]
fn second_run_after_patching_finds_everything_current() {
    let e = entry("example.com", &["@", "www"]);
    let zones = vec![zone("z1", "example.com")];
    let addrs = ResolvedAddresses { ipv4: Some(v4(2, 2, 2, 2)), ipv6: Some(1) };
    let records = vec![
        record("r1", "example.com", "A", "2.2.2.2"),
        record("r2", "www.example.com", "AAAA", "::1"),
        record("r3", "www.example.com", "a", "2.2.2.2"),
    ];
    let plan = plan_zone(&e, &zones, &Some(records), &addrs);
    assert_eq!(
        plan,
        vec![
            Step::Record { label: 0, record: 0, action: Action::Current(IpAddress::V4(v4(2, 2, 2, 2))) },
            Step::Record { label: 1, record: 1, action: Action::Current(IpAddress::V6(1)) },
            Step::Record { label: 1, record: 2, action: Action::Current(IpAddress::V4(v4(2, 2, 2, 2))) },
        ]
    );
}

#[test]
fn missing_ipv6_skips_aaaa_but_handles_a() {
    let e = entry("example.com", &["www"]);
    let zones = vec![zone("z1", "example.com")];
    let addrs = ResolvedAddresses { ipv4: Some(v4(2, 2, 2, 2)), ipv6: None };
    let records = vec![
        record("r1", "www.example.com", "AAAA", "2001:db8::1"),
        record("r2", "www.example.com", "A", "1.1.1.1"),
    ];
    let plan = plan_zone(&e, &zones, &Some(records), &addrs);
    assert_eq!(
        plan,
        vec![
            Step::Record { label: 0, record: 0, action: Action::FamilyUnavailable },
            Step::Record { label: 0, record: 1, action: Action::Patch(IpAddress::V4(v4(2, 2, 2, 2))) },
        ]
    );
}

#[test]
fn missing_zone_skips_its_labels_only() {
    let config = Config {
        api_token: "token".to_string(),
        records: vec![entry("missing.org", &["@", "a", "b"]), entry("example.com", &["@"])],
    };
    let zones = vec![zone("z1", "example.com")];
    let addrs = ResolvedAddresses { ipv4: Some(v4(2, 2, 2, 2)), ipv6: None };
    let records = vec![record("r1", "example.com", "A", "1.1.1.1")];
    let plan = plan_run(&config, &zones, &vec![None, Some(records)], &addrs);
    assert_eq!(
        plan[0],
        vec![
            Step::Skip { label: 0, reason: SkipReason::ZoneNotFound },
            Step::Skip { label: 1, reason: SkipReason::ZoneNotFound },
            Step::Skip { label: 2, reason: SkipReason::ZoneNotFound },
        ]
    );
    assert_eq!(
        plan[1],
        vec![Step::Record { label: 0, record: 0, action: Action::Patch(IpAddress::V4(v4(2, 2, 2, 2))) }]
    );
}

#[test]
fn unlistable_zone_skips_its_labels() {
    let e = entry("example.com", &["@", "www"]);
    let zones = vec![zone("z1", "example.com")];
    let addrs = ResolvedAddresses { ipv4: Some(1), ipv6: None };
    let plan = plan_zone(&e, &zones, &None, &addrs);
    assert_eq!(
        plan,
        vec![
            Step::Skip { label: 0, reason: SkipReason::RecordsUnavailable },
            Step::Skip { label: 1, reason: SkipReason::RecordsUnavailable },
        ]
    );
}

#[test]
fn missing_record_gives_one_skip() {
    let records = vec![
        record("r1", "example.com", "A", "1.1.1.1"),
        record("r2", "mail.example.com", "MX", "mx.example.com"),
    ];
    let addrs = ResolvedAddresses { ipv4: Some(1), ipv6: Some(2) };
    let steps = plan_label(4, "mail", "example.com", &records, &addrs);
    assert_eq!(steps, vec![Step::Skip { label: 4, reason: SkipReason::RecordNotFound }]);
}

#[test]
fn duplicate_labels_plan_twice() {
    let e = entry("example.com", &["www", "www"]);
    let zones = vec![zone("z1", "example.com")];
    let addrs = ResolvedAddresses { ipv4: Some(5), ipv6: None };
    let records = vec![record("r1", "www.example.com", "A", "0.0.0.5")];
    let plan = plan_zone(&e, &zones, &Some(records), &addrs);
    let current = Action::Current(IpAddress::V4(5));
    assert_eq!(
        plan,
        vec![
            Step::Record { label: 0, record: 0, action: current },
            Step::Record { label: 1, record: 0, action: current },
        ]
    );
}

#[test]
fn decide_covers_every_action() {
    let addrs = ResolvedAddresses { ipv4: Some(v4(10, 0, 0, 1)), ipv6: None };
    assert_eq!(
        decide(&record("r", "x", "A", "10.0.0.1"), &addrs),
        Action::Current(IpAddress::V4(v4(10, 0, 0, 1)))
    );
    assert_eq!(
        decide(&record("r", "x", "A", "10.0.0.2"), &addrs),
        Action::Patch(IpAddress::V4(v4(10, 0, 0, 1)))
    );
    assert_eq!(
        decide(&record("r", "x", "A", "not an address"), &addrs),
        Action::Patch(IpAddress::V4(v4(10, 0, 0, 1)))
    );
    assert_eq!(decide(&record("r", "x", "AAAA", "::1"), &addrs), Action::FamilyUnavailable);
    assert_eq!(decide(&record("r", "x", "TXT", "hello"), &addrs), Action::NonAddress);
}

#[test]
fn decide_reads_ipv6_literals_by_value() {
    let addrs = ResolvedAddresses { ipv4: None, ipv6: Some(0x2001_0db8_0000_0000_0000_0000_0000_0001) };
    assert_eq!(
        decide(&record("r", "x", "aaaa", "2001:0db8:0:0::1"), &addrs),
        Action::Current(IpAddress::V6(0x2001_0db8_0000_0000_0000_0000_0000_0001))
    );
}

#[test]
fn record_type_is_read_without_case() {
    assert_eq!(record_family("A"), Some(Family::V4));
    assert_eq!(record_family("a"), Some(Family::V4));
    assert_eq!(record_family("aAaA"), Some(Family::V6));
    assert_eq!(record_family("CNAME"), None);
    assert_eq!(record_family(""), None);
}

#[test]
fn select_records_filters_name_and_type() {
    let records = vec![
        record("r1", "www.example.com", "A", "1.1.1.1"),
        record("r2", "www.example.com", "CNAME", "example.com"),
        record("r3", "example.com", "A", "1.1.1.1"),
        record("r4", "www.example.com", "aaaa", "::1"),
    ];
    assert_eq!(select_records(&records, "www.example.com"), vec![0, 3]);
    assert_eq!(select_records(&records, "WWW.example.com"), Vec::<usize>::new());
}

#[test]
fn find_zone_takes_first_exact_match() {
    let zones = vec![zone("z0", "example.org"), zone("z1", "example.com"), zone("z2", "example.com")];
    assert_eq!(find_zone(&zones, "example.com"), Some(1));
    assert_eq!(find_zone(&zones, "Example.com"), None);
    assert_eq!(find_zone(&Vec::new(), "example.com"), None);
}

#[test]
fn warnings_name_each_missing_family() {
    assert_eq!(
        address_warnings(&ResolvedAddresses { ipv4: None, ipv6: None }),
        vec![ErrorKind::IPv4, ErrorKind::IPv6]
    );
    assert_eq!(address_warnings(&ResolvedAddresses { ipv4: Some(1), ipv6: None }), vec![ErrorKind::IPv6]);
    assert_eq!(address_warnings(&ResolvedAddresses { ipv4: Some(1), ipv6: Some(1) }), vec![]);
    assert!(!ResolvedAddresses { ipv4: None, ipv6: None }.any());
    assert!(ResolvedAddresses { ipv4: None, ipv6: Some(3) }.any());
}
