use route53_ddns::address::{record_type_for, IpAddress};
use route53_ddns::config::{
    choose_credentials, hosted_zone_choice, record_set_name, v6_provider_for, AppAwsCredentials,
    AppConfig, Route53Client,
};
use route53_ddns::provider::MyIpProvider;
use route53_ddns::session::{ReconcileAction, Reconciliation};
use route53_ddns::reconcile::{
    decide, local_check_matches, upsert_request, ReconciliationOutcome,
    UpsertRequest, UPSERT_TTL,
};
use route53_ddns::scanner::{
    scan_page, PageCursor, RecordSetEntry, RecordSetPage, ScanResult, ScanStep, MAX_SCAN_PAGES,
};

fn v4(a: u8, b: u8, c: u8, d: u8) -> IpAddress {
    IpAddress::V4(u32::from_be_bytes([a, b, c, d]))
}

fn entry(name: &str, kind: &str, values: Vec<Option<IpAddress>>) -> RecordSetEntry {
    RecordSetEntry { name: name.to_string(), record_type: kind.to_string(), values }
}

fn no_cursor() -> PageCursor {
    PageCursor { record_identifier: None, record_name: None, record_type: None }
}

fn page(entries: Vec<RecordSetEntry>, is_truncated: bool, next: PageCursor) -> RecordSetPage {
    RecordSetPage { entries, is_truncated, next }
}

/// Runs a scan over pages served in order, counting the pages fetched.
fn run_scan(name: &str, address: IpAddress, pages: Vec<RecordSetPage>) -> (ScanResult, usize) {
    let name = name.to_string();
    let mut fetched = 0;
    let mut pages = pages.into_iter();
    loop {
        let p = pages.next().expect("scan asked for a page past the listing");
        fetched += 1;
        match scan_page(&name, address, p, fetched - 1) {
            ScanStep::Concluded(r) => return (r, fetched),
            ScanStep::FetchNext(_) => {}
        }
    }
}

fn zone_config() -> AppConfig {
    AppConfig {
        zone_id: "Z1".to_string(),
        record_set: "home.example.com".to_string(),
        record_set_v6: None,
        update_ipv4: true,
        update_ipv6: false,
        check_before_updating: Some(true),
        provider_v4: None,
        aws_access_key: None,
        aws_secret_access_key: None,
    }
}

#[test]
fn match_on_second_page_stops_there() {
    let addr = v4(203, 0, 113, 5);
    let cursor = PageCursor {
        record_identifier: Some("id-7".to_string()),
        record_name: Some("home.example.com".to_string()),
        record_type: Some("A".to_string()),
    };
    let first = page(
        vec![entry("a.example.com", "A", vec![Some(addr)]), entry("home.example.com", "TXT", vec![None])],
        true,
        cursor,
    );
    match scan_page(&"home.example.com".to_string(), addr, first.clone(), 0) {
        ScanStep::FetchNext(c) => {
            assert_eq!(c.record_identifier.as_deref(), Some("id-7"));
            assert_eq!(c.record_name.as_deref(), Some("home.example.com"));
            assert_eq!(c.record_type.as_deref(), Some("A"));
        }
        other => panic!("unexpected step {:?}", other),
    }
    let second = page(vec![entry("home.example.com", "A", vec![Some(addr)])], true, no_cursor());
    let third = page(vec![], false, no_cursor());
    let (result, fetched) = run_scan("home.example.com", addr, vec![first, second, third]);
    assert_eq!(result, ScanResult { present: true, up_to_date: true });
    assert_eq!(fetched, 2);
}

#[test]
fn first_structural_match_decides() {
    let addr = v4(203, 0, 113, 5);
    let p = page(
        vec![
            entry("home.example.com", "A", vec![Some(v4(198, 51, 100, 1)), None]),
            entry("home.example.com", "A", vec![Some(addr)]),
        ],
        true,
        no_cursor(),
    );
    let (result, fetched) = run_scan("home.example.com", addr, vec![p]);
    assert_eq!(result, ScanResult { present: true, up_to_date: false });
    assert_eq!(fetched, 1);
}

#[test]
fn missing_record_on_last_page_is_absent() {
    let addr = v4(203, 0, 113, 5);
    let p = page(vec![entry("home.example.com", "AAAA", vec![None])], false, no_cursor());
    let (result, fetched) = run_scan("home.example.com", addr, vec![p]);
    assert_eq!(result, ScanResult { present: false, up_to_date: false });
    assert_eq!(fetched, 1);
}

#[test]
fn v6_address_looks_for_aaaa() {
    let addr = IpAddress::V6(1);
    let p = page(
        vec![entry("home.example.com", "A", vec![Some(addr)]), entry("home.example.com", "AAAA", vec![Some(addr)])],
        false,
        no_cursor(),
    );
    let (result, _) = run_scan("home.example.com", addr, vec![p]);
    assert_eq!(result, ScanResult { present: true, up_to_date: true });
    assert_eq!(record_type_for(&addr), "AAAA");
    assert_eq!(record_type_for(&v4(1, 2, 3, 4)), "A");
}

#[test]
fn endless_listing_is_capped() {
    let addr = v4(203, 0, 113, 5);
    let p = page(vec![], true, no_cursor());
    assert!(matches!(scan_page(&"x".to_string(), addr, p.clone(), MAX_SCAN_PAGES - 2), ScanStep::FetchNext(_)));
    match scan_page(&"x".to_string(), addr, p, MAX_SCAN_PAGES - 1) {
        ScanStep::Concluded(r) => assert_eq!(r, ScanResult { present: false, up_to_date: false }),
        other => panic!("unexpected step {:?}", other),
    }
}

#[test]
fn decide_up_to_date_or_upsert() {
    let same = ScanResult { present: true, up_to_date: true };
    let differ = ScanResult { present: true, up_to_date: false };
    let absent = ScanResult { present: false, up_to_date: false };
    assert_eq!(decide(false, &same), ReconciliationOutcome::UpToDate);
    assert_eq!(decide(false, &differ), ReconciliationOutcome::NeedsUpsert);
    assert_eq!(decide(false, &absent), ReconciliationOutcome::AbsentNeedsCreate);
    assert!(!decide(false, &same).needs_write());
    assert!(decide(false, &differ).needs_write());
    assert!(decide(false, &absent).needs_write());
}

#[test]
fn forced_update_always_upserts() {
    for present in [false, true] {
        for up_to_date in [false, true] {
            let scan = ScanResult { present, up_to_date };
            assert_eq!(decide(true, &scan), ReconciliationOutcome::NeedsUpsert);
        }
    }
}

#[test]
fn local_check_is_inconclusive_on_failure() {
    let addr = v4(203, 0, 113, 5);
    assert!(!local_check_matches(&None, addr));
    assert!(!local_check_matches(&Some(vec![]), addr));
    assert!(!local_check_matches(&Some(vec![v4(203, 0, 113, 9)]), addr));
    assert!(local_check_matches(&Some(vec![IpAddress::V6(5), addr]), addr));
}

#[test]
fn upsert_twice_builds_the_same_change() {
    let zone = "Z1".to_string();
    let name = "home.example.com".to_string();
    let addr = v4(203, 0, 113, 9);
    let a = upsert_request(&zone, &name, addr);
    let b = upsert_request(&zone, &name, addr);
    for r in [&a, &b] {
        assert_eq!(r.zone_id, "Z1");
        assert_eq!(r.name, "home.example.com");
        assert_eq!(r.record_type, "A");
        assert_eq!(r.address, addr);
        assert_eq!(r.ttl, 120);
    }
}

/// Drives one reconciliation against a zone held in memory; returns the
/// outcome and the upserts sent.
fn reconcile_in_memory(
    config: &AppConfig,
    zone: &[RecordSetEntry],
    candidate: IpAddress,
) -> (ReconciliationOutcome, Vec<UpsertRequest>) {
    let listing = vec![page(zone.to_vec(), false, no_cursor())];
    let (scan, _) = run_scan(&config.record_set, candidate, listing);
    let outcome = decide(config.force_update(), &scan);
    let mut sent = Vec::new();
    if outcome.needs_write() {
        sent.push(upsert_request(&config.zone_id, &config.record_set, candidate));
    }
    (outcome, sent)
}

#[test]
fn end_to_end_example() {
    let config = zone_config();
    let zone = vec![entry("home.example.com", "A", vec![Some(v4(203, 0, 113, 5))])];

    let (outcome, sent) = reconcile_in_memory(&config, &zone, v4(203, 0, 113, 5));
    assert_eq!(outcome, ReconciliationOutcome::UpToDate);
    assert!(sent.is_empty());

    let (outcome, sent) = reconcile_in_memory(&config, &zone, v4(203, 0, 113, 9));
    assert_eq!(outcome, ReconciliationOutcome::NeedsUpsert);
    assert_eq!(sent.len(), 1);
    assert_eq!(sent[0].zone_id, "Z1");
    assert_eq!(sent[0].name, "home.example.com");
    assert_eq!(sent[0].address, v4(203, 0, 113, 9));
    assert_eq!(sent[0].ttl, UPSERT_TTL);
    assert_eq!(UPSERT_TTL, 120);
}

#[test]
fn config_choices() {
    let mut config = zone_config();
    assert_eq!(config.get_provider(), MyIpProvider::Ipify);
    config.provider_v4 = Some("httpbin".to_string());
    assert_eq!(config.get_provider(), MyIpProvider::Httpbin);
    config.provider_v4 = Some("identme".to_string());
    assert_eq!(config.get_provider(), MyIpProvider::IdentMe);
    config.provider_v4 = Some("ipify".to_string());
    assert_eq!(config.get_provider(), MyIpProvider::Ipify);
    config.provider_v4 = Some("nobody".to_string());
    assert_eq!(config.get_provider(), MyIpProvider::Ipify);

    assert!(!config.force_update());
    config.check_before_updating = None;
    assert!(!config.force_update());
    config.check_before_updating = Some(false);
    assert!(config.force_update());

    assert_eq!(config.v6_record_set(), "home.example.com");
    config.record_set_v6 = Some("home6.example.com".to_string());
    assert_eq!(config.v6_record_set(), "home6.example.com");

    assert_eq!(v6_provider_for(MyIpProvider::IdentMe), MyIpProvider::IdentMeV6);
    assert_eq!(v6_provider_for(MyIpProvider::Httpbin), MyIpProvider::IpifyV6);
    assert_eq!(v6_provider_for(MyIpProvider::Ipify), MyIpProvider::IpifyV6);
}

#[test]
fn credentials_choice() {
    let mut config = zone_config();
    assert!(choose_credentials(None, &config).is_none());
    config.aws_access_key = Some("AK".to_string());
    assert!(choose_credentials(None, &config).is_none());
    config.aws_secret_access_key = Some("SK".to_string());
    let c = choose_credentials(None, &config).unwrap();
    assert_eq!(c.access_key, "AK");
    assert_eq!(c.secret_access_key, "SK");
    let file = AppAwsCredentials { access_key: "F1".to_string(), secret_access_key: "F2".to_string() };
    let c = choose_credentials(Some(file), &config).unwrap();
    assert_eq!(c.access_key, "F1");

    let client = Route53Client::new(Some(c));
    assert_eq!(client.credentials().as_ref().unwrap().secret_access_key, "F2");
    assert!(Route53Client::new(None).credentials().is_none());
}

#[test]
fn wizard_helpers() {
    assert_eq!(hosted_zone_choice(1, 3), Some(0));
    assert_eq!(hosted_zone_choice(3, 3), Some(2));
    assert_eq!(hosted_zone_choice(4, 3), None);
    assert_eq!(hosted_zone_choice(0, 3), None);
    assert_eq!(hosted_zone_choice(-2, 3), None);
    assert_eq!(hosted_zone_choice(1, 0), None);
    assert_eq!(
        record_set_name(&"Home".to_string(), &"example.com.".to_string()),
        "home.example.com."
    );
}

#[test]
fn session_forced_update_writes_at_once() {
    let addr = v4(203, 0, 113, 9);
    let s = Reconciliation::new("Z1".to_string(), "home.example.com".to_string(), addr, true);
    match s.begin() {
        ReconcileAction::Upsert(req, outcome) => {
            assert_eq!(outcome, ReconciliationOutcome::NeedsUpsert);
            assert_eq!(req.zone_id, "Z1");
            assert_eq!(req.name, "home.example.com");
            assert_eq!(req.address, addr);
            assert_eq!(req.ttl, 120);
        }
        other => panic!("unexpected action {:?}", other),
    }
}

#[test]
fn session_local_match_skips_the_hosting_api() {
    let addr = v4(203, 0, 113, 5);
    let s = Reconciliation::new("Z1".to_string(), "home.example.com".to_string(), addr, false);
    match s.begin() {
        ReconcileAction::LookupLocally(name) => assert_eq!(name, "home.example.com"),
        other => panic!("unexpected action {:?}", other),
    }
    assert!(matches!(
        s.on_local_lookup(&Some(vec![addr])),
        ReconcileAction::Done(ReconciliationOutcome::UpToDate)
    ));
    assert!(matches!(s.on_local_lookup(&None), ReconcileAction::FetchPage(None)));
    assert!(matches!(
        s.on_local_lookup(&Some(vec![v4(203, 0, 113, 9)])),
        ReconcileAction::FetchPage(None)
    ));
}

/// Runs a session to its end against pages served in order; returns the
/// final action and the number of pages fetched.
fn run_session(address: IpAddress, pages: Vec<RecordSetPage>) -> (ReconcileAction, usize) {
    let mut s = Reconciliation::new("Z1".to_string(), "home.example.com".to_string(), address, false);
    let mut pages = pages.into_iter();
    let mut fetched = 0;
    let mut action = s.begin();
    loop {
        action = match action {
            ReconcileAction::LookupLocally(_) => s.on_local_lookup(&None),
            ReconcileAction::FetchPage(_) => {
                fetched += 1;
                s.on_page(pages.next().expect("no page left"))
            }
            done => return (done, fetched),
        };
    }
}

#[test]
fn session_end_to_end() {
    let cursor = PageCursor {
        record_identifier: None,
        record_name: Some("home.example.com".to_string()),
        record_type: Some("A".to_string()),
    };
    let listing = |value: IpAddress| {
        vec![
            page(vec![entry("a.example.com", "A", vec![])], true, cursor.clone()),
            page(vec![entry("home.example.com", "A", vec![Some(value)])], true, no_cursor()),
            page(vec![], false, no_cursor()),
        ]
    };
    let (action, fetched) = run_session(v4(203, 0, 113, 5), listing(v4(203, 0, 113, 5)));
    assert!(matches!(action, ReconcileAction::Done(ReconciliationOutcome::UpToDate)));
    assert_eq!(fetched, 2);

    let (action, fetched) = run_session(v4(203, 0, 113, 9), listing(v4(203, 0, 113, 5)));
    assert_eq!(fetched, 2);
    match action {
        ReconcileAction::Upsert(req, outcome) => {
            assert_eq!(outcome, ReconciliationOutcome::NeedsUpsert);
            assert_eq!(req.address, v4(203, 0, 113, 9));
            assert_eq!(req.record_type, "A");
            assert_eq!(req.ttl, 120);
        }
        other => panic!("unexpected action {:?}", other),
    }

    let (action, fetched) = run_session(v4(203, 0, 113, 9), vec![page(vec![], false, no_cursor())]);
    assert_eq!(fetched, 1);
    assert!(matches!(action, ReconcileAction::Upsert(_, ReconciliationOutcome::AbsentNeedsCreate)));
}
