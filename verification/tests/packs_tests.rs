use supuraisu::catalog::SamplePackRecord;
use supuraisu::packs::{sort_packs_by_name, summarize_helper_packs, HelperPackPager, LikedPacksScan};

fn pack(uuid: &str, name: &str) -> SamplePackRecord {
    SamplePackRecord {
        uuid: uuid.to_string(),
        name: name.to_string(),
        cover_url: String::new(),
        genre: String::new(),
        provider_name: String::new(),
        permalink: String::new(),
    }
}

fn names(packs: &[SamplePackRecord]) -> Vec<String> {
    packs.iter().map(|p| p.name.clone()).collect()
}

#[test]
fn sort_orders_by_lowercased_name() {
    let out = sort_packs_by_name(vec![pack("1", "beta"), pack("2", "Alpha"), pack("3", "gamma"), pack("4", "ALPHA2")]);
    assert_eq!(names(&out), vec!["Alpha", "ALPHA2", "beta", "gamma"]);
}

#[test]
fn sort_of_empty_and_single() {
    assert!(sort_packs_by_name(Vec::new()).is_empty());
    assert_eq!(names(&sort_packs_by_name(vec![pack("1", "x")])), vec!["x"]);
}

#[test]
fn liked_scan_keeps_first_pack_per_uuid_and_sorts() {
    let mut scan = LikedPacksScan::new(None);
    assert_eq!(scan.next_page(), Some(1));
    scan.record_page(vec![pack("u1", "Zeta"), pack("u2", "alpha")], 100);
    assert_eq!(scan.next_page(), Some(2));
    scan.record_page(vec![pack("u1", "Zeta again"), pack("u3", "Mid")], 10);
    assert_eq!(scan.next_page(), None);
    let out = scan.finish();
    let got: Vec<(String, String)> = out.iter().map(|p| (p.uuid.clone(), p.name.clone())).collect();
    assert_eq!(
        got,
        vec![
            ("u2".to_string(), "alpha".to_string()),
            ("u3".to_string(), "Mid".to_string()),
            ("u1".to_string(), "Zeta".to_string()),
        ]
    );
}

#[test]
fn liked_scan_page_budget_follows_limit() {
    // A limit of 120 allows two pages of 100 samples.
    let mut scan = LikedPacksScan::new(Some(120));
    scan.record_page(vec![pack("a", "a")], 100);
    assert_eq!(scan.next_page(), Some(2));
    scan.record_page(vec![pack("b", "b")], 100);
    assert_eq!(scan.next_page(), None);
    // Limits below 50 count as 50: a single page.
    let mut small = LikedPacksScan::new(Some(1));
    small.record_page(Vec::new(), 100);
    assert_eq!(small.next_page(), None);
}

#[test]
fn liked_scan_stops_when_limit_reached() {
    let mut scan = LikedPacksScan::new(Some(50));
    let many: Vec<SamplePackRecord> = (0..50).map(|i| pack(&format!("u{i}"), &format!("p{i}"))).collect();
    scan.record_page(many, 100);
    assert_eq!(scan.next_page(), None);
    assert_eq!(scan.finish().len(), 50);
}

#[test]
fn helper_pager_follows_tokens_until_zero() {
    let mut pager = HelperPackPager::new();
    assert_eq!(pager.next_token(), Some(0));
    pager.record_page(vec![pack("1", "one")], 7);
    assert_eq!(pager.next_token(), Some(7));
    pager.record_page(vec![pack("2", "two")], 0);
    assert_eq!(pager.next_token(), None);
    assert_eq!(names(&pager.into_packs()), vec!["one", "two"]);
}

#[test]
fn helper_pager_stops_on_repeated_token_and_failure() {
    let mut pager = HelperPackPager::new();
    pager.record_page(vec![pack("1", "one")], 3);
    pager.record_page(vec![pack("2", "two")], 3);
    assert_eq!(pager.next_token(), None);

    let mut failed = HelperPackPager::new();
    failed.record_page(vec![pack("1", "one")], 3);
    failed.record_failure();
    assert_eq!(failed.next_token(), None);
    assert_eq!(names(&failed.into_packs()), vec!["one"]);
}

#[test]
fn helper_pager_makes_at_most_fifty_requests() {
    let mut pager = HelperPackPager::new();
    let mut requests = 0;
    while let Some(token) = pager.next_token() {
        pager.record_page(Vec::new(), token + 1);
        requests += 1;
    }
    assert_eq!(requests, 50);
}

#[test]
fn helper_pack_listing_keeps_order() {
    let out = summarize_helper_packs(vec![pack("b", "B"), pack("a", "A")]);
    let got: Vec<String> = out.iter().map(|p| p.uuid.clone()).collect();
    assert_eq!(got, vec!["b", "a"]);
    assert!(out.iter().all(|p| p.sample_count.is_none() && p.banner_url.is_empty()));
}
