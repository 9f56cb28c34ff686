//! End-to-end exercises of the service core: the record store, the
//! create/delete reconciliation rules, pagination and the exports.

use ip_registry::export::{
    classify_ttl, render_mirror_export, render_records_export, ttl_display_seconds, u64_to_string,
    MirrorEntry, TtlReply,
};
use ip_registry::ip::{Ip, QueryOptions};
use ip_registry::query::{list_page, paginate, resolve_pagination};
use ip_registry::reconcile::{
    create_commit, create_plan, delete_ip, ServiceError, EXPIRATION_IN_SECONDS,
};
use ip_registry::record_store::RecordStore;
use ip_registry::response::{
    conflict_response, created_response, health_response, not_found_response,
};

fn ip(addr: &str, desc: &str) -> Ip {
    Ip { ipv4: String::from(addr), desc: String::from(desc) }
}

/// A stand-in for the mirror in these tests: the key/value pairs it
/// holds, consulted for the exists answer and extended on every accepted
/// set, one create at a time, as a serialized backend would.
struct FakeMirror {
    entries: Vec<(String, String)>,
}

impl FakeMirror {
    fn new() -> FakeMirror {
        FakeMirror { entries: Vec::new() }
    }

    fn has_key(&self, key: &str) -> bool {
        self.entries.iter().any(|(k, _)| k == key)
    }

    fn value_of(&self, key: &str) -> Option<&String> {
        self.entries.iter().find(|(k, _)| k == key).map(|(_, v)| v)
    }

    fn set(&mut self, key: &str, value: &str) {
        self.entries.push((String::from(key), String::from(value)));
    }
}

/// One whole create against the fake mirror; returns the error, if any.
fn run_create(
    store: &mut RecordStore,
    mirror: &mut FakeMirror,
    record: Ip,
    expire: bool,
) -> Result<Ip, ServiceError> {
    let reply = Some(mirror.has_key(&record.ipv4));
    match create_plan(&record.ipv4, &record.desc, reply, expire) {
        Err(e) => Err(e),
        Ok(write) => {
            mirror.set(&write.key, &write.value);
            create_commit(store, record)
        }
    }
}

#[test]
fn store_starts_empty() {
    let store = RecordStore::new();
    assert_eq!(store.len(), 0);
    assert!(!store.contains_addr(&String::from("10.0.0.1")));
}

#[test]
fn append_and_contains() {
    let mut store = RecordStore::new();
    assert!(store.append(ip("10.0.0.1", "first")));
    assert!(store.contains_addr(&String::from("10.0.0.1")));
    assert!(!store.contains_addr(&String::from("10.0.0.2")));
    assert_eq!(store.len(), 1);
}

#[test]
fn append_rejects_duplicate_address() {
    let mut store = RecordStore::new();
    assert!(store.append(ip("10.0.0.1", "first")));
    assert!(!store.append(ip("10.0.0.1", "second")));
    assert_eq!(store.len(), 1);
    assert_eq!(store.get(0).desc, "first");
}

#[test]
fn remove_keeps_order_of_the_rest() {
    let mut store = RecordStore::new();
    assert!(store.append(ip("10.0.0.1", "a")));
    assert!(store.append(ip("10.0.0.2", "b")));
    assert!(store.append(ip("10.0.0.3", "c")));
    assert!(store.remove(&String::from("10.0.0.2")));
    assert_eq!(store.len(), 2);
    assert_eq!(store.get(0).ipv4, "10.0.0.1");
    assert_eq!(store.get(1).ipv4, "10.0.0.3");
    assert!(!store.remove(&String::from("10.0.0.2")));
}

#[test]
fn list_clips_out_of_range_bounds() {
    let mut store = RecordStore::new();
    for i in 0..4u32 {
        assert!(store.append(ip(&format!("10.0.0.{}", i), "d")));
    }
    assert_eq!(store.list(0, 10).len(), 4);
    assert_eq!(store.list(3, 10).len(), 1);
    assert_eq!(store.list(4, 10).len(), 0);
    assert_eq!(store.list(100, 10).len(), 0);
    assert_eq!(store.list(1, 0).len(), 0);
}

#[test]
fn paginate_pages_of_two() {
    let mut store = RecordStore::new();
    for addr in ["1.0.0.1", "1.0.0.2", "1.0.0.3", "1.0.0.4"] {
        assert!(store.append(ip(addr, "d")));
    }
    let p1 = paginate(&store, 1, 2);
    assert_eq!(p1.len(), 2);
    assert_eq!(p1[0].ipv4, "1.0.0.1");
    assert_eq!(p1[1].ipv4, "1.0.0.2");
    let p2 = paginate(&store, 2, 2);
    assert_eq!(p2.len(), 2);
    assert_eq!(p2[0].ipv4, "1.0.0.3");
    assert_eq!(p2[1].ipv4, "1.0.0.4");
    let p3 = paginate(&store, 3, 2);
    assert_eq!(p3.len(), 0);
}

#[test]
fn pagination_defaults_and_clamping() {
    let opts = QueryOptions { page: None, limit: None };
    assert_eq!(resolve_pagination(&opts), (1, 10));
    let opts = QueryOptions { page: Some(0), limit: Some(0) };
    assert_eq!(resolve_pagination(&opts), (1, 1));
    let opts = QueryOptions { page: Some(3), limit: Some(7) };
    assert_eq!(resolve_pagination(&opts), (3, 7));
}

#[test]
fn list_page_reports_count_of_returned_records() {
    let mut store = RecordStore::new();
    for i in 0..11u32 {
        assert!(store.append(ip(&format!("10.1.0.{}", i), "d")));
    }
    let r = list_page(&store, &QueryOptions { page: None, limit: None });
    assert_eq!(r.status, "success");
    assert_eq!(r.results, 10);
    assert_eq!(r.ips.len(), 10);
    let r = list_page(&store, &QueryOptions { page: Some(2), limit: None });
    assert_eq!(r.results, 1);
    assert_eq!(r.ips[0].ipv4, "10.1.0.10");
    let r = list_page(&store, &QueryOptions { page: Some(5), limit: Some(3) });
    assert_eq!(r.results, 0);
}

#[test]
fn paginate_huge_page_is_empty() {
    let mut store = RecordStore::new();
    assert!(store.append(ip("10.0.0.1", "d")));
    assert_eq!(paginate(&store, usize::MAX, usize::MAX).len(), 0);
}

#[test]
fn plan_refuses_existing_address_as_conflict() {
    let addr = String::from("10.2.0.1");
    let desc = String::from("gw");
    let r = create_plan(&addr, &desc, Some(true), false);
    assert!(matches!(r, Err(ServiceError::Conflict)));
    let r = create_plan(&addr, &desc, Some(true), true);
    assert!(matches!(r, Err(ServiceError::Conflict)));
}

#[test]
fn plan_aborts_when_the_exists_check_failed() {
    let addr = String::from("10.2.0.1");
    let desc = String::from("gw");
    let r = create_plan(&addr, &desc, None, false);
    assert!(matches!(r, Err(ServiceError::UpstreamUnavailable)));
}

#[test]
fn plan_carries_the_address_and_description() {
    let addr = String::from("10.2.0.1");
    let desc = String::from("gateway of the lab");
    let w = create_plan(&addr, &desc, Some(false), false).unwrap();
    assert_eq!(w.key, "10.2.0.1");
    assert_eq!(w.value, "gateway of the lab");
}

#[test]
fn plan_fixes_the_expiry() {
    let addr = String::from("10.2.0.1");
    let desc = String::from("gw");
    let w = create_plan(&addr, &desc, Some(false), true).unwrap();
    assert_eq!(w.ttl_seconds, Some(EXPIRATION_IN_SECONDS));
    let w = create_plan(&addr, &desc, Some(false), false).unwrap();
    assert_eq!(w.ttl_seconds, None);
}

#[test]
fn expire_ttl_is_a_day_at_most() {
    let addr = String::from("10.2.0.1");
    let desc = String::from("gw");
    let ttl = create_plan(&addr, &desc, Some(false), true).unwrap().ttl_seconds.unwrap();
    assert!(ttl > 0);
    assert!(ttl <= 86400);
    assert!(matches!(classify_ttl(ttl as i64), TtlReply::Remaining(86400)));
}

#[test]
fn mirror_write_carries_the_description() {
    let mut store = RecordStore::new();
    let mut mirror = FakeMirror::new();
    assert!(run_create(&mut store, &mut mirror, ip("10.3.0.1", "the backup host"), false).is_ok());
    assert_eq!(mirror.value_of("10.3.0.1"), Some(&String::from("the backup host")));
}

#[test]
fn create_returns_the_stored_record() {
    let mut store = RecordStore::new();
    let created = create_commit(&mut store, ip("10.0.0.9", "router")).unwrap();
    assert_eq!(created.ipv4, "10.0.0.9");
    assert_eq!(created.desc, "router");
    assert_eq!(store.len(), 1);
}

#[test]
fn commit_of_a_listed_address_is_an_internal_error() {
    let mut store = RecordStore::new();
    assert!(create_commit(&mut store, ip("10.0.0.9", "router")).is_ok());
    let again = create_commit(&mut store, ip("10.0.0.9", "other"));
    assert!(matches!(again, Err(ServiceError::Internal)));
    assert_eq!(store.len(), 1);
    assert_eq!(store.get(0).desc, "router");
}

#[test]
fn store_length_counts_successful_creates() {
    let mut store = RecordStore::new();
    let mut mirror = FakeMirror::new();
    let mut successes = 0usize;
    for addr in ["2.0.0.1", "2.0.0.2", "2.0.0.3", "2.0.0.4", "2.0.0.5"] {
        if run_create(&mut store, &mut mirror, ip(addr, "d"), false).is_ok() {
            successes += 1;
        }
    }
    assert_eq!(successes, 5);
    assert_eq!(store.len(), successes);
}

#[test]
fn second_create_of_same_address_observes_conflict() {
    // The fake mirror serializes the exists-then-set sequences of the two
    // creates, which is the atomicity the reconciliation rules rely on.
    let mut store = RecordStore::new();
    let mut mirror = FakeMirror::new();
    let first = run_create(&mut store, &mut mirror, ip("3.0.0.1", "one"), true);
    let second = run_create(&mut store, &mut mirror, ip("3.0.0.1", "two"), true);
    assert!(first.is_ok());
    assert!(matches!(second, Err(ServiceError::Conflict)));
    assert_eq!(store.len(), 1);
    assert_eq!(store.get(0).desc, "one");
}

#[test]
fn create_after_delete_still_conflicts_in_the_mirror() {
    // Deletes leave the mirror alone, so the mirror keeps refusing the
    // address even though the record store no longer lists it.
    let mut store = RecordStore::new();
    let mut mirror = FakeMirror::new();
    assert!(run_create(&mut store, &mut mirror, ip("4.0.0.1", "one"), false).is_ok());
    assert!(delete_ip(&mut store, &String::from("4.0.0.1")).is_ok());
    assert_eq!(store.len(), 0);
    let again = run_create(&mut store, &mut mirror, ip("4.0.0.1", "two"), false);
    assert!(matches!(again, Err(ServiceError::Conflict)));
    assert_eq!(store.len(), 0);
}

#[test]
fn delete_of_unknown_address_is_not_found() {
    let mut store = RecordStore::new();
    assert!(store.append(ip("5.0.0.1", "keep")));
    let r = delete_ip(&mut store, &String::from("5.0.0.9"));
    assert_eq!(r, Err(ServiceError::NotFound));
    assert_eq!(store.len(), 1);
    assert_eq!(store.get(0).ipv4, "5.0.0.1");
}

#[test]
fn delete_removes_exactly_one_record() {
    let mut store = RecordStore::new();
    assert!(store.append(ip("5.0.0.1", "a")));
    assert!(store.append(ip("5.0.0.2", "b")));
    assert!(delete_ip(&mut store, &String::from("5.0.0.1")).is_ok());
    assert_eq!(store.len(), 1);
    assert!(!store.contains_addr(&String::from("5.0.0.1")));
    assert!(store.contains_addr(&String::from("5.0.0.2")));
}

#[test]
fn decimal_rendering() {
    assert_eq!(u64_to_string(0), "0");
    assert_eq!(u64_to_string(7), "7");
    assert_eq!(u64_to_string(10), "10");
    assert_eq!(u64_to_string(86400), "86400");
    assert_eq!(u64_to_string(u64::MAX), "18446744073709551615");
}

#[test]
fn ttl_classification_keeps_the_negative_sentinels_apart() {
    assert!(matches!(classify_ttl(-1), TtlReply::NoExpiry));
    assert!(matches!(classify_ttl(-2), TtlReply::Absent));
    assert!(matches!(classify_ttl(0), TtlReply::Remaining(0)));
    assert!(matches!(classify_ttl(301), TtlReply::Remaining(301)));
    assert_eq!(ttl_display_seconds(&classify_ttl(-1)), 0);
    assert_eq!(ttl_display_seconds(&classify_ttl(-2)), 0);
    assert_eq!(ttl_display_seconds(&classify_ttl(301)), 301);
}

#[test]
fn mirror_export_empty_is_just_the_sentinel() {
    let entries: Vec<MirrorEntry> = Vec::new();
    assert_eq!(render_mirror_export(&entries), ";");
}

#[test]
fn mirror_export_lines_and_sentinel() {
    let entries = vec![
        MirrorEntry { key: String::from("1.2.3.4"), ttl_seconds: 100 },
        MirrorEntry { key: String::from("5.6.7.8"), ttl_seconds: 0 },
    ];
    assert_eq!(render_mirror_export(&entries), "1.2.3.4;# 100\n5.6.7.8;# 0;");
}

#[test]
fn records_export_one_line_per_record() {
    let mut store = RecordStore::new();
    assert_eq!(render_records_export(&store), "");
    assert!(store.append(ip("1.1.1.1", "a")));
    assert!(store.append(ip("2.2.2.2", "b")));
    assert_eq!(render_records_export(&store), "1.1.1.1;\n2.2.2.2;");
}

#[test]
fn health_reply_is_a_success() {
    let r = health_response();
    assert_eq!(r.status, "success");
    assert_eq!(r.message, "Build Simple CRUD API with Rust and Actix Web");
}

#[test]
fn created_reply_wraps_the_record() {
    let r = created_response(ip("9.9.9.9", "dns"));
    assert_eq!(r.status, "success");
    assert_eq!(r.data.ip.ipv4, "9.9.9.9");
    assert_eq!(r.data.ip.desc, "dns");
}

#[test]
fn failure_replies_name_the_address() {
    let conflict = conflict_response(&String::from("9.9.9.9"));
    assert_eq!(conflict.status, "fail");
    assert_eq!(conflict.message, "Ip with IPV4: 9.9.9.9 already exists");
    let missing = not_found_response(&String::from("9.9.9.9"));
    assert_eq!(missing.status, "fail");
    assert_eq!(missing.message, "Ip with IPV4: 9.9.9.9 not found");
}
