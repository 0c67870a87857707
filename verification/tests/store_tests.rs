use relay_core::store::UrlHistory;
use relay_core::store::UrlRecord;
use relay_core::timefmt::Timestamp;

fn ts(hour: u8, minute: u8) -> Timestamp {
    Timestamp {
        year: 2024,
        month: 5,
        day: 17,
        hour,
        minute,
        second: 0,
        offset_minutes: -300,
    }
}

#[test]
fn empty_store_has_empty_snapshot() {
    let h = UrlHistory::new();
    assert_eq!(h.len(), 0);
    assert_eq!(h.snapshot().len(), 0);
}

#[test]
fn store_holds_every_arrival_in_acceptance_order() {
    let mut h = UrlHistory::new();
    h.append(UrlRecord { url: String::from("https://a.example/"), time: ts(9, 0) });
    h.append(UrlRecord { url: String::from("https://b.example/"), time: ts(9, 1) });
    h.append(UrlRecord { url: String::from("https://c.example/"), time: ts(9, 2) });
    let snap = h.snapshot();
    assert_eq!(snap.len(), 3);
    assert_eq!(snap[0].url.as_str(), "https://a.example/");
    assert_eq!(snap[1].url.as_str(), "https://b.example/");
    assert_eq!(snap[2].url.as_str(), "https://c.example/");
    assert_eq!(snap[0].time, ts(9, 0));
    assert_eq!(snap[2].time, ts(9, 2));
}

#[test]
fn snapshot_twice_without_append_is_equal() {
    let mut h = UrlHistory::new();
    h.append(UrlRecord { url: String::from("https://a.example/"), time: ts(10, 0) });
    h.append(UrlRecord { url: String::from("https://b.example/"), time: ts(10, 5) });
    let first = h.snapshot();
    let second = h.snapshot();
    assert_eq!(first.len(), second.len());
    for i in 0..first.len() {
        assert_eq!(first[i].url, second[i].url);
        assert_eq!(first[i].time, second[i].time);
    }
}

#[test]
fn earlier_arrival_stays_first_when_it_fails_upstream() {
    // Unit A arrives before unit B; A later fails upstream.  The store keeps
    // A's record, in front of B's.
    let mut h = UrlHistory::new();
    h.append(UrlRecord { url: String::from("https://first.example/"), time: ts(11, 0) });
    h.append(UrlRecord { url: String::from("https://second.example/"), time: ts(11, 0) });
    let snap = h.snapshot();
    assert_eq!(snap.len(), 2);
    assert_eq!(snap[0].url.as_str(), "https://first.example/");
    assert_eq!(snap[1].url.as_str(), "https://second.example/");
}

#[test]
fn snapshot_is_owned_and_survives_later_appends() {
    let mut h = UrlHistory::new();
    h.append(UrlRecord { url: String::from("https://a.example/"), time: ts(12, 0) });
    let snap = h.snapshot();
    h.append(UrlRecord { url: String::from("https://b.example/"), time: ts(12, 1) });
    assert_eq!(snap.len(), 1);
    assert_eq!(h.len(), 2);
}
