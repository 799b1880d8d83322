use acolyte::store::{stale_stats_entries, stats_file_name};

fn names(v: &[&str]) -> Vec<String> {
    v.iter().map(|s| s.to_string()).collect()
}

#[test]
fn record_file_name_carries_the_millis() {
    assert_eq!(stats_file_name(1700000000123), "stats-1700000000123.json");
    assert_eq!(stats_file_name(0), "stats-0.json");
}

#[test]
fn oldest_records_are_evicted_first() {
    let dir = names(&[
        "stats-1700000000300.json",
        "notes.txt",
        "stats-1700000000100.json",
        "stats-1700000000200.json",
        "other-1.json",
        "stats-1700000000400.json",
        "stats-1700000000500.tmp",
    ]);
    assert_eq!(
        stale_stats_entries(&dir, 2),
        names(&["stats-1700000000100.json", "stats-1700000000200.json"])
    );
    assert_eq!(stale_stats_entries(&dir, 4), Vec::<String>::new());
    assert_eq!(stale_stats_entries(&dir, 12), Vec::<String>::new());
    assert_eq!(stale_stats_entries(&dir, 0).len(), 4);
}
