use loaa::activity::{get_recent_activity, sort_entries_newest_first};
use loaa::models::ledger::LedgerEntry;

fn entry(description: &str, created_at: i64) -> LedgerEntry {
    LedgerEntry::earned("kid-1".to_string(), 100, description.to_string(), created_at)
}

#[test]
fn test_sort_entries_newest_first() {
    let entries = vec![
        entry("second", 200),
        entry("fourth", 50),
        entry("first", 300),
        entry("third", 100),
    ];
    let sorted = sort_entries_newest_first(entries);
    let names: Vec<&str> = sorted.iter().map(|e| e.description.as_str()).collect();
    assert_eq!(names, vec!["first", "second", "third", "fourth"]);
}

#[test]
fn test_recent_activity_cuts_to_limit() {
    let entries = vec![
        entry("old", 10),
        entry("newest", 500),
        entry("older", 5),
        entry("newer", 400),
    ];
    let recent = get_recent_activity(entries, 2);
    let names: Vec<&str> = recent.iter().map(|e| e.description.as_str()).collect();
    assert_eq!(names, vec!["newest", "newer"]);
}

#[test]
fn test_recent_activity_limit_beyond_len() {
    let entries = vec![entry("a", 1), entry("b", 2)];
    let recent = get_recent_activity(entries, 10);
    assert_eq!(recent.len(), 2);
    assert_eq!(recent[0].description, "b");
    assert_eq!(recent[1].description, "a");
}

#[test]
fn test_recent_activity_empty() {
    let recent = get_recent_activity(Vec::new(), 5);
    assert!(recent.is_empty());
}

#[test]
fn test_sort_keeps_equal_timestamps() {
    let entries = vec![entry("a", 7), entry("b", 7), entry("c", 7)];
    let sorted = sort_entries_newest_first(entries);
    let mut names: Vec<&str> = sorted.iter().map(|e| e.description.as_str()).collect();
    names.sort();
    assert_eq!(names, vec!["a", "b", "c"]);
}
