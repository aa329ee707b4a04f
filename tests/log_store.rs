use log_dashboard::log_store::LogStore;
use log_dashboard::producer::{log_message, seed_entries, synthesize_entry};
use log_dashboard::shared_log::SharedLog;

fn strings(items: &[&str]) -> Vec<String> {
    items.iter().map(|s| s.to_string()).collect()
}

#[test]
fn window_of_five_entries() {
    let store = LogStore::new(strings(&["A", "B", "C", "D", "E"]));
    assert_eq!(store.visible_window(3), strings(&["C", "D", "E"]));
    assert_eq!(store.visible_window(0), Vec::<String>::new());
    assert_eq!(store.visible_window(10), strings(&["A", "B", "C", "D", "E"]));
    assert_eq!(store.visible_window(5), strings(&["A", "B", "C", "D", "E"]));
}

#[test]
fn window_of_empty_store() {
    let store = LogStore::empty();
    assert_eq!(store.len(), 0);
    assert_eq!(store.visible_window(4), Vec::<String>::new());
    assert_eq!(store.visible_window(0), Vec::<String>::new());
}

#[test]
fn appends_keep_count_and_order() {
    let mut store = LogStore::new(strings(&["seed"]));
    for i in 0..20 {
        store.append(format!("entry {}", i));
    }
    assert_eq!(store.len(), 21);
    let all = store.visible_window(100);
    assert_eq!(all[0], "seed");
    for i in 0..20 {
        assert_eq!(all[i + 1], format!("entry {}", i));
    }
}

#[test]
fn equal_entries_are_all_kept() {
    let mut store = LogStore::empty();
    store.append("same".to_string());
    store.append("same".to_string());
    assert_eq!(store.len(), 2);
    assert_eq!(store.visible_window(1), strings(&["same"]));
}

#[test]
fn shared_log_interleaved_appends_and_windows() {
    let log = SharedLog::new(strings(&["A", "B", "C"]));
    assert_eq!(log.visible_window(2), strings(&["B", "C"]));
    log.append("D".to_string());
    let w = log.visible_window(10);
    assert_eq!(w, strings(&["A", "B", "C", "D"]));
    assert!(w.len() <= log.len());
    log.append("E".to_string());
    assert_eq!(log.visible_window(3), strings(&["C", "D", "E"]));
    assert_eq!(log.len(), 5);
    assert_eq!(w, strings(&["A", "B", "C", "D"]));
}

#[test]
fn log_message_embeds_stamp() {
    assert_eq!(log_message("12:00:01"), "Additional log message at 12:00:01");
    assert_eq!(log_message(""), "Additional log message at ");
}

#[test]
fn synthesized_entry_carries_a_time() {
    let e = synthesize_entry();
    let prefix = "Additional log message at ";
    assert!(e.starts_with(prefix));
    assert!(e.len() > prefix.len());
}

#[test]
fn seed_has_three_entries() {
    assert_eq!(
        seed_entries(),
        strings(&[
            "Starting mining process...",
            "New block found!",
            "Received share accepted by the pool.",
        ])
    );
}
