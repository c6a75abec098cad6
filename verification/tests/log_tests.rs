use ws_session::log::{EventLog, LogEntry, LogKind};

fn entry(text: &str, kind: LogKind) -> LogEntry {
    LogEntry::new(text.to_string(), kind)
}

fn texts(log: &EventLog) -> Vec<String> {
    log.snapshot().iter().map(|e| e.text().to_string()).collect()
}

#[test]
fn new_log_is_empty() {
    let log = EventLog::new();
    assert!(log.is_empty());
    assert_eq!(log.len(), 0);
    assert!(log.get(0).is_none());
    assert!(log.snapshot().is_empty());
}

#[test]
fn append_keeps_order() {
    let mut log = EventLog::new();
    log.append(entry("first", LogKind::Info));
    log.append(entry("second", LogKind::Warning));
    log.append(entry("third", LogKind::Error));
    assert_eq!(log.len(), 3);
    assert!(!log.is_empty());
    assert_eq!(texts(&log), vec!["first", "second", "third"]);
    assert_eq!(log.get(0).unwrap().kind(), LogKind::Info);
    assert_eq!(log.get(1).unwrap().kind(), LogKind::Warning);
    assert_eq!(log.get(2).unwrap().text(), "third");
    assert!(log.get(3).is_none());
}

#[test]
fn clear_then_append_yields_only_the_new_entry() {
    let mut log = EventLog::new();
    log.append(entry("a", LogKind::Info));
    log.append(entry("b", LogKind::Success));
    log.clear();
    assert!(log.snapshot().is_empty());
    assert_eq!(log.len(), 0);
    log.append(entry("c", LogKind::Warning));
    let copy = log.snapshot();
    assert_eq!(copy.len(), 1);
    assert_eq!(copy[0].text(), "c");
    assert_eq!(copy[0].kind(), LogKind::Warning);
}

#[test]
fn clear_of_empty_log_is_empty() {
    let mut log = EventLog::new();
    log.clear();
    assert!(log.is_empty());
}

#[test]
fn snapshot_is_a_point_in_time_copy() {
    let mut log = EventLog::new();
    log.append(entry("a", LogKind::Info));
    let before = log.snapshot();
    log.append(entry("b", LogKind::Info));
    log.clear();
    assert_eq!(before.len(), 1);
    assert_eq!(before[0].text(), "a");
    let again: Vec<&str> = before.iter().map(|e| e.text()).collect();
    assert_eq!(again, vec!["a"]);
}

#[test]
fn count_by_kind() {
    let mut log = EventLog::new();
    assert_eq!(log.count(LogKind::Info), 0);
    log.append(entry("a", LogKind::Info));
    log.append(entry("b", LogKind::Error));
    log.append(entry("c", LogKind::Info));
    log.append(entry("d", LogKind::Success));
    assert_eq!(log.count(LogKind::Info), 2);
    assert_eq!(log.count(LogKind::Error), 1);
    assert_eq!(log.count(LogKind::Success), 1);
    assert_eq!(log.count(LogKind::Warning), 0);
}

#[test]
fn entry_clone_keeps_text_and_kind() {
    let e = entry("héllo ✓", LogKind::Success);
    let c = e.clone();
    assert_eq!(c.text(), "héllo ✓");
    assert_eq!(c.kind(), LogKind::Success);
}
