use vrc_one::log_manager::{LogEntry, LogManager};

fn entry(timestamp: &str, level: &str, module: &str, message: &str) -> LogEntry {
    LogEntry {
        timestamp: timestamp.to_string(),
        level: level.to_string(),
        source: "backend".to_string(),
        module: module.to_string(),
        message: message.to_string(),
    }
}

#[test]
fn a_line_is_parted_at_its_first_three_spaces() {
    assert_eq!(
        LogManager::parse_log_line("2024-01-01 12:00:00.123 [INFO] vrc_circle: started up: ok"),
        Some(entry("2024-01-01 12:00:00.123", "INFO", "vrc_circle", "started up: ok"))
    );
    assert_eq!(
        LogManager::parse_log_line("2024-01-01 12:00:00 [[warn]] no module here"),
        Some(entry("2024-01-01 12:00:00", "WARN", "unknown", "no module here"))
    );
    assert_eq!(
        LogManager::parse_log_line("a b c d"),
        Some(entry("a b", "C", "unknown", "d"))
    );
    assert_eq!(
        LogManager::parse_log_line("a b [] : x"),
        Some(entry("a b", "", "", "x"))
    );
    assert_eq!(
        LogManager::parse_log_line("a b ]e[rr[ m:: y"),
        Some(entry("a b", "E[RR", "m:", "y"))
    );
    assert_eq!(LogManager::parse_log_line("   "), Some(entry(" ", "", "unknown", "")));
    assert_eq!(LogManager::parse_log_line("a  b c"), Some(entry("a ", "B", "unknown", "c")));
    assert_eq!(LogManager::parse_log_line("a b c m:"), Some(entry("a b", "C", "unknown", "m:")));
    assert_eq!(LogManager::parse_log_line("a b c m: "), Some(entry("a b", "C", "m", "")));
}

#[test]
fn a_line_with_fewer_than_three_spaces_is_no_entry() {
    assert_eq!(LogManager::parse_log_line(""), None);
    assert_eq!(LogManager::parse_log_line("one"), None);
    assert_eq!(LogManager::parse_log_line("one two"), None);
    assert_eq!(LogManager::parse_log_line("one two three"), None);
    assert_eq!(LogManager::parse_log_line("  "), None);
}

#[test]
fn a_log_is_read_line_by_line() {
    let content = "2024-01-01 12:00:00 [INFO] a: first\r\n\n   \nbroken line\n2024-01-01 12:00:01 [error] b: second\r\n2024-01-01 12:00:02 [debug] c: last\r";
    assert_eq!(
        LogManager::parse_logs(content),
        vec![
            entry("2024-01-01 12:00:00", "INFO", "a", "first"),
            entry("2024-01-01 12:00:01", "ERROR", "b", "second"),
            entry("2024-01-01 12:00:02", "DEBUG", "c", "last\r"),
        ]
    );
    assert!(LogManager::parse_logs("").is_empty());
    assert!(LogManager::parse_logs("\n\n").is_empty());
    assert_eq!(LogManager::parse_logs("a b c d\n").len(), 1);
    assert_eq!(LogManager::parse_logs("a b c d\r\n")[0].message, "d");
    assert_eq!(LogManager::parse_logs("\ra b c d\n")[0].timestamp, "\ra b");
}
