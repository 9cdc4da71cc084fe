use devflow::logs::{
    fetch_count, level_badge, level_from_flag, matches_filter, parse_logcat_line, recent_matches, tag_suffix, LogEntry, LogLevel,
};

fn e(level: LogLevel, msg: &str, tag: Option<&str>) -> LogEntry {
    LogEntry { level, message: msg.to_string(), tag: tag.map(|t| t.to_string()), time: None }
}

#[test]
fn level_flags() {
    assert_eq!(level_from_flag('w'), LogLevel::W);
    assert_eq!(level_from_flag('E'), LogLevel::E);
    assert_eq!(level_from_flag('d'), LogLevel::D);
    assert_eq!(level_from_flag('x'), LogLevel::I);
    assert_eq!(level_badge(LogLevel::W), "[WRN]");
    assert_eq!(tag_suffix(&Some("net".to_string())), " [net]");
    assert_eq!(tag_suffix(&None), "");
}

#[test]
fn filters_ignore_case() {
    let x = e(LogLevel::E, "Connection REFUSED", Some("OkHttp"));
    assert!(matches_filter(&x, Some(LogLevel::E), Some("okhttp"), Some("refused")));
    assert!(matches_filter(&x, Some(LogLevel::W), None, None));
    assert!(!matches_filter(&e(LogLevel::I, "m", None), Some(LogLevel::W), None, None));
    assert!(matches_filter(&e(LogLevel::D, "m", None), Some(LogLevel::D), None, None));
    assert!(!matches_filter(&e(LogLevel::E, "m", None), None, Some("net"), None));
    assert!(matches_filter(&x, None, None, None));
}

#[test]
fn fetch_counts() {
    assert_eq!(fetch_count(100, true), 2000);
    assert_eq!(fetch_count(5, true), 200);
    assert_eq!(fetch_count(50, true), 1000);
    assert_eq!(fetch_count(7, false), 7);
}

#[test]
fn recent_matches_are_the_last_ones_in_order() {
    let entries = vec![
        e(LogLevel::I, "one", None),
        e(LogLevel::E, "two", None),
        e(LogLevel::E, "three", None),
        e(LogLevel::I, "four", None),
        e(LogLevel::E, "five", None),
    ];
    let r = recent_matches(&entries, 2, Some(LogLevel::E), None, None);
    let msgs: Vec<&str> = r.iter().map(|x| x.message.as_str()).collect();
    assert_eq!(msgs, vec!["three", "five"]);
    let one = vec![e(LogLevel::E, "boom", None)];
    assert_eq!(recent_matches(&one, 1, Some(LogLevel::W), None, None).len(), 1);
    let w = recent_matches(&entries, 10, Some(LogLevel::I), None, None);
    assert_eq!(w.len(), 5);
    assert_eq!(recent_matches(&entries, 0, None, None, None).len(), 0);
    assert_eq!(recent_matches(&entries, 10, None, None, Some("zzz")).len(), 0);
}

#[test]
fn logcat_lines_give_level_tag_and_message() {
    let w = parse_logcat_line("06-01 12:34:56.789 W/ActivityManager(  512): Slow operation: took 120ms");
    assert_eq!(w.level, LogLevel::W);
    assert_eq!(w.tag.as_deref(), Some("ActivityManager"));
    assert_eq!(w.message, "Slow operation: took 120ms");
    assert_eq!(w.time.as_deref(), Some("12:34:56.789"));
    let f = parse_logcat_line("06-01 12:34:57.001 F/libc    ( 1234): Fatal signal 11 (SIGSEGV)");
    assert_eq!(f.level, LogLevel::E);
    assert_eq!(f.tag.as_deref(), Some("libc"));
    assert_eq!(f.message, "Fatal signal 11 (SIGSEGV)");
    let v = parse_logcat_line("06-01 12:34:57.002 V/Choreographer(  900): frame");
    assert_eq!(v.level, LogLevel::D);
}

#[test]
fn other_lines_are_info_from_logcat() {
    let l = parse_logcat_line("--------- beginning of main");
    assert_eq!(l.level, LogLevel::I);
    assert_eq!(l.tag.as_deref(), Some("logcat"));
    assert_eq!(l.message, "--------- beginning of main");
    assert_eq!(l.time, None);
    let x = parse_logcat_line("06-01 12:34:56.789 X/Tag(1): nope");
    assert_eq!(x.level, LogLevel::I);
    assert_eq!(x.message, "06-01 12:34:56.789 X/Tag(1): nope");
}

#[test]
fn parsed_lines_filter_by_minimum_level_and_tag() {
    let lines = [
        "06-01 12:00:00.000 D/Net( 10): connecting",
        "06-01 12:00:00.100 E/Net( 10): refused",
        "06-01 12:00:00.200 W/Ui( 11): jank",
    ];
    let entries: Vec<LogEntry> = lines.iter().map(|l| parse_logcat_line(l)).collect();
    let shown = recent_matches(&entries, 10, Some(LogLevel::W), Some("net"), None);
    assert_eq!(shown.len(), 1);
    assert_eq!(shown[0].message, "refused");
}
