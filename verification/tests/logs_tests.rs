use rat_nexus::pages::logs::level_for_draw;
use rat_nexus::pages::logs::LogEntry;
use rat_nexus::pages::logs::LogLevel;
use rat_nexus::pages::logs::LogState;

fn entry(id: u64, level: LogLevel, service: &str, message: &str) -> LogEntry {
    LogEntry {
        id,
        timestamp_ms: id * 100,
        level,
        service: String::from(service),
        message: String::from(message),
        details: String::new(),
    }
}

#[test]
fn filter_tracks_matching_entries_case_insensitively() {
    let mut s = LogState::default();
    s.add_log(entry(1, LogLevel::Info, "auth-svc", "Connection established"));
    s.add_log(entry(2, LogLevel::Warn, "db-shard", "Query executed"));
    s.add_log(entry(3, LogLevel::Info, "auth-svc", "User LOGIN successful"));
    assert_eq!(s.filtered_indices, vec![0, 1, 2]);

    for c in "login".chars() {
        s.push_filter_char(c);
    }
    assert_eq!(s.filter, "login");
    assert_eq!(s.filtered_indices, vec![2]);

    // The service name matches too.
    for _ in 0.."login".len() {
        s.pop_filter_char();
    }
    for c in "AUTH".chars() {
        s.push_filter_char(c);
    }
    assert_eq!(s.filtered_indices, vec![0, 2]);

    // An unmatched filter empties the view; removing it restores everything.
    for _ in 0.."AUTH".len() {
        s.pop_filter_char();
    }
    for c in "zzz".chars() {
        s.push_filter_char(c);
    }
    assert_eq!(s.filtered_indices, Vec::<usize>::new());
    for _ in 0.."zzz".len() {
        s.pop_filter_char();
    }
    assert_eq!(s.filtered_indices, vec![0, 1, 2]);
}

#[test]
fn incremental_add_matches_recalculation() {
    let mut s = LogState::default();
    for c in "pay".chars() {
        s.push_filter_char(c);
    }
    s.add_log(entry(1, LogLevel::Info, "payment-proc", "Payment processed"));
    s.add_log(entry(2, LogLevel::Info, "front-nginx", "Packet dropped"));
    s.add_log(entry(3, LogLevel::Error, "api", "Failed to complete: PAYout"));
    assert_eq!(s.filtered_indices, vec![0, 2]);
}

#[test]
fn stats_count_by_level() {
    let mut s = LogState::default();
    s.add_log(entry(1, LogLevel::Info, "a", "m"));
    s.add_log(entry(2, LogLevel::Warn, "a", "m"));
    s.add_log(entry(3, LogLevel::Error, "a", "m"));
    s.add_log(entry(4, LogLevel::Info, "a", "m"));
    s.add_log(entry(5, LogLevel::Debug, "a", "m"));
    s.add_log(entry(6, LogLevel::Trace, "a", "m"));
    assert_eq!(s.stats, (2, 1, 1));
    s.clear();
    assert_eq!(s.stats, (0, 0, 0));
    assert!(s.logs.is_empty());
    assert!(s.filtered_indices.is_empty());
    assert_eq!(s.selected_index, 0);
}

#[test]
fn buffer_is_capped_at_a_thousand_entries() {
    let mut s = LogState::default();
    let mut id = 1u64;
    while id <= 1001 {
        s.add_log(entry(id, LogLevel::Info, "svc", "message"));
        id += 1;
    }
    assert_eq!(s.logs.len(), 1000);
    assert_eq!(s.logs[0].id, 2);
    assert_eq!(s.logs[999].id, 1001);
    assert_eq!(s.filtered_indices.len(), 1000);
    // Auto-scroll keeps the selection at the tail.
    assert_eq!(s.selected_index, 999);
}

#[test]
fn selection_follows_tail_until_moved_by_hand() {
    let mut s = LogState::default();
    s.add_log(entry(1, LogLevel::Info, "a", "x"));
    s.add_log(entry(2, LogLevel::Info, "a", "y"));
    s.add_log(entry(3, LogLevel::Info, "a", "z"));
    assert!(s.auto_scroll);
    assert_eq!(s.selected_index, 2);

    s.select_up();
    assert!(!s.auto_scroll);
    assert_eq!(s.selected_index, 1);
    s.select_up();
    assert_eq!(s.selected_index, 0);
    s.select_up();
    assert_eq!(s.selected_index, 0);

    s.select_down();
    assert_eq!(s.selected_index, 1);
    s.select_down();
    assert_eq!(s.selected_index, 2);
    s.select_down();
    assert_eq!(s.selected_index, 2);

    // New entries no longer move the selection.
    s.add_log(entry(4, LogLevel::Info, "a", "w"));
    assert_eq!(s.selected_index, 2);

    // Turning auto-scroll back on jumps to the tail.
    s.toggle_auto_scroll();
    assert!(s.auto_scroll);
    assert_eq!(s.selected_index, 3);
}

#[test]
fn typing_mode_flags() {
    let mut s = LogState::default();
    assert!(!s.is_typing);
    s.start_search();
    assert!(s.is_typing);
    assert!(!s.auto_scroll);
    s.set_typing(false);
    assert!(!s.is_typing);
    s.toggle_pause();
    assert!(s.paused);
    s.toggle_pause();
    assert!(!s.paused);
}

#[test]
fn severity_distribution_thresholds() {
    assert_eq!(level_for_draw(0), LogLevel::Info);
    assert_eq!(level_for_draw(59), LogLevel::Info);
    assert_eq!(level_for_draw(60), LogLevel::Warn);
    assert_eq!(level_for_draw(84), LogLevel::Warn);
    assert_eq!(level_for_draw(85), LogLevel::Error);
    assert_eq!(level_for_draw(94), LogLevel::Error);
    assert_eq!(level_for_draw(95), LogLevel::Debug);
    assert_eq!(level_for_draw(99), LogLevel::Debug);
    assert_eq!(level_for_draw(160), LogLevel::Warn);
}
