use uberlog::filter::apply_filters;
use uberlog::filter::filter_history;
use uberlog::filter::matches_line;
use uberlog::filter::verdict;
use uberlog::style::LogColor;
use uberlog::style::LogStyle;
use uberlog::LogFilter;
use uberlog::LogFilterType;
use uberlog::LogMessage;
use uberlog::LogTimestamp;

fn filter(kind: LogFilterType, msg: &str, color: LogColor) -> LogFilter {
    LogFilter { kind, msg: msg.to_string(), style: LogStyle::colored(color) }
}

fn message(id: i32, text: &str) -> LogMessage {
    LogMessage {
        timestamp: LogTimestamp::from_hms_milli(1, 2, 3, 4).unwrap(),
        source_id: id,
        message: text.to_string(),
        style: LogStyle::dim(),
    }
}

#[test]
fn no_filter_passes_every_line_dim() {
    assert_eq!(verdict(&Vec::new(), "anything\n"), Some(LogStyle::dim()));
    assert_eq!(verdict(&Vec::new(), ""), Some(LogStyle::dim()));
    assert_eq!(LogStyle::dim(), LogStyle { fg: None, dim: true });
}

#[test]
fn exclusion_wins_over_a_later_highlighter() {
    let filters = vec![
        filter(LogFilterType::Exclusion, "ERR", LogColor::Blue),
        filter(LogFilterType::Highlighter, "WARN", LogColor::Yellow),
    ];
    assert_eq!(verdict(&filters, "ERR and WARN in one line\n"), None);
    assert_eq!(verdict(&filters, "WARN before ERR\n"), None);
    assert_eq!(
        verdict(&filters, "only a WARN\n"),
        Some(LogStyle { fg: Some(LogColor::Yellow), dim: false })
    );
    assert_eq!(verdict(&filters, "neither\n"), Some(LogStyle::dim()));
}

#[test]
fn a_highlighter_cannot_resurrect_a_line() {
    let filters = vec![
        filter(LogFilterType::Highlighter, "WARN", LogColor::Yellow),
        filter(LogFilterType::Exclusion, "ERR", LogColor::Blue),
        filter(LogFilterType::Highlighter, "ERR", LogColor::Red),
    ];
    assert_eq!(verdict(&filters, "WARN ERR\n"), None);
}

#[test]
fn inclusion_suppresses_what_does_not_match() {
    let filters = vec![filter(LogFilterType::Inclusion, "tempo", LogColor::Blue)];
    assert_eq!(verdict(&filters, "[tempo] 120\n"), Some(LogStyle::dim()));
    assert_eq!(verdict(&filters, "[pitch] 440\n"), None);
    assert_eq!(verdict(&filters, "Tempo\n"), None, "matching is case-sensitive");
}

#[test]
fn every_inclusion_filter_must_match() {
    let filters = vec![
        filter(LogFilterType::Inclusion, "a", LogColor::Blue),
        filter(LogFilterType::Inclusion, "b", LogColor::Blue),
    ];
    assert_eq!(verdict(&filters, "ab\n"), Some(LogStyle::dim()));
    assert_eq!(verdict(&filters, "a\n"), None);
    assert_eq!(verdict(&filters, "b\n"), None);
}

#[test]
fn the_last_matching_highlighter_sets_the_style() {
    let filters = vec![
        filter(LogFilterType::Highlighter, "x", LogColor::Red),
        filter(LogFilterType::Highlighter, "y", LogColor::Green),
        filter(LogFilterType::Highlighter, "z", LogColor::Magenta),
    ];
    assert_eq!(verdict(&filters, "x"), Some(LogStyle::colored(LogColor::Red)));
    assert_eq!(verdict(&filters, "xy"), Some(LogStyle::colored(LogColor::Green)));
    assert_eq!(verdict(&filters, "zyx"), Some(LogStyle::colored(LogColor::Magenta)));
    assert_eq!(verdict(&filters, "y"), Some(LogStyle::colored(LogColor::Green)));
    assert_eq!(verdict(&filters, "-"), Some(LogStyle::dim()));
}

#[test]
fn an_empty_match_string_is_a_noop_for_every_kind() {
    let lines = ["", "\n", "anything at all\n", "ERR\n"];
    for kind in [LogFilterType::Inclusion, LogFilterType::Exclusion, LogFilterType::Highlighter] {
        let armed = vec![filter(kind, "", LogColor::Red)];
        for line in lines {
            assert_eq!(verdict(&armed, line), Some(LogStyle::dim()), "{:?} on {:?}", kind, line);
            assert!(!matches_line(&armed[0], line));
        }
    }
}

#[test]
fn an_empty_inclusion_filter_changes_no_verdict() {
    let others = vec![
        filter(LogFilterType::Exclusion, "ERR", LogColor::Blue),
        filter(LogFilterType::Highlighter, "WARN", LogColor::Yellow),
        filter(LogFilterType::Inclusion, "x", LogColor::Blue),
    ];
    let lines = ["x ERR\n", "x WARN\n", "WARN\n", "x\n", "\n"];
    for at in 0..=others.len() {
        let mut with = others.clone();
        with.insert(at, filter(LogFilterType::Inclusion, "", LogColor::Blue));
        for line in lines {
            assert_eq!(verdict(&with, line), verdict(&others, line));
        }
    }
}

#[test]
fn matching_is_by_substring() {
    let f = filter(LogFilterType::Highlighter, "abc", LogColor::Red);
    assert!(matches_line(&f, "abc"));
    assert!(matches_line(&f, "xxabcxx"));
    assert!(matches_line(&f, "ababc"));
    assert!(!matches_line(&f, "ab"));
    assert!(!matches_line(&f, "acb"));
    assert!(!matches_line(&f, ""));
    let f = filter(LogFilterType::Highlighter, "é", LogColor::Red);
    assert!(matches_line(&f, "café\n"));
    assert!(!matches_line(&f, "cafe\n"));
}

#[test]
fn apply_filters_builds_the_message() {
    let filters = vec![filter(LogFilterType::Highlighter, "hot", LogColor::Red)];
    let ts = LogTimestamp::from_hms_milli(9, 8, 7, 6).unwrap();
    let m = apply_filters(&filters, ts, 3, "so hot\n".to_string()).unwrap();
    assert_eq!(m.timestamp, ts);
    assert_eq!(m.source_id, 3);
    assert_eq!(m.message, "so hot\n");
    assert_eq!(m.style, LogStyle::colored(LogColor::Red));
    let m = apply_filters(&filters, ts, -1, "cold\n".to_string()).unwrap();
    assert_eq!(m.source_id, -1);
    assert_eq!(m.style, LogStyle::dim());
    let filters = vec![filter(LogFilterType::Exclusion, "cold", LogColor::Red)];
    assert!(apply_filters(&filters, ts, 3, "cold\n".to_string()).is_none());
}

#[test]
fn filter_history_keeps_order_and_restyles() {
    let mut old = message(1, "b WARN\n");
    old.style = LogStyle::colored(LogColor::Green);
    let history = vec![message(1, "a\n"), message(2, "ERR\n"), old, message(2, "c\n")];
    let filters = vec![
        filter(LogFilterType::Exclusion, "ERR", LogColor::Blue),
        filter(LogFilterType::Highlighter, "WARN", LogColor::Yellow),
    ];
    let view = filter_history(&history, &filters);
    let shown: Vec<(i32, &str, LogStyle)> =
        view.iter().map(|m| (m.source_id, m.message.as_str(), m.style)).collect();
    assert_eq!(
        shown,
        vec![
            (1, "a\n", LogStyle::dim()),
            (1, "b WARN\n", LogStyle::colored(LogColor::Yellow)),
            (2, "c\n", LogStyle::dim()),
        ]
    );
    // without filters everything is shown, in the dim style
    let view = filter_history(&history, &Vec::new());
    assert_eq!(view.len(), 4);
    assert!(view.iter().all(|m| m.style == LogStyle::dim()));
}
