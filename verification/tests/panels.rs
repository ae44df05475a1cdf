use uberlog::commander::Command;
use uberlog::style::LogColor;
use uberlog::style::LogStyle;
use uberlog::tui::lines_framed;
use uberlog::tui::move_down;
use uberlog::tui::move_up;
use uberlog::tui::section_filters::SectionFilters;
use uberlog::tui::section_logs::SearchDirection;
use uberlog::tui::section_logs::SectionLogs;
use uberlog::tui::section_sources::SectionSources;
use uberlog::tui::section_sources::SourceInformation;
use uberlog::tui::Key;
use uberlog::tui::LayoutSection;
use uberlog::LogFilter;
use uberlog::LogFilterType;
use uberlog::LogMessage;
use uberlog::LogTimestamp;

fn names(commands: &[Command]) -> Vec<String> {
    commands
        .iter()
        .map(|c| match c {
            Command::ConnectLogSource(id) => format!("connect:{}", id),
            Command::DisconnectLogSource(id) => format!("disconnect:{}", id),
            Command::Reset(id) => format!("reset:{}", id),
            Command::Reflash(id) => format!("reflash:{}", id),
            Command::PrintMessage(text) => format!("print:{}", text),
            Command::AddFilter(f) => format!("add:{}", f.msg),
            other => other.to_string(),
        })
        .collect()
}

fn filter(msg: &str) -> LogFilter {
    LogFilter {
        kind: LogFilterType::Highlighter,
        msg: msg.to_string(),
        style: LogStyle::colored(LogColor::Red),
    }
}

fn line(text: &str) -> LogMessage {
    LogMessage {
        timestamp: LogTimestamp::from_hms_milli(0, 0, 0, 0).unwrap(),
        source_id: 0,
        message: text.to_string(),
        style: LogStyle::dim(),
    }
}

fn logs(n: usize) -> SectionLogs {
    let mut panel = SectionLogs::new();
    panel.update_logs((0..n).map(|i| line(&format!("line {}\n", i))).collect());
    panel
}

#[test]
fn selection_steps() {
    assert_eq!(move_down(0, 3), 1);
    assert_eq!(move_down(1, 3), 2);
    assert_eq!(move_down(2, 3), 2);
    assert_eq!(move_down(7, 3), 2);
    assert_eq!(move_down(0, 0), 0);
    assert_eq!(move_down(usize::MAX, 3), 2);
    assert_eq!(move_up(2), 1);
    assert_eq!(move_up(0), 0);
    assert_eq!(lines_framed(0), 3);
    assert_eq!(lines_framed(1), 3);
    assert_eq!(lines_framed(5), 7);
    assert_eq!(lines_framed(usize::MAX), usize::MAX);
}

#[test]
fn source_information() {
    let mut info = SourceInformation::new(7, "board".to_string());
    assert_eq!(info.id(), 7);
    assert_eq!(info.get_name(), "board");
    assert!(!info.is_connected());
    assert_eq!(info.progress(), 0);
    assert_eq!(info.progress_stage(), "");
    info.set_connected(true);
    assert!(info.is_connected());
    info.set_progress(40, "erasing".to_string());
    assert_eq!(info.progress(), 40);
    assert_eq!(info.progress_stage(), "erasing");
    info.set_connected(false);
    assert!(!info.is_connected());
    assert_eq!(info.get_name(), "board");
}

#[test]
fn sources_panel_keeps_its_list() {
    let mut panel = SectionSources::new();
    assert_eq!(panel.min_lines(), 3);
    panel.add_source(3, "a".to_string());
    panel.add_source(5, "b".to_string());
    panel.add_source(5, "twin".to_string());
    assert_eq!(panel.min_lines(), 5);
    assert_eq!(panel.get_source_idx(5), Some(1));
    assert_eq!(panel.get_source_idx(4), None);
    panel.set_connected(5, true);
    panel.source_set_progress(3, 10, "flashing".to_string());
    panel.set_connected(9, true);
    panel.source_set_progress(9, 1, "lost".to_string());
    let state: Vec<(u32, String, bool, u16, String)> = panel
        .sources()
        .iter()
        .map(|s| (s.id(), s.get_name(), s.is_connected(), s.progress(), s.progress_stage()))
        .collect();
    assert_eq!(
        state,
        vec![
            (3, "a".to_string(), false, 10, "flashing".to_string()),
            (5, "b".to_string(), true, 0, String::new()),
            (5, "twin".to_string(), false, 0, String::new()),
        ]
    );
    panel.delete_source(5);
    panel.delete_source(8);
    let left: Vec<String> = panel.sources().iter().map(|s| s.get_name()).collect();
    assert_eq!(left, vec!["a", "twin"]);
}

#[test]
fn sources_panel_selection() {
    let mut panel = SectionSources::new();
    assert!(panel.process_key(Key::Down).is_empty());
    assert!(panel.process_key(Key::End).is_empty());
    assert_eq!(panel.selected(), 0);
    for id in 0..3 {
        panel.add_source(id, format!("s{}", id));
    }
    let _ = panel.process_key(Key::Char('j'));
    assert_eq!(panel.selected(), 1);
    let _ = panel.process_key(Key::Down);
    let _ = panel.process_key(Key::Down);
    assert_eq!(panel.selected(), 2);
    let _ = panel.process_key(Key::Char('k'));
    assert_eq!(panel.selected(), 1);
    let _ = panel.process_key(Key::Home);
    assert_eq!(panel.selected(), 0);
    let _ = panel.process_key(Key::Up);
    assert_eq!(panel.selected(), 0);
    let _ = panel.process_key(Key::End);
    assert_eq!(panel.selected(), 2);
    let _ = panel.process_key(Key::Other);
    assert_eq!(panel.selected(), 2);
}

#[test]
fn sources_panel_commands() {
    let mut panel = SectionSources::new();
    for key in ['c', 'd', 'R', 'l'] {
        assert_eq!(names(&panel.process_key(Key::Char(key))), vec!["print:No probes detected"]);
    }
    assert_eq!(names(&panel.process_key(Key::Char('r'))), vec!["RefreshProbeInfo"]);
    panel.add_source(4, "a".to_string());
    panel.add_source(9, "b".to_string());
    let _ = panel.process_key(Key::End);
    assert_eq!(names(&panel.process_key(Key::Char('c'))), vec!["connect:9"]);
    assert_eq!(names(&panel.process_key(Key::Char('d'))), vec!["disconnect:9"]);
    assert_eq!(names(&panel.process_key(Key::Char('R'))), vec!["reset:9"]);
    assert_eq!(names(&panel.process_key(Key::Char('l'))), vec!["reflash:9"]);
    assert!(panel.process_key(Key::Char('x')).is_empty());
    // the selection points past the end once the last source is gone
    panel.delete_source(9);
    assert_eq!(panel.selected(), 1);
    assert!(panel.process_key(Key::Char('c')).is_empty());
    let _ = panel.process_key(Key::Up);
    assert_eq!(names(&panel.process_key(Key::Char('c'))), vec!["connect:4"]);
}

#[test]
fn filters_panel_deletes_by_replay() {
    let mut panel = SectionFilters::new();
    assert_eq!(panel.min_lines(), 3);
    assert!(panel.process_key(Key::Char('d')).is_empty());
    panel.set_filters(vec![filter("a"), filter("b"), filter("c")]);
    assert_eq!(panel.min_lines(), 5);
    let _ = panel.process_key(Key::Down);
    assert_eq!(panel.selected(), 1);
    let sent = panel.process_key(Key::Char('d'));
    assert_eq!(names(&sent), vec!["ClearFilters", "add:a", "add:c", "GetFilters"]);
    assert_eq!(panel.selected(), 0);
    let left: Vec<&str> = panel.filters().iter().map(|f| f.msg.as_str()).collect();
    assert_eq!(left, vec!["a", "c"]);
    let sent = panel.process_key(Key::Char('d'));
    assert_eq!(names(&sent), vec!["ClearFilters", "add:c", "GetFilters"]);
    let sent = panel.process_key(Key::Char('d'));
    assert_eq!(names(&sent), vec!["ClearFilters", "GetFilters"]);
    assert!(panel.filters().is_empty());
    assert!(panel.process_key(Key::Char('d')).is_empty());
}

#[test]
fn filters_panel_selection() {
    let mut panel = SectionFilters::new();
    panel.set_filters(vec![filter("a"), filter("b")]);
    let _ = panel.process_key(Key::End);
    assert_eq!(panel.selected(), 1);
    let _ = panel.process_key(Key::Char('j'));
    assert_eq!(panel.selected(), 1);
    let _ = panel.process_key(Key::Char('k'));
    assert_eq!(panel.selected(), 0);
    let _ = panel.process_key(Key::End);
    // a shorter list leaves the selection past the end: delete does nothing
    panel.set_filters(vec![filter("only")]);
    assert_eq!(panel.selected(), 1);
    assert!(panel.process_key(Key::Char('d')).is_empty());
    assert_eq!(panel.filters().len(), 1);
    let _ = panel.process_key(Key::Home);
    assert_eq!(panel.selected(), 0);
}

#[test]
fn logs_panel_sticks_to_the_newest_line() {
    let mut panel = logs(30);
    assert_eq!(panel.min_lines(), 1);
    assert_eq!(SectionLogs::new().min_lines(), 0);
    panel.layout(10);
    assert_eq!(panel.vertical_scroll(), 22);
    panel.append_log(line("new\n"));
    panel.layout(10);
    assert_eq!(panel.vertical_scroll(), 23);
    // scrolling up lets go of the newest line
    let _ = panel.process_key(Key::Up);
    assert_eq!(panel.vertical_scroll(), 22);
    panel.append_log(line("newer\n"));
    panel.layout(10);
    assert_eq!(panel.vertical_scroll(), 22);
    // scrolling to the end sticks again
    let _ = panel.process_key(Key::End);
    assert_eq!(panel.vertical_scroll(), 24);
    panel.layout(10);
    panel.append_log(line("newest\n"));
    panel.layout(10);
    assert_eq!(panel.vertical_scroll(), 25);
    // a panel higher than its log does not scroll
    let mut panel = logs(3);
    panel.layout(10);
    assert_eq!(panel.vertical_scroll(), 0);
    let _ = panel.process_key(Key::Down);
    assert_eq!(panel.vertical_scroll(), 0);
}

#[test]
fn logs_panel_scrolls_by_line_and_page() {
    let mut panel = logs(100);
    panel.layout(20);
    assert_eq!(panel.vertical_scroll(), 82);
    let _ = panel.process_key(Key::Home);
    assert_eq!(panel.vertical_scroll(), 0);
    let _ = panel.process_key(Key::Char('k'));
    assert_eq!(panel.vertical_scroll(), 0);
    let _ = panel.process_key(Key::Char('j'));
    assert_eq!(panel.vertical_scroll(), 1);
    let _ = panel.process_key(Key::PageDown);
    assert_eq!(panel.vertical_scroll(), 21);
    let _ = panel.process_key(Key::PageUp);
    assert_eq!(panel.vertical_scroll(), 1);
    let _ = panel.process_key(Key::PageUp);
    assert_eq!(panel.vertical_scroll(), 0);
    let _ = panel.process_key(Key::Char('G'));
    assert_eq!(panel.vertical_scroll(), 82);
    let _ = panel.process_key(Key::PageDown);
    assert_eq!(panel.vertical_scroll(), 82);
    let _ = panel.process_key(Key::Char('g'));
    assert_eq!(panel.vertical_scroll(), 0);
    assert_eq!(names(&panel.process_key(Key::Char('C'))), vec!["ClearLogs"]);
    assert!(panel.process_key(Key::Char('x')).is_empty());
    panel.clear_logs();
    assert!(panel.logs().is_empty());
    assert_eq!(panel.vertical_scroll(), 0);
}

#[test]
fn logs_panel_search() {
    let mut panel = SectionLogs::new();
    let texts = ["a\n", "b needle\n", "c\n", "d\n", "e needle\n", "f\n", "g needle\n"];
    panel.update_logs(texts.iter().map(|t| line(t)).collect());
    panel.layout(4);
    let _ = panel.process_key(Key::Home);
    assert_eq!(panel.search_hit(), None);
    assert!(panel.process_key(Key::Char('n')).is_empty());
    panel.update_search_log("needle".to_string());
    assert_eq!(panel.search_hit(), Some(1));
    assert_eq!(panel.vertical_scroll(), 0);
    let _ = panel.process_key(Key::Char('n'));
    assert_eq!(panel.search_hit(), Some(4));
    assert_eq!(panel.vertical_scroll(), 2);
    // a search forward stops before the last line
    let _ = panel.process_key(Key::Char('n'));
    assert_eq!(panel.search_hit(), Some(4));
    let _ = panel.process_key(Key::Char('N'));
    assert_eq!(panel.search_hit(), Some(1));
    assert_eq!(panel.vertical_scroll(), 0);
    let _ = panel.process_key(Key::Char('N'));
    assert_eq!(panel.search_hit(), Some(1));
    panel.find_log("nothing".to_string(), SearchDirection::Forward);
    assert_eq!(panel.search_hit(), Some(1));
    // an empty panel finds nothing
    let mut panel = SectionLogs::new();
    panel.update_search_log("needle".to_string());
    assert_eq!(panel.search_hit(), Some(0));
    panel.find_log("needle".to_string(), SearchDirection::Backward);
    assert_eq!(panel.vertical_scroll(), 0);
}
