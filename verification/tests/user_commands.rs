use uberlog::commander::filter_handler::add_filter;
use uberlog::commander::filter_handler::color_from_name;
use uberlog::commander::user_commands::find_log;
use uberlog::commander::user_commands::stream_file;
use uberlog::commander::user_commands::stream_start;
use uberlog::commander::user_commands::stream_stop;
use uberlog::commander::Command;
use uberlog::style::LogColor;
use uberlog::style::LogStyle;
use uberlog::LogFilter;
use uberlog::LogFilterType;

fn args(words: &[&str]) -> Vec<String> {
    words.iter().map(|w| w.to_string()).collect()
}

fn parsed(words: &[&str]) -> LogFilter {
    match add_filter(args(words)) {
        Ok(Command::AddFilter(filter)) => filter,
        other => panic!("unexpected {:?}", other),
    }
}

fn refused(r: Result<Command, String>) -> String {
    match r {
        Err(text) => text,
        Ok(command) => panic!("unexpected {:?}", command),
    }
}

#[test]
fn filter_command_with_a_color() {
    let f = parsed(&["h", "red", "wrn"]);
    assert_eq!(f.kind, LogFilterType::Highlighter);
    assert_eq!(f.msg, "wrn");
    assert_eq!(f.style, LogStyle { fg: Some(LogColor::Red), dim: false });
}

#[test]
fn filter_command_without_a_color() {
    let f = parsed(&["i", "tempo"]);
    assert_eq!(f.kind, LogFilterType::Inclusion);
    assert_eq!(f.msg, "tempo");
    assert_eq!(f.style, LogStyle::colored(LogColor::Blue));
    let f = parsed(&["e", "tempo"]);
    assert_eq!(f.kind, LogFilterType::Exclusion);
    assert_eq!(f.msg, "tempo");
}

#[test]
fn filter_command_reads_the_first_character_of_the_kind() {
    assert_eq!(parsed(&["highlight", "x"]).kind, LogFilterType::Highlighter);
    assert_eq!(parsed(&["include", "x"]).kind, LogFilterType::Inclusion);
    assert_eq!(parsed(&["exclude", "x"]).kind, LogFilterType::Exclusion);
}

#[test]
fn filter_command_colors() {
    let colors = [
        ("red", LogColor::Red),
        ("green", LogColor::Green),
        ("yellow", LogColor::Yellow),
        ("white", LogColor::White),
        ("blue", LogColor::Blue),
        ("magenta", LogColor::Magenta),
        ("pink", LogColor::Blue),
        ("RED", LogColor::Blue),
        ("", LogColor::Blue),
    ];
    for (name, color) in colors {
        assert_eq!(color_from_name(&name.to_string()), color);
        assert_eq!(parsed(&["h", name, "word"]).style, LogStyle::colored(color));
    }
}

#[test]
fn filter_command_with_more_than_three_words_matches_the_second() {
    let f = parsed(&["h", "red", "wrn", "more"]);
    assert_eq!(f.msg, "red");
    assert_eq!(f.style, LogStyle::colored(LogColor::Blue));
}

#[test]
fn filter_command_errors() {
    assert_eq!(refused(add_filter(Vec::new())), "Filter information missing");
    assert_eq!(
        refused(add_filter(args(&["h"]))),
        "Wrong arguments. Expected '/{h,i,e} {color} word'"
    );
    assert_eq!(refused(add_filter(args(&["x", "word"]))), "Wrong argument");
    assert_eq!(refused(add_filter(args(&["", "word"]))), "Wrong argument");
    assert_eq!(refused(add_filter(args(&["H", "word"]))), "Wrong argument");
    // the word to match must not be empty
    assert_eq!(
        refused(add_filter(args(&["h", ""]))),
        "Wrong arguments. Expected '/{h,i,e} {color} word'"
    );
    assert_eq!(
        refused(add_filter(args(&["h", "red", ""]))),
        "Wrong arguments. Expected '/{h,i,e} {color} word'"
    );
}

#[test]
fn stream_start_takes_just_the_path() {
    match stream_start(args(&["out.txt"])) {
        Ok(Command::StreamLogs(true, path)) => assert_eq!(path, "out.txt"),
        other => panic!("unexpected {:?}", other),
    }
    assert_eq!(refused(stream_start(Vec::new())), "Wrong arguments, expected just the path");
    assert_eq!(
        refused(stream_start(args(&["a", "b"]))),
        "Wrong arguments, expected just the path"
    );
}

#[test]
fn stream_stop_takes_nothing() {
    match stream_stop(Vec::new()) {
        Ok(Command::StreamLogs(false, path)) => assert_eq!(path, ""),
        other => panic!("unexpected {:?}", other),
    }
    assert_eq!(refused(stream_stop(args(&["a"]))), "Too many arguments");
}

#[test]
fn find_log_takes_the_text() {
    match find_log(args(&["needle"])) {
        Ok(Command::FindLog(text)) => assert_eq!(text, "needle"),
        other => panic!("unexpected {:?}", other),
    }
    assert_eq!(refused(find_log(Vec::new())), "Nothing to search for");
    assert_eq!(refused(find_log(args(&["a", "b"]))), "Nothing to search for");
}

#[test]
fn stream_file_takes_the_path() {
    match stream_file(args(&["in.log"])) {
        Ok(Command::StreamFile(path)) => assert_eq!(path, "in.log"),
        other => panic!("unexpected {:?}", other),
    }
    assert_eq!(refused(stream_file(Vec::new())), "path no");
    assert_eq!(refused(stream_file(args(&["a", "b"]))), "Too many arguments");
}
