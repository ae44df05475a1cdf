use uberlog::commander::Command;
use uberlog::commander::Commander;
use uberlog::commander::Effect;
use uberlog::commander::UiCommand;
use uberlog::configuration::ApplicationConfiguration;
use uberlog::log_source::LogSourceTrait;
use uberlog::log_source::Transport;
use uberlog::style::LogColor;
use uberlog::style::LogStyle;
use uberlog::LogFilter;
use uberlog::LogFilterType;
use uberlog::LogMessage;
use uberlog::LogTimestamp;

fn commander() -> Commander {
    Commander::new(None, &ApplicationConfiguration::generate_default())
}

fn noon() -> LogTimestamp {
    LogTimestamp::from_hms_milli(12, 0, 0, 0).unwrap()
}

fn filter(kind: LogFilterType, msg: &str, color: LogColor) -> LogFilter {
    LogFilter { kind, msg: msg.to_string(), style: LogStyle::colored(color) }
}

/// Registers `n` stream sources, with the IDs 0 to n - 1, and forgets the effects.
fn with_sources(n: u32) -> Commander {
    let mut c = commander();
    for i in 0..n {
        assert!(c.cmd_stream_file(format!("file{}.log", i)).is_ok());
    }
    let _ = c.take_effects();
    c
}

fn shown(messages: &[LogMessage]) -> Vec<(i32, String, LogStyle)> {
    messages.iter().map(|m| (m.source_id, m.message.clone(), m.style)).collect()
}

fn describe(effect: &Effect) -> String {
    match effect {
        Effect::Ui(UiCommand::TextMessage { message }) => format!("text:{}", message),
        Effect::Ui(UiCommand::AddNewSource(id, label)) => format!("add:{}:{}", id, label),
        Effect::Ui(UiCommand::RemoveSource(id)) => format!("remove:{}", id),
        Effect::Ui(UiCommand::SetConnectionSource(id, on)) => format!("connection:{}:{}", id, on),
        Effect::Ui(UiCommand::UpdateFilterList(filters)) => format!(
            "filters:{}",
            filters.iter().map(|f| f.msg.clone()).collect::<Vec<_>>().join(",")
        ),
        Effect::Ui(UiCommand::UpdateLogs(logs)) => format!(
            "logs:{}",
            logs.iter().map(|m| m.message.trim_end().to_string()).collect::<Vec<_>>().join(",")
        ),
        Effect::Ui(UiCommand::UpdateSearchLog(text)) => format!("search:{}", text),
        Effect::Log(m) => format!("log:{}:{}", m.source_id, m.message.trim_end()),
        Effect::Record(text) => format!("record:{}", text.trim_end()),
        Effect::OpenRecording(path) => format!("open:{}", path),
        Effect::CloseRecording => "close".to_string(),
        Effect::ListProbes => "list".to_string(),
        Effect::StartSource(id, Transport::File { path }) => format!("start:{}:file:{}", id, path),
        Effect::StartSource(id, Transport::Stdin) => format!("start:{}:stdin", id),
        Effect::StartSource(id, Transport::Uart { device, baud }) => {
            format!("start:{}:uart:{}:{}", id, device, baud)
        }
        Effect::StartSource(id, Transport::Rtt { chip, address, .. }) => {
            format!("start:{}:rtt:{}:{:#x}", id, chip, address)
        }
        Effect::StopSource(id) => format!("stop:{}", id),
        Effect::ResetTarget(id) => format!("reset:{}", id),
        Effect::ReflashTarget(id) => format!("reflash:{}", id),
    }
}

fn effects(c: &mut Commander) -> Vec<String> {
    c.take_effects().iter().map(describe).collect()
}

#[test]
fn a_new_commander_is_empty() {
    let mut c = commander();
    assert!(c.log_sources().is_empty());
    assert!(c.log_messages().is_empty());
    assert!(c.filters().is_empty());
    assert!(!c.stream_logs);
    assert!(c.take_effects().is_empty());
    assert_eq!(c.next_source_id(), Some(0));
    assert_eq!(c.app_cfg.alias_list.len(), 5);
    assert!(c.target_cfg.is_none());
}

#[test]
fn incomplete_tail_is_stored_with_the_source() {
    let mut c = with_sources(1);
    assert!(c.cmd_parse_bytes_at(0, b"abc".to_vec(), noon()).is_ok());
    assert!(c.log_messages().is_empty());
    assert!(effects(&mut c).is_empty());
    assert_eq!(c.log_sources()[0].storage(), Some(&b"abc".to_vec()));
    assert!(c.cmd_parse_bytes_at(0, b"def\n".to_vec(), noon()).is_ok());
    assert_eq!(shown(c.log_messages()), vec![(0, "abcdef\n".to_string(), LogStyle::dim())]);
    assert_eq!(c.log_sources()[0].storage(), Some(&Vec::new()));
    assert_eq!(effects(&mut c), vec!["log:0:abcdef"]);
}

#[test]
fn multi_source_interleave() {
    let mut c = with_sources(3);
    assert!(c.process_at(Some(Command::ParseLogBytes(1, b"a\n".to_vec())), noon()).is_ok());
    assert!(c.process_at(Some(Command::ParseLogBytes(2, b"b\n".to_vec())), noon()).is_ok());
    assert!(c.process_at(Some(Command::ParseLogBytes(1, b"c\n".to_vec())), noon()).is_ok());
    let history: Vec<(i32, &str)> =
        c.log_messages().iter().map(|m| (m.source_id, m.message.trim_end())).collect();
    assert_eq!(history, vec![(1, "a"), (2, "b"), (1, "c")]);
    assert_eq!(effects(&mut c), vec!["log:1:a", "log:2:b", "log:1:c"]);
}

#[test]
fn partial_lines_of_different_sources_do_not_mix() {
    let mut c = with_sources(2);
    assert!(c.cmd_parse_bytes_at(0, b"zero-".to_vec(), noon()).is_ok());
    assert!(c.cmd_parse_bytes_at(1, b"one-".to_vec(), noon()).is_ok());
    assert!(c.cmd_parse_bytes_at(0, b"0\n".to_vec(), noon()).is_ok());
    assert!(c.cmd_parse_bytes_at(1, b"1\n".to_vec(), noon()).is_ok());
    let history: Vec<(i32, &str)> =
        c.log_messages().iter().map(|m| (m.source_id, m.message.trim_end())).collect();
    assert_eq!(history, vec![(0, "zero-0"), (1, "one-1")]);
}

#[test]
fn bytes_of_an_unknown_source_are_refused() {
    let mut c = with_sources(1);
    let r = c.cmd_parse_bytes_at(7, b"x\n".to_vec(), noon());
    assert_eq!(r, Err("Source has no RAM state".to_string()));
    assert!(c.log_messages().is_empty());
    assert!(effects(&mut c).is_empty());
    let r = c.process_at(Some(Command::ParseLogBytes(7, b"x\n".to_vec())), noon());
    assert_eq!(r, Err("Source has no RAM state".to_string()));
    let r = c.cmd_parse_bytes(7, b"x\n".to_vec());
    assert_eq!(r, Err("Source has no RAM state".to_string()));
}

#[test]
fn a_broken_channel_ends_the_loop() {
    let mut c = with_sources(1);
    assert_eq!(c.process(None), Err("channel broken".to_string()));
    assert_eq!(c.process_at(None, noon()), Err("channel broken".to_string()));
    assert!(effects(&mut c).is_empty());
}

#[test]
fn invalid_utf8_is_decoded_lossily() {
    let mut c = with_sources(1);
    assert!(c.cmd_parse_bytes_at(0, b"ok \xFF\xFE!\n".to_vec(), noon()).is_ok());
    assert_eq!(c.log_messages()[0].message, "ok \u{FFFD}\u{FFFD}!\n");
    assert!(c.cmd_parse_bytes_at(0, "grüße\n".as_bytes().to_vec(), noon()).is_ok());
    assert_eq!(c.log_messages()[1].message, "grüße\n");
}

#[test]
fn lines_are_stamped_with_the_time_of_reassembly() {
    let mut c = with_sources(1);
    assert!(c.cmd_parse_bytes(0, b"now\n".to_vec()).is_ok());
    let stamped = c.log_messages()[0].timestamp;
    assert!(stamped.second_count() < 86400);
    assert!(c.process(Some(Command::ParseLogBytes(0, b"again\n".to_vec()))).is_ok());
    assert_eq!(c.log_messages().len(), 2);
    assert_eq!(c.log_messages()[1].message, "again\n");
}

#[test]
fn new_lines_pass_the_filters_on_their_way_out() {
    let mut c = with_sources(1);
    assert!(c.add_filter(filter(LogFilterType::Exclusion, "ERR", LogColor::Blue)).is_ok());
    assert!(c.add_filter(filter(LogFilterType::Highlighter, "WARN", LogColor::Yellow)).is_ok());
    let _ = c.take_effects();
    assert!(c.cmd_parse_bytes_at(0, b"a\nERR b\nWARN c\nERR WARN d\n".to_vec(), noon()).is_ok());
    // the history keeps every line, in the dim style
    assert_eq!(c.log_messages().len(), 4);
    assert!(c.log_messages().iter().all(|m| m.style == LogStyle::dim()));
    let out = c.take_effects();
    assert_eq!(out.iter().map(describe).collect::<Vec<_>>(), vec!["log:0:a", "log:0:WARN c"]);
    match &out[1] {
        Effect::Log(m) => assert_eq!(m.style, LogStyle::colored(LogColor::Yellow)),
        other => panic!("unexpected {:?}", other),
    }
}

#[test]
fn filter_changes_replay_the_whole_history() {
    let mut c = with_sources(1);
    assert!(c.cmd_parse_bytes_at(0, b"a\nERR b\nWARN c\n".to_vec(), noon()).is_ok());
    let _ = c.take_effects();
    assert!(c.add_filter(filter(LogFilterType::Exclusion, "ERR", LogColor::Blue)).is_ok());
    assert_eq!(effects(&mut c), vec!["logs:a,WARN c"]);
    assert!(c.add_filter(filter(LogFilterType::Inclusion, "WARN", LogColor::Blue)).is_ok());
    assert_eq!(effects(&mut c), vec!["logs:WARN c"]);
    assert!(c.clear_filters().is_ok());
    assert_eq!(effects(&mut c), vec!["logs:a,ERR b,WARN c"]);
    assert!(c.filters().is_empty());
}

#[test]
fn replaying_filters_one_at_a_time_equals_the_batch() {
    let list = vec![
        filter(LogFilterType::Highlighter, "a", LogColor::Red),
        filter(LogFilterType::Exclusion, "ERR", LogColor::Blue),
        filter(LogFilterType::Inclusion, "", LogColor::Blue),
        filter(LogFilterType::Highlighter, "b", LogColor::Green),
        filter(LogFilterType::Inclusion, "x", LogColor::Blue),
    ];
    let mut c = with_sources(2);
    assert!(c.cmd_parse_bytes_at(0, b"xa\nxb ERR\nxab\nb\n".to_vec(), noon()).is_ok());
    assert!(c.cmd_parse_bytes_at(1, b"x\nxba\n".to_vec(), noon()).is_ok());
    // some other filters are in force before the replay
    assert!(c.add_filter(filter(LogFilterType::Exclusion, "x", LogColor::Blue)).is_ok());
    let _ = c.take_effects();
    assert!(c.process_at(Some(Command::ClearFilters), noon()).is_ok());
    for f in &list {
        assert!(c.process_at(Some(Command::AddFilter(f.clone())), noon()).is_ok());
    }
    let out = c.take_effects();
    let last = match out.last() {
        Some(Effect::Ui(UiCommand::UpdateLogs(view))) => shown(view),
        other => panic!("unexpected {:?}", other),
    };
    let batch = shown(&uberlog::filter::filter_history(c.log_messages(), &list));
    assert_eq!(last, batch);
    assert_eq!(
        batch,
        vec![
            (0, "xa\n".to_string(), LogStyle::colored(LogColor::Red)),
            (0, "xab\n".to_string(), LogStyle::colored(LogColor::Green)),
            (1, "x\n".to_string(), LogStyle::dim()),
            (1, "xba\n".to_string(), LogStyle::colored(LogColor::Green)),
        ]
    );
    assert_eq!(c.filters().len(), list.len());
    assert_eq!(c.log_messages().len(), 6);
}

#[test]
fn get_filters_reports_the_list() {
    let mut c = commander();
    assert!(c.add_filter(filter(LogFilterType::Exclusion, "one", LogColor::Blue)).is_ok());
    assert!(c.add_filter(filter(LogFilterType::Highlighter, "two", LogColor::Red)).is_ok());
    let _ = c.take_effects();
    assert!(c.process_at(Some(Command::GetFilters), noon()).is_ok());
    let out = c.take_effects();
    assert_eq!(out.len(), 1);
    match &out[0] {
        Effect::Ui(UiCommand::UpdateFilterList(filters)) => {
            assert_eq!(filters.len(), 2);
            assert_eq!(filters[0].kind, LogFilterType::Exclusion);
            assert_eq!(filters[0].msg, "one");
            assert_eq!(filters[1].kind, LogFilterType::Highlighter);
            assert_eq!(filters[1].msg, "two");
            assert_eq!(filters[1].style, LogStyle::colored(LogColor::Red));
        }
        other => panic!("unexpected {:?}", other),
    }
}

#[test]
fn clearing_the_logs_empties_history_and_view() {
    let mut c = with_sources(1);
    assert!(c.cmd_parse_bytes_at(0, b"a\nb\npartial".to_vec(), noon()).is_ok());
    let _ = c.take_effects();
    assert!(c.process_at(Some(Command::ClearLogs), noon()).is_ok());
    assert!(c.log_messages().is_empty());
    assert_eq!(effects(&mut c), vec!["logs:"]);
    // the stored tail of the source is no part of the history
    assert!(c.cmd_parse_bytes_at(0, b" line\n".to_vec(), noon()).is_ok());
    assert_eq!(c.log_messages()[0].message, "partial line\n");
}

#[test]
fn print_message_and_search_reach_the_view() {
    let mut c = commander();
    assert!(c.process_at(Some(Command::PrintMessage("hello".to_string())), noon()).is_ok());
    assert!(c.process_at(Some(Command::FindLog("needle".to_string())), noon()).is_ok());
    assert_eq!(effects(&mut c), vec!["text:hello", "search:needle"]);
}

#[test]
fn streaming_a_file_registers_and_connects_a_source() {
    let mut c = commander();
    assert!(c.process_at(Some(Command::StreamFile("boot.log".to_string())), noon()).is_ok());
    assert_eq!(
        effects(&mut c),
        vec!["start:0:file:boot.log", "add:0:Stream (boot.log)", "connection:0:true"]
    );
    assert!(c.process_at(Some(Command::StreamStdin), noon()).is_ok());
    assert_eq!(
        effects(&mut c),
        vec!["start:1:stdin", "add:1:Stream (STDIN)", "connection:1:true"]
    );
    assert_eq!(c.log_sources().len(), 2);
    assert_eq!(c.log_sources()[0].id(), 0);
    assert_eq!(c.log_sources()[1].id(), 1);
    assert!(c.log_sources()[0].is_connected());
    assert!(c.log_sources()[1].has_worker());
    assert_eq!(c.next_source_id(), Some(2));
    assert_eq!(c.get_source_idx(1), Some(1));
    assert_eq!(c.get_source_idx(2), None);
}

#[test]
fn connecting_a_connected_source_starts_no_second_thread() {
    let mut c = with_sources(1);
    assert!(c.connect_log_source(0).is_ok());
    assert_eq!(effects(&mut c), vec!["connection:0:true"]);
    assert!(c.log_sources()[0].is_connected());
}

#[test]
fn disconnect_then_connect_stops_and_starts_once() {
    let mut c = with_sources(1);
    assert!(c.process_at(Some(Command::DisconnectLogSource(0)), noon()).is_ok());
    assert_eq!(effects(&mut c), vec!["stop:0", "connection:0:false"]);
    assert!(!c.log_sources()[0].is_connected());
    assert!(!c.log_sources()[0].has_worker());
    // disconnecting again is a no-op for the thread
    assert!(c.disconnect_log_source(0).is_ok());
    assert_eq!(effects(&mut c), vec!["connection:0:false"]);
    assert!(c.process_at(Some(Command::ConnectLogSource(0)), noon()).is_ok());
    assert_eq!(effects(&mut c), vec!["start:0:file:file0.log", "connection:0:true"]);
    assert!(c.log_sources()[0].is_connected());
}

#[test]
fn a_leftover_thread_is_stopped_before_a_new_one_starts() {
    let mut c = with_sources(1);
    assert!(c.disconnect_log_source(0).is_ok());
    c.worker_reported(0, true);
    let _ = c.take_effects();
    assert!(c.connect_log_source(0).is_ok());
    assert_eq!(effects(&mut c), vec!["stop:0", "start:0:file:file0.log", "connection:0:true"]);
    // a report for an unknown source changes nothing
    c.worker_reported(9, true);
    assert_eq!(c.log_sources().len(), 1);
}

#[test]
fn connect_and_disconnect_of_an_unknown_source_are_silent() {
    let mut c = with_sources(1);
    assert!(c.connect_log_source(5).is_ok());
    assert!(c.disconnect_log_source(5).is_ok());
    assert!(effects(&mut c).is_empty());
}

#[test]
fn the_tail_survives_a_disconnect() {
    let mut c = with_sources(1);
    assert!(c.cmd_parse_bytes_at(0, b"half".to_vec(), noon()).is_ok());
    assert!(c.disconnect_log_source(0).is_ok());
    assert!(c.connect_log_source(0).is_ok());
    assert!(c.cmd_parse_bytes_at(0, b" done\n".to_vec(), noon()).is_ok());
    assert_eq!(c.log_messages()[0].message, "half done\n");
}

#[test]
fn recording_starts_only_when_the_file_was_opened() {
    let mut c = with_sources(1);
    assert!(c.cmd_parse_bytes_at(0, b"old1\nold2\n".to_vec(), noon()).is_ok());
    let _ = c.take_effects();
    assert!(c.process_at(Some(Command::StreamLogs(true, "out.txt".to_string())), noon()).is_ok());
    assert_eq!(effects(&mut c), vec!["open:out.txt"]);
    assert!(!c.stream_logs);
    // nothing is recorded before the driver reports success
    assert!(c.cmd_parse_bytes_at(0, b"between\n".to_vec(), noon()).is_ok());
    assert_eq!(effects(&mut c), vec!["log:0:between"]);
    c.recording_opened("out.txt".to_string());
    assert!(c.stream_logs);
    assert_eq!(
        effects(&mut c),
        vec![
            "record:old1",
            "record:old2",
            "record:between",
            "text:Saved/streaming data into <out.txt>",
        ]
    );
    assert!(c.add_filter(filter(LogFilterType::Exclusion, "hidden", LogColor::Blue)).is_ok());
    let _ = c.take_effects();
    assert!(c.cmd_parse_bytes_at(0, b"new\nhidden\n".to_vec(), noon()).is_ok());
    // the recording holds every line, the log view only what survives
    assert_eq!(effects(&mut c), vec!["record:new", "log:0:new", "record:hidden"]);
}

#[test]
fn recording_refuses_what_makes_no_sense() {
    let mut c = commander();
    let r = c.cmd_log_stream(false, String::new());
    assert_eq!(r, Err("Nothing to do, really".to_string()));
    c.recording_opened("a.txt".to_string());
    let _ = c.take_effects();
    let r = c.cmd_log_stream(true, "b.txt".to_string());
    assert_eq!(r, Err("Already streaming".to_string()));
    assert!(effects(&mut c).is_empty());
    assert!(c.stream_logs);
    assert!(c.process_at(Some(Command::StreamLogs(false, String::new())), noon()).is_ok());
    assert!(!c.stream_logs);
    assert_eq!(effects(&mut c), vec!["close", "text:Streaming stopped"]);
}

#[test]
fn reset_and_reflash_need_a_target() {
    let mut c = with_sources(1);
    assert_eq!(c.reset_log_source(3), Err("Unable to find probe".to_string()));
    assert_eq!(c.reflash_log_source(3), Err("Unable to find probe".to_string()));
    assert_eq!(c.reset_log_source(0), Err("This function is not implemented".to_string()));
    assert_eq!(
        c.process_at(Some(Command::Reflash(0)), noon()),
        Err("This function is not implemented".to_string())
    );
    assert!(effects(&mut c).is_empty());
}

#[test]
fn refresh_without_configuration_tells_the_user() {
    let mut c = commander();
    assert!(c.process_at(Some(Command::RefreshProbeInfo), noon()).is_ok());
    assert_eq!(effects(&mut c), vec!["text:No .gadget.yaml file provided"]);
    assert!(c.cmd_refresh_probe_info(Vec::new()).is_ok());
    assert_eq!(effects(&mut c), vec!["text:No .gadget.yaml file provided"]);
}

#[test]
fn take_effects_empties_the_queue() {
    let mut c = commander();
    assert!(c.process_at(Some(Command::PrintMessage("one".to_string())), noon()).is_ok());
    assert_eq!(c.take_effects().len(), 1);
    assert!(c.take_effects().is_empty());
}

#[test]
fn command_names() {
    assert_eq!(Command::ClearLogs.to_string(), "ClearLogs");
    assert_eq!(Command::GetFilters.to_string(), "GetFilters");
    assert_eq!(Command::ParseLogBytes(1, Vec::new()).to_string(), "ParseLogBytes");
    assert_eq!(Command::ClearFilters.to_string(), "ClearFilters");
    assert_eq!(Command::Reset(1).to_string(), "Reset");
    assert_eq!(Command::Reflash(1).to_string(), "Reflash");
    assert_eq!(
        Command::AddFilter(filter(LogFilterType::Inclusion, "x", LogColor::Blue)).to_string(),
        "AddFilter"
    );
    assert_eq!(Command::PrintMessage(String::new()).to_string(), "PrintMessage");
    assert_eq!(Command::FindLog(String::new()).to_string(), "FindLog");
    assert_eq!(Command::RefreshProbeInfo.to_string(), "RefreshProbeInfo");
    assert_eq!(Command::StreamLogs(true, String::new()).to_string(), "StreamLogs");
    assert_eq!(Command::StreamFile(String::new()).to_string(), "StreamFile");
    assert_eq!(Command::StreamStdin.to_string(), "StreamStdin");
    assert_eq!(Command::ConnectLogSource(0).to_string(), "ConnectLogSource");
    assert_eq!(Command::DisconnectLogSource(0).to_string(), "DisconnectLogSource");
}

#[test]
fn ui_command_names() {
    assert_eq!(UiCommand::TextMessage { message: String::new() }.to_string(), "TextMessage");
    assert_eq!(UiCommand::AddNewSource(0, String::new()).to_string(), "AddNewSource");
    assert_eq!(UiCommand::RemoveSource(0).to_string(), "RemoveSource");
    assert_eq!(UiCommand::SetConnectionSource(0, true).to_string(), "SetConnectionSource");
    assert_eq!(UiCommand::UpdateFilterList(Vec::new()).to_string(), "UpdateFilterList");
    assert_eq!(UiCommand::UpdateLogs(Vec::new()).to_string(), "UpdateLogs");
    assert_eq!(UiCommand::UpdateSearchLog(String::new()).to_string(), "UpdateSearchLog");
}
