use uberlog::configuration::clone_aliases;
use uberlog::configuration::clone_targets;
use uberlog::configuration::Alias;
use uberlog::configuration::ApplicationConfiguration;
use uberlog::configuration::LogBackend;
use uberlog::configuration::Target;
use uberlog::configuration::TargetConfiguration;

fn target(name: &str, serial: &str) -> Target {
    Target {
        name: name.to_string(),
        processor: "rp2040".to_string(),
        log_backend: LogBackend::Rtt { elf_path: format!("{}.elf", name) },
        probe_id: serial.to_string(),
    }
}

#[test]
fn default_aliases() {
    let cfg = ApplicationConfiguration::generate_default();
    let pairs: Vec<(&str, &str)> =
        cfg.alias_list.iter().map(|a| (a.alias.as_str(), a.expanded.as_str())).collect();
    assert_eq!(
        pairs,
        vec![
            (":fy", ":filter h yellow"),
            (":fr", ":filter h red"),
            (":fe", ":filter e"),
            (":fi", ":filter i"),
            (":fh", ":filter h"),
        ]
    );
}

#[test]
fn find_target_by_serial() {
    let cfg = TargetConfiguration {
        targets: vec![target("a", "1"), target("b", "2"), target("c", "2"), target("d", "")],
    };
    assert_eq!(cfg.find_target(&"1".to_string()), Some(0));
    assert_eq!(cfg.find_target(&"2".to_string()), Some(1));
    assert_eq!(cfg.find_target(&"".to_string()), Some(3));
    assert_eq!(cfg.find_target(&"3".to_string()), None);
    assert_eq!(cfg.find_target(&"11".to_string()), None);
    assert_eq!(TargetConfiguration { targets: Vec::new() }.find_target(&"1".to_string()), None);
}

#[test]
fn configurations_are_copied_whole() {
    let cfg = TargetConfiguration { targets: vec![target("a", "1"), target("b", "2")] };
    assert_eq!(cfg.clone(), cfg);
    assert_eq!(clone_targets(&cfg.targets), cfg.targets);
    let app = ApplicationConfiguration::generate_default();
    assert_eq!(app.clone(), app);
    let aliases = vec![Alias { alias: ":q".to_string(), expanded: ":quit now".to_string() }];
    assert_eq!(clone_aliases(&aliases), aliases);
    let uart = LogBackend::Uart { dev: "/dev/ttyS0".to_string(), baud: 9600 };
    assert_eq!(uart.clone(), uart);
    assert_ne!(uart, LogBackend::Rtt { elf_path: "/dev/ttyS0".to_string() });
}
