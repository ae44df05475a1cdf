use uberlog::commander::refresh::ProbeSighting;
use uberlog::commander::rtt_block::find_rtt_block;
use uberlog::commander::rtt_block::read_symbols;
use uberlog::commander::rtt_block::rtt_block_in;
use uberlog::commander::rtt_block::SymbolEntry;
use uberlog::commander::Commander;
use uberlog::commander::Effect;
use uberlog::commander::LogBackendInformation;
use uberlog::commander::ProbeInfo;
use uberlog::commander::TargetInformation;
use uberlog::commander::TargetMcu;
use uberlog::commander::UiCommand;
use uberlog::configuration::ApplicationConfiguration;
use uberlog::configuration::LogBackend;
use uberlog::configuration::Target;
use uberlog::configuration::TargetConfiguration;
use uberlog::log_source::acquisition::uart_react;
use uberlog::log_source::acquisition::Next;
use uberlog::log_source::acquisition::ReadOutcome;
use uberlog::log_source::LogSource;
use uberlog::log_source::LogSourceTrait;
use uberlog::log_source::Transport;
use uberlog::LogTimestamp;

fn u16le(out: &mut Vec<u8>, v: u16) {
    out.extend_from_slice(&v.to_le_bytes());
}

fn u32le(out: &mut Vec<u8>, v: u32) {
    out.extend_from_slice(&v.to_le_bytes());
}

/// A little-endian ELF32 image that holds nothing but a symbol table for
/// the given symbols and its string table.
fn elf_image(symbols: &[(&str, u32)]) -> Vec<u8> {
    let mut strtab: Vec<u8> = vec![0];
    let mut symtab: Vec<u8> = vec![0; 16];
    for (name, value) in symbols {
        let offset = if name.is_empty() { 0 } else { strtab.len() as u32 };
        if !name.is_empty() {
            strtab.extend_from_slice(name.as_bytes());
            strtab.push(0);
        }
        u32le(&mut symtab, offset);
        u32le(&mut symtab, *value);
        u32le(&mut symtab, 4);
        symtab.push(0x11);
        symtab.push(0);
        u16le(&mut symtab, 1);
    }
    let symtab_at = 52u32;
    let strtab_at = symtab_at + symtab.len() as u32;
    let shdrs_at = strtab_at + strtab.len() as u32;
    let mut image: Vec<u8> = vec![0x7f, b'E', b'L', b'F', 1, 1, 1, 0, 0, 0, 0, 0, 0, 0, 0, 0];
    u16le(&mut image, 2);
    u16le(&mut image, 40);
    u32le(&mut image, 1);
    u32le(&mut image, 0);
    u32le(&mut image, 0);
    u32le(&mut image, shdrs_at);
    u32le(&mut image, 0);
    u16le(&mut image, 52);
    u16le(&mut image, 0);
    u16le(&mut image, 0);
    u16le(&mut image, 40);
    u16le(&mut image, 3);
    u16le(&mut image, 0);
    assert_eq!(image.len(), 52);
    image.extend_from_slice(&symtab);
    image.extend_from_slice(&strtab);
    // section 0
    image.extend_from_slice(&[0; 40]);
    // .symtab
    for v in [0, 2, 0, 0, symtab_at, symtab.len() as u32, 2, 1, 4, 16] {
        u32le(&mut image, v);
    }
    // .strtab
    for v in [0, 3, 0, 0, strtab_at, strtab.len() as u32, 0, 0, 1, 0] {
        u32le(&mut image, v);
    }
    image
}

fn entry(name_offset: u32, name: Option<&str>, value: u64) -> SymbolEntry {
    SymbolEntry { name_offset, name: name.map(|n| n.to_string()), value }
}

fn probe(identifier: &str, serial: Option<&str>) -> ProbeInfo {
    ProbeInfo { identifier: identifier.to_string(), serial_number: serial.map(|s| s.to_string()) }
}

fn sighting(serial: &str) -> ProbeSighting {
    ProbeSighting { probe: probe("J-Link", Some(serial)), elf_image: None }
}

fn uart_target(name: &str, serial: &str) -> Target {
    Target {
        name: name.to_string(),
        processor: "nRF52840_xxAA".to_string(),
        log_backend: LogBackend::Uart { dev: "/dev/ttyACM0".to_string(), baud: 115200 },
        probe_id: serial.to_string(),
    }
}

fn rtt_target(name: &str, serial: &str) -> Target {
    Target {
        name: name.to_string(),
        processor: "STM32F407VG".to_string(),
        log_backend: LogBackend::Rtt { elf_path: "fw.elf".to_string() },
        probe_id: serial.to_string(),
    }
}

fn commander(targets: Vec<Target>) -> Commander {
    Commander::new(
        Some(TargetConfiguration { targets }),
        &ApplicationConfiguration::generate_default(),
    )
}

fn describe(effect: &Effect) -> String {
    match effect {
        Effect::Ui(UiCommand::TextMessage { message }) => format!("text:{}", message),
        Effect::Ui(UiCommand::AddNewSource(id, label)) => format!("add:{}:{}", id, label),
        Effect::Ui(UiCommand::RemoveSource(id)) => format!("remove:{}", id),
        Effect::Ui(UiCommand::SetConnectionSource(id, on)) => format!("connection:{}:{}", id, on),
        Effect::ListProbes => "list".to_string(),
        Effect::StartSource(id, Transport::Uart { device, baud }) => {
            format!("start:{}:uart:{}:{}", id, device, baud)
        }
        Effect::StartSource(id, Transport::Rtt { probe, chip, address }) => format!(
            "start:{}:rtt:{}:{}:{:#x}",
            id,
            probe.serial_number.clone().unwrap_or_default(),
            chip,
            address
        ),
        Effect::StartSource(id, _) => format!("start:{}", id),
        Effect::StopSource(id) => format!("stop:{}", id),
        Effect::ResetTarget(id) => format!("reset:{}", id),
        Effect::ReflashTarget(id) => format!("reflash:{}", id),
        other => format!("{:?}", other),
    }
}

fn effects(c: &mut Commander) -> Vec<String> {
    c.take_effects().iter().map(describe).collect()
}

#[test]
fn the_rtt_block_is_found_in_an_elf_image() {
    let image = elf_image(&[("main", 0x0800_0100), ("_SEGGER_RTT", 0x2000_0428), ("tail", 7)]);
    assert_eq!(Commander::rtt_block_from_elf(&image), Ok(0x2000_0428));
}

#[test]
fn the_symbols_of_an_elf_image() {
    let image = elf_image(&[("main", 0x100), ("", 7), ("_SEGGER_RTT", 0x2000_0428)]);
    let symbols = read_symbols(&image).unwrap();
    let seen: Vec<(u32, Option<&str>, u64)> =
        symbols.iter().map(|s| (s.name_offset, s.name.as_deref(), s.value)).collect();
    assert_eq!(
        seen,
        vec![
            (0, None, 0),
            (1, Some("main"), 0x100),
            (0, None, 7),
            (6, Some("_SEGGER_RTT"), 0x2000_0428),
        ]
    );
    assert!(read_symbols(&b"no elf".to_vec()).is_none());
    assert_eq!(read_symbols(&elf_image(&[])).unwrap().len(), 1);
}

#[test]
fn the_first_rtt_block_symbol_counts() {
    let image = elf_image(&[("_SEGGER_RTT", 0x10), ("_SEGGER_RTT", 0x20)]);
    assert_eq!(Commander::rtt_block_from_elf(&image), Ok(0x10));
}

#[test]
fn an_image_without_the_symbol_is_an_error() {
    let image = elf_image(&[("main", 1), ("_SEGGER_RTT_", 2), ("SEGGER_RTT", 3), ("", 4)]);
    assert_eq!(
        Commander::rtt_block_from_elf(&image),
        Err("Unable to find _SEGGER_RTT symbol in elf file".to_string())
    );
    assert_eq!(
        Commander::rtt_block_from_elf(&elf_image(&[])),
        Err("Unable to find _SEGGER_RTT symbol in elf file".to_string())
    );
}

#[test]
fn what_is_no_elf_image_is_an_error() {
    for image in [Vec::new(), b"not an elf".to_vec(), vec![0x7f, b'E', b'L', b'F']] {
        assert_eq!(
            Commander::rtt_block_from_elf(&image),
            Err("Unable to read the symbol table of the elf file".to_string())
        );
    }
    // an ELF header without section headers holds no symbol table
    let mut image = elf_image(&[("_SEGGER_RTT", 1)]);
    image[32..36].copy_from_slice(&[0, 0, 0, 0]);
    assert_eq!(
        Commander::rtt_block_from_elf(&image),
        Err("Unable to read the symbol table of the elf file".to_string())
    );
}

#[test]
fn the_search_in_a_symbol_table() {
    assert_eq!(find_rtt_block(&Vec::new()), None);
    let table = vec![
        entry(0, Some("_SEGGER_RTT"), 1),
        entry(5, None, 2),
        entry(9, Some("_SEGGER_RT"), 3),
        entry(12, Some("_SEGGER_RTT"), 4),
        entry(30, Some("_SEGGER_RTT"), 5),
    ];
    // an entry without a name offset has no name, whatever the table says
    assert_eq!(find_rtt_block(&table), Some(4));
    assert_eq!(rtt_block_in(Some(table)), Ok(4));
    assert_eq!(
        rtt_block_in(None),
        Err("Unable to read the symbol table of the elf file".to_string())
    );
    assert_eq!(
        rtt_block_in(Some(vec![entry(1, Some("other"), 9)])),
        Err("Unable to find _SEGGER_RTT symbol in elf file".to_string())
    );
}

#[test]
fn a_refresh_request_asks_the_driver_for_the_probes() {
    let mut c = commander(vec![uart_target("board", "1234")]);
    assert!(c.request_refresh().is_ok());
    assert_eq!(effects(&mut c), vec!["list"]);
}

#[test]
fn a_configured_probe_becomes_a_source() {
    let mut c = commander(vec![uart_target("board", "1234")]);
    assert!(c.cmd_refresh_probe_info(vec![sighting("1234")]).is_ok());
    assert_eq!(effects(&mut c), vec!["add:0:board"]);
    assert_eq!(c.log_sources().len(), 1);
    let source = &c.log_sources()[0];
    assert!(matches!(source, LogSource::UartSource(_)));
    assert_eq!(source.id(), 0);
    assert!(!source.is_connected());
    assert!(source.is_hardware());
    assert_eq!(source.serial(), Some(&"1234".to_string()));
    assert_eq!(source.poll_interval_ms(), 10);
    assert!(c.knows_serial(&"1234".to_string()));
    assert!(!c.knows_serial(&"12345".to_string()));
    assert!(c.connect_log_source(0).is_ok());
    assert_eq!(effects(&mut c), vec!["start:0:uart:/dev/ttyACM0:115200", "connection:0:true"]);
}

#[test]
fn an_unknown_probe_is_ignored() {
    let mut c = commander(vec![uart_target("board", "1234")]);
    let sightings = vec![
        sighting("9999"),
        ProbeSighting { probe: probe("nameless", None), elf_image: None },
    ];
    assert!(c.cmd_refresh_probe_info(sightings).is_ok());
    assert!(effects(&mut c).is_empty());
    assert!(c.log_sources().is_empty());
    assert_eq!(c.next_source_id(), Some(0));
}

#[test]
fn a_probe_is_registered_once() {
    let mut c = commander(vec![uart_target("board", "1234")]);
    assert!(c.cmd_refresh_probe_info(vec![sighting("1234"), sighting("1234")]).is_ok());
    assert!(c.cmd_refresh_probe_info(vec![sighting("1234")]).is_ok());
    assert_eq!(effects(&mut c), vec!["add:0:board"]);
    assert_eq!(c.log_sources().len(), 1);
}

#[test]
fn the_first_target_configured_for_a_serial_counts() {
    let mut c = commander(vec![uart_target("first", "1234"), uart_target("second", "1234")]);
    assert!(c.cmd_refresh_probe_info(vec![sighting("1234")]).is_ok());
    assert_eq!(effects(&mut c), vec!["add:0:first"]);
}

#[test]
fn an_rtt_target_needs_its_rtt_block() {
    let mut c = commander(vec![rtt_target("gadget", "77")]);
    assert_eq!(c.elf_path_for(&probe("J-Link", Some("77"))), Some("fw.elf".to_string()));
    assert_eq!(c.elf_path_for(&probe("J-Link", Some("78"))), None);
    assert_eq!(c.elf_path_for(&probe("J-Link", None)), None);
    // the image could not be read
    assert!(c.cmd_refresh_probe_info(vec![sighting("77")]).is_ok());
    assert_eq!(effects(&mut c), vec!["text:Unable to read the elf file of target gadget"]);
    // the image holds no control block
    let seen = ProbeSighting {
        probe: probe("J-Link", Some("77")),
        elf_image: Some(elf_image(&[("main", 1)])),
    };
    assert!(c.cmd_refresh_probe_info(vec![seen]).is_ok());
    assert_eq!(effects(&mut c), vec!["text:Unable to find _SEGGER_RTT symbol in elf file"]);
    assert!(c.log_sources().is_empty());
    assert_eq!(c.next_source_id(), Some(0), "a failed set-up takes no ID");
    // the image is fine
    let seen = ProbeSighting {
        probe: probe("J-Link", Some("77")),
        elf_image: Some(elf_image(&[("_SEGGER_RTT", 0x2000_0000)])),
    };
    assert!(c.cmd_refresh_probe_info(vec![seen]).is_ok());
    assert_eq!(effects(&mut c), vec!["add:0:gadget (RTT - gadget)"]);
    assert!(matches!(c.log_sources()[0], LogSource::RttSource(_)));
    assert_eq!(c.elf_path_for(&probe("J-Link", Some("77"))), None, "registered already");
    assert!(c.connect_log_source(0).is_ok());
    assert_eq!(
        effects(&mut c),
        vec!["start:0:rtt:77:STM32F407VG:0x20000000", "connection:0:true"]
    );
    assert!(c.reflash_log_source(0).is_ok());
    assert_eq!(c.reset_log_source(0), Err("Target is connected, can't reset".to_string()));
    assert!(c.disconnect_log_source(0).is_ok());
    assert!(c.reset_log_source(0).is_ok());
    assert_eq!(
        effects(&mut c),
        vec!["reflash:0", "stop:0", "connection:0:false", "reset:0"]
    );
}

#[test]
fn one_failed_target_does_not_keep_the_others_out() {
    let mut c = commander(vec![rtt_target("broken", "1"), uart_target("fine", "2")]);
    assert!(c.cmd_refresh_probe_info(vec![sighting("1"), sighting("2")]).is_ok());
    assert_eq!(
        effects(&mut c),
        vec!["text:Unable to read the elf file of target broken", "add:0:fine"]
    );
}

#[test]
fn a_vanished_probe_takes_its_source_with_it() {
    let mut c = commander(vec![uart_target("a", "1"), uart_target("b", "2")]);
    assert!(c.cmd_stream_file("boot.log".to_string()).is_ok());
    assert!(c.cmd_refresh_probe_info(vec![sighting("1"), sighting("2")]).is_ok());
    assert!(c.connect_log_source(2).is_ok());
    let _ = c.take_effects();
    let ids: Vec<u32> = c.log_sources().iter().map(|s| s.id()).collect();
    assert_eq!(ids, vec![0, 1, 2]);
    // probe 2 is unplugged: its connected source is stopped and removed
    assert!(c.cmd_refresh_probe_info(vec![sighting("1")]).is_ok());
    assert_eq!(effects(&mut c), vec!["stop:2", "remove:2"]);
    let ids: Vec<u32> = c.log_sources().iter().map(|s| s.id()).collect();
    assert_eq!(ids, vec![0, 1]);
    // probe 1 is unplugged too: it was not connected, so nothing is stopped
    assert!(c.cmd_refresh_probe_info(Vec::new()).is_ok());
    assert_eq!(effects(&mut c), vec!["remove:1"]);
    // the file source is never touched by a refresh
    let ids: Vec<u32> = c.log_sources().iter().map(|s| s.id()).collect();
    assert_eq!(ids, vec![0]);
    assert!(c.log_sources()[0].is_connected());
}

#[test]
fn ids_are_never_reused() {
    let mut c = commander(vec![uart_target("a", "1")]);
    assert!(c.cmd_refresh_probe_info(vec![sighting("1")]).is_ok());
    assert!(c.cmd_refresh_probe_info(Vec::new()).is_ok());
    assert!(c.log_sources().is_empty());
    // the probe comes back: its source gets a new ID
    assert!(c.cmd_refresh_probe_info(vec![sighting("1")]).is_ok());
    assert_eq!(effects(&mut c), vec!["add:0:a", "remove:0", "add:1:a"]);
    assert!(c.cmd_stream_stdin().is_ok());
    let ids: Vec<u32> = c.log_sources().iter().map(|s| s.id()).collect();
    assert_eq!(ids, vec![1, 2]);
    assert_eq!(c.get_source_idx(0), None);
    assert_eq!(c.get_source_idx(2), Some(1));
}

#[test]
fn uart_round_trip() {
    let mut c = commander(vec![uart_target("board", "1234")]);
    assert!(c.cmd_refresh_probe_info(vec![sighting("1234")]).is_ok());
    assert!(c.connect_log_source(0).is_ok());
    let _ = c.take_effects();
    let noon = LogTimestamp::from_hms_milli(12, 0, 0, 0).unwrap();
    // what the transport emits goes through the thread's decisions to the dispatch loop
    let reads: [&[u8]; 2] = [b"line1\nli", b"ne2\n"];
    for read in reads {
        let reaction = uart_react(0, ReadOutcome::Bytes(read.to_vec()));
        assert_eq!(reaction.next, Next::Sleep(10));
        for command in reaction.commands {
            assert!(c.process_at(Some(command), noon).is_ok());
        }
    }
    let history: Vec<(i32, &str)> =
        c.log_messages().iter().map(|m| (m.source_id, m.message.as_str())).collect();
    assert_eq!(history, vec![(0, "line1\n"), (0, "line2\n")]);
    assert!(c.log_messages().iter().all(|m| m.timestamp == noon));
    let out = c.take_effects();
    assert_eq!(out.len(), 2);
    match (&out[0], &out[1]) {
        (Effect::Log(a), Effect::Log(b)) => {
            assert_eq!(a.message, "line1\n");
            assert_eq!(b.message, "line2\n");
            assert_eq!(a.source_id, 0);
            assert_eq!(b.source_id, 0);
        }
        other => panic!("unexpected {:?}", other),
    }
    assert_eq!(c.log_sources()[0].storage(), Some(&Vec::new()));
}

#[test]
fn target_information_for_display() {
    let mcu = TargetMcu {
        name: "board".to_string(),
        probe_info: probe("J-Link", Some("1234")),
        mcu: "nRF52840_xxAA".to_string(),
        backend: LogBackendInformation::Rtt(0x2000_0000),
    };
    let info = TargetInformation::from(&mcu, true);
    assert_eq!(info.probe_name, "board (J-Link)");
    assert_eq!(info.probe_serial, "1234");
    assert_eq!(info.mcu, "nRF52840_xxAA");
    assert!(matches!(info.backend, LogBackendInformation::Rtt(0x2000_0000)));
    assert!(info.is_connected);
    let mcu = TargetMcu {
        name: "other".to_string(),
        probe_info: probe("CMSIS-DAP", None),
        mcu: "rp2040".to_string(),
        backend: LogBackendInformation::Uart("/dev/ttyUSB0".to_string(), 9600),
    };
    let info = TargetInformation::from(&mcu, false);
    assert_eq!(info.probe_name, "other (CMSIS-DAP)");
    assert_eq!(info.probe_serial, "Unknown");
    assert!(!info.is_connected);
    match info.backend {
        LogBackendInformation::Uart(device, baud) => {
            assert_eq!(device, "/dev/ttyUSB0");
            assert_eq!(baud, 9600);
        }
        other => panic!("unexpected {:?}", other),
    }
}
