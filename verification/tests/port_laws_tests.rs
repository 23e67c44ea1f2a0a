use pine::ports::assets::{
    AssetDescriptor, AssetError, AssetId, AssetRegistry, InMemoryAssetRegistry,
    RecordingAssetRegistry,
};
use pine::ports::resolve::{InMemorySymbolResolver, MockSymbolResolver, ResolveError, Symbol, SymbolResolver};
use pine::ports::section::{InMemorySectionReader, MockSectionReader, Section, SectionError, SectionReader};
use pine::ports::serialization::{
    blank, staged_load, JsonFileSerializationPort, MockSerializationPort, ProcessSnapshot,
    SerializationError, SerializationPort,
};

fn asset(id: &str, size: u64) -> AssetDescriptor {
    AssetDescriptor { id: AssetId::new(id), name: id.to_owned(), size, kind: "data".to_owned() }
}

fn sym(name: &str, module: &str, address: u64) -> Symbol {
    Symbol { name: name.to_owned(), module: module.to_owned(), address }
}

fn section(name: &str, va: u64, vsize: u64, data: Vec<u8>) -> Section {
    Section { name: name.to_owned(), virtual_address: va, virtual_size: vsize, raw_data: data }
}

#[test]
fn get_after_register_returns_the_descriptor() {
    let mut reg = InMemoryAssetRegistry::default();
    reg.register(asset("a", 1)).unwrap();
    reg.register(asset("b", 2)).unwrap();
    assert_eq!(reg.get(&AssetId::new("b")).unwrap().size, 2);
    assert_eq!(reg.get(&AssetId::new("a")).unwrap().size, 1);
}

#[test]
fn duplicate_register_leaves_the_first_descriptor() {
    let mut reg = InMemoryAssetRegistry::new();
    reg.register(asset("x", 1)).unwrap();
    match reg.register(asset("x", 99)) {
        Err(AssetError::AlreadyRegistered(id)) => assert_eq!(id.0, "x"),
        other => panic!("expected AlreadyRegistered, got {:?}", other),
    }
    assert_eq!(reg.get(&AssetId::new("x")).unwrap().size, 1);
    assert_eq!(reg.list().len(), 1);
}

#[test]
fn unregister_then_get_is_not_found_and_others_stay() {
    let mut reg = InMemoryAssetRegistry::new();
    reg.register(asset("a", 1)).unwrap();
    reg.register(asset("b", 2)).unwrap();
    reg.register(asset("c", 3)).unwrap();
    assert!(reg.unregister(&AssetId::new("b")));
    assert!(!reg.unregister(&AssetId::new("b")));
    match reg.get(&AssetId::new("b")) {
        Err(AssetError::NotFound(id)) => assert_eq!(id.to_string(), "b"),
        other => panic!("expected NotFound, got {:?}", other),
    }
    let names: Vec<&str> = reg.list().iter().map(|d| d.name.as_str()).collect();
    assert_eq!(names, vec!["a", "c"]);
}

#[test]
fn recording_registry_behaves_as_in_memory() {
    let mut rec = RecordingAssetRegistry::default();
    rec.register(asset("q", 5)).unwrap();
    assert!(matches!(rec.register(asset("q", 6)), Err(AssetError::AlreadyRegistered(_))));
    assert_eq!(rec.get(&AssetId::new("q")).unwrap().size, 5);
    assert!(!rec.unregister(&AssetId::new("zz")));
    assert_eq!(rec.calls.borrow().len(), 4);
    assert_eq!(rec.calls.borrow()[3], "unregister(zz)");
}

#[test]
fn insert_replaces_the_symbol_with_the_same_key() {
    let mut r = InMemorySymbolResolver::default();
    r.insert(sym("f", "m.dll", 1));
    r.insert(sym("g", "m.dll", 2));
    r.insert(sym("f", "m.dll", 3));
    assert_eq!(r.resolve_in_module("f", "m.dll").unwrap().address, 3);
    let listed = r.list_module("m.dll");
    assert_eq!(listed.len(), 2);
    assert_eq!(listed[0].name, "f");
    assert_eq!(listed[0].address, 3);
    assert_eq!(r.resolve("f").unwrap().address, 3);
}

#[test]
fn resolve_counts_every_module_exporting_the_name() {
    let mut r = InMemorySymbolResolver::new();
    r.insert(sym("h", "a.dll", 1));
    r.insert(sym("h", "b.dll", 2));
    r.insert(sym("h", "c.dll", 3));
    match r.resolve("h") {
        Err(ResolveError::Ambiguous { name, matches }) => {
            assert_eq!(name, "h");
            assert_eq!(matches, 3);
        }
        other => panic!("expected Ambiguous, got {:?}", other),
    }
    assert!(r.list_module("d.dll").is_empty());
    match r.resolve_in_module("h", "d.dll") {
        Err(ResolveError::NotFound(n)) => assert_eq!(n, "h"),
        other => panic!("expected NotFound, got {:?}", other),
    }
}

#[test]
fn mock_resolver_stage_replaces_and_logs_each_call() {
    let mut mock = MockSymbolResolver::default();
    mock.stage(sym("k", "m", 1));
    mock.stage(sym("k", "m", 2));
    assert_eq!(mock.resolve("k").unwrap().address, 2);
    assert_eq!(mock.list_module("m").len(), 1);
    let calls = mock.calls.borrow();
    assert_eq!(calls.len(), 2);
    assert_eq!(calls[0], "resolve(k)");
    assert_eq!(calls[1], "list_module(m)");
}

#[test]
fn read_bytes_zero_fills_past_raw_data_within_the_section() {
    let mut r = InMemorySectionReader::default();
    r.insert(section(".data", 0x100, 0x10, vec![1, 2, 3, 4]));
    assert_eq!(r.read_bytes(0x102, 4).unwrap(), vec![3, 4, 0, 0]);
    assert_eq!(r.read_bytes(0x100, 0x10).unwrap().len(), 0x10);
    assert_eq!(r.read_bytes(0x10f, 1).unwrap(), vec![0]);
    assert_eq!(r.read_bytes(0x100, 0).unwrap(), Vec::<u8>::new());
}

#[test]
fn read_bytes_out_of_bounds_edges() {
    let mut r = InMemorySectionReader::new();
    r.insert(section(".top", u64::MAX - 4, 4, vec![7; 4]));
    r.insert(section(".low", 0x10, 0x10, vec![]));
    match r.read_bytes(u64::MAX - 1, 8) {
        Err(SectionError::OutOfBounds { va, len }) => {
            assert_eq!(va, u64::MAX - 1);
            assert_eq!(len, 8);
        }
        other => panic!("expected OutOfBounds, got {:?}", other),
    }
    assert_eq!(r.read_bytes(u64::MAX - 4, 4).unwrap(), vec![7; 4]);
    assert!(matches!(r.read_bytes(0x20, 1), Err(SectionError::OutOfBounds { .. })));
    assert!(matches!(r.read_bytes(0x0f, 1), Err(SectionError::OutOfBounds { .. })));
    assert!(matches!(r.read_bytes(0x1f, 2), Err(SectionError::OutOfBounds { .. })));
}

#[test]
fn section_insert_replaces_by_name_and_keeps_order() {
    let mut r = InMemorySectionReader::new();
    r.insert(section(".b", 0x1000, 0x10, vec![1]));
    r.insert(section(".a", 0x2000, 0x10, vec![2]));
    r.insert(section(".b", 0x3000, 0x10, vec![3]));
    assert_eq!(r.list_sections(), vec![".b", ".a"]);
    assert_eq!(r.read_section(".b").unwrap().virtual_address, 0x3000);
    match r.read_section(".c") {
        Err(SectionError::NotFound(n)) => assert_eq!(n, ".c"),
        other => panic!("expected NotFound, got {:?}", other),
    }
}

#[test]
fn mock_section_reader_lists_in_staging_order_and_logs_reads() {
    let mut mock = MockSectionReader::default();
    mock.stage(section(".text", 0x1000, 0x100, vec![0xCC; 8]));
    mock.stage(section(".bss", 0x3000, 0x10, vec![]));
    mock.stage(section(".data", 0x2000, 0x10, vec![5; 2]));
    mock.stage(section(".bss", 0x4000, 0x10, vec![]));
    assert_eq!(mock.list_sections(), vec![".text", ".bss", ".data"]);
    assert_eq!(mock.read_bytes(0x2001, 2).unwrap(), vec![5, 0]);
    let _ = mock.read_bytes(0xABCDEF, 12);
    let calls = mock.calls.borrow();
    assert_eq!(calls[1], "read_bytes(va=0x2001, len=2)");
    assert_eq!(calls[2], "read_bytes(va=0xabcdef, len=12)");
}

#[test]
fn json_port_checks_destinations_and_payloads() {
    let port = JsonFileSerializationPort::default();
    assert_eq!(port.format_id(), "pine-json-v1");
    match port.check_destination("") {
        Err(SerializationError::InvalidDestination(d)) => assert_eq!(d, ""),
        other => panic!("expected InvalidDestination, got {:?}", other),
    }
    assert!(port.check_destination("snap.json").is_ok());
    match port.check_payload("snap.json", " \n\t\u{3000}") {
        Err(SerializationError::Empty(d)) => assert_eq!(d, "snap.json"),
        other => panic!("expected Empty, got {:?}", other),
    }
    assert!(port.check_payload("snap.json", " {} ").is_ok());
}

#[test]
fn blank_text_is_white_space_only() {
    assert!(blank(""));
    assert!(blank(" \t\r\n\u{a0}\u{2009}"));
    assert!(!blank(" x "));
    assert!(!blank("\u{200b}"));
}

#[test]
fn staged_load_copies_or_reports_empty() {
    match staged_load(&None) {
        Err(SerializationError::Empty(msg)) => assert_eq!(msg, "MockSerializationPort: no snapshot staged."),
        other => panic!("expected Empty, got {:?}", other),
    }
    let snap = ProcessSnapshot::new(7);
    assert_eq!(staged_load(&Some(snap.clone())).unwrap(), snap);
}

#[test]
fn process_snapshot_new_defaults() {
    let snap = ProcessSnapshot::new(9);
    assert_eq!(snap.version, 1);
    assert_eq!(snap.process_id, 9);
    assert!(snap.asset_ids.is_empty());
    assert_eq!(snap.syscall_count, 0);
    assert_eq!(snap.exit_code, None);
}

#[test]
fn mock_serialization_port_round_trips() {
    let port = MockSerializationPort::default();
    assert_eq!(port.format_id(), "mock-v0");
    assert_eq!(port.last_saved(), None);
    let mut snap = ProcessSnapshot::new(3);
    snap.exit_code = Some(-1);
    port.save(&snap, "x").unwrap();
    assert_eq!(port.last_saved(), Some(snap.clone()));
    assert_eq!(port.last_saved(), Some(snap.clone()));
    port.stage_load(snap.clone());
    assert_eq!(port.load("y").unwrap(), snap);
    assert_eq!(port.load("y").unwrap(), snap);
}

#[test]
fn logging_while_the_log_is_borrowed_does_not_panic() {
    let mut mock = MockSectionReader::new();
    mock.stage(section(".text", 0x1000, 0x10, vec![1; 4]));
    let held = mock.calls.borrow();
    assert_eq!(mock.read_bytes(0x1000, 2).unwrap(), vec![1, 1]);
    assert_eq!(held.len(), 0);
    drop(held);
    let _ = mock.list_sections();
    assert_eq!(mock.calls.borrow().len(), 1);
}
