use pine::ports::serialization::{
    MockSerializationPort, ProcessSnapshot, SerializationError, SerializationPort,
};

#[test]
fn mock_captures_save_and_replays_load() {
    let port = MockSerializationPort::new();
    let snap = ProcessSnapshot {
        version: 1,
        process_id: 42,
        asset_ids: vec!["libc.so".to_owned(), "main.bin".to_owned()],
        syscall_count: 7,
        exit_code: None,
    };
    port.save(&snap, "anywhere").unwrap();
    assert_eq!(port.last_saved().as_ref(), Some(&snap));
    port.stage_load(snap.clone());
    let loaded = port.load("anywhere").unwrap();
    assert_eq!(loaded, snap);
}

#[test]
fn mock_load_without_stage_returns_error() {
    let port = MockSerializationPort::new();
    match port.load("anywhere") {
        Err(SerializationError::Empty(msg)) => assert!(msg.contains("no snapshot staged")),
        other => panic!("expected Empty, got {:?}", other),
    }
}
