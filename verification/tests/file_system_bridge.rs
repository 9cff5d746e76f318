use async_listener::error::AsyncListenerError;
use async_listener::file_system::FileEventKind;
use async_listener::file_system::FsBridge;
use async_listener::file_system::FsInput;
use async_listener::file_system::FsOutput;
use async_listener::file_system::RawEventKind;
use async_listener::file_system::RawNotification;
use async_listener::file_system::translate_notification;

fn notification(kind: RawEventKind, path: &str) -> RawNotification {
    RawNotification { kind, paths: vec![path.to_string()] }
}

#[test]
fn create_notification_becomes_created_event() {
    let out = translate_notification(notification(RawEventKind::Create, "/tmp/d/a.txt"));
    match out {
        FsOutput::Deliver(Ok(ev)) => {
            assert_eq!(ev.path, "/tmp/d/a.txt");
            assert_eq!(ev.kind, FileEventKind::Created);
        }
        other => panic!("expected a created event, got {:?}", other),
    }
}

#[test]
fn modify_remove_rename_map_to_their_kinds() {
    let cases = [
        (RawEventKind::Modify, FileEventKind::Modified),
        (RawEventKind::Remove, FileEventKind::Deleted),
        (RawEventKind::Rename, FileEventKind::Renamed),
    ];
    for (raw, expected) in cases {
        match translate_notification(notification(raw, "f")) {
            FsOutput::Deliver(Ok(ev)) => assert_eq!(ev.kind, expected),
            other => panic!("expected an event, got {:?}", other),
        }
    }
}

#[test]
fn access_and_unrecognized_kinds_are_skipped() {
    assert!(matches!(
        translate_notification(notification(RawEventKind::Access, "f")),
        FsOutput::Skip
    ));
    assert!(matches!(
        translate_notification(notification(RawEventKind::Other, "f")),
        FsOutput::Skip
    ));
}

#[test]
fn recognized_notification_without_path_yields_filesystem_error() {
    let n = RawNotification { kind: RawEventKind::Create, paths: Vec::new() };
    match translate_notification(n) {
        FsOutput::Deliver(Err(e)) => {
            assert!(matches!(e, AsyncListenerError::FileSystemError(_)));
        }
        other => panic!("expected a translation failure, got {:?}", other),
    }
}

#[test]
fn watch_setup_failure_yields_one_error_then_ends() {
    let mut bridge = FsBridge::new();
    let out = bridge.step(FsInput::WatchFailed("permission denied".to_string()));
    match out {
        FsOutput::Deliver(Err(e)) => {
            assert!(matches!(e, AsyncListenerError::FileSystemError(_)));
            assert_eq!(e.message(), "permission denied");
        }
        other => panic!("expected a setup error, got {:?}", other),
    }
    // Every later step of an ended bridge only reports the end.
    let after = bridge.step(FsInput::Notification(notification(RawEventKind::Create, "a")));
    assert!(matches!(after, FsOutput::End));
}

#[test]
fn nothing_is_yielded_before_the_watch_is_established() {
    let mut bridge = FsBridge::new();
    let out = bridge.step(FsInput::Notification(notification(RawEventKind::Create, "early")));
    assert!(matches!(out, FsOutput::Skip));
}

#[test]
fn delivery_error_is_yielded_inline_and_sequence_continues() {
    let mut bridge = FsBridge::new();
    bridge.step(FsInput::WatchEstablished);
    let out = bridge.step(FsInput::DeliveryError("queue overflowed".to_string()));
    match out {
        FsOutput::Deliver(Err(e)) => assert_eq!(e.message(), "queue overflowed"),
        other => panic!("expected an inline error, got {:?}", other),
    }
    let next = bridge.step(FsInput::Notification(notification(RawEventKind::Create, "b")));
    assert!(matches!(next, FsOutput::Deliver(Ok(_))));
}

#[test]
fn channel_close_ends_the_sequence() {
    let mut bridge = FsBridge::new();
    bridge.step(FsInput::WatchEstablished);
    let out = bridge.step(FsInput::ChannelClosed);
    assert!(matches!(out, FsOutput::End));
    let again = bridge.step(FsInput::Notification(notification(RawEventKind::Create, "c")));
    assert!(matches!(again, FsOutput::End));
}

#[test]
fn four_creations_yield_four_created_events_in_order() {
    let names = ["test11.txt", "test23.txt", "test33.txt", "test44.txt"];
    let mut bridge = FsBridge::new();
    bridge.step(FsInput::WatchEstablished);
    let mut events = Vec::new();
    for name in names {
        match bridge.step(FsInput::Notification(notification(RawEventKind::Create, name))) {
            FsOutput::Deliver(Ok(ev)) => events.push(ev),
            other => panic!("expected one event per creation, got {:?}", other),
        }
    }
    assert_eq!(events.len(), 4);
    for (ev, name) in events.iter().zip(names) {
        assert_eq!(ev.kind, FileEventKind::Created);
        assert_eq!(ev.path, name);
    }
}

#[test]
fn creations_precede_later_modifications() {
    // Watch a directory, write `a.txt` and `b.txt`, then touch one again:
    // the sequence holds Created for both files before any Modified.
    let mut bridge = FsBridge::new();
    bridge.step(FsInput::WatchEstablished);
    let inputs = [
        notification(RawEventKind::Create, "a.txt"),
        notification(RawEventKind::Create, "b.txt"),
        notification(RawEventKind::Modify, "a.txt"),
    ];
    let mut events = Vec::new();
    for n in inputs {
        match bridge.step(FsInput::Notification(n)) {
            FsOutput::Deliver(Ok(ev)) => events.push(ev),
            other => panic!("expected one event per notification, got {:?}", other),
        }
    }
    let created_a = events
        .iter()
        .position(|e| e.kind == FileEventKind::Created && e.path == "a.txt")
        .unwrap();
    let created_b = events
        .iter()
        .position(|e| e.kind == FileEventKind::Created && e.path == "b.txt")
        .unwrap();
    let first_modified = events
        .iter()
        .position(|e| e.kind == FileEventKind::Modified)
        .unwrap();
    assert!(created_a < first_modified);
    assert!(created_b < first_modified);
}
