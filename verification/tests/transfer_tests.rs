use phototransfer::backend::MemoryBackend;
use phototransfer::device::{Device, MediaItem};
use phototransfer::engine::transfer_files;
use phototransfer::error::CoreError;
use phototransfer::progress::{TransferStatus, VecSink};
use phototransfer::registry::DeviceRegistry;

fn device(id: &str) -> Device {
    Device {
        id: id.to_string(),
        name: "Phone".to_string(),
        device_type: "android".to_string(),
        manufacturer: "Unknown".to_string(),
        storage_used: 0,
        storage_total: 0,
        photo_count: 0,
        connected: true,
        mount_point: None,
        usb_bus: None,
        usb_address: None,
    }
}

fn item(id: &str, name: &str, size: u64) -> MediaItem {
    MediaItem {
        id: id.to_string(),
        name: name.to_string(),
        media_type: "photo".to_string(),
        size,
        date: "2024-01-15T10:00:00Z".to_string(),
        thumbnail: None,
        full_path: format!("/DCIM/{}", name),
    }
}

fn populated_registry(backend: &mut MemoryBackend, items: Vec<MediaItem>) -> DeviceRegistry {
    backend.set_listing("mtp-0".to_string(), items);
    let mut reg = DeviceRegistry::new();
    reg.refresh(vec![device("mtp-0")]);
    reg.get_media_items(backend, &"mtp-0".to_string()).unwrap();
    reg
}

#[test]
fn failed_item_does_not_abort_the_batch() {
    let mut backend = MemoryBackend::new();
    let reg = populated_registry(
        &mut backend,
        vec![
            item("android-0", "a.jpg", 100),
            item("android-1", "b.jpg", 200),
            item("android-2", "c.jpg", 400),
        ],
    );
    backend.fail_fetch_for("android-1".to_string());
    let mut sink = VecSink::new();
    let ids = vec![
        "android-0".to_string(),
        "android-1".to_string(),
        "android-2".to_string(),
    ];
    let outcomes = transfer_files(&reg, &mut backend, &mut sink, &"mtp-0".to_string(), &ids, "/dest")
        .unwrap();

    // Every item after the failing one was still attempted.
    assert_eq!(outcomes, vec![true, false, true]);
    assert_eq!(backend.fetch_log().len(), 3);
    assert_eq!(backend.fetch_log()[2], "android-2");

    let events = sink.log();
    assert_eq!(events.len(), 4);
    let last = &events[3];
    assert_eq!(last.status, TransferStatus::Complete);
    assert_eq!(last.current, 3);
    assert_eq!(last.total, 3);
    // Only the bytes of the items that actually succeeded.
    assert_eq!(last.bytes_transferred, 500);
    assert_eq!(last.bytes_total, 700);
}

#[test]
fn empty_selection_yields_single_complete_event() {
    let mut backend = MemoryBackend::new();
    let reg = populated_registry(&mut backend, vec![item("android-0", "a.jpg", 100)]);
    let calls_before = backend.enumerate_calls();
    let mut sink = VecSink::new();
    let ids: Vec<String> = Vec::new();
    let outcomes = transfer_files(&reg, &mut backend, &mut sink, &"mtp-0".to_string(), &ids, "/dest")
        .unwrap();

    assert!(outcomes.is_empty());
    // No backend calls were made.
    assert!(backend.fetch_log().is_empty());
    assert_eq!(backend.enumerate_calls(), calls_before);

    let events = sink.log();
    assert_eq!(events.len(), 1);
    assert_eq!(events[0].status, TransferStatus::Complete);
    assert_eq!(events[0].current, 0);
    assert_eq!(events[0].total, 0);
    assert_eq!(events[0].bytes_transferred, 0);
    assert_eq!(events[0].bytes_total, 0);
}

#[test]
fn unknown_item_id_is_skipped_others_transfer() {
    let mut backend = MemoryBackend::new();
    let reg = populated_registry(
        &mut backend,
        vec![item("android-0", "a.jpg", 100), item("android-1", "b.jpg", 200)],
    );
    let mut sink = VecSink::new();
    let ids = vec![
        "android-0".to_string(),
        "android-7".to_string(),
        "android-1".to_string(),
    ];
    let outcomes = transfer_files(&reg, &mut backend, &mut sink, &"mtp-0".to_string(), &ids, "/dest")
        .unwrap();

    assert_eq!(outcomes, vec![true, true]);
    assert_eq!(backend.fetch_log().len(), 2);
    assert_eq!(backend.fetch_log()[0], "android-0");
    assert_eq!(backend.fetch_log()[1], "android-1");
    assert_eq!(sink.log().len(), 3);
}

#[test]
fn items_transfer_in_cache_order() {
    let mut backend = MemoryBackend::new();
    let reg = populated_registry(
        &mut backend,
        vec![item("android-0", "a.jpg", 1), item("android-1", "b.jpg", 2)],
    );
    let mut sink = VecSink::new();
    // Requested in reverse; resolution preserves cache order.
    let ids = vec!["android-1".to_string(), "android-0".to_string()];
    transfer_files(&reg, &mut backend, &mut sink, &"mtp-0".to_string(), &ids, "/dest").unwrap();
    assert_eq!(backend.fetch_log()[0], "android-0");
    assert_eq!(backend.fetch_log()[1], "android-1");
}

#[test]
fn progress_events_carry_exact_values() {
    let mut backend = MemoryBackend::new();
    let reg = populated_registry(
        &mut backend,
        vec![item("android-0", "a.jpg", 100), item("android-1", "b.jpg", 200)],
    );
    let mut sink = VecSink::new();
    let ids = vec!["android-0".to_string(), "android-1".to_string()];
    transfer_files(&reg, &mut backend, &mut sink, &"mtp-0".to_string(), &ids, "/dest").unwrap();

    let events = sink.log();
    assert_eq!(events.len(), 3);

    assert_eq!(events[0].current, 1);
    assert_eq!(events[0].total, 2);
    assert_eq!(events[0].current_file, "a.jpg");
    assert_eq!(events[0].bytes_transferred, 0);
    assert_eq!(events[0].bytes_total, 300);
    assert_eq!(events[0].speed, 25_000_000);
    assert_eq!(events[0].status, TransferStatus::Transferring);

    assert_eq!(events[1].current, 2);
    assert_eq!(events[1].current_file, "b.jpg");
    assert_eq!(events[1].bytes_transferred, 100);

    assert_eq!(events[2].status, TransferStatus::Complete);
    assert_eq!(events[2].current_file, "");
    assert_eq!(events[2].bytes_transferred, 300);
    assert_eq!(events[2].speed, 0);
}

#[test]
fn byte_counters_saturate_at_the_largest_size() {
    let mut backend = MemoryBackend::new();
    let reg = populated_registry(
        &mut backend,
        vec![item("android-0", "a.raw", u64::MAX), item("android-1", "b.raw", 7)],
    );
    let mut sink = VecSink::new();
    let ids = vec!["android-0".to_string(), "android-1".to_string()];
    transfer_files(&reg, &mut backend, &mut sink, &"mtp-0".to_string(), &ids, "/dest").unwrap();
    let last = &sink.log()[2];
    assert_eq!(last.bytes_total, u64::MAX);
    assert_eq!(last.bytes_transferred, u64::MAX);
}

#[test]
fn duplicate_item_ids_in_the_listing_both_resolve() {
    let mut backend = MemoryBackend::new();
    let reg = populated_registry(
        &mut backend,
        vec![item("android-0", "a.jpg", 1), item("android-0", "copy.jpg", 2)],
    );
    let mut sink = VecSink::new();
    let ids = vec!["android-0".to_string()];
    let outcomes = transfer_files(&reg, &mut backend, &mut sink, &"mtp-0".to_string(), &ids, "/d")
        .unwrap();
    assert_eq!(outcomes.len(), 2);
    assert_eq!(sink.log().len(), 3);
}

#[test]
fn transfer_unknown_device_is_an_error() {
    let mut backend = MemoryBackend::new();
    let reg = DeviceRegistry::new();
    let mut sink = VecSink::new();
    let ids = vec!["android-0".to_string()];
    let r = transfer_files(&reg, &mut backend, &mut sink, &"mtp-9".to_string(), &ids, "/dest");
    assert_eq!(r.unwrap_err(), CoreError::DeviceNotFound);
    assert!(sink.log().is_empty());
    assert!(backend.fetch_log().is_empty());
}

#[test]
fn transfer_without_cached_listing_is_an_error() {
    let mut backend = MemoryBackend::new();
    let mut reg = DeviceRegistry::new();
    reg.refresh(vec![device("mtp-0")]);
    let mut sink = VecSink::new();
    let ids = vec!["android-0".to_string()];
    let r = transfer_files(&reg, &mut backend, &mut sink, &"mtp-0".to_string(), &ids, "/dest");
    assert_eq!(r.unwrap_err(), CoreError::NoMediaCached);
    assert!(sink.log().is_empty());
}
