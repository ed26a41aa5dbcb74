use phototransfer::backend::{DeviceBackend, MemoryBackend};
use phototransfer::device::{Device, MediaItem};
use phototransfer::error::CoreError;
use phototransfer::registry::DeviceRegistry;

fn device(id: &str, name: &str) -> Device {
    Device {
        id: id.to_string(),
        name: name.to_string(),
        device_type: "android".to_string(),
        manufacturer: "Unknown".to_string(),
        storage_used: 0,
        storage_total: 0,
        photo_count: 0,
        connected: true,
        mount_point: None,
        usb_bus: None,
        usb_address: None,
    }
}

fn item(id: &str, name: &str, size: u64) -> MediaItem {
    MediaItem {
        id: id.to_string(),
        name: name.to_string(),
        media_type: "photo".to_string(),
        size,
        date: "2024-01-15T10:00:00Z".to_string(),
        thumbnail: None,
        full_path: format!("/DCIM/{}", name),
    }
}

#[test]
fn refresh_prunes_cache_for_removed_device() {
    let mut backend = MemoryBackend::new();
    backend.set_listing("mtp-0".to_string(), vec![item("android-0", "a.jpg", 10)]);
    let mut reg = DeviceRegistry::new();
    reg.refresh(vec![device("mtp-0", "Phone A"), device("mtp-1", "Phone B")]);

    let first = reg.get_media_items(&mut backend, &"mtp-0".to_string()).unwrap();
    assert_eq!(first.len(), 1);
    assert_eq!(backend.enumerate_calls(), 1);

    // The device's content changes while it is unplugged.
    backend.set_listing("mtp-0".to_string(), vec![
        item("android-0", "a.jpg", 10),
        item("android-1", "b.jpg", 20),
    ]);

    // Two successive refreshes: first without the device, then with it back.
    reg.refresh(vec![device("mtp-1", "Phone B")]);
    reg.refresh(vec![device("mtp-0", "Phone A"), device("mtp-1", "Phone B")]);

    // The cache was pruned, so this must re-enumerate and see fresh data.
    let second = reg.get_media_items(&mut backend, &"mtp-0".to_string()).unwrap();
    assert_eq!(backend.enumerate_calls(), 2);
    assert_eq!(second.len(), 2);
}

#[test]
fn get_media_items_is_idempotent_while_cached() {
    let mut backend = MemoryBackend::new();
    backend.set_listing("mtp-0".to_string(), vec![item("android-0", "a.jpg", 10)]);
    let mut reg = DeviceRegistry::new();
    reg.refresh(vec![device("mtp-0", "Phone A")]);

    let first = reg.get_media_items(&mut backend, &"mtp-0".to_string()).unwrap();
    let second = reg.get_media_items(&mut backend, &"mtp-0".to_string()).unwrap();
    assert_eq!(backend.enumerate_calls(), 1);
    assert_eq!(first.len(), second.len());
    assert_eq!(first[0].id, second[0].id);
    assert_eq!(first[0].name, second[0].name);
    assert_eq!(first[0].size, second[0].size);
}

#[test]
fn get_media_items_unknown_device_is_an_error() {
    let mut backend = MemoryBackend::new();
    let mut reg = DeviceRegistry::new();
    reg.refresh(vec![device("mtp-0", "Phone A")]);
    let r = reg.get_media_items(&mut backend, &"ios-nope".to_string());
    assert_eq!(r.unwrap_err(), CoreError::DeviceNotFound);
    assert_eq!(backend.enumerate_calls(), 0);
}

#[test]
fn enumeration_failure_is_distinct_from_empty() {
    let mut backend = MemoryBackend::new();
    backend.fail_enumerate_for("mtp-0".to_string());
    let mut reg = DeviceRegistry::new();
    reg.refresh(vec![device("mtp-0", "Phone A"), device("mtp-1", "Phone B")]);

    let r = reg.get_media_items(&mut backend, &"mtp-0".to_string());
    assert!(matches!(r, Err(CoreError::Enumeration(_))));

    // An empty but successful enumeration is Ok and gets cached.
    let empty = reg.get_media_items(&mut backend, &"mtp-1".to_string()).unwrap();
    assert!(empty.is_empty());
    let again = reg.get_media_items(&mut backend, &"mtp-1".to_string()).unwrap();
    assert!(again.is_empty());
    // One failed call for mtp-0, one successful for mtp-1, none for the
    // cached empty listing.
    assert_eq!(backend.enumerate_calls(), 2);
}

#[test]
fn refresh_media_items_forces_reenumeration() {
    let mut backend = MemoryBackend::new();
    backend.set_listing("mtp-0".to_string(), vec![item("android-0", "a.jpg", 10)]);
    let mut reg = DeviceRegistry::new();
    reg.refresh(vec![device("mtp-0", "Phone A")]);

    let first = reg.get_media_items(&mut backend, &"mtp-0".to_string()).unwrap();
    assert_eq!(first.len(), 1);

    backend.set_listing("mtp-0".to_string(), vec![
        item("android-0", "a.jpg", 10),
        item("android-1", "b.mp4", 99),
    ]);
    let refreshed = reg.refresh_media_items(&mut backend, &"mtp-0".to_string()).unwrap();
    assert_eq!(backend.enumerate_calls(), 2);
    assert_eq!(refreshed.len(), 2);
}

#[test]
fn connect_device_reports_presence() {
    let mut reg = DeviceRegistry::new();
    reg.refresh(vec![device("ios-abcd", "iPhone")]);
    assert_eq!(reg.connect_device(&"ios-abcd".to_string()), Ok(true));
    assert_eq!(
        reg.connect_device(&"ios-efgh".to_string()),
        Err(CoreError::DeviceNotFound)
    );
}

#[test]
fn invalidate_is_idempotent() {
    let mut backend = MemoryBackend::new();
    backend.set_listing("mtp-0".to_string(), vec![item("android-0", "a.jpg", 10)]);
    let mut reg = DeviceRegistry::new();
    reg.refresh(vec![device("mtp-0", "Phone A")]);

    reg.get_media_items(&mut backend, &"mtp-0".to_string()).unwrap();
    reg.invalidate(&"mtp-0".to_string());
    reg.invalidate(&"mtp-0".to_string());
    reg.get_media_items(&mut backend, &"mtp-0".to_string()).unwrap();
    assert_eq!(backend.enumerate_calls(), 2);
}

#[test]
fn error_messages_name_the_cause() {
    assert_eq!(CoreError::DeviceNotFound.message(), "Device not found");
    assert_eq!(CoreError::NoMediaCached.message(), "No media cached");
    assert_eq!(
        CoreError::Enumeration("mount failed".to_string()).message(),
        "mount failed"
    );
}

#[test]
fn discover_lists_configured_devices() {
    let mut backend = MemoryBackend::new();
    backend.add_device(device("mtp-0", "Phone A"));
    backend.add_device(device("ios-1", "iPhone"));
    let found = backend.discover();
    assert_eq!(found.len(), 2);
    assert_eq!(found[0].id, "mtp-0");
    assert_eq!(found[1].id, "ios-1");
}
