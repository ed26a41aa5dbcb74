use phototransfer::classify::{device_name_is_ios, media_type_for_name, vendor_name};
use phototransfer::device::Device;
use phototransfer::discovery::{
    ios_device, media_item_from_file, merge_discovered, mtp_device, named_portable_device,
    usb_device,
};

fn device(id: &str, name: &str) -> Device {
    Device {
        id: id.to_string(),
        name: name.to_string(),
        device_type: "android".to_string(),
        manufacturer: "Unknown".to_string(),
        storage_used: 0,
        storage_total: 0,
        photo_count: 0,
        connected: true,
        mount_point: None,
        usb_bus: None,
        usb_address: None,
    }
}

#[test]
fn zero_backends_yield_empty_list_not_error() {
    let merged = merge_discovered(Vec::new(), Vec::new());
    assert!(merged.is_empty());

    let all_empty = vec![Vec::new(), Vec::new(), Vec::new()];
    let merged = merge_discovered(all_empty, Vec::new());
    assert!(merged.is_empty());
}

#[test]
fn probes_merge_in_order_and_first_wins_on_duplicate_ids() {
    let probes = vec![
        vec![device("mtp-0", "First"), device("mtp-1", "Second")],
        vec![device("mtp-1", "Shadowed"), device("ios-x", "iPhone")],
    ];
    let merged = merge_discovered(probes, Vec::new());
    assert_eq!(merged.len(), 3);
    assert_eq!(merged[0].id, "mtp-0");
    assert_eq!(merged[1].id, "mtp-1");
    assert_eq!(merged[1].name, "Second");
    assert_eq!(merged[2].id, "ios-x");
}

#[test]
fn fallback_is_used_only_when_probes_find_nothing() {
    let fallback = vec![device("usb-04e8-6860", "Samsung Device")];
    let merged = merge_discovered(vec![Vec::new()], fallback);
    assert_eq!(merged.len(), 1);
    assert_eq!(merged[0].id, "usb-04e8-6860");

    let fallback = vec![device("usb-04e8-6860", "Samsung Device")];
    let probes = vec![vec![device("mtp-0", "Phone")]];
    let merged = merge_discovered(probes, fallback);
    assert_eq!(merged.len(), 1);
    assert_eq!(merged[0].id, "mtp-0");
}

#[test]
fn mtp_device_record() {
    let d = mtp_device(3, "Pixel".to_string(), "Google".to_string(), Some("/mnt/mtp".to_string()));
    assert_eq!(d.id, "mtp-3");
    assert_eq!(d.name, "Pixel");
    assert_eq!(d.device_type, "android");
    assert_eq!(d.manufacturer, "Google");
    assert!(d.connected);
    assert_eq!(d.mount_point.as_deref(), Some("/mnt/mtp"));
}

#[test]
fn ios_device_record() {
    let d = ios_device("00008030-xyz", "My iPhone".to_string());
    assert_eq!(d.id, "ios-00008030-xyz");
    assert_eq!(d.device_type, "ios");
    assert_eq!(d.manufacturer, "Apple");
    assert_eq!(d.name, "My iPhone");
}

#[test]
fn named_portable_device_classifies_by_name() {
    let d = named_portable_device(0, "Apple iPhone 15");
    assert_eq!(d.id, "wpd-0");
    assert_eq!(d.device_type, "ios");
    assert_eq!(d.manufacturer, "Apple");

    let d = named_portable_device(1, "Galaxy S24 MTP");
    assert_eq!(d.id, "wpd-1");
    assert_eq!(d.device_type, "android");
    assert_eq!(d.manufacturer, "Unknown");
}

#[test]
fn usb_device_known_vendors() {
    let d = usb_device(0x04e8, 0x6860, 1, 4).unwrap();
    assert_eq!(d.id, "usb-04e8-6860");
    assert_eq!(d.name, "Samsung Device");
    assert_eq!(d.manufacturer, "Samsung");
    assert_eq!(d.device_type, "android");
    assert_eq!(d.usb_bus, Some(1));
    assert_eq!(d.usb_address, Some(4));

    let d = usb_device(0x05ac, 0x12a8, 2, 7).unwrap();
    assert_eq!(d.id, "usb-05ac-12a8");
    assert_eq!(d.device_type, "ios");
    assert_eq!(d.manufacturer, "Apple");

    assert!(usb_device(0x1234, 0x0001, 0, 0).is_none());
}

#[test]
fn vendor_table_lookup() {
    assert_eq!(vendor_name(0x04e8), Some("Samsung"));
    assert_eq!(vendor_name(0x18d1), Some("Google"));
    assert_eq!(vendor_name(0x05ac), Some("Apple"));
    assert_eq!(vendor_name(0x9999), None);
}

#[test]
fn media_classification_by_extension() {
    assert_eq!(media_type_for_name("IMG_001.JPG").as_deref(), Some("photo"));
    assert_eq!(media_type_for_name("clip.MOV").as_deref(), Some("video"));
    assert_eq!(media_type_for_name("pic.heic").as_deref(), Some("photo"));
    assert_eq!(media_type_for_name("clip.3gp").as_deref(), Some("video"));
    assert_eq!(media_type_for_name("anim.webm").as_deref(), Some("video"));
    assert_eq!(media_type_for_name("anim.webp").as_deref(), Some("photo"));
    assert_eq!(media_type_for_name("notes.txt"), None);
    assert_eq!(media_type_for_name("jpg"), None);
}

#[test]
fn device_name_ios_detection() {
    assert!(device_name_is_ios("Apple Mobile Device"));
    assert!(device_name_is_ios("my IPHONE"));
    assert!(device_name_is_ios("iPad Pro"));
    assert!(!device_name_is_ios("Samsung Galaxy"));
}

#[test]
fn media_item_from_file_builds_sequential_ids() {
    let it = media_item_from_file(
        "android",
        5,
        "IMG_9.jpeg".to_string(),
        2048,
        "2024-01-15T10:00:00Z".to_string(),
        "/DCIM/Camera/IMG_9.jpeg".to_string(),
    )
    .unwrap();
    assert_eq!(it.id, "android-5");
    assert_eq!(it.media_type, "photo");
    assert_eq!(it.size, 2048);
    assert_eq!(it.full_path, "/DCIM/Camera/IMG_9.jpeg");
    assert!(it.thumbnail.is_none());

    assert!(media_item_from_file(
        "ios",
        0,
        "notes.pdf".to_string(),
        1,
        "".to_string(),
        "/x".to_string()
    )
    .is_none());
}
