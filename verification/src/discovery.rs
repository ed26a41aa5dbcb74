//! Discovery: merging the outputs of the platform probes, and building
//! device and media records from the plain values a probe reports.
//!
//! Each probe contributes a best-effort list; probes that fail or are
//! unsupported contribute nothing.  The merged list keeps the first device
//! found for each id and drops later duplicates; when every probe came back
//! empty, a fallback list (USB vendor scanning) is used instead.  Zero
//! working probes yield an empty list, never an error.

use vstd::prelude::*;
use vstd::string::StrSliceExecFns;
use vstd::string::StringExecFns;

use crate::classify::{device_name_is_ios, is_ios_device_name, is_media_name, is_video_name,
    media_type_for_name, vendor_name, vendor_name_spec};
use crate::device::{clone_devices, device_ids, Device, MediaItem};
use crate::text::{dec_digits, hex4, push_decimal, push_hex4};

verus! {

/// No two devices in `s` share an id.
pub open spec fn distinct_device_ids(s: Seq<Device>) -> bool {
    forall|i: int, j: int| 0 <= i < j < s.len() ==> s[i].id@ != s[j].id@
}

/// The concatenation of the probe result lists, in probe order.
pub open spec fn concat_all(lists: Seq<Seq<Device>>) -> Seq<Device>
    decreases lists.len(),
{
    if lists.len() == 0 {
        Seq::empty()
    } else {
        concat_all(lists.drop_last()) + lists.last()
    }
}

/// First-found-wins de-duplication by device id.
pub open spec fn dedup_devices_spec(s: Seq<Device>) -> Seq<Device>
    decreases s.len(),
{
    if s.len() == 0 {
        Seq::empty()
    } else {
        let rest = dedup_devices_spec(s.drop_last());
        if device_ids(s.drop_last()).contains(s.last().id@) {
            rest
        } else {
            rest.push(s.last())
        }
    }
}

/// What one discovery pass yields: the probes' outputs merged and
/// de-duplicated, or — when every probe came back empty — the de-duplicated
/// fallback list.
pub open spec fn merged_devices(lists: Seq<Seq<Device>>, fallback: Seq<Device>) -> Seq<Device> {
    if concat_all(lists).len() > 0 {
        dedup_devices_spec(concat_all(lists))
    } else {
        dedup_devices_spec(fallback)
    }
}

/// The views of a list of device lists.
pub open spec fn list_views(s: Seq<Vec<Device>>) -> Seq<Seq<Device>> {
    s.map_values(|v: Vec<Device>| v@)
}

proof fn lemma_dedup_same_ids(s: Seq<Device>, k: Seq<char>)
    ensures
        device_ids(dedup_devices_spec(s)).contains(k) <==> device_ids(s).contains(k),
    decreases s.len(),
{
    if s.len() > 0 {
        lemma_dedup_same_ids(s.drop_last(), k);
        let rest = dedup_devices_spec(s.drop_last());
        if device_ids(s.drop_last()).contains(s.last().id@) {
            if device_ids(s).contains(k) {
                let i = choose|i: int| 0 <= i < s.len() && s[i].id@ == k;
                if i < s.len() - 1 {
                    assert(s.drop_last()[i] == s[i]);
                } else {
                    assert(device_ids(s.drop_last()).contains(k));
                }
            }
            if device_ids(s.drop_last()).contains(k) {
                let i = choose|i: int| 0 <= i < s.drop_last().len() && s.drop_last()[i].id@ == k;
                assert(s[i] == s.drop_last()[i]);
            }
        } else {
            let d = dedup_devices_spec(s);
            if device_ids(s).contains(k) {
                let i = choose|i: int| 0 <= i < s.len() && s[i].id@ == k;
                if i < s.len() - 1 {
                    assert(s.drop_last()[i] == s[i]);
                    assert(device_ids(rest).contains(k));
                    let j = choose|j: int| 0 <= j < rest.len() && rest[j].id@ == k;
                    assert(d[j] == rest[j]);
                } else {
                    assert(d[d.len() - 1].id@ == k);
                }
            }
            if device_ids(d).contains(k) {
                let j = choose|j: int| 0 <= j < d.len() && d[j].id@ == k;
                if j < d.len() - 1 {
                    assert(rest[j] == d[j]);
                    assert(device_ids(s.drop_last()).contains(k));
                    let i = choose|i: int|
                        0 <= i < s.drop_last().len() && s.drop_last()[i].id@ == k;
                    assert(s[i] == s.drop_last()[i]);
                } else {
                    assert(s[s.len() - 1].id@ == k);
                }
            }
        }
    }
}

proof fn lemma_dedup_distinct(s: Seq<Device>)
    ensures
        distinct_device_ids(dedup_devices_spec(s)),
    decreases s.len(),
{
    if s.len() > 0 {
        lemma_dedup_distinct(s.drop_last());
        let rest = dedup_devices_spec(s.drop_last());
        let d = dedup_devices_spec(s);
        if !device_ids(s.drop_last()).contains(s.last().id@) {
            assert forall|i: int, j: int| 0 <= i < j < d.len() implies d[i].id@ != d[j].id@ by {
                if j < d.len() - 1 {
                    assert(d[i] == rest[i]);
                    assert(d[j] == rest[j]);
                } else {
                    assert(d[i] == rest[i]);
                    lemma_dedup_same_ids(s.drop_last(), rest[i].id@);
                    assert(device_ids(rest).contains(rest[i].id@));
                }
            }
        }
    }
}

/// Whether some device in `list` has the given id.
pub fn has_device_with_id(list: &Vec<Device>, id: &String) -> (r: bool)
    ensures
        r == device_ids(list@).contains(id@),
{
    let n = list.len();
    let mut i: usize = 0;
    while i < n
        invariant
            n == list@.len(),
            i <= n,
            forall|j: int| 0 <= j < i ==> list@[j].id@ != id@,
        decreases n - i,
    {
        if list[i].id == *id {
            return true;
        }
        i += 1;
    }
    false
}

fn dedup_devices(list: Vec<Device>) -> (r: Vec<Device>)
    ensures
        r@ == dedup_devices_spec(list@),
{
    let n = list.len();
    let mut r: Vec<Device> = Vec::new();
    let mut i: usize = 0;
    while i < n
        invariant
            n == list@.len(),
            i <= n,
            r@ == dedup_devices_spec(list@.take(i as int)),
        decreases n - i,
    {
        proof {
            assert(list@.take(i as int + 1).drop_last() =~= list@.take(i as int));
            assert(list@.take(i as int + 1).last() == list@[i as int]);
            lemma_dedup_same_ids(list@.take(i as int), list@[i as int].id@);
        }
        if !has_device_with_id(&r, &list[i].id) {
            r.push(list[i].clone());
        }
        i += 1;
    }
    proof {
        assert(list@.take(n as int) =~= list@);
    }
    r
}

/// Merges the probes' outputs into one device list, first found wins on a
/// duplicate id; when every probe came back empty the fallback list is
/// used.  The result never shares an id between two devices.
pub fn merge_discovered(probes: Vec<Vec<Device>>, fallback: Vec<Device>) -> (r: Vec<Device>)
    ensures
        r@ == merged_devices(list_views(probes@), fallback@),
        distinct_device_ids(r@),
{
    let n = probes.len();
    let mut flat: Vec<Device> = Vec::new();
    let mut i: usize = 0;
    while i < n
        invariant
            n == probes@.len(),
            i <= n,
            flat@ == concat_all(list_views(probes@).take(i as int)),
        decreases n - i,
    {
        proof {
            assert(list_views(probes@).take(i as int + 1).drop_last() =~= list_views(
                probes@,
            ).take(i as int));
            assert(list_views(probes@).take(i as int + 1).last() == probes@[i as int]@);
        }
        let mut chunk = clone_devices(&probes[i]);
        flat.append(&mut chunk);
        i += 1;
    }
    proof {
        assert(list_views(probes@).take(n as int) =~= list_views(probes@));
        lemma_dedup_distinct(flat@);
        lemma_dedup_distinct(fallback@);
    }
    if flat.len() > 0 {
        dedup_devices(flat)
    } else {
        dedup_devices(fallback)
    }
}

/// When no probe found anything and the fallback scan found nothing either,
/// discovery yields the empty list — an empty result, not an error.
pub proof fn lemma_no_probes_no_devices(lists: Seq<Seq<Device>>, fallback: Seq<Device>)
    requires
        concat_all(lists).len() == 0,
        fallback.len() == 0,
    ensures
        merged_devices(lists, fallback) == Seq::<Device>::empty(),
{
}

/// A device record for an MTP (Android) device found by a mount-listing
/// probe; `index` makes the id unique within the probe's pass.
pub fn mtp_device(
    index: usize,
    name: String,
    manufacturer: String,
    mount_point: Option<String>,
) -> (r: Device)
    ensures
        r.id@ == "mtp-"@ + dec_digits(index as int),
        r.name == name,
        r.device_type@ == "android"@,
        r.manufacturer == manufacturer,
        r.storage_used == 0 && r.storage_total == 0 && r.photo_count == 0,
        r.connected,
        r.mount_point == mount_point,
        r.usb_bus is None && r.usb_address is None,
{
    let mut id = String::from_str("mtp-");
    push_decimal(&mut id, index as u64);
    Device {
        id,
        name,
        device_type: String::from_str("android"),
        manufacturer,
        storage_used: 0,
        storage_total: 0,
        photo_count: 0,
        connected: true,
        mount_point,
        usb_bus: None,
        usb_address: None,
    }
}

/// A device record for an iOS device with the given UDID.
pub fn ios_device(udid: &str, name: String) -> (r: Device)
    ensures
        r.id@ == "ios-"@ + udid@,
        r.name == name,
        r.device_type@ == "ios"@,
        r.manufacturer@ == "Apple"@,
        r.storage_used == 0 && r.storage_total == 0 && r.photo_count == 0,
        r.connected,
        r.mount_point is None && r.usb_bus is None && r.usb_address is None,
{
    let mut id = String::from_str("ios-");
    id.append(udid);
    Device {
        id,
        name,
        device_type: String::from_str("ios"),
        manufacturer: String::from_str("Apple"),
        storage_used: 0,
        storage_total: 0,
        photo_count: 0,
        connected: true,
        mount_point: None,
        usb_bus: None,
        usb_address: None,
    }
}

/// A device record for a portable device reported by name only; the name
/// decides whether it counts as iOS or Android.
pub fn named_portable_device(index: usize, name: &str) -> (r: Device)
    ensures
        r.id@ == "wpd-"@ + dec_digits(index as int),
        r.name@ == name@,
        is_ios_device_name(name@) ==> r.device_type@ == "ios"@ && r.manufacturer@ == "Apple"@,
        !is_ios_device_name(name@) ==> r.device_type@ == "android"@ && r.manufacturer@
            == "Unknown"@,
        r.storage_used == 0 && r.storage_total == 0 && r.photo_count == 0,
        r.connected,
        r.mount_point is None && r.usb_bus is None && r.usb_address is None,
{
    let mut id = String::from_str("wpd-");
    push_decimal(&mut id, index as u64);
    let ios = device_name_is_ios(name);
    Device {
        id,
        name: String::from_str(name),
        device_type: String::from_str(if ios { "ios" } else { "android" }),
        manufacturer: String::from_str(if ios { "Apple" } else { "Unknown" }),
        storage_used: 0,
        storage_total: 0,
        photo_count: 0,
        connected: true,
        mount_point: None,
        usb_bus: None,
        usb_address: None,
    }
}

/// A device record for a raw USB device, when its vendor id belongs to a
/// known phone vendor; anything else is not a phone and yields nothing.
pub fn usb_device(vendor_id: u16, product_id: u16, bus: u8, address: u8) -> (r: Option<Device>)
    ensures
        r is Some <==> vendor_name_spec(vendor_id) is Some,
        r matches Some(d) ==> {
            &&& d.id@ == "usb-"@ + hex4(vendor_id as int) + "-"@ + hex4(product_id as int)
            &&& d.name@ == vendor_name_spec(vendor_id)->0 + " Device"@
            &&& d.manufacturer@ == vendor_name_spec(vendor_id)->0
            &&& (vendor_id == 0x05ac ==> d.device_type@ == "ios"@)
            &&& (vendor_id != 0x05ac ==> d.device_type@ == "android"@)
            &&& d.storage_used == 0 && d.storage_total == 0 && d.photo_count == 0
            &&& d.connected
            &&& d.mount_point is None
            &&& d.usb_bus == Some(bus) && d.usb_address == Some(address)
        },
{
    let vendor = match vendor_name(vendor_id) {
        Some(v) => v,
        None => {
            return None;
        },
    };
    let mut id = String::from_str("usb-");
    push_hex4(&mut id, vendor_id);
    id.append("-");
    push_hex4(&mut id, product_id);
    let mut name = String::from_str(vendor);
    name.append(" Device");
    Some(
        Device {
            id,
            name,
            device_type: String::from_str(if vendor_id == 0x05ac { "ios" } else { "android" }),
            manufacturer: String::from_str(vendor),
            storage_used: 0,
            storage_total: 0,
            photo_count: 0,
            connected: true,
            mount_point: None,
            usb_bus: Some(bus),
            usb_address: Some(address),
        },
    )
}

/// The UDID carried in an iOS device id: the id with its `ios-` prefix
/// removed, or the id unchanged when it carries none.
pub fn ios_udid(device_id: &str) -> (r: String)
    ensures
        crate::classify::has_prefix(device_id@, "ios-"@) ==> r@ == device_id@.skip(4),
        !crate::classify::has_prefix(device_id@, "ios-"@) ==> r@ == device_id@,
{
    proof {
        reveal_strlit("ios-");
    }
    if crate::classify::starts_with_str(device_id, "ios-") {
        let n = device_id.unicode_len();
        let rest = device_id.substring_char(4, n);
        proof {
            assert(rest@ =~= device_id@.skip(4));
        }
        String::from_str(rest)
    } else {
        String::from_str(device_id)
    }
}

/// A media record for one file found during enumeration, when its name has
/// a media extension; any other file yields nothing.  `prefix` scopes the
/// sequential id to the enumeration pass (`android`, `ios`).
pub fn media_item_from_file(
    prefix: &str,
    index: usize,
    name: String,
    size: u64,
    date: String,
    full_path: String,
) -> (r: Option<MediaItem>)
    ensures
        r is Some <==> is_media_name(name@),
        r matches Some(it) ==> {
            &&& it.id@ == prefix@ + "-"@ + dec_digits(index as int)
            &&& (is_video_name(name@) ==> it.media_type@ == "video"@)
            &&& (!is_video_name(name@) ==> it.media_type@ == "photo"@)
            &&& it.name == name
            &&& it.size == size
            &&& it.date == date
            &&& it.thumbnail is None
            &&& it.full_path == full_path
        },
{
    let media_type = match media_type_for_name(name.as_str()) {
        Some(t) => t,
        None => {
            return None;
        },
    };
    let mut id = String::from_str(prefix);
    id.append("-");
    push_decimal(&mut id, index as u64);
    proof {
        assert(id@ =~= prefix@ + "-"@ + dec_digits(index as int));
    }
    Some(MediaItem { id, name, media_type, size, date, thumbnail: None, full_path })
}

} // verus!
