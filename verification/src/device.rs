//! Device and media item records.
//!
//! A [`Device`] describes one attached phone-like device for the lifetime of
//! one physical connection; a [`MediaItem`] describes one media file found on
//! a device during one enumeration pass.  Both are plain data: the backend
//! fills them in, the registry, cache and transfer engine read them.

use vstd::prelude::*;

verus! {

/// Identity and status of one attachable phone-like device.
///
/// `mount_point`, `usb_bus` and `usb_address` are backend-private: the
/// backend needs them to reach the device again, and they are never shown at
/// the external boundary.
#[derive(Debug)]
pub struct Device {
    pub id: String,
    pub name: String,
    pub device_type: String,
    pub manufacturer: String,
    pub storage_used: u64,
    pub storage_total: u64,
    pub photo_count: u32,
    pub connected: bool,
    pub mount_point: Option<String>,
    pub usb_bus: Option<u8>,
    pub usb_address: Option<u8>,
}

impl Clone for Device {
    fn clone(&self) -> (r: Self)
        ensures
            r == *self,
    {
        Device {
            id: self.id.clone(),
            name: self.name.clone(),
            device_type: self.device_type.clone(),
            manufacturer: self.manufacturer.clone(),
            storage_used: self.storage_used,
            storage_total: self.storage_total,
            photo_count: self.photo_count,
            connected: self.connected,
            mount_point: clone_opt_string(&self.mount_point),
            usb_bus: self.usb_bus,
            usb_address: self.usb_address,
        }
    }
}

/// One media file visible on a device.
///
/// `id` is unique within one device's listing only; `full_path` is the
/// backend-private locator used to fetch the bytes.
#[derive(Debug)]
pub struct MediaItem {
    pub id: String,
    pub name: String,
    pub media_type: String,
    pub size: u64,
    pub date: String,
    pub thumbnail: Option<String>,
    pub full_path: String,
}

impl Clone for MediaItem {
    fn clone(&self) -> (r: Self)
        ensures
            r == *self,
    {
        MediaItem {
            id: self.id.clone(),
            name: self.name.clone(),
            media_type: self.media_type.clone(),
            size: self.size,
            date: self.date.clone(),
            thumbnail: clone_opt_string(&self.thumbnail),
            full_path: self.full_path.clone(),
        }
    }
}

fn clone_opt_string(o: &Option<String>) -> (r: Option<String>)
    ensures
        r == *o,
{
    match o {
        Some(s) => Some(s.clone()),
        None => None,
    }
}

/// The set of device id views occurring in `s`.
pub open spec fn device_ids(s: Seq<Device>) -> Set<Seq<char>> {
    Set::new(|k: Seq<char>| exists|i: int| 0 <= i < s.len() && s[i].id@ == k)
}

/// An element-wise copy of a device list.
pub fn clone_devices(v: &Vec<Device>) -> (r: Vec<Device>)
    ensures
        r@ == v@,
{
    let n = v.len();
    let mut r: Vec<Device> = Vec::new();
    let mut i: usize = 0;
    while i < n
        invariant
            n == v@.len(),
            i <= n,
            r@ == v@.take(i as int),
        decreases n - i,
    {
        r.push(v[i].clone());
        proof {
            assert(r@ =~= v@.take(i as int + 1));
        }
        i += 1;
    }
    proof {
        assert(v@.take(n as int) =~= v@);
    }
    r
}

/// An element-wise copy of a media listing.
pub fn clone_media_items(v: &Vec<MediaItem>) -> (r: Vec<MediaItem>)
    ensures
        r@ == v@,
{
    let n = v.len();
    let mut r: Vec<MediaItem> = Vec::new();
    let mut i: usize = 0;
    while i < n
        invariant
            n == v@.len(),
            i <= n,
            r@ == v@.take(i as int),
        decreases n - i,
    {
        r.push(v[i].clone());
        proof {
            assert(r@ =~= v@.take(i as int + 1));
        }
        i += 1;
    }
    proof {
        assert(v@.take(n as int) =~= v@);
    }
    r
}

} // verus!
