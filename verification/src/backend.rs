//! The device backend interface, and an in-memory backend.
//!
//! A backend is the platform-specific collaborator that probes for attached
//! devices, lists a device's media, and copies one item's bytes to a local
//! path.  It is treated as unreliable: any call may return an empty result
//! or fail, and nothing is promised about what it returns — the registry,
//! cache and transfer engine state what holds of every outcome.
//!
//! [`MemoryBackend`] is a deterministic in-memory backend: it serves
//! configured fixtures, counts its calls, and can be told to fail, which is
//! what the orchestration core is exercised against.

use vstd::prelude::*;
use vstd::string::StringExecFns;

use crate::cache::string_in_list;
use crate::device::{clone_devices, clone_media_items, Device, MediaItem};

verus! {

/// What the orchestration core needs from a platform backend.
///
/// `discover` is best-effort and never raises: probes that are unsupported
/// or fail contribute nothing.  `enumerate` may fail with a message, which
/// the cache layer surfaces distinctly from an empty listing.  `fetch`
/// copies one item to `destination` (a full file path) and is expected to
/// create missing parent directories; a failure only affects that item.
pub trait DeviceBackend {
    fn discover(&mut self) -> Vec<Device>;

    fn enumerate(&mut self, device: &Device) -> Result<Vec<MediaItem>, String>;

    fn fetch(&mut self, device: &Device, item: &MediaItem, destination: &str) -> Result<
        (),
        String,
    >;
}

struct Listing {
    device_id: String,
    items: Vec<MediaItem>,
}

/// A deterministic in-memory backend serving configured devices and
/// listings; used to exercise the core without hardware.
pub struct MemoryBackend {
    devices: Vec<Device>,
    listings: Vec<Listing>,
    failing_enumerate: Vec<String>,
    failing_fetch: Vec<String>,
    enumerate_calls: u64,
    fetch_log: Vec<String>,
}

impl MemoryBackend {
    /// A backend with no devices and no listings.
    pub fn new() -> Self {
        MemoryBackend {
            devices: Vec::new(),
            listings: Vec::new(),
            failing_enumerate: Vec::new(),
            failing_fetch: Vec::new(),
            enumerate_calls: 0,
            fetch_log: Vec::new(),
        }
    }

    /// Makes `device` part of every later discovery result.
    pub fn add_device(&mut self, device: Device) {
        self.devices.push(device);
    }

    /// Sets the listing that enumeration of `device_id` will return.
    pub fn set_listing(&mut self, device_id: String, items: Vec<MediaItem>) {
        let n = self.listings.len();
        let mut i: usize = 0;
        while i < n
            invariant
                n == self.listings@.len(),
                i <= n,
            decreases n - i,
        {
            if self.listings[i].device_id == device_id {
                self.listings.remove(i);
                self.listings.push(Listing { device_id, items });
                return;
            }
            i += 1;
        }
        self.listings.push(Listing { device_id, items });
    }

    /// Makes enumeration fail for `device_id`.
    pub fn fail_enumerate_for(&mut self, device_id: String) {
        self.failing_enumerate.push(device_id);
    }

    /// Makes fetching fail for the item with id `item_id`.
    pub fn fail_fetch_for(&mut self, item_id: String) {
        self.failing_fetch.push(item_id);
    }

    /// How many times `enumerate` has been called.
    pub fn enumerate_calls(&self) -> u64 {
        self.enumerate_calls
    }

    /// The ids of the items fetched so far, in call order.
    pub fn fetch_log(&self) -> &Vec<String> {
        &self.fetch_log
    }
}

impl DeviceBackend for MemoryBackend {
    fn discover(&mut self) -> Vec<Device> {
        clone_devices(&self.devices)
    }

    fn enumerate(&mut self, device: &Device) -> Result<Vec<MediaItem>, String> {
        if self.enumerate_calls < u64::MAX {
            self.enumerate_calls = self.enumerate_calls + 1;
        }
        if string_in_list(&self.failing_enumerate, &device.id) {
            return Err(String::from_str("enumeration failed"));
        }
        let n = self.listings.len();
        let mut i: usize = 0;
        while i < n
            invariant
                n == self.listings@.len(),
                i <= n,
            decreases n - i,
        {
            if self.listings[i].device_id == device.id {
                return Ok(clone_media_items(&self.listings[i].items));
            }
            i += 1;
        }
        Ok(Vec::new())
    }

    fn fetch(&mut self, device: &Device, item: &MediaItem, destination: &str) -> Result<
        (),
        String,
    > {
        let _ = device;
        let _ = destination;
        self.fetch_log.push(item.id.clone());
        if string_in_list(&self.failing_fetch, &item.id) {
            return Err(String::from_str("fetch failed"));
        }
        Ok(())
    }
}

} // verus!
