//! The device registry: the authoritative list of currently known devices,
//! together with the media cache it keeps consistent.
//!
//! `refresh` replaces the device list wholesale with the result of a
//! discovery pass and, in the same step, drops every cached listing whose
//! device id is absent from the new list — so a reader never sees a device
//! list without its matching cache pruning (hot-swap consistency).
//!
//! The registry is one exclusively owned structure: a threaded shell wraps
//! it in a lock and holds the lock only around these in-memory operations,
//! never across a backend call.

use vstd::prelude::*;

use crate::backend::DeviceBackend;
use crate::cache::{str_view_set, MediaCache};
use crate::device::{clone_media_items, device_ids, Device, MediaItem};
use crate::error::CoreError;

verus! {

/// The registry: current devices plus the per-device media cache.
pub struct DeviceRegistry {
    devices: Vec<Device>,
    cache: MediaCache,
}

impl DeviceRegistry {
    /// The current device list.
    pub closed spec fn devices_view(&self) -> Seq<Device> {
        self.devices@
    }

    /// The cached listings, keyed by device id.
    pub closed spec fn cache_view(&self) -> Map<Seq<char>, Seq<MediaItem>> {
        self.cache@
    }

    /// Internal invariant: the cache keys are pairwise distinct, and the
    /// cache never holds an entry for a device id that is not in the last
    /// scan — pruning is atomic with the scan update.
    pub closed spec fn wf(&self) -> bool {
        &&& self.cache.wf()
        &&& forall|k: Seq<char>|
            self.cache@.contains_key(k) ==> device_ids(self.devices@).contains(k)
    }

    /// An empty registry: no devices known, nothing cached.
    pub fn new() -> (r: Self)
        ensures
            r.wf(),
            r.devices_view() == Seq::<Device>::empty(),
            r.cache_view() == Map::<Seq<char>, Seq<MediaItem>>::empty(),
    {
        DeviceRegistry { devices: Vec::new(), cache: MediaCache::new() }
    }

    /// Replaces the device list with `discovered` and prunes the cache down
    /// to the ids present in it, in one step.
    pub fn refresh(&mut self, discovered: Vec<Device>)
        requires
            old(self).wf(),
        ensures
            final(self).wf(),
            final(self).devices_view() == discovered@,
            final(self).cache_view() == old(self).cache_view().restrict(device_ids(discovered@)),
    {
        let n = discovered.len();
        let mut ids: Vec<String> = Vec::new();
        let mut i: usize = 0;
        while i < n
            invariant
                n == discovered@.len(),
                i <= n,
                ids@.len() == i,
                forall|j: int| 0 <= j < i ==> ids@[j]@ == discovered@[j].id@,
            decreases n - i,
        {
            ids.push(discovered[i].id.clone());
            i += 1;
        }
        proof {
            assert(str_view_set(ids@) =~= device_ids(discovered@)) by {
                assert forall|k: Seq<char>| str_view_set(ids@).contains(k) implies device_ids(
                    discovered@,
                ).contains(k) by {
                    let j = choose|j: int| 0 <= j < ids@.len() && ids@[j]@ == k;
                    assert(discovered@[j].id@ == k);
                }
                assert forall|k: Seq<char>| device_ids(discovered@).contains(k) implies str_view_set(
                    ids@,
                ).contains(k) by {
                    let j = choose|j: int| 0 <= j < discovered@.len() && discovered@[j].id@ == k;
                    assert(ids@[j]@ == k);
                }
            }
        }
        self.cache.retain_keys(&ids);
        self.devices = discovered;
    }

    /// The current device list, as discovery last reported it.
    pub fn devices(&self) -> (r: &Vec<Device>)
        ensures
            r@ == self.devices_view(),
    {
        &self.devices
    }

    /// A copy of the first registered device with the given id, if any.
    pub fn lookup_device(&self, device_id: &String) -> (r: Option<Device>)
        ensures
            match r {
                Some(d) => device_ids(self.devices_view()).contains(device_id@) && d.id@
                    == device_id@ && (exists|i: int|
                    0 <= i < self.devices_view().len() && self.devices_view()[i] == d && (forall|
                        j: int,
                    | 0 <= j < i ==> self.devices_view()[j].id@ != device_id@)),
                None => !device_ids(self.devices_view()).contains(device_id@),
            },
    {
        let n = self.devices.len();
        let mut i: usize = 0;
        while i < n
            invariant
                n == self.devices@.len(),
                i <= n,
                forall|j: int| 0 <= j < i ==> self.devices@[j].id@ != device_id@,
            decreases n - i,
        {
            if self.devices[i].id == *device_id {
                return Some(self.devices[i].clone());
            }
            i += 1;
        }
        proof {
            if device_ids(self.devices_view()).contains(device_id@) {
                let j = choose|j: int|
                    0 <= j < self.devices@.len() && self.devices@[j].id@ == device_id@;
            }
        }
        None
    }

    /// Reports whether the device id is currently registered; unknown ids
    /// are an explicit error.
    pub fn connect_device(&self, device_id: &String) -> (r: Result<bool, CoreError>)
        ensures
            device_ids(self.devices_view()).contains(device_id@) ==> r == Ok::<
                bool,
                CoreError,
            >(true),
            !device_ids(self.devices_view()).contains(device_id@) ==> r == Err::<
                bool,
                CoreError,
            >(CoreError::DeviceNotFound),
    {
        match self.lookup_device(device_id) {
            Some(_) => Ok(true),
            None => Err(CoreError::DeviceNotFound),
        }
    }

    /// The cached listing for a device id, if one is present.
    pub fn cached_items(&self, device_id: &String) -> (r: Option<&Vec<MediaItem>>)
        requires
            self.wf(),
        ensures
            match r {
                Some(items) => self.cache_view().contains_key(device_id@) && items@
                    == self.cache_view()[device_id@],
                None => !self.cache_view().contains_key(device_id@),
            },
    {
        self.cache.get(device_id)
    }

    /// The media listing for one device: the cached one if present,
    /// otherwise a fresh backend enumeration whose result — even an empty
    /// one — is stored before it is returned.  Enumeration failures are
    /// surfaced as [`CoreError::Enumeration`], distinct from an empty but
    /// successful listing.
    pub fn get_media_items<B: DeviceBackend>(
        &mut self,
        backend: &mut B,
        device_id: &String,
    ) -> (r: Result<Vec<MediaItem>, CoreError>)
        requires
            old(self).wf(),
        ensures
            final(self).wf(),
            final(self).devices_view() == old(self).devices_view(),
            old(self).cache_view().contains_key(device_id@) ==> {
                &&& r matches Ok(items) && items@ == old(self).cache_view()[device_id@]
                &&& *final(self) == *old(self)
                &&& *final(backend) == *old(backend)
            },
            !old(self).cache_view().contains_key(device_id@) && !device_ids(
                old(self).devices_view(),
            ).contains(device_id@) ==> {
                &&& r == Err::<Vec<MediaItem>, CoreError>(CoreError::DeviceNotFound)
                &&& *final(self) == *old(self)
                &&& *final(backend) == *old(backend)
            },
            !old(self).cache_view().contains_key(device_id@) && device_ids(
                old(self).devices_view(),
            ).contains(device_id@) ==> match r {
                Ok(items) => final(self).cache_view() == old(self).cache_view().insert(
                    device_id@,
                    items@,
                ),
                Err(e) => e matches CoreError::Enumeration(_) && final(self).cache_view() == old(
                    self,
                ).cache_view(),
            },
    {
        if let Some(items) = self.cache.get(device_id) {
            return Ok(clone_media_items(items));
        }
        let device = match self.lookup_device(device_id) {
            Some(d) => d,
            None => {
                return Err(CoreError::DeviceNotFound);
            },
        };
        match backend.enumerate(&device) {
            Ok(items) => {
                let result = clone_media_items(&items);
                self.cache.set_items(device_id.clone(), items);
                Ok(result)
            },
            Err(message) => Err(CoreError::Enumeration(message)),
        }
    }

    /// Drops any cached listing for the device id; idempotent.
    pub fn invalidate(&mut self, device_id: &String)
        requires
            old(self).wf(),
        ensures
            final(self).wf(),
            final(self).devices_view() == old(self).devices_view(),
            final(self).cache_view() == old(self).cache_view().remove(device_id@),
    {
        self.cache.remove(device_id);
    }

    /// Forces a re-enumeration: invalidates the cached listing and
    /// repopulates it through the backend.
    pub fn refresh_media_items<B: DeviceBackend>(
        &mut self,
        backend: &mut B,
        device_id: &String,
    ) -> (r: Result<Vec<MediaItem>, CoreError>)
        requires
            old(self).wf(),
        ensures
            final(self).wf(),
            final(self).devices_view() == old(self).devices_view(),
            r matches Ok(items) ==> final(self).cache_view() == old(self).cache_view().insert(
                device_id@,
                items@,
            ),
            r is Err ==> final(self).cache_view() == old(self).cache_view().remove(device_id@),
            !device_ids(old(self).devices_view()).contains(device_id@) <==> r == Err::<
                Vec<MediaItem>,
                CoreError,
            >(CoreError::DeviceNotFound),
    {
        self.invalidate(device_id);
        let ghost mid = self.cache_view();
        let r = self.get_media_items(backend, device_id);
        proof {
            assert(!mid.contains_key(device_id@));
            if r is Ok {
                assert(final(self).cache_view() =~= old(self).cache_view().insert(
                    device_id@,
                    r->Ok_0@,
                ));
            }
        }
        r
    }
}

/// The registry's standing invariant, visible to callers: every cached
/// listing belongs to a device id present in the last scan.
pub proof fn lemma_cache_holds_only_registered_devices(r: &DeviceRegistry, id: Seq<char>)
    requires
        r.wf(),
        r.cache_view().contains_key(id),
    ensures
        device_ids(r.devices_view()).contains(id),
{
}

/// After a refresh, a device id absent from the new scan has no cache entry
/// left: the next listing request for that id cannot be served from the
/// cache and must go back to the backend.
pub proof fn lemma_refresh_prunes_disconnected(
    cache: Map<Seq<char>, Seq<MediaItem>>,
    discovered: Seq<Device>,
    id: Seq<char>,
)
    requires
        !device_ids(discovered).contains(id),
    ensures
        !cache.restrict(device_ids(discovered)).contains_key(id),
{
}

/// Populating the cache for `id` stores exactly the listing that was
/// returned; while it stays cached, `get_media_items` returns that same
/// listing and leaves the state untouched, whatever the backend would do —
/// repeated calls without an intervening refresh or disconnect are
/// idempotent.
pub proof fn lemma_populate_idempotent(
    cache: Map<Seq<char>, Seq<MediaItem>>,
    id: Seq<char>,
    items: Seq<MediaItem>,
)
    ensures
        cache.insert(id, items).contains_key(id),
        cache.insert(id, items)[id] == items,
{
}

/// Invalidation is idempotent: dropping a listing twice leaves the same
/// cache as dropping it once.
pub proof fn lemma_invalidate_idempotent(cache: Map<Seq<char>, Seq<MediaItem>>, id: Seq<char>)
    ensures
        cache.remove(id).remove(id) == cache.remove(id),
{
    assert(cache.remove(id).remove(id) =~= cache.remove(id));
}

} // verus!
