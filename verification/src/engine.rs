//! The transfer engine: copies a chosen subset of cached media items for one
//! device to a destination directory, strictly one item at a time.
//!
//! The engine resolves the requested item ids against the cached listing
//! (preserving cache order; an id that resolves to nothing is skipped, not
//! an error), publishes one progress event before each attempt and one
//! terminal `complete` event after the batch, and keeps going when an item
//! fails: one item's failure never aborts the batch.  The returned outcome
//! list records, per resolved item, whether its fetch succeeded.

use vstd::prelude::*;

use crate::backend::DeviceBackend;
use crate::cache::str_view_set;
use crate::device::{device_ids, MediaItem};
use crate::error::CoreError;
use crate::paths::join_path;
use crate::progress::{ProgressSink, ProgressView, TransferProgress, TransferStatus};
use crate::registry::DeviceRegistry;

verus! {

/// The fixed display-only throughput estimate published while transferring.
pub const SPEED_ESTIMATE: u64 = 25_000_000;

/// Saturating addition on byte counters: transfer byte totals never wrap,
/// they stick at `u64::MAX`.
pub open spec fn sat_add_u64(a: u64, b: u64) -> u64 {
    if a + b > u64::MAX {
        u64::MAX
    } else {
        (a + b) as u64
    }
}

/// Executable counterpart of [`sat_add_u64`].
pub fn add_saturating(a: u64, b: u64) -> (r: u64)
    ensures
        r == sat_add_u64(a, b),
{
    if a > u64::MAX - b {
        u64::MAX
    } else {
        a + b
    }
}

/// The requested items in cache order: those cached items whose id view is
/// among the requested id views.
pub open spec fn resolve_items(items: Seq<MediaItem>, ids: Set<Seq<char>>) -> Seq<MediaItem>
    decreases items.len(),
{
    if items.len() == 0 {
        Seq::empty()
    } else {
        let rest = resolve_items(items.drop_last(), ids);
        if ids.contains(items.last().id@) {
            rest.push(items.last())
        } else {
            rest
        }
    }
}

/// Total size of the items, saturating at `u64::MAX`.
pub open spec fn total_bytes(items: Seq<MediaItem>) -> u64
    decreases items.len(),
{
    if items.len() == 0 {
        0u64
    } else {
        sat_add_u64(total_bytes(items.drop_last()), items.last().size)
    }
}

/// Bytes of the successful items among the first `upto` attempts,
/// saturating at `u64::MAX`.
pub open spec fn done_bytes(items: Seq<MediaItem>, ok: Seq<bool>, upto: int) -> u64
    decreases upto,
{
    if upto <= 0 {
        0u64
    } else {
        let prev = done_bytes(items, ok, upto - 1);
        if upto - 1 < items.len() && upto - 1 < ok.len() && ok[upto - 1] {
            sat_add_u64(prev, items[upto - 1].size)
        } else {
            prev
        }
    }
}

/// The event published before item `i` is attempted: `i` items have been
/// attempted so far, and only the successful ones among them are counted in
/// `bytes_transferred`.
pub open spec fn step_event(items: Seq<MediaItem>, ok: Seq<bool>, i: int) -> ProgressView {
    ProgressView {
        current: i + 1,
        total: items.len() as int,
        current_file: items[i].name@,
        bytes_transferred: done_bytes(items, ok, i),
        bytes_total: total_bytes(items),
        speed: SPEED_ESTIMATE,
        status: TransferStatus::Transferring,
    }
}

/// The terminal event after the whole batch: every item attempted, only the
/// successful bytes counted.
pub open spec fn complete_event(items: Seq<MediaItem>, ok: Seq<bool>) -> ProgressView {
    ProgressView {
        current: items.len() as int,
        total: items.len() as int,
        current_file: Seq::<char>::empty(),
        bytes_transferred: done_bytes(items, ok, items.len() as int),
        bytes_total: total_bytes(items),
        speed: 0u64,
        status: TransferStatus::Complete,
    }
}

/// All events published by one batch with per-item outcomes `ok`: one event
/// before each item, then the terminal event.
pub open spec fn transfer_events(items: Seq<MediaItem>, ok: Seq<bool>) -> Seq<ProgressView> {
    Seq::new(
        items.len() + 1,
        |i: int|
            if i < items.len() {
                step_event(items, ok, i)
            } else {
                complete_event(items, ok)
            },
    )
}

proof fn lemma_done_bytes_grow(items: Seq<MediaItem>, ok: Seq<bool>, b: bool, upto: int)
    requires
        0 <= upto <= ok.len(),
    ensures
        done_bytes(items, ok.push(b), upto) == done_bytes(items, ok, upto),
    decreases upto,
{
    if upto > 0 {
        lemma_done_bytes_grow(items, ok, b, upto - 1);
        assert(ok.push(b)[upto - 1] == ok[upto - 1]);
    }
}

/// Whether `id` is among the requested ids.
pub fn id_requested(file_ids: &Vec<String>, id: &String) -> (r: bool)
    ensures
        r == str_view_set(file_ids@).contains(id@),
{
    crate::cache::string_in_list(file_ids, id)
}

/// The cached items selected by the requested ids, in cache order.
pub fn resolve_requested(items: &Vec<MediaItem>, file_ids: &Vec<String>) -> (r: Vec<MediaItem>)
    ensures
        r@ == resolve_items(items@, str_view_set(file_ids@)),
{
    let ghost ids = str_view_set(file_ids@);
    let n = items.len();
    let mut r: Vec<MediaItem> = Vec::new();
    let mut i: usize = 0;
    while i < n
        invariant
            n == items@.len(),
            i <= n,
            ids == str_view_set(file_ids@),
            r@ == resolve_items(items@.take(i as int), ids),
        decreases n - i,
    {
        proof {
            assert(items@.take(i as int + 1).drop_last() =~= items@.take(i as int));
            assert(items@.take(i as int + 1).last() == items@[i as int]);
        }
        if id_requested(file_ids, &items[i].id) {
            r.push(items[i].clone());
        }
        i += 1;
    }
    proof {
        assert(items@.take(n as int) =~= items@);
    }
    r
}

/// Total size of the items in a listing, saturating at `u64::MAX`.
pub fn sum_sizes(items: &Vec<MediaItem>) -> (r: u64)
    ensures
        r == total_bytes(items@),
{
    let n = items.len();
    let mut r: u64 = 0;
    let mut i: usize = 0;
    while i < n
        invariant
            n == items@.len(),
            i <= n,
            r == total_bytes(items@.take(i as int)),
        decreases n - i,
    {
        proof {
            assert(items@.take(i as int + 1).drop_last() =~= items@.take(i as int));
            assert(items@.take(i as int + 1).last() == items@[i as int]);
        }
        r = add_saturating(r, items[i].size);
        i += 1;
    }
    proof {
        assert(items@.take(n as int) =~= items@);
    }
    r
}

/// Copies the requested items for one device to `destination`, publishing
/// progress along the way.
///
/// The device must be registered and its listing cached, else the matching
/// error is returned and nothing is published.  Requested ids that are not
/// in the cached listing are skipped.  Items transfer strictly one at a
/// time; a failed item is recorded as `false` in the returned outcomes and
/// the batch continues.  The terminal event always has status `complete`,
/// `current == total`, and a byte counter that reflects only the items that
/// actually succeeded.
pub fn transfer_files<B: DeviceBackend, S: ProgressSink>(
    registry: &DeviceRegistry,
    backend: &mut B,
    sink: &mut S,
    device_id: &String,
    file_ids: &Vec<String>,
    destination: &str,
) -> (r: Result<Vec<bool>, CoreError>)
    requires
        registry.wf(),
    ensures
        !device_ids(registry.devices_view()).contains(device_id@) ==> {
            &&& r == Err::<Vec<bool>, CoreError>(CoreError::DeviceNotFound)
            &&& final(sink).events() == old(sink).events()
            &&& *final(backend) == *old(backend)
        },
        device_ids(registry.devices_view()).contains(device_id@) && !registry.cache_view(
        ).contains_key(device_id@) ==> {
            &&& r == Err::<Vec<bool>, CoreError>(CoreError::NoMediaCached)
            &&& final(sink).events() == old(sink).events()
            &&& *final(backend) == *old(backend)
        },
        device_ids(registry.devices_view()).contains(device_id@) && registry.cache_view(
        ).contains_key(device_id@) ==> (r matches Ok(outcomes) && {
            let resolved = resolve_items(
                registry.cache_view()[device_id@],
                str_view_set(file_ids@),
            );
            &&& outcomes@.len() == resolved.len()
            &&& final(sink).events() == old(sink).events() + transfer_events(resolved, outcomes@)
            &&& (resolved.len() == 0 ==> *final(backend) == *old(backend))
        }),
{
    let device = match registry.lookup_device(device_id) {
        Some(d) => d,
        None => {
            return Err(CoreError::DeviceNotFound);
        },
    };
    let all_items = match registry.cached_items(device_id) {
        Some(v) => v,
        None => {
            return Err(CoreError::NoMediaCached);
        },
    };
    let items = resolve_requested(all_items, file_ids);
    let ghost resolved = items@;
    let total = items.len();
    let total_size = sum_sizes(&items);
    let mut transferred: u64 = 0;
    let mut ok: Vec<bool> = Vec::new();
    let mut i: usize = 0;
    while i < total
        invariant
            registry.wf(),
            total == resolved.len(),
            items@ == resolved,
            i <= total,
            ok@.len() == i,
            transferred == done_bytes(resolved, ok@, i as int),
            total_size == total_bytes(resolved),
            i == 0 ==> *backend == *old(backend),
            sink.events() == old(sink).events() + Seq::new(
                i as nat,
                |j: int| step_event(resolved, ok@, j),
            ),
        decreases total - i,
    {
        let item = &items[i];
        let event = TransferProgress {
            current: i + 1,
            total,
            current_file: item.name.clone(),
            bytes_transferred: transferred,
            bytes_total: total_size,
            speed: SPEED_ESTIMATE,
            status: TransferStatus::Transferring,
        };
        proof {
            assert(event@ == step_event(resolved, ok@, i as int));
        }
        sink.publish(event);
        let dest_file = join_path(destination, item.name.as_str());
        let ghost ok_pre = ok@;
        match backend.fetch(&device, item, dest_file.as_str()) {
            Ok(_) => {
                transferred = add_saturating(transferred, item.size);
                ok.push(true);
            },
            Err(_) => {
                ok.push(false);
            },
        }
        proof {
            assert forall|j: int| 0 <= j <= i implies done_bytes(resolved, ok@, j) == done_bytes(
                resolved,
                ok_pre,
                j,
            ) by {
                lemma_done_bytes_grow(resolved, ok_pre, ok@.last(), j);
                assert(ok@ =~= ok_pre.push(ok@.last()));
            }
            assert(transferred == done_bytes(resolved, ok@, i as int + 1));
            assert(sink.events() =~= old(sink).events() + Seq::new(
                (i + 1) as nat,
                |j: int| step_event(resolved, ok@, j),
            ));
        }
        i += 1;
    }
    let terminal = TransferProgress {
        current: total,
        total,
        current_file: String::new(),
        bytes_transferred: transferred,
        bytes_total: total_size,
        speed: 0,
        status: TransferStatus::Complete,
    };
    proof {
        assert(terminal@ == complete_event(resolved, ok@));
    }
    sink.publish(terminal);
    proof {
        assert(sink.events() =~= old(sink).events() + transfer_events(resolved, ok@));
    }
    Ok(ok)
}

/// A batch survives per-item failures: with any outcome vector `ok`, every
/// one of the `n` items is attempted (event `i` reports item `i` with
/// status `transferring`), the terminal event reports `complete` with
/// `current == total == n`, and the byte counters count an item's size if
/// and only if its fetch succeeded.
pub proof fn lemma_batch_survives_failures(items: Seq<MediaItem>, ok: Seq<bool>)
    requires
        ok.len() == items.len(),
    ensures
        transfer_events(items, ok).len() == items.len() + 1,
        forall|i: int|
            0 <= i < items.len() ==> transfer_events(items, ok)[i].status
                == TransferStatus::Transferring && transfer_events(items, ok)[i].current == i + 1
                && transfer_events(items, ok)[i].total == items.len(),
        transfer_events(items, ok).last().status == TransferStatus::Complete,
        transfer_events(items, ok).last().current == items.len(),
        transfer_events(items, ok).last().total == items.len(),
        transfer_events(items, ok).last().bytes_transferred == done_bytes(
            items,
            ok,
            items.len() as int,
        ),
        forall|i: int|
            0 <= i < items.len() && ok[i] ==> done_bytes(items, ok, i + 1) == sat_add_u64(
                done_bytes(items, ok, i),
                items[i].size,
            ),
        forall|i: int|
            0 <= i < items.len() && !ok[i] ==> done_bytes(items, ok, i + 1) == done_bytes(
                items,
                ok,
                i,
            ),
{
}

/// An empty selection resolves to no items — whether given as the empty
/// id set or as an empty list of requested id strings.
pub proof fn lemma_resolve_empty_selection(items: Seq<MediaItem>)
    ensures
        resolve_items(items, Set::<Seq<char>>::empty()) == Seq::<MediaItem>::empty(),
        resolve_items(items, str_view_set(Seq::<String>::empty())) == Seq::<MediaItem>::empty(),
    decreases items.len(),
{
    assert(str_view_set(Seq::<String>::empty()) =~= Set::<Seq<char>>::empty());
    if items.len() > 0 {
        lemma_resolve_empty_selection(items.drop_last());
    }
}

/// A batch over no items publishes exactly one event: `complete`, with
/// `current == total == 0` and zero bytes.
pub proof fn lemma_empty_batch_single_event()
    ensures
        transfer_events(Seq::<MediaItem>::empty(), Seq::<bool>::empty()) =~= seq![
            complete_event(Seq::<MediaItem>::empty(), Seq::<bool>::empty()),
        ],
        complete_event(Seq::<MediaItem>::empty(), Seq::<bool>::empty()).current == 0,
        complete_event(Seq::<MediaItem>::empty(), Seq::<bool>::empty()).total == 0,
        complete_event(Seq::<MediaItem>::empty(), Seq::<bool>::empty()).bytes_transferred == 0,
        complete_event(Seq::<MediaItem>::empty(), Seq::<bool>::empty()).bytes_total == 0,
        complete_event(Seq::<MediaItem>::empty(), Seq::<bool>::empty()).status
            == TransferStatus::Complete,
{
}

/// A requested id that matches no cached item changes nothing: the batch
/// resolved with it is the batch resolved without it, so the remaining
/// valid ids still transfer.
pub proof fn lemma_unknown_id_skipped(items: Seq<MediaItem>, ids: Set<Seq<char>>, absent: Seq<char>)
    requires
        forall|i: int| 0 <= i < items.len() ==> items[i].id@ != absent,
    ensures
        resolve_items(items, ids.remove(absent)) == resolve_items(items, ids),
        resolve_items(items, ids.insert(absent)) == resolve_items(items, ids),
    decreases items.len(),
{
    if items.len() > 0 {
        assert(forall|i: int|
            0 <= i < items.drop_last().len() ==> items.drop_last()[i] == items[i]);
        lemma_unknown_id_skipped(items.drop_last(), ids, absent);
        assert(items.last() == items[items.len() - 1]);
    }
}

/// Everything a batch resolves comes from the cached listing and was
/// requested.
pub proof fn lemma_resolve_members(items: Seq<MediaItem>, ids: Set<Seq<char>>)
    ensures
        forall|j: int|
            0 <= j < resolve_items(items, ids).len() ==> ids.contains(
                resolve_items(items, ids)[j].id@,
            ) && items.contains(resolve_items(items, ids)[j]),
    decreases items.len(),
{
    if items.len() > 0 {
        lemma_resolve_members(items.drop_last(), ids);
        let r = resolve_items(items, ids);
        let rest = resolve_items(items.drop_last(), ids);
        assert forall|j: int| 0 <= j < r.len() implies ids.contains(r[j].id@) && items.contains(
            r[j],
        ) by {
            if j < rest.len() {
                assert(r[j] == rest[j]);
                assert(items.drop_last().contains(rest[j]));
                let k = choose|k: int|
                    0 <= k < items.drop_last().len() && items.drop_last()[k] == rest[j];
                assert(items[k] == rest[j]);
            } else {
                assert(r[j] == items.last());
                assert(items[items.len() - 1] == items.last());
            }
        }
    }
}

} // verus!
