//! Transfer progress events and the sink they are published to.
//!
//! The transfer engine emits one [`TransferProgress`] event before each
//! item's transfer and one terminal event with status [`TransferStatus::Complete`]
//! after the batch.  Events are ephemeral: a sink consumes them, nothing
//! persists them.

use vstd::prelude::*;

verus! {

/// Whether a batch is still moving bytes or has finished.
#[derive(Clone, Copy, Debug, PartialEq, Eq, Structural)]
pub enum TransferStatus {
    Transferring,
    Complete,
}

/// Point-in-time status of an in-flight transfer batch.
///
/// `current` counts attempted items (1-based during the batch, equal to
/// `total` in the terminal event); `bytes_transferred` counts only the bytes
/// of items that actually succeeded, and saturates at `u64::MAX`; `speed` is
/// a coarse display-only estimate with no correctness contract.
#[derive(Debug)]
pub struct TransferProgress {
    pub current: usize,
    pub total: usize,
    pub current_file: String,
    pub bytes_transferred: u64,
    pub bytes_total: u64,
    pub speed: u64,
    pub status: TransferStatus,
}

/// The mathematical shape of one progress event.
pub ghost struct ProgressView {
    pub current: int,
    pub total: int,
    pub current_file: Seq<char>,
    pub bytes_transferred: u64,
    pub bytes_total: u64,
    pub speed: u64,
    pub status: TransferStatus,
}

impl View for TransferProgress {
    type V = ProgressView;

    open spec fn view(&self) -> ProgressView {
        ProgressView {
            current: self.current as int,
            total: self.total as int,
            current_file: self.current_file@,
            bytes_transferred: self.bytes_transferred,
            bytes_total: self.bytes_total,
            speed: self.speed,
            status: self.status,
        }
    }
}

impl Clone for TransferProgress {
    fn clone(&self) -> (r: Self)
        ensures
            r@ == self@,
    {
        TransferProgress {
            current: self.current,
            total: self.total,
            current_file: self.current_file.clone(),
            bytes_transferred: self.bytes_transferred,
            bytes_total: self.bytes_total,
            speed: self.speed,
            status: self.status,
        }
    }
}

/// A one-way publish interface for progress events: the engine writes, a
/// consumer (a GUI bridge, a log) reads.  Publishing appends the event to
/// the sink's history and does nothing else.
pub trait ProgressSink {
    spec fn events(&self) -> Seq<ProgressView>;

    fn publish(&mut self, progress: TransferProgress)
        ensures
            final(self).events() == old(self).events().push(progress@),
    ;
}

/// The views of a sequence of progress events.
pub open spec fn progress_views(s: Seq<TransferProgress>) -> Seq<ProgressView> {
    s.map_values(|p: TransferProgress| p@)
}

/// A sink that records every published event in order.
pub struct VecSink {
    log: Vec<TransferProgress>,
}

impl VecSink {
    /// An empty sink.
    pub fn new() -> (r: Self)
        ensures
            r.events() == Seq::<ProgressView>::empty(),
    {
        let r = VecSink { log: Vec::new() };
        proof {
            assert(r.events() =~= Seq::<ProgressView>::empty());
        }
        r
    }

    /// The events published so far, in order.
    pub fn log(&self) -> (r: &Vec<TransferProgress>)
        ensures
            progress_views(r@) == self.events(),
    {
        &self.log
    }
}

impl ProgressSink for VecSink {
    closed spec fn events(&self) -> Seq<ProgressView> {
        progress_views(self.log@)
    }

    fn publish(&mut self, progress: TransferProgress)
        ensures
            final(self).events() == old(self).events().push(progress@),
    {
        self.log.push(progress);
        proof {
            assert(final(self).events() =~= old(self).events().push(progress@));
        }
    }
}

} // verus!
