//! Errors surfaced by the orchestration core.

use vstd::prelude::*;
use vstd::string::StringExecFns;

verus! {

/// Why a cache or transfer operation failed.
///
/// Probe-level discovery failures never reach this type: discovery is
/// best-effort and at worst contributes an empty list.  `Enumeration`
/// carries the backend's own message, distinct from an empty but
/// successful listing.
#[derive(Debug, PartialEq, Eq)]
pub enum CoreError {
    /// The requested device id is not in the registry's last scan.
    DeviceNotFound,
    /// No media listing is cached for the requested device id.
    NoMediaCached,
    /// The backend failed while enumerating a device's media.
    Enumeration(String),
}

impl CoreError {
    /// A short human-readable description, for callers that log or display.
    pub fn message(&self) -> (r: String)
        ensures
            *self is DeviceNotFound ==> r@ == "Device not found"@,
            *self is NoMediaCached ==> r@ == "No media cached"@,
            *self matches CoreError::Enumeration(m) ==> r@ == m@,
    {
        match self {
            CoreError::DeviceNotFound => String::from_str("Device not found"),
            CoreError::NoMediaCached => String::from_str("No media cached"),
            CoreError::Enumeration(m) => m.clone(),
        }
    }
}

} // verus!
