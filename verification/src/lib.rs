//! Core of a phone-to-computer media transfer tool.
//!
//! The library holds the device/media orchestration logic: a registry of
//! currently attached devices, a per-device cache of enumerated media items,
//! and a sequential transfer engine that copies selected items while
//! reporting progress and tolerating per-item failure.  Platform probes,
//! mounts and file I/O live outside the library, behind the
//! [`backend::DeviceBackend`] interface.

pub mod backend;
pub mod cache;
pub mod classify;
pub mod device;
pub mod discovery;
pub mod engine;
pub mod error;
pub mod hashing;
pub mod paths;
pub mod probe_output;
pub mod progress;
pub mod registry;
pub mod text;
