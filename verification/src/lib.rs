//! Verified core of a mediated-device (mdev) lifecycle manager.
//!
//! The library holds the device state model, the persisted-definition
//! document logic, the validation rules for lifecycle operations, and the
//! callout engine that wraps every lifecycle action in hook-script stages.
//! All file, process and journal I/O is performed by a thin unverified
//! driver; the library receives the observed outcomes as plain values and
//! decides every next step under contract.

pub mod callouts;
pub mod config;
pub mod environment;
pub mod errors;
pub mod mdev;
pub mod scripttemplate;
pub mod strutil;
pub mod uuidstr;
