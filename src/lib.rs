//! Capability probing for adapters of the embedded GL family: reading the
//! driver's version strings, classifying the device, aggregating queried
//! limits and extensions into a capability description, the per-format
//! capability table, and the steps of opening a device.

pub mod adapter;
pub mod bootstrap;
pub mod device;
pub mod format;
pub mod version;
