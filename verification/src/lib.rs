//! A hardware abstraction layer for video capture devices.
//!
//! The crate normalizes the wide and partially-failing platform query
//! surface of video capture drivers into a clean device model: a catalog
//! of pixel formats with their discrete resolutions, a portable taxonomy
//! of device controls, and a negotiated capture format.

pub mod control;
pub mod device;
pub mod format;
pub mod probe;
pub mod snapshot;
