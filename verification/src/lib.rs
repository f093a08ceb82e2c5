//! Typed, checked marshaling for the ZWO ASI camera SDK.
//!
//! The vendor SDK speaks in numeric status codes, fixed-size records,
//! NUL-terminated name buffers and sentinel-terminated arrays.  This crate
//! turns each of those into a host value and back, and states for every
//! conversion exactly what comes out.  It holds no handle and performs no
//! call of its own: the caller makes the SDK call and hands the plain values
//! over.

pub mod error;
pub mod abi;
pub mod enums;
pub mod sentinel;
pub mod text;
pub mod width;
pub mod camera_info;
pub mod control_caps;
pub mod identity;
pub mod supported_mode;
pub mod api;
pub mod frame;
