//! Core logic of a game-controller bridge: normalizes vendor button
//! identifiers to the fixed external index scheme used by the W3C Gamepad
//! API, debounces analog triggers into press pulses, tracks hot-plugged
//! controllers together with their optional haptic capability, and fans
//! haptic feedback requests out to every capable device.
//!
//! The hosting program owns the hardware event source and the delivery of
//! outbound events; this crate owns every decision in between.

pub mod bridge;
pub mod haptic;
pub mod mapper;
pub mod registry;
