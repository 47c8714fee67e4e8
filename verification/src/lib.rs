//! Core of a single-output watering controller.
//!
//! The library models the actuator (a GPIO-driven pump relay with a
//! software simulation fallback), the shared-secret authentication gate,
//! and the request handlers for the status and actuation endpoints.
//! Everything here is plain, synchronous logic over plain values; the
//! surrounding binary performs the HTTP, timer and hardware side effects
//! that the contracts here prescribe.

pub mod actuator;
pub mod auth;
pub mod handlers;
pub mod lifecycle;
pub mod responses;
pub mod schedule;
pub mod text;
