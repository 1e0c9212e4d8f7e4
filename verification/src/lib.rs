//! Translation between the ESP-IDF integer status-code space and a closed,
//! named error classification.
//!
//! The platform reports every operation's outcome as a signed 32-bit status
//! code: `0` means success, a small table of well-known constants names the
//! common failures, and every other nonzero value is an open-ended failure.
//! This crate maps that numeric space onto the [`EspError`] classification and
//! back, wraps raw codes in the [`EspStatus`] carrier with a short-circuiting
//! `Result` conversion, and renders failures as text.

pub mod codes;
pub mod error;
pub mod render;
pub mod status;
