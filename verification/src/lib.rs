//! Clipboard change detection.
//!
//! A poller reads the clipboard's text at a fixed cadence and hands each
//! reading to the detector, which keeps a fixed-size fingerprint of the last
//! content it saw and decides whether the reading is worth a notification.
//! Reading the clipboard, sleeping and printing are left to the caller.

pub mod commands;
pub mod detector;
pub mod fingerprint;
pub mod history;
pub mod poller;
