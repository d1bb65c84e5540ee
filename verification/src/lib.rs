//! Audia: a verified capture-to-spectrum pipeline.
//!
//! Audio samples arrive in packets from a live input device, cross a thread
//! boundary through a FIFO channel, are reassembled into fixed-size analysis
//! windows, and each window yields a frequency spectrum and a peak estimate.
//! This crate holds the verified core: the capture-session state machine, the
//! consumer side of the capture channel, the sample accumulator, and the
//! spectrum post-processing (truncation and peak extraction). Device and
//! stream handling against the platform audio backend, and the Fourier
//! transform itself, live outside and hand this crate plain values.

pub mod accumulator;
pub mod channel;
pub mod engine;
pub mod errors;
pub mod spectrum;
pub mod ui;
