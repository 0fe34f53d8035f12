//! Bounds-checked codec for the fanotify event-queue wire format.
//!
//! A fanotify listener reads an opaque byte buffer from the kernel's
//! event-queue descriptor.  This crate reconstructs the typed records in
//! that buffer — fixed-size event headers, each optionally followed by
//! variable-length file-identifier extension records — without ever
//! reading out of bounds, and encodes the fixed-size permission-response
//! record that is written back to the descriptor.  The syscalls that
//! produce and consume the bytes live outside the library; everything
//! here is a pure transform between bytes and records.

use vstd::prelude::*;

pub mod decode;
pub mod encode;
pub mod errors;
pub mod flags;
pub mod laws;
pub mod records;
pub mod wire;

verus! {

} // verus!
