//! Backend core of a small file browser: it lists the direct children of a
//! home-relative directory as display-ready records (name, formatted date and
//! time, byte size, file/directory/hidden classification) behind a one-slot
//! cache, and resolves home-relative paths for a stateless text reader.
#![allow(unused_imports)]
use vstd::prelude::*;

pub mod fex;
pub mod record;
pub mod text;
pub mod timefmt;

verus! {

/// The failures surfaced to the caller: the listed directory could not be
/// opened or enumerated, or the requested file could not be read as text.
/// Per-entry metadata failures are never surfaced; they degrade to a
/// placeholder record instead.
#[derive(Clone, Copy, Debug, PartialEq, Eq, Structural)]
pub enum FexError {
    DirectoryUnreadable,
    FileUnreadable,
}

} // verus!
