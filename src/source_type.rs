//! Kinds of source.
use vstd::prelude::*;

verus! {

/// A playlist imported from a file.
pub const M3U: u8 = 0;

/// A playlist fetched from a URL.
pub const M3U_LINK: u8 = 1;

/// A provider API.
pub const XTREAM: u8 = 2;

/// A user-defined collection.
pub const CUSTOM: u8 = 3;

} // verus!
