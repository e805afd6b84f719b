//! Media kinds of a channel row.
use vstd::prelude::*;

verus! {

pub const LIVESTREAM: u8 = 0;

/// Movies, and the episodes of a series.
pub const MOVIE: u8 = 1;

pub const SERIES: u8 = 2;

/// A category row synthesized by the group-browse query; never stored.
pub const GROUP: u8 = 3;

} // verus!
