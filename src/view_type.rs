//! Browse views of a search.
use vstd::prelude::*;

verus! {

pub const ALL: u8 = 0;

pub const FAVORITES: u8 = 1;

pub const CATEGORIES: u8 = 2;

} // verus!
