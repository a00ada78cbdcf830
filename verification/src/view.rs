//! The pages the side menu of the program leads to.

use vstd::prelude::*;

verus! {

/// A page of the program.
#[derive(Debug, Clone, Copy, PartialEq, Eq, Structural)]
pub enum View {
    Search,
    Discover,
    MyShows,
    Statistics,
    Watchlist,
    Series,
    Settings,
}

impl Default for View {
    fn default() -> (v: Self)
        ensures
            v == View::Search,
    {
        View::Search
    }
}

} // verus!
