//! The colour themes of the program.

use vstd::prelude::*;

verus! {

/// The themes the program can be shown in; the light one unless chosen
/// otherwise.
#[derive(Debug, Clone, Copy, PartialEq, Eq, Structural)]
pub enum TroxideTheme {
    Light,
    Dark,
}

impl Default for TroxideTheme {
    fn default() -> (t: Self)
        ensures
            t == TroxideTheme::Light,
    {
        TroxideTheme::Light
    }
}

} // verus!
