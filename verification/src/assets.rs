//! Access to the static assets bundled with the program.

use std::borrow::Cow;
use vstd::prelude::*;

verus! {

/// Creates a `Cow` borrowing a static array of asset bytes.
///
/// This is useful when creating handles for SVG and images.
pub fn get_static_cow_from_asset(static_asset: &'static [u8]) -> (c: Cow<'static, [u8]>)
    ensures
        c == Cow::<'static, [u8]>::Borrowed(static_asset),
        c@ == static_asset@,
{
    Cow::Borrowed(static_asset)
}

} // verus!
