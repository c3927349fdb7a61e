//! Colours, as the `bracket-color` crate holds them.

use vstd::prelude::*;
use bracket_color::prelude::RGB;

verus! {

/// `bracket_color::prelude::RGB`: three 32-bit floating-point channels.
/// The library only carries such values from its callers to the consoles.
#[verifier::external_type_specification]
#[verifier::external_body]
pub struct ExRgb(bracket_color::prelude::RGB);

/// The colour that `RGB::from_u8` makes of three byte channels.
pub uninterp spec fn rgb_of_bytes(r: u8, g: u8, b: u8) -> RGB;

/// `RGB::from_u8`: divides each byte by 255 and stores the three quotients.
/// The result depends on the three bytes alone, and is named by
/// [`rgb_of_bytes`].
pub assume_specification[ RGB::from_u8 ](r: u8, g: u8, b: u8) -> (c: RGB)
    ensures
        c == rgb_of_bytes(r, g, b),
;

} // verus!
