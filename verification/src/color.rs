//! Colours, as the graphics stack hands them over.

use vstd::prelude::*;
use embedded_graphics_core::pixelcolor::raw::RawU16;
use embedded_graphics_core::pixelcolor::Rgb565;
use embedded_graphics_core::prelude::RawData;

verus! {

/// `Rgb565` of embedded-graphics-core: a colour in 16 bits. The driver
/// carries it through and reads nothing of it but its raw value.
#[verifier::external_type_specification]
#[verifier::external_body]
pub struct ExRgb565(Rgb565);

/// The 16 bits that a colour is stored as.
pub uninterp spec fn raw_value(color: Rgb565) -> u16;

/// The raw 16-bit value of a colour.
///
/// Calls `RawU16::from` of embedded-graphics-core on the colour, and
/// `into_inner` on what comes back. The contract is taken on trust. It
/// claims no more than that the value depends on the colour alone, and
/// gives it its name.
#[verifier::external_body]
pub(crate) fn raw_of(color: &Rgb565) -> (raw: u16)
    ensures
        raw == raw_value(*color),
{
    RawU16::from(*color).into_inner()
}

/// The raw values of a run of colours, one for one.
pub(crate) fn raw_pixels(data: &[Rgb565]) -> (out: Vec<u16>)
    ensures
        out@.len() == data@.len(),
        forall|i: int| 0 <= i < data@.len() ==> out@[i] == raw_value(#[trigger] data@[i]),
{
    let mut out: Vec<u16> = Vec::new();
    let mut i: usize = 0;
    while i < data.len()
        invariant
            i <= data@.len(),
            out@.len() == i,
            forall|j: int| 0 <= j < i ==> out@[j] == raw_value(#[trigger] data@[j]),
        decreases data@.len() - i,
    {
        out.push(raw_of(&data[i]));
        i += 1;
    }
    out
}

} // verus!
