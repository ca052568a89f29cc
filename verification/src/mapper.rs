//! The decimal mapper: converts a cumulative count into the normalized
//! parameter value the avatar's blend tree expects.
use vstd::prelude::*;

verus! {

/// An exact decimal number with two fractional digits, stored as a count of
/// hundredths. A blend tree reads a float parameter ranging from -1 to +1,
/// and the remote side clamps it to two decimal places, so every value this
/// library sends is exactly representable here. The narrowing to a
/// single-precision float happens only at the wire-encoding boundary.
#[derive(Clone, Copy, Debug, PartialEq, Eq, Structural)]
pub struct DecimalValue {
    /// The value multiplied by 100.
    pub centis: i64,
}

impl View for DecimalValue {
    type V = int;

    open spec fn view(&self) -> int {
        self.centis as int
    }
}

/// The mapped value of a count, in hundredths: `-1 + num * 0.01` scaled by 100.
pub open spec fn mapped_centis(num: int) -> int {
    num - 100
}

/// Maps a count onto the normalized parameter range as `-1 + num * 0.01`,
/// exactly: 0 maps to -1, 200 maps to +1. The function imposes no upper bound
/// of its own; a count above 200 maps above +1 and is the caller's mistake,
/// not an error here. Only counts whose hundredths fit the representation are
/// accepted.
pub fn int_to_decimal(num: usize) -> (r: DecimalValue)
    requires
        num as int <= i64::MAX as int,
    ensures
        r@ == mapped_centis(num as int),
{
    let n = num as i64;
    DecimalValue { centis: n - 100 }
}

} // verus!
