//! Binary-coded decimal, as used by the emulated real-time clock.

use vstd::prelude::*;

verus! {

/// The BCD form of a binary value below 100: tens in the high nibble,
/// units in the low nibble.
pub open spec fn bcd_of(v: int) -> int {
    (v / 10) * 16 + v % 10
}

/// Whether `v` has a two-digit BCD form.
pub open spec fn bcd_representable(v: int) -> bool {
    0 <= v <= 99
}

/// Converts a binary value to BCD; `None` when it has more than two digits.
pub fn bcd_from_binary(v: u8) -> (r: Option<u8>)
    ensures
        r.is_some() <==> bcd_representable(v as int),
        r matches Some(b) ==> b as int == bcd_of(v as int),
{
    if v > 99 {
        None
    } else {
        Some((v / 10) * 16 + v % 10)
    }
}

} // verus!
