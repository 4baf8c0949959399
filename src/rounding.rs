//! The three-bit rounding-mode field.
use crate::instruction::{DecodeError, RoundingMode};
use vstd::prelude::*;

verus! {

/// The rounding mode that `code` selects; `101`, `110` and codes wider than three
/// bits select none.
pub open spec fn rounding_mode_of(code: u32) -> Result<RoundingMode, DecodeError> {
    if code == 0 {
        Ok(RoundingMode::Rne)
    } else if code == 1 {
        Ok(RoundingMode::Rtz)
    } else if code == 2 {
        Ok(RoundingMode::Rdn)
    } else if code == 3 {
        Ok(RoundingMode::Rup)
    } else if code == 4 {
        Ok(RoundingMode::Rmm)
    } else if code == 7 {
        Ok(RoundingMode::Dyn)
    } else {
        Err(DecodeError::InvalidRoundingMode(code))
    }
}

/// Resolves a rounding-mode code. The reserved codes are an error rather than a
/// placeholder token, like every other undefined field value.
pub fn rm_decoder(code: u32) -> (r: Result<RoundingMode, DecodeError>)
    ensures
        r == rounding_mode_of(code),
{
    match code {
        0 => Ok(RoundingMode::Rne),
        1 => Ok(RoundingMode::Rtz),
        2 => Ok(RoundingMode::Rdn),
        3 => Ok(RoundingMode::Rup),
        4 => Ok(RoundingMode::Rmm),
        7 => Ok(RoundingMode::Dyn),
        _ => Err(DecodeError::InvalidRoundingMode(code)),
    }
}

} // verus!
