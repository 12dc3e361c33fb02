//! Validation of the sampling temperature.
//!
//! A temperature is a single-precision value between 0 and 1, both
//! included. It is held as its bit pattern.

use vstd::prelude::*;
use crate::single::{rank, spec_rank};

verus! {

/// The rank of the least temperature, 0.
pub const MIN_TEMPERATURE_RANK: i32 = 0;

/// The rank of the greatest temperature, 1.
pub const MAX_TEMPERATURE_RANK: i32 = 0x3f80_0000;

/// Why a value is not accepted as a temperature.
#[derive(Clone, Copy, Debug, PartialEq, Eq, Structural)]
pub enum TemperatureError {
    /// The value is not at least 0. A NaN is rejected for this.
    TooLow,
    /// The value is greater than 1.
    TooHigh,
}

/// The fault for which the value that `bits` encodes is rejected, or `None`
/// if it is accepted.
pub open spec fn temperature_error(bits: u32) -> Option<TemperatureError> {
    match spec_rank(bits) {
        None => Some(TemperatureError::TooLow),
        Some(r) => if r < MIN_TEMPERATURE_RANK {
            Some(TemperatureError::TooLow)
        } else if r > MAX_TEMPERATURE_RANK {
            Some(TemperatureError::TooHigh)
        } else {
            None
        },
    }
}

/// Accepts the value that `bits` encodes as a temperature and returns it,
/// or says why it is rejected.
pub fn check_temperature(bits: u32) -> (result: Result<u32, TemperatureError>)
    ensures
        match result {
            Ok(accepted) => temperature_error(bits) is None && accepted == bits,
            Err(error) => temperature_error(bits) == Some(error),
        },
{
    match rank(bits) {
        None => Err(TemperatureError::TooLow),
        Some(r) => if r < MIN_TEMPERATURE_RANK {
            Err(TemperatureError::TooLow)
        } else if r > MAX_TEMPERATURE_RANK {
            Err(TemperatureError::TooHigh)
        } else {
            Ok(bits)
        },
    }
}

} // verus!
