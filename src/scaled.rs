//! Exact decimal quantities.

use vstd::prelude::*;

verus! {

/// A decimal quantity held exactly as `raw / scale`.
///
/// The device sends fractional quantities as scaled integers (coordinates in
/// millionths of a degree, SNR in quarter decibels, temperatures in tenths of
/// a degree); this type keeps the integer and its divisor side by side, so
/// no precision is lost.
#[derive(Debug, Clone, Copy, PartialEq, Eq, Hash, Structural)]
pub struct Scaled {
    /// The integer sent on the wire.
    pub raw: i64,
    /// The divisor that turns `raw` into the quantity's unit.
    pub scale: u32,
}

impl Scaled {
    /// The quantity `raw / scale`.
    pub fn new(raw: i64, scale: u32) -> (r: Scaled)
        ensures
            r.raw == raw,
            r.scale == scale,
    {
        Scaled { raw, scale }
    }
}

} // verus!
