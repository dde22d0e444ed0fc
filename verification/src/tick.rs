//! The tick byte: a seven-bit version counter with a "closed" flag in bit 0.

use vstd::prelude::*;

verus! {

/// One unit of the version field, which occupies bits 1-7 of the tick byte.
pub const TICK: u8 = 2;

/// The closed flag, bit 0 of the tick byte.
pub const CLOSED: u8 = 1;

/// Whether the closed flag of a tick byte is set.
pub open spec fn is_closed(bits: u8) -> bool {
    bits & CLOSED == CLOSED
}

/// The seven-bit version counter held in bits 1-7 of a tick byte.
pub open spec fn version_of(bits: u8) -> nat {
    (bits / 2) as nat
}

/// The tick byte after one more write: two is added, wrapping at 256.
pub open spec fn bumped(bits: u8) -> u8 {
    ((bits + TICK) % 256) as u8
}

/// The tick byte after the publisher has gone: bit 0 set, the version kept.
pub open spec fn sealed(bits: u8) -> u8 {
    bits | CLOSED
}

/// What an observer learns from a tick byte: nothing once it is closed,
/// otherwise the byte itself, whose bit 0 is then clear.
pub open spec fn observed(bits: u8) -> Option<u8> {
    if is_closed(bits) {
        None
    } else {
        Some(bits)
    }
}

/// A tick byte, as one process holds it between reading it from the region
/// and writing it back.
#[derive(Clone, Copy, Debug, PartialEq, Eq)]
pub struct Tick {
    bits: u8,
}

impl View for Tick {
    type V = u8;

    closed spec fn view(&self) -> u8 {
        self.bits
    }
}

impl Tick {
    /// Takes a byte of the region as a tick.
    pub fn from_bits(bits: u8) -> (t: Tick)
        ensures
            t@ == bits,
    {
        Tick { bits }
    }

    /// The byte as it is stored in the region.
    pub fn bits(&self) -> (b: u8)
        ensures
            b == self@,
    {
        self.bits
    }

    /// Advances the version by one unit, wrapping round after 128 steps.
    pub fn tick(&mut self)
        ensures
            final(self)@ == bumped(old(self)@),
    {
        self.bits = self.bits.wrapping_add(TICK);
    }

    /// Overwrites the whole byte, version and flag.
    pub fn store(&mut self, val: u8)
        ensures
            final(self)@ == val,
    {
        self.bits = val;
    }

    /// Sets the closed flag and keeps the version.
    pub fn close(&mut self)
        requires
            !is_closed(old(self)@),
        ensures
            final(self)@ == sealed(old(self)@),
    {
        self.bits = self.bits | CLOSED;
    }

    /// The current byte, unless the closed flag is set.
    pub fn try_get(&self) -> (r: Option<u8>)
        ensures
            r == observed(self@),
    {
        let val: u8 = self.bits;
        if val & CLOSED == CLOSED {
            None
        } else {
            Some(val)
        }
    }
}

} // verus!
