//! The sequence counter: an 8-bit tag distinguishing successive broadcast
//! packets.
//!
//! The counter is an explicit value handed to the packet encoder by its
//! caller, so independent broadcasters can each carry their own.

use vstd::prelude::*;

verus! {

/// A wrapping 8-bit sequence counter, starting at 1.
#[derive(Debug, Clone, PartialEq)]
pub struct SequenceCounter {
    /// The value the next encoding will carry.
    pub value: u8,
}

impl SequenceCounter {
    /// The value following `v`: one more, wrapping modulo 256.
    pub open spec fn spec_next(v: u8) -> u8 {
        (((v as int) + 1) % 256) as u8
    }

    /// A fresh counter; the first packet carries sequence value 1.
    pub fn new() -> (r: Self)
        ensures
            r.value == 1,
    {
        SequenceCounter { value: 1 }
    }

    /// Hands out the current value and steps to its successor, wrapping
    /// modulo 256.
    pub fn next_value(&mut self) -> (r: u8)
        ensures
            r == old(self).value,
            final(self).value == Self::spec_next(old(self).value),
    {
        let v = self.value;
        self.value = if self.value == 255 {
            0
        } else {
            self.value + 1
        };
        v
    }
}

/// Law: successive sequence values climb by exactly one modulo 256,
/// wrapping 255 back to 0.
pub proof fn lemma_sequence_wraps(v: u8)
    ensures
        v < 255 ==> SequenceCounter::spec_next(v) == v + 1,
        SequenceCounter::spec_next(255) == 0,
{
}

} // verus!
