use vstd::prelude::*;

verus! {

/// Bit pattern of the double-precision zero.
pub const ZERO_BITS: u64 = 0;

/// Bit pattern of the double-precision one.
pub const ONE_BITS: u64 = 0x3FF0_0000_0000_0000;

/// A numeric literal of an expression: the double-precision number whose
/// bit pattern is `bits`, from which one is subtracted `decrements` times,
/// in floating point, one subtraction after another.
///
/// The power rule lowers an exponent by one; keeping that step as a count
/// leaves the rounding of each subtraction to whoever evaluates the literal.
/// The count saturates at `u64::MAX`: every double reaches a value that
/// subtracting one leaves unchanged in fewer than 2^55 steps, so further
/// steps would not change the number it stands for.
#[derive(Debug, Clone, Copy, PartialEq, Eq, Structural)]
pub struct Literal {
    pub bits: u64,
    pub decrements: u64,
}

impl Literal {
    /// The literal lowered by one, as the power rule lowers an exponent.
    pub open spec fn lowered_spec(self) -> Literal {
        Literal {
            bits: self.bits,
            decrements: if self.decrements < u64::MAX {
                (self.decrements + 1) as u64
            } else {
                u64::MAX
            },
        }
    }

    /// The literal that stands for the double with bit pattern `bits`.
    pub fn from_bits(bits: u64) -> (r: Literal)
        ensures
            r == (Literal { bits, decrements: 0 }),
    {
        Literal { bits, decrements: 0 }
    }

    /// The literal zero.
    pub fn zero() -> (r: Literal)
        ensures
            r == (Literal { bits: ZERO_BITS, decrements: 0 }),
    {
        Literal { bits: ZERO_BITS, decrements: 0 }
    }

    /// The literal one.
    pub fn one() -> (r: Literal)
        ensures
            r == (Literal { bits: ONE_BITS, decrements: 0 }),
    {
        Literal { bits: ONE_BITS, decrements: 0 }
    }

    /// This literal minus one.
    pub fn lowered(self) -> (r: Literal)
        ensures
            r == self.lowered_spec(),
    {
        let decrements: u64 = if self.decrements < u64::MAX {
            self.decrements + 1
        } else {
            u64::MAX
        };
        Literal { bits: self.bits, decrements }
    }
}

} // verus!
