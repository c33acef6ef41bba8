//! Fixed-width hardware integers with wrapping arithmetic.

use vstd::prelude::*;

verus! {

/// An 8-bit hardware value. All arithmetic wraps modulo 2^8.
#[derive(Debug, Clone, Copy, PartialEq, Eq, Structural)]
pub struct Byte {
    value: u8,
}

impl View for Byte {
    type V = u8;

    closed spec fn view(&self) -> u8 {
        self.value
    }
}

impl Byte {
    pub fn new(value: u8) -> (r: Self)
        ensures
            r@ == value,
    {
        Byte { value }
    }

    /// The raw value.
    pub fn get(self) -> (r: u8)
        ensures
            r == self@,
    {
        self.value
    }

    pub fn zero() -> (r: Self)
        ensures
            r@ == 0,
    {
        Byte { value: 0 }
    }

    pub fn min_value() -> (r: Self)
        ensures
            r@ == 0,
    {
        Byte { value: 0 }
    }

    pub fn max_value() -> (r: Self)
        ensures
            r@ == 0xFF,
    {
        Byte { value: 0xFF }
    }

    /// Sum modulo 2^8.
    pub fn wrapping_add(self, rhs: Self) -> (r: Self)
        ensures
            r@ == (self@ + rhs@) % 256,
    {
        Byte { value: self.value.wrapping_add(rhs.value) }
    }

    /// Difference modulo 2^8.
    pub fn wrapping_sub(self, rhs: Self) -> (r: Self)
        ensures
            r@ == (self@ - rhs@) % 256,
    {
        Byte { value: self.value.wrapping_sub(rhs.value) }
    }

    /// Product modulo 2^8.
    pub fn wrapping_mul(self, rhs: Self) -> (r: Self)
        ensures
            r@ == (self@ * rhs@) % 256,
    {
        Byte { value: self.value.wrapping_mul(rhs.value) }
    }

    /// Quotient; the divisor must not be zero.
    pub fn div(self, rhs: Self) -> (r: Self)
        requires
            rhs@ != 0,
        ensures
            r@ == self@ / rhs@,
    {
        Byte { value: self.value / rhs.value }
    }

    /// Remainder; the divisor must not be zero.
    pub fn rem(self, rhs: Self) -> (r: Self)
        requires
            rhs@ != 0,
        ensures
            r@ == self@ % rhs@,
    {
        Byte { value: self.value % rhs.value }
    }

    pub fn bitand(self, rhs: Self) -> (r: Self)
        ensures
            r@ == self@ & rhs@,
    {
        Byte { value: self.value & rhs.value }
    }

    pub fn bitor(self, rhs: Self) -> (r: Self)
        ensures
            r@ == self@ | rhs@,
    {
        Byte { value: self.value | rhs.value }
    }

    pub fn bitxor(self, rhs: Self) -> (r: Self)
        ensures
            r@ == self@ ^ rhs@,
    {
        Byte { value: self.value ^ rhs.value }
    }

    pub fn not(self) -> (r: Self)
        ensures
            r@ == !self@,
    {
        Byte { value: !self.value }
    }

    /// Left shift; the amount is taken modulo 8.
    pub fn shl(self, amount: usize) -> (r: Self)
        ensures
            r@ == self@ << ((amount % 8) as u8),
    {
        let n: u8 = (amount % 8) as u8;
        Byte { value: self.value << n }
    }

    /// Right shift; the amount is taken modulo 8.
    pub fn shr(self, amount: usize) -> (r: Self)
        ensures
            r@ == self@ >> ((amount % 8) as u8),
    {
        let n: u8 = (amount % 8) as u8;
        Byte { value: self.value >> n }
    }
}

/// A 16-bit hardware value. All arithmetic wraps modulo 2^16.
#[derive(Debug, Clone, Copy, PartialEq, Eq, Structural)]
pub struct Word {
    value: u16,
}

impl View for Word {
    type V = u16;

    closed spec fn view(&self) -> u16 {
        self.value
    }
}

impl Word {
    pub fn new(value: u16) -> (r: Self)
        ensures
            r@ == value,
    {
        Word { value }
    }

    /// The raw value.
    pub fn get(self) -> (r: u16)
        ensures
            r == self@,
    {
        self.value
    }

    pub fn zero() -> (r: Self)
        ensures
            r@ == 0,
    {
        Word { value: 0 }
    }

    pub fn min_value() -> (r: Self)
        ensures
            r@ == 0,
    {
        Word { value: 0 }
    }

    pub fn max_value() -> (r: Self)
        ensures
            r@ == 0xFFFF,
    {
        Word { value: 0xFFFF }
    }

    /// Sum modulo 2^16.
    pub fn wrapping_add(self, rhs: Self) -> (r: Self)
        ensures
            r@ == (self@ + rhs@) % 65536,
    {
        Word { value: self.value.wrapping_add(rhs.value) }
    }

    /// Difference modulo 2^16.
    pub fn wrapping_sub(self, rhs: Self) -> (r: Self)
        ensures
            r@ == (self@ - rhs@) % 65536,
    {
        Word { value: self.value.wrapping_sub(rhs.value) }
    }

    /// Product modulo 2^16.
    pub fn wrapping_mul(self, rhs: Self) -> (r: Self)
        ensures
            r@ == (self@ * rhs@) % 65536,
    {
        Word { value: self.value.wrapping_mul(rhs.value) }
    }

    /// Quotient; the divisor must not be zero.
    pub fn div(self, rhs: Self) -> (r: Self)
        requires
            rhs@ != 0,
        ensures
            r@ == self@ / rhs@,
    {
        Word { value: self.value / rhs.value }
    }

    /// Remainder; the divisor must not be zero.
    pub fn rem(self, rhs: Self) -> (r: Self)
        requires
            rhs@ != 0,
        ensures
            r@ == self@ % rhs@,
    {
        Word { value: self.value % rhs.value }
    }

    pub fn bitand(self, rhs: Self) -> (r: Self)
        ensures
            r@ == self@ & rhs@,
    {
        Word { value: self.value & rhs.value }
    }

    pub fn bitor(self, rhs: Self) -> (r: Self)
        ensures
            r@ == self@ | rhs@,
    {
        Word { value: self.value | rhs.value }
    }

    pub fn bitxor(self, rhs: Self) -> (r: Self)
        ensures
            r@ == self@ ^ rhs@,
    {
        Word { value: self.value ^ rhs.value }
    }

    pub fn not(self) -> (r: Self)
        ensures
            r@ == !self@,
    {
        Word { value: !self.value }
    }

    /// Left shift; the amount is taken modulo 16.
    pub fn shl(self, amount: usize) -> (r: Self)
        ensures
            r@ == self@ << ((amount % 16) as u16),
    {
        let n: u16 = (amount % 16) as u16;
        Word { value: self.value << n }
    }

    /// Right shift; the amount is taken modulo 16.
    pub fn shr(self, amount: usize) -> (r: Self)
        ensures
            r@ == self@ >> ((amount % 16) as u16),
    {
        let n: u16 = (amount % 16) as u16;
        Word { value: self.value >> n }
    }
}

impl Word {
    /// The low byte.
    pub fn low(&self) -> (r: Byte)
        ensures
            r@ == self@ % 256,
    {
        Byte::new((self.value % 256) as u8)
    }

    /// The high byte.
    pub fn high(&self) -> (r: Byte)
        ensures
            r@ == self@ / 256,
    {
        Byte::new((self.value / 256) as u8)
    }

    /// Replaces the low byte and keeps the high byte.
    pub fn set_low(&mut self, value: Byte)
        ensures
            final(self)@ == (old(self)@ / 256) * 256 + value@,
    {
        let high: u16 = self.value / 256;
        self.value = high * 256 + (value.get() as u16);
    }

    /// Replaces the high byte and keeps the low byte.
    pub fn set_high(&mut self, value: Byte)
        ensures
            final(self)@ == value@ * 256 + old(self)@ % 256,
    {
        let low: u16 = self.value % 256;
        self.value = (value.get() as u16) * 256 + low;
    }
}

/// Writing a byte half and reading it back gives the byte, and leaves the other half alone.
pub proof fn lemma_word_halves(w: Word, b: Byte)
    ensures
        ((w@ / 256) * 256 + b@) % 256 == b@,
        ((w@ / 256) * 256 + b@) / 256 == w@ / 256,
        (b@ * 256 + w@ % 256) / 256 == b@,
        (b@ * 256 + w@ % 256) % 256 == w@ % 256,
{
}

} // verus!
