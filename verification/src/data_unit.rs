//! Wrapping 8-bit and 16-bit values with bit selection and signed views.

use vstd::prelude::*;

verus! {

/// Bit `i` of an 8-bit value, as 0 or 1.
pub open spec fn bit8(v: u8, i: u8) -> u8 {
    (v >> i) & 1
}

/// Bit `i` of a 16-bit value, as 0 or 1.
pub open spec fn bit16(v: u16, i: u8) -> u16 {
    (v >> i) & 1
}

/// The two's-complement reading of an 8-bit value.
pub open spec fn signed8(v: u8) -> int {
    if v < 0x80 {
        v as int
    } else {
        v as int - 0x100
    }
}

/// The two's-complement reading of a 16-bit value.
pub open spec fn signed16(v: u16) -> int {
    if v < 0x8000 {
        v as int
    } else {
        v as int - 0x1_0000
    }
}

/// The 16-bit value whose two's-complement reading is that of the 8-bit value `v`.
pub open spec fn sign_extend(v: u8) -> u16 {
    if v < 0x80 {
        v as u16
    } else {
        (v as int + 0xFF00) as u16
    }
}

/// The 16-bit word with high byte `high` and low byte `low`.
pub open spec fn word_of(low: u8, high: u8) -> u16 {
    (high as int * 0x100 + low as int) as u16
}

/// The sum of two 16-bit values, reduced modulo 0x10000.
pub open spec fn wadd16(a: u16, b: int) -> u16
    recommends
        0 <= b < 0x1_0000,
{
    if a + b >= 0x1_0000 {
        (a + b - 0x1_0000) as u16
    } else {
        (a + b) as u16
    }
}

/// The sum of two 8-bit values, reduced modulo 0x100.
pub open spec fn wadd8(a: u8, b: int) -> u8
    recommends
        0 <= b < 0x100,
{
    if a + b >= 0x100 {
        (a + b - 0x100) as u8
    } else {
        (a + b) as u8
    }
}

/// The difference of two 8-bit values, reduced modulo 0x100.
pub open spec fn wsub8(a: u8, b: int) -> u8
    recommends
        0 <= b < 0x100,
{
    if a - b < 0 {
        (a - b + 0x100) as u8
    } else {
        (a - b) as u8
    }
}

/// The difference of two 16-bit values, reduced modulo 0x10000.
pub open spec fn wsub16(a: u16, b: int) -> u16
    recommends
        0 <= b < 0x1_0000,
{
    if a - b < 0 {
        (a - b + 0x1_0000) as u16
    } else {
        (a - b) as u16
    }
}

/// Whether every bit of `mask` is set in `bits`.
pub open spec fn has_flag(bits: u8, mask: u8) -> bool {
    bits & mask == mask
}

/// `bits` with the bits of `mask` set (`on`) or cleared (not `on`).
pub open spec fn put_flag(bits: u8, mask: u8, on: bool) -> u8 {
    if on {
        bits | mask
    } else {
        bits & !mask
    }
}

pub fn flag_is_set(bits: u8, mask: u8) -> (r: bool)
    ensures
        r == has_flag(bits, mask),
{
    bits & mask == mask
}

pub fn assign_flag(bits: u8, mask: u8, on: bool) -> (r: u8)
    ensures
        r == put_flag(bits, mask, on),
{
    if on {
        bits | mask
    } else {
        bits & !mask
    }
}

/// Putting a flag makes it read back as put, and leaves every flag that shares
/// no bit with it as it was.
pub proof fn lemma_put_flag(bits: u8, mask: u8, on: bool, other: u8)
    ensures
        has_flag(put_flag(bits, mask, true), mask),
        mask != 0 ==> !has_flag(put_flag(bits, mask, false), mask),
        other & mask == 0 ==> has_flag(put_flag(bits, mask, on), other) == has_flag(bits, other),
{
    assert((bits | mask) & mask == mask) by (bit_vector);
    assert(mask != 0 ==> (bits & !mask) & mask != mask) by (bit_vector);
    assert(other & mask == 0 ==> ((bits | mask) & other == bits & other) && ((bits & !mask) & other
        == bits & other)) by (bit_vector);
}

/// A selected bit is 0 or 1, and is 1 exactly when the value has that bit set.
pub proof fn lemma_bit8_range(v: u8, i: u8)
    by (bit_vector)
    requires
        i < 8,
    ensures
        bit8(v, i) == 0 || bit8(v, i) == 1,
        bit8(v, i) == 1 <==> v & (1u8 << i) != 0,
{
}

/// A selected bit is 0 or 1, and is 1 exactly when the value has that bit set.
pub proof fn lemma_bit16_range(v: u16, i: u8)
    by (bit_vector)
    requires
        i < 16,
    ensures
        bit16(v, i) == 0 || bit16(v, i) == 1,
        bit16(v, i) == 1 <==> v & (1u16 << i) != 0,
{
}

pub fn make_word(low: u8, high: u8) -> (r: u16)
    ensures
        r == word_of(low, high),
{
    (high as u16) * 0x100 + (low as u16)
}

pub fn low_byte(w: u16) -> (r: u8)
    ensures
        r == w % 0x100,
{
    (w % 0x100) as u8
}

pub fn high_byte(w: u16) -> (r: u8)
    ensures
        r == w / 0x100,
{
    (w / 0x100) as u8
}

pub fn extend_sign(v: u8) -> (r: u16)
    ensures
        r == sign_extend(v),
        signed16(r) == signed8(v),
{
    if v < 0x80 {
        v as u16
    } else {
        v as u16 + 0xFF00
    }
}

/// An 8-bit value with wrapping arithmetic.
#[derive(Clone, Copy, Debug, PartialEq, Eq, Structural)]
pub struct Byte(pub u8);

/// A 16-bit value with wrapping arithmetic.
#[derive(Clone, Copy, Debug, PartialEq, Eq, Structural)]
pub struct Word(pub u16);

impl Byte {
    pub fn new(v: u8) -> (r: Self)
        ensures
            r.0 == v,
    {
        Byte(v)
    }

    pub fn u8(self) -> (r: u8)
        ensures
            r == self.0,
    {
        self.0
    }

    /// Zero-extends to 16 bits.
    pub fn u16(self) -> (r: u16)
        ensures
            r == self.0,
    {
        self.0 as u16
    }

    /// Zero-extends to a `Word`.
    pub fn word(self) -> (r: Word)
        ensures
            r.0 == self.0,
    {
        Word(self.0 as u16)
    }

    /// The signed view.
    pub fn i8(self) -> (r: i8)
        ensures
            r == signed8(self.0),
    {
        if self.0 < 0x80 {
            self.0 as i8
        } else {
            (self.0 as i16 - 0x100) as i8
        }
    }

    pub fn nth(self, i: u8) -> (r: u8)
        requires
            i < 8,
        ensures
            r == bit8(self.0, i),
            r == 0 || r == 1,
    {
        proof {
            lemma_bit8_range(self.0, i);
        }
        (self.0 >> i) & 1
    }

    pub fn wrapping_add(self, rhs: Byte) -> (r: Byte)
        ensures
            r.0 == wadd8(self.0, rhs.0 as int),
    {
        Byte(self.0.wrapping_add(rhs.0))
    }

    pub fn wrapping_sub(self, rhs: Byte) -> (r: Byte)
        ensures
            r.0 == wsub8(self.0, rhs.0 as int),
    {
        Byte(self.0.wrapping_sub(rhs.0))
    }

    pub fn shl(self, n: u8) -> (r: Byte)
        requires
            n < 8,
        ensures
            r.0 == self.0 << n,
    {
        Byte(self.0 << n)
    }

    pub fn shr(self, n: u8) -> (r: Byte)
        requires
            n < 8,
        ensures
            r.0 == self.0 >> n,
    {
        Byte(self.0 >> n)
    }
}

impl Word {
    pub fn new(v: u16) -> (r: Self)
        ensures
            r.0 == v,
    {
        Word(v)
    }

    pub fn u16(self) -> (r: u16)
        ensures
            r == self.0,
    {
        self.0
    }

    /// Narrows to the low 8 bits.
    pub fn byte(self) -> (r: Byte)
        ensures
            r.0 == self.0 % 0x100,
    {
        Byte((self.0 % 0x100) as u8)
    }

    /// The signed view.
    pub fn i16(self) -> (r: i16)
        ensures
            r == signed16(self.0),
    {
        if self.0 < 0x8000 {
            self.0 as i16
        } else {
            (self.0 as i32 - 0x1_0000) as i16
        }
    }

    pub fn nth(self, i: u8) -> (r: u16)
        requires
            i < 16,
        ensures
            r == bit16(self.0, i),
            r == 0 || r == 1,
    {
        proof {
            lemma_bit16_range(self.0, i);
        }
        (self.0 >> i) & 1
    }

    pub fn wrapping_add(self, rhs: Word) -> (r: Word)
        ensures
            r.0 == wadd16(self.0, rhs.0 as int),
    {
        Word(self.0.wrapping_add(rhs.0))
    }

    pub fn wrapping_sub(self, rhs: Word) -> (r: Word)
        ensures
            r.0 == wsub16(self.0, rhs.0 as int),
    {
        Word(self.0.wrapping_sub(rhs.0))
    }

    pub fn shl(self, n: u8) -> (r: Word)
        requires
            n < 16,
        ensures
            r.0 == self.0 << n,
    {
        Word(self.0 << n)
    }

    pub fn shr(self, n: u8) -> (r: Word)
        requires
            n < 16,
        ensures
            r.0 == self.0 >> n,
    {
        Word(self.0 >> n)
    }
}

} // verus!
