//! Window geometry.
//!
//! The window system reports positions and sizes as IEEE 754 binary64
//! numbers. This crate stores them, compares them and hands them back, and
//! never computes with them, so each number is carried by its 64-bit
//! pattern: two values are equal exactly when their patterns are.

use vstd::prelude::*;

verus! {

/// One binary64 number, held by its bit pattern.
#[derive(Clone, Copy, Debug, PartialEq, Eq, Structural)]
pub struct Scalar {
    pub bits: u64,
}

impl Scalar {
    /// The eleven exponent bits of the pattern.
    pub open spec fn exponent(self) -> u64 {
        (self.bits >> 52) & 0x7ff
    }

    /// The fifty-two fraction bits of the pattern.
    pub open spec fn fraction(self) -> u64 {
        self.bits & 0xf_ffff_ffff_ffff
    }

    /// Whether the pattern is that of the whole number `n`, for `n` from 1
    /// to 2047: the sign bit is clear, the exponent `e` places the leading
    /// one so that `2^e <= n < 2^(e+1)`, and the fraction holds the rest
    /// of `n` below it.
    pub open spec fn is_whole(self, n: u64) -> bool {
        &&& 1 <= n < 2048
        &&& self.bits >> 63 == 0
        &&& 1023 <= self.exponent() <= 1033
        &&& (0x10_0000_0000_0000u64 | self.fraction()) == n << ((1075 - self.exponent()) as u64)
    }

    /// The number whose pattern is `bits`.
    pub fn from_bits(bits: u64) -> (s: Scalar)
        ensures
            s.bits == bits,
    {
        Scalar { bits }
    }

    /// The pattern of this number.
    pub fn to_bits(self) -> (bits: u64)
        ensures
            bits == self.bits,
    {
        self.bits
    }
}

/// The top-left corner of the window on the screen.
#[derive(Clone, Copy, Debug, PartialEq, Eq, Structural)]
pub struct Point {
    pub x: Scalar,
    pub y: Scalar,
}

impl Point {
    pub fn new(x: Scalar, y: Scalar) -> (p: Point)
        ensures
            p.x == x,
            p.y == y,
    {
        Point { x, y }
    }
}

/// The extent of the window.
#[derive(Clone, Copy, Debug, PartialEq, Eq, Structural)]
pub struct Size {
    pub width: Scalar,
    pub height: Scalar,
}

impl Size {
    pub fn new(width: Scalar, height: Scalar) -> (s: Size)
        ensures
            s.width == width,
            s.height == height,
    {
        Size { width, height }
    }
}

} // verus!
