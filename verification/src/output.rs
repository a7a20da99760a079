//! The colours that the terminal is taken to support.

use vstd::prelude::*;

verus! {

/// Two independent abilities of the terminal: 256 colours, and 24-bit
/// colour. The renderer reads them packed into one number, 256 colours as
/// bit 0 and 24-bit colour as bit 1.
#[derive(Clone, Copy, Debug, PartialEq, Eq, Structural)]
pub struct ColorSupport {
    pub term_256color: bool,
    pub term_24bit: bool,
}

impl ColorSupport {
    /// The number that packs the two abilities.
    pub open spec fn packed(self) -> int {
        (if self.term_256color { 1int } else { 0int }) + (if self.term_24bit { 2int } else { 0int })
    }

    /// Neither ability.
    pub fn none() -> (r: ColorSupport)
        ensures
            !r.term_256color,
            !r.term_24bit,
    {
        ColorSupport { term_256color: false, term_24bit: false }
    }

    /// 256 colours alone.
    pub fn term_256color() -> (r: ColorSupport)
        ensures
            r.term_256color,
            !r.term_24bit,
    {
        ColorSupport { term_256color: true, term_24bit: false }
    }

    /// 24-bit colour alone.
    pub fn term_24bit() -> (r: ColorSupport)
        ensures
            !r.term_256color,
            r.term_24bit,
    {
        ColorSupport { term_256color: false, term_24bit: true }
    }

    /// What `self` and `other` support between them.
    pub fn union(self, other: ColorSupport) -> (r: ColorSupport)
        ensures
            r.term_256color == (self.term_256color || other.term_256color),
            r.term_24bit == (self.term_24bit || other.term_24bit),
    {
        ColorSupport {
            term_256color: self.term_256color || other.term_256color,
            term_24bit: self.term_24bit || other.term_24bit,
        }
    }

    /// Whether `self` supports all that `other` does.
    pub fn contains(self, other: ColorSupport) -> (r: bool)
        ensures
            r == ((other.term_256color ==> self.term_256color) && (other.term_24bit
                ==> self.term_24bit)),
    {
        (!other.term_256color || self.term_256color) && (!other.term_24bit || self.term_24bit)
    }

    /// The two abilities as one number.
    pub fn bits(self) -> (r: u8)
        ensures
            r == self.packed(),
    {
        let low: u8 = if self.term_256color {
            1
        } else {
            0
        };
        let high: u8 = if self.term_24bit {
            2
        } else {
            0
        };
        low + high
    }

    /// The abilities that a packed number holds; `None` where a bit beyond
    /// the two is set.
    pub fn from_bits(bits: u8) -> (r: Option<ColorSupport>)
        ensures
            match r {
                Some(c) => c.packed() == bits,
                None => bits >= 4,
            },
    {
        if bits >= 4 {
            None
        } else {
            Some(ColorSupport { term_256color: bits == 1 || bits == 3, term_24bit: bits >= 2 })
        }
    }
}

} // verus!
