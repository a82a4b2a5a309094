//! A color reduced to three 8-bit channels, as an image file stores it.

use vstd::prelude::*;
use crate::decimal::{decimal, push_decimal};

verus! {

/// Red, green and blue intensities, each in `0..=255`.
#[derive(Clone, Copy, Debug, PartialEq, Eq, Structural)]
pub struct Channels {
    pub red: u8,
    pub green: u8,
    pub blue: u8,
}

/// The three channel values of `c` in decimal, separated by single spaces.
pub open spec fn channels_text(c: Channels) -> Seq<char> {
    decimal(c.red as nat) + seq![' '] + decimal(c.green as nat) + seq![' '] + decimal(c.blue as nat)
}

impl Channels {
    pub fn new(red: u8, green: u8, blue: u8) -> (r: Self)
        ensures
            r == (Channels { red, green, blue }),
    {
        Channels { red, green, blue }
    }

    /// Appends the text of the three channels to `s`.
    pub fn push_text(&self, s: &mut String)
        ensures
            final(s)@ == old(s)@ + channels_text(*self),
    {
        proof {
            reveal_strlit(" ");
        }
        push_decimal(s, self.red as usize);
        s.append(" ");
        push_decimal(s, self.green as usize);
        s.append(" ");
        push_decimal(s, self.blue as usize);
    }

    /// The channels as text, such as `"128 128 128"`.
    pub fn to_text(&self) -> (r: String)
        ensures
            r@ == channels_text(*self),
    {
        let mut s = String::new();
        self.push_text(&mut s);
        assert(s@ =~= channels_text(*self));
        s
    }
}

} // verus!
