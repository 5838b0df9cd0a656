//! Colors of scene bodies.
use vstd::prelude::*;

verus! {

/// An sRGB color, each channel a binary32 bit pattern.
#[derive(Clone, Copy, Debug, PartialEq, Eq, Structural)]
pub struct Rgb {
    pub red: u32,
    pub green: u32,
    pub blue: u32,
}

impl Rgb {
    /// The color's channels in the order red, green, blue.
    pub open spec fn channels_spec(&self) -> [u32; 3] {
        [self.red, self.green, self.blue]
    }

    pub fn new(red: u32, green: u32, blue: u32) -> (r: Rgb)
        ensures
            r == (Rgb { red, green, blue }),
    {
        Rgb { red, green, blue }
    }

    /// The channels as a packed vector of three.
    pub fn channels(&self) -> (r: [u32; 3])
        ensures
            r == self.channels_spec(),
    {
        [self.red, self.green, self.blue]
    }
}

} // verus!
