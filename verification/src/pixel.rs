//! A single RGB pixel.

use vstd::prelude::*;

verus! {

/// One pixel: three colour channels. A pixel is a plain value; editing a
/// canvas replaces whole pixels.
#[derive(Clone, Copy, Debug, PartialEq, Eq, Structural)]
pub struct Pixel {
    pub red: u8,
    pub green: u8,
    pub blue: u8,
}

impl Pixel {
    /// The colour with every channel `c` replaced by `255 - c`.
    pub open spec fn spec_inverted(self) -> Pixel {
        Pixel {
            red: (255 - self.red) as u8,
            green: (255 - self.green) as u8,
            blue: (255 - self.blue) as u8,
        }
    }

    /// The channel of this pixel at position `k` of its RGBA encoding:
    /// red, green, blue, then an alpha that is always 255.
    pub open spec fn rgba_channel(self, k: int) -> u8 {
        if k == 0 {
            self.red
        } else if k == 1 {
            self.green
        } else if k == 2 {
            self.blue
        } else {
            255u8
        }
    }

    /// A pixel from its three channels.
    pub fn new(red: u8, green: u8, blue: u8) -> (p: Pixel)
        ensures
            p == (Pixel { red, green, blue }),
    {
        Pixel { red, green, blue }
    }

    /// Black, the colour of a cleared canvas.
    pub fn black() -> (p: Pixel)
        ensures
            p == (Pixel { red: 0, green: 0, blue: 0 }),
    {
        Pixel { red: 0, green: 0, blue: 0 }
    }

    /// The colour-inverted pixel.
    #[verifier::when_used_as_spec(spec_inverted)]
    pub fn inverted(self) -> (p: Pixel)
        ensures
            p == self.spec_inverted(),
    {
        Pixel { red: 255u8 - self.red, green: 255u8 - self.green, blue: 255u8 - self.blue }
    }
}

/// Inverting a pixel twice gives the pixel back.
pub proof fn lemma_invert_involution(p: Pixel)
    ensures
        p.spec_inverted().spec_inverted() == p,
{
}

} // verus!
