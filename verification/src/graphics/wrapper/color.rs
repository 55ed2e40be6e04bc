use vstd::prelude::*;
use crate::graphics::command::{ClearMask, ColorBits, Command, CommandView};
use crate::graphics::context::Context;

verus! {

/// The bits of the number 1 in the IEEE 754 binary32 format.
pub const ONE_BITS: u32 = 0x3F80_0000;

/// The bits of the number -0 in the IEEE 754 binary32 format.
pub const NEGATIVE_ZERO_BITS: u32 = 0x8000_0000;

/// Whether `bits` are the bits, in the IEEE 754 binary32 format, of a number
/// from 0 to 1.
///
/// With the sign bit clear, the numbers of that format lie in the order of
/// their bits, and the bits above those of infinity are no numbers. So the
/// numbers from 0 to 1 are the bits from those of 0, which are 0, to those
/// of 1; and besides them -0, which is equal to 0.
pub open spec fn unit_interval(bits: u32) -> bool {
    bits <= ONE_BITS || bits == NEGATIVE_ZERO_BITS
}

/// Whether `bits` are the bits of a number from 0 to 1.
pub fn is_unit_interval(bits: u32) -> (unit: bool)
    ensures
        unit == unit_interval(bits),
{
    bits <= ONE_BITS || bits == NEGATIVE_ZERO_BITS
}

/// A clear of the framebuffer: the color to fill the color plane with, and
/// the planes to wipe.
#[derive(Clone, Copy, Debug, PartialEq, Eq)]
pub struct Color {
    red: u32,
    green: u32,
    blue: u32,
    alpha: u32,
    mask: ClearMask,
}

impl Color {
    #[verifier::type_invariant]
    spec fn channels_in_range(&self) -> bool {
        &&& unit_interval(self.red)
        &&& unit_interval(self.green)
        &&& unit_interval(self.blue)
        &&& unit_interval(self.alpha)
    }

    /// The four channels.
    pub closed spec fn channels_spec(&self) -> ColorBits {
        ColorBits { red: self.red, green: self.green, blue: self.blue, alpha: self.alpha }
    }

    /// The four channels, each the bits of a number from 0 to 1.
    #[verifier::when_used_as_spec(channels_spec)]
    pub fn channels(&self) -> (channels: ColorBits)
        ensures
            channels == self.channels_spec(),
            unit_interval(channels.red),
            unit_interval(channels.green),
            unit_interval(channels.blue),
            unit_interval(channels.alpha),
    {
        proof {
            use_type_invariant(self);
        }
        ColorBits { red: self.red, green: self.green, blue: self.blue, alpha: self.alpha }
    }

    /// The planes to wipe.
    pub closed spec fn mask_spec(&self) -> ClearMask {
        self.mask
    }

    /// The planes to wipe.
    #[verifier::when_used_as_spec(mask_spec)]
    pub fn mask(&self) -> (mask: ClearMask)
        ensures
            mask == self.mask_spec(),
    {
        self.mask
    }

    /// A clear with the given channels and planes. Each channel is a number
    /// from 0 to 1 in the IEEE 754 binary32 format, given as its 32 bits.
    pub fn new(red: u32, green: u32, blue: u32, alpha: u32, mask: ClearMask) -> (color: Color)
        requires
            unit_interval(red),
            unit_interval(green),
            unit_interval(blue),
            unit_interval(alpha),
        ensures
            color.channels() == (ColorBits { red, green, blue, alpha }),
            color.mask() == mask,
    {
        Color { red, green, blue, alpha, mask }
    }

    /// The same clear with other channels: the planes stay, and nothing is
    /// recorded until the next [`clear`](Color::clear).
    pub fn with_channels(&self, red: u32, green: u32, blue: u32, alpha: u32) -> (color: Color)
        requires
            unit_interval(red),
            unit_interval(green),
            unit_interval(blue),
            unit_interval(alpha),
        ensures
            color.channels() == (ColorBits { red, green, blue, alpha }),
            color.mask() == self.mask(),
    {
        Color { red, green, blue, alpha, mask: self.mask }
    }

    /// Sets the clear color to the channels, then wipes the planes. The
    /// value stays as it is, so a clear can be repeated.
    pub fn clear(&self, gpu: &mut Context)
        ensures
            final(gpu).model() == old(gpu).model().apply(
                CommandView::ClearColor { color: self.channels() },
            ),
            final(gpu).model().clear_color == self.channels(),
            final(gpu).pending() == old(gpu).pending().push(
                CommandView::ClearColor { color: self.channels() },
            ).push(CommandView::Clear { mask: self.mask() }),
    {
        gpu.record(Command::ClearColor { color: self.channels() });
        gpu.record(Command::Clear { mask: self.mask });
    }
}

} // verus!
