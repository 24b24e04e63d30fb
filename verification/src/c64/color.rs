// Copyright 2024 Mikael Lund aka Wombat
//
// Licensed under the Apache license, version 2.0 (the "license");
// you may not use this file except in compliance with the license.
// You may obtain a copy of the license at
//
//     http://www.apache.org/licenses/license-2.0
//
// Unless required by applicable law or agreed to in writing, software
// distributed under the license is distributed on an "as is" basis,
// without warranties or conditions of any kind, either express or implied.
// See the license for the specific language governing permissions and
// limitations under the license.

//! The source colour models that the palette converts from and to.
//!
//! Each type holds its channels as plain integers. The luma of an RGB colour
//! is computed by `embedded-graphics-core`, so that a colour drawn through
//! this crate is desaturated exactly as that crate desaturates it.

use embedded_graphics_core::pixelcolor::GrayColor;
use vstd::prelude::*;

verus! {

/// Luma of a 24-bit colour after ITU-R BT.601, in 8-bit fixed point: the
/// weights 0.299, 0.587 and 0.114 scaled by 256, rounded to nearest.
pub open spec fn luma_bt601(r: u8, g: u8, b: u8) -> u8 {
    ((77 * r + 150 * g + 29 * b + 128) / 256) as u8
}

/// 8-bit grayscale colour.
#[derive(Clone, Copy, Debug, PartialEq, Eq, Structural)]
pub struct Gray8 {
    /// The luma channel.
    pub luma: u8,
}

impl Gray8 {
    /// Creates a grayscale colour with the given luma.
    pub fn new(luma: u8) -> (gray: Self)
        ensures
            gray == (Gray8 { luma }),
    {
        Gray8 { luma }
    }

    /// Returns the luma channel value.
    pub fn luma(&self) -> (luma: u8)
        ensures
            luma == self.luma,
    {
        self.luma
    }
}

/// 24-bit RGB colour, 8 bits per channel.
#[derive(Clone, Copy, Debug, PartialEq, Eq, Structural)]
pub struct Rgb888 {
    /// The red channel.
    pub r: u8,
    /// The green channel.
    pub g: u8,
    /// The blue channel.
    pub b: u8,
}

impl Rgb888 {
    /// The luma that this colour is desaturated to.
    pub open spec fn luma(self) -> u8 {
        luma_bt601(self.r, self.g, self.b)
    }

    /// Creates a 24-bit colour from its three channels.
    pub fn new(r: u8, g: u8, b: u8) -> (color: Self)
        ensures
            color == (Rgb888 { r, g, b }),
    {
        Rgb888 { r, g, b }
    }

    /// Returns the red channel value.
    pub fn r(&self) -> (r: u8)
        ensures
            r == self.r,
    {
        self.r
    }

    /// Returns the green channel value.
    pub fn g(&self) -> (g: u8)
        ensures
            g == self.g,
    {
        self.g
    }

    /// Returns the blue channel value.
    pub fn b(&self) -> (b: u8)
        ensures
            b == self.b,
    {
        self.b
    }
}

/// Desaturates a 24-bit colour with `<Gray8 as From<Rgb888>>::from` of
/// `embedded-graphics-core` and hands back the luma of the result.
///
/// Not verified. The contract rests on that crate's source: the conversion
/// computes `(77 r + 150 g + 29 b + 128) / 256` in 16-bit arithmetic, which
/// cannot overflow there and always fits a byte.
#[verifier::external_body]
fn gray8_from_rgb888(r: u8, g: u8, b: u8) -> (luma: u8)
    ensures
        luma == luma_bt601(r, g, b),
{
    let color = embedded_graphics_core::pixelcolor::Rgb888::new(r, g, b);
    embedded_graphics_core::pixelcolor::Gray8::from(color).luma()
}

impl From<Rgb888> for Gray8 {
    fn from(color: Rgb888) -> (gray: Self) {
        Gray8 { luma: gray8_from_rgb888(color.r, color.g, color.b) }
    }
}

impl vstd::std_specs::convert::FromSpecImpl<Rgb888> for Gray8 {
    open spec fn obeys_from_spec() -> bool {
        true
    }

    open spec fn from_spec(color: Rgb888) -> Self {
        Gray8 { luma: color.luma() }
    }
}

/// Widening of a 5-bit channel value to 8 bits in 24-bit fixed point: the
/// value times `(255 << 24) / 31`, plus one half, shifted back down.
pub open spec fn expand5(v: u8) -> u8 {
    ((v * 138_006_131 + 0x80_0000) / 0x100_0000) as u8
}

/// The fixed-point widening is the scaling by 255/31 rounded to nearest: it
/// sends 0 to 0 and 31 to 255, and never decreases.
pub proof fn lemma_expand5_rounds(v: u8)
    requires
        v <= 31,
    ensures
        138_006_131 == (255 * 0x100_0000) / 31,
        expand5(v) == (255 * v + 15) / 31,
        expand5(0) == 0,
        expand5(31) == 255,
        v < 31 ==> expand5(v) < expand5((v + 1) as u8),
{
}

/// 15-bit RGB colour, 5 bits per channel.
#[derive(Clone, Copy, Debug, PartialEq, Eq, Structural)]
pub struct Rgb555 {
    r: u8,
    g: u8,
    b: u8,
}

impl View for Rgb555 {
    type V = (u8, u8, u8);

    /// The red, green and blue channel, in this order.
    closed spec fn view(&self) -> (u8, u8, u8) {
        (self.r, self.g, self.b)
    }
}

impl Rgb555 {
    /// Every channel fits five bits.
    #[verifier::type_invariant]
    pub open spec fn wf(self) -> bool {
        self@.0 <= 31 && self@.1 <= 31 && self@.2 <= 31
    }

    /// The luma that this colour is desaturated to: that of the 24-bit
    /// colour it widens to.
    pub open spec fn luma(self) -> u8 {
        luma_bt601(expand5(self@.0), expand5(self@.1), expand5(self@.2))
    }

    /// Creates a 15-bit colour. Of each channel value only the five least
    /// significant bits are kept.
    pub fn new(r: u8, g: u8, b: u8) -> (color: Self)
        ensures
            color@ == ((r % 32) as u8, (g % 32) as u8, (b % 32) as u8),
            color.wf(),
    {
        assert(r & 0x1f == r % 32) by (bit_vector);
        assert(g & 0x1f == g % 32) by (bit_vector);
        assert(b & 0x1f == b % 32) by (bit_vector);
        Rgb555 { r: r & 0x1f, g: g & 0x1f, b: b & 0x1f }
    }

    /// Returns the red channel value.
    pub fn r(&self) -> (r: u8)
        ensures
            r == self@.0,
            r <= 31,
    {
        proof {
            use_type_invariant(self);
        }
        self.r
    }

    /// Returns the green channel value.
    pub fn g(&self) -> (g: u8)
        ensures
            g == self@.1,
            g <= 31,
    {
        proof {
            use_type_invariant(self);
        }
        self.g
    }

    /// Returns the blue channel value.
    pub fn b(&self) -> (b: u8)
        ensures
            b == self@.2,
            b <= 31,
    {
        proof {
            use_type_invariant(self);
        }
        self.b
    }
}

/// Desaturates a 15-bit colour with `<Gray8 as From<Rgb555>>::from` of
/// `embedded-graphics-core` and hands back the luma of the result.
///
/// Not verified. The contract rests on that crate's source: the conversion
/// widens each channel to 8 bits as `expand5` says, and then takes the luma
/// of the 24-bit colour as for `Rgb888`. The channels are asked to fit five
/// bits, so that the colour built here has them unchanged.
#[verifier::external_body]
fn gray8_from_rgb555(r: u8, g: u8, b: u8) -> (luma: u8)
    requires
        r <= 31,
        g <= 31,
        b <= 31,
    ensures
        luma == luma_bt601(expand5(r), expand5(g), expand5(b)),
{
    let color = embedded_graphics_core::pixelcolor::Rgb555::new(r, g, b);
    embedded_graphics_core::pixelcolor::Gray8::from(color).luma()
}

impl From<Rgb555> for Gray8 {
    fn from(color: Rgb555) -> (gray: Self) {
        Gray8 { luma: gray8_from_rgb555(color.r(), color.g(), color.b()) }
    }
}

impl vstd::std_specs::convert::FromSpecImpl<Rgb555> for Gray8 {
    open spec fn obeys_from_spec() -> bool {
        true
    }

    open spec fn from_spec(color: Rgb555) -> Self {
        Gray8 { luma: color.luma() }
    }
}

} // verus!
