// Copyright 2024 Mikael Lund aka Wombat
//
// Licensed under the Apache license, version 2.0 (the "license");
// you may not use this file except in compliance with the license.
// You may obtain a copy of the license at
//
//     http://www.apache.org/licenses/license-2.0
//
// Unless required by applicable law or agreed to in writing, software
// distributed under the license is distributed on an "as is" basis,
// without warranties or conditions of any kind, either express or implied.
// See the license for the specific language governing permissions and
// limitations under the license.

//! The sixteen colours of the VIC-II chip and the conversions into and out of
//! them.

use crate::c64::color::{Gray8, Rgb555, Rgb888};
use crate::c64::raw::RawU4;
use vstd::prelude::*;
use vstd::std_specs::convert::FromSpec;

verus! {

/// Colour palette of the VIC-II chip found in e.g. the Commodore 64 and 128.
///
/// The entries are declared in the order of their colour-register values.
#[derive(Clone, Copy, Debug, PartialEq, Eq, PartialOrd, Ord, Hash, Structural)]
pub enum VicIIPalette {
    /// Black, register value 0.
    Black,
    /// White, register value 1.
    White,
    /// Red, register value 2.
    Red,
    /// Cyan, register value 3.
    Cyan,
    /// Purple, register value 4.
    Purple,
    /// Green, register value 5.
    Green,
    /// Blue, register value 6.
    Blue,
    /// Yellow, register value 7.
    Yellow,
    /// Orange, register value 8.
    Orange,
    /// Brown, register value 9.
    Brown,
    /// Light red, register value 10.
    LightRed,
    /// Dark gray or "gray 1", register value 11.
    DarkGray,
    /// Gray or "gray 2", register value 12.
    Gray,
    /// Light green, register value 13.
    LightGreen,
    /// Light blue, register value 14.
    LightBlue,
    /// Light gray or "gray 3", register value 15.
    LightGray,
}

impl VicIIPalette {
    /// The ordinal of an entry: its colour-register value, which is also its
    /// packed 4-bit representation.
    pub open spec fn spec_ordinal(self) -> u8 {
        match self {
            VicIIPalette::Black => 0,
            VicIIPalette::White => 1,
            VicIIPalette::Red => 2,
            VicIIPalette::Cyan => 3,
            VicIIPalette::Purple => 4,
            VicIIPalette::Green => 5,
            VicIIPalette::Blue => 6,
            VicIIPalette::Yellow => 7,
            VicIIPalette::Orange => 8,
            VicIIPalette::Brown => 9,
            VicIIPalette::LightRed => 10,
            VicIIPalette::DarkGray => 11,
            VicIIPalette::Gray => 12,
            VicIIPalette::LightGreen => 13,
            VicIIPalette::LightBlue => 14,
            VicIIPalette::LightGray => 15,
        }
    }

    /// The entry with the given ordinal. Of a value above 15 only the four
    /// least significant bits count.
    pub open spec fn from_ordinal(ordinal: u8) -> VicIIPalette {
        let nibble = ordinal % 16;
        if nibble == 0 {
            VicIIPalette::Black
        } else if nibble == 1 {
            VicIIPalette::White
        } else if nibble == 2 {
            VicIIPalette::Red
        } else if nibble == 3 {
            VicIIPalette::Cyan
        } else if nibble == 4 {
            VicIIPalette::Purple
        } else if nibble == 5 {
            VicIIPalette::Green
        } else if nibble == 6 {
            VicIIPalette::Blue
        } else if nibble == 7 {
            VicIIPalette::Yellow
        } else if nibble == 8 {
            VicIIPalette::Orange
        } else if nibble == 9 {
            VicIIPalette::Brown
        } else if nibble == 10 {
            VicIIPalette::LightRed
        } else if nibble == 11 {
            VicIIPalette::DarkGray
        } else if nibble == 12 {
            VicIIPalette::Gray
        } else if nibble == 13 {
            VicIIPalette::LightGreen
        } else if nibble == 14 {
            VicIIPalette::LightBlue
        } else {
            VicIIPalette::LightGray
        }
    }

    /// The entry that a luma value is quantized to: one of five, by the band
    /// of 32 values that the luma falls in, everything from 128 up being
    /// white.
    pub open spec fn luma_band(luma: u8) -> VicIIPalette {
        if luma <= 31 {
            VicIIPalette::Black
        } else if luma <= 63 {
            VicIIPalette::DarkGray
        } else if luma <= 95 {
            VicIIPalette::Gray
        } else if luma <= 127 {
            VicIIPalette::LightGray
        } else {
            VicIIPalette::White
        }
    }

    /// Returns the ordinal of this entry, which is the value that the
    /// hardware's colour registers take for it.
    #[verifier::when_used_as_spec(spec_ordinal)]
    pub fn ordinal(self) -> (ordinal: u8)
        ensures
            ordinal == self.spec_ordinal(),
            ordinal <= 15,
    {
        match self {
            VicIIPalette::Black => 0,
            VicIIPalette::White => 1,
            VicIIPalette::Red => 2,
            VicIIPalette::Cyan => 3,
            VicIIPalette::Purple => 4,
            VicIIPalette::Green => 5,
            VicIIPalette::Blue => 6,
            VicIIPalette::Yellow => 7,
            VicIIPalette::Orange => 8,
            VicIIPalette::Brown => 9,
            VicIIPalette::LightRed => 10,
            VicIIPalette::DarkGray => 11,
            VicIIPalette::Gray => 12,
            VicIIPalette::LightGreen => 13,
            VicIIPalette::LightBlue => 14,
            VicIIPalette::LightGray => 15,
        }
    }
}

/// Quantizes a grayscale colour into one of five entries.
impl From<Gray8> for VicIIPalette {
    fn from(value: Gray8) -> (entry: Self) {
        let luma: u8 = value.luma();
        if luma <= 31 {
            VicIIPalette::Black
        } else if luma <= 63 {
            VicIIPalette::DarkGray
        } else if luma <= 95 {
            VicIIPalette::Gray
        } else if luma <= 127 {
            VicIIPalette::LightGray
        } else {
            VicIIPalette::White
        }
    }
}

impl vstd::std_specs::convert::FromSpecImpl<Gray8> for VicIIPalette {
    open spec fn obeys_from_spec() -> bool {
        true
    }

    open spec fn from_spec(value: Gray8) -> Self {
        VicIIPalette::luma_band(value.luma)
    }
}

/// Converts a 15-bit colour by way of its luma, so the result is always one
/// of the grayscale entries.
impl From<Rgb555> for VicIIPalette {
    fn from(value: Rgb555) -> (entry: Self) {
        VicIIPalette::from(Gray8::from(value))
    }
}

impl vstd::std_specs::convert::FromSpecImpl<Rgb555> for VicIIPalette {
    open spec fn obeys_from_spec() -> bool {
        true
    }

    open spec fn from_spec(value: Rgb555) -> Self {
        VicIIPalette::luma_band(value.luma())
    }
}

/// Converts a 24-bit colour by way of its luma, so the result is always one
/// of the grayscale entries.
impl From<Rgb888> for VicIIPalette {
    fn from(value: Rgb888) -> (entry: Self) {
        VicIIPalette::from(Gray8::from(value))
    }
}

impl vstd::std_specs::convert::FromSpecImpl<Rgb888> for VicIIPalette {
    open spec fn obeys_from_spec() -> bool {
        true
    }

    open spec fn from_spec(value: Rgb888) -> Self {
        VicIIPalette::luma_band(value.luma())
    }
}

/// The canonical 24-bit colour of each entry.
impl From<VicIIPalette> for Rgb888 {
    fn from(color: VicIIPalette) -> (rgb: Self) {
        match color {
            VicIIPalette::Black => Rgb888::new(0, 0, 0),
            VicIIPalette::White => Rgb888::new(255, 255, 255),
            VicIIPalette::Red => Rgb888::new(136, 0, 0),
            VicIIPalette::Cyan => Rgb888::new(170, 255, 238),
            VicIIPalette::Purple => Rgb888::new(204, 68, 204),
            VicIIPalette::Green => Rgb888::new(0, 204, 85),
            VicIIPalette::Blue => Rgb888::new(0, 0, 170),
            VicIIPalette::Yellow => Rgb888::new(238, 238, 119),
            VicIIPalette::Orange => Rgb888::new(221, 136, 85),
            VicIIPalette::Brown => Rgb888::new(102, 68, 0),
            VicIIPalette::LightRed => Rgb888::new(255, 119, 119),
            VicIIPalette::DarkGray => Rgb888::new(51, 51, 51),
            VicIIPalette::Gray => Rgb888::new(119, 119, 119),
            VicIIPalette::LightGreen => Rgb888::new(170, 255, 102),
            VicIIPalette::LightBlue => Rgb888::new(0, 136, 255),
            VicIIPalette::LightGray => Rgb888::new(187, 187, 187),
        }
    }
}

impl vstd::std_specs::convert::FromSpecImpl<VicIIPalette> for Rgb888 {
    open spec fn obeys_from_spec() -> bool {
        true
    }

    open spec fn from_spec(color: VicIIPalette) -> Self {
        match color {
            VicIIPalette::Black => Rgb888 { r: 0, g: 0, b: 0 },
            VicIIPalette::White => Rgb888 { r: 255, g: 255, b: 255 },
            VicIIPalette::Red => Rgb888 { r: 136, g: 0, b: 0 },
            VicIIPalette::Cyan => Rgb888 { r: 170, g: 255, b: 238 },
            VicIIPalette::Purple => Rgb888 { r: 204, g: 68, b: 204 },
            VicIIPalette::Green => Rgb888 { r: 0, g: 204, b: 85 },
            VicIIPalette::Blue => Rgb888 { r: 0, g: 0, b: 170 },
            VicIIPalette::Yellow => Rgb888 { r: 238, g: 238, b: 119 },
            VicIIPalette::Orange => Rgb888 { r: 221, g: 136, b: 85 },
            VicIIPalette::Brown => Rgb888 { r: 102, g: 68, b: 0 },
            VicIIPalette::LightRed => Rgb888 { r: 255, g: 119, b: 119 },
            VicIIPalette::DarkGray => Rgb888 { r: 51, g: 51, b: 51 },
            VicIIPalette::Gray => Rgb888 { r: 119, g: 119, b: 119 },
            VicIIPalette::LightGreen => Rgb888 { r: 170, g: 255, b: 102 },
            VicIIPalette::LightBlue => Rgb888 { r: 0, g: 136, b: 255 },
            VicIIPalette::LightGray => Rgb888 { r: 187, g: 187, b: 187 },
        }
    }
}

/// Unpacks a nibble: the entry whose ordinal it is.
impl From<RawU4> for VicIIPalette {
    fn from(value: RawU4) -> (entry: Self) {
        let color_index: u8 = value.into_inner();
        match color_index {
            0 => VicIIPalette::Black,
            1 => VicIIPalette::White,
            2 => VicIIPalette::Red,
            3 => VicIIPalette::Cyan,
            4 => VicIIPalette::Purple,
            5 => VicIIPalette::Green,
            6 => VicIIPalette::Blue,
            7 => VicIIPalette::Yellow,
            8 => VicIIPalette::Orange,
            9 => VicIIPalette::Brown,
            10 => VicIIPalette::LightRed,
            11 => VicIIPalette::DarkGray,
            12 => VicIIPalette::Gray,
            13 => VicIIPalette::LightGreen,
            14 => VicIIPalette::LightBlue,
            _ => VicIIPalette::LightGray,
        }
    }
}

impl vstd::std_specs::convert::FromSpecImpl<RawU4> for VicIIPalette {
    open spec fn obeys_from_spec() -> bool {
        true
    }

    open spec fn from_spec(value: RawU4) -> Self {
        VicIIPalette::from_ordinal(value@)
    }
}

/// Packs an entry into a nibble: its ordinal.
impl From<VicIIPalette> for RawU4 {
    fn from(value: VicIIPalette) -> (raw: Self)
        ensures
            raw@ == value.spec_ordinal(),
    {
        RawU4::new(value.ordinal())
    }
}

impl vstd::std_specs::convert::FromSpecImpl<VicIIPalette> for RawU4 {
    open spec fn obeys_from_spec() -> bool {
        true
    }

    open spec fn from_spec(value: VicIIPalette) -> Self {
        RawU4::spec_new(value.spec_ordinal())
    }
}

/// The ordinals are the numbers 0 to 15, one for each entry.
pub proof fn lemma_ordinal_bijective(entry: VicIIPalette, ordinal: u8)
    ensures
        entry.spec_ordinal() <= 15,
        VicIIPalette::from_ordinal(entry.spec_ordinal()) == entry,
        ordinal <= 15 ==> VicIIPalette::from_ordinal(ordinal).spec_ordinal() == ordinal,
{
}

/// As the luma grows by one, the entry it is quantized to changes at four
/// places and nowhere else: from 31 to 32, from 63 to 64, from 95 to 96 and
/// from 127 to 128.
pub proof fn lemma_luma_band_steps(luma: u8)
    requires
        luma < 255,
    ensures
        VicIIPalette::from_spec(Gray8 { luma }) != VicIIPalette::from_spec(
            Gray8 { luma: (luma + 1) as u8 },
        ) <==> luma == 31 || luma == 63 || luma == 95 || luma == 127,
{
}

/// A grayscale colour is quantized to an entry whose canonical colour is
/// gray, and a lighter colour never to a darker entry than a darker colour.
pub proof fn lemma_luma_band_lightens(darker: Gray8, lighter: Gray8)
    requires
        darker.luma <= lighter.luma,
    ensures
        Rgb888::from_spec(VicIIPalette::from_spec(darker)).r == Rgb888::from_spec(
            VicIIPalette::from_spec(darker),
        ).g,
        Rgb888::from_spec(VicIIPalette::from_spec(darker)).g == Rgb888::from_spec(
            VicIIPalette::from_spec(darker),
        ).b,
        Rgb888::from_spec(VicIIPalette::from_spec(darker)).r <= Rgb888::from_spec(
            VicIIPalette::from_spec(lighter),
        ).r,
{
}

/// A 15-bit colour is converted as its luma is. What it has beyond its luma
/// has no part in the result: another colour of the same luma is converted
/// to the same entry.
pub proof fn lemma_rgb555_degrades_to_gray(color: Rgb555, other: Rgb555)
    ensures
        VicIIPalette::from_spec(color) == VicIIPalette::from_spec(Gray8::from_spec(color)),
        VicIIPalette::from_spec(color) == VicIIPalette::from_spec(Gray8 { luma: color.luma() }),
        color.luma() == other.luma() ==> VicIIPalette::from_spec(color) == VicIIPalette::from_spec(
            other,
        ),
{
}

/// A 24-bit colour is converted as its luma is. What it has beyond its luma
/// has no part in the result: another colour of the same luma is converted
/// to the same entry.
pub proof fn lemma_rgb888_degrades_to_gray(color: Rgb888, other: Rgb888)
    ensures
        VicIIPalette::from_spec(color) == VicIIPalette::from_spec(Gray8::from_spec(color)),
        VicIIPalette::from_spec(color) == VicIIPalette::from_spec(Gray8 { luma: color.luma() }),
        color.luma() == other.luma() ==> VicIIPalette::from_spec(color) == VicIIPalette::from_spec(
            other,
        ),
{
}

/// Packing an entry and unpacking the nibble gives the entry back.
pub proof fn lemma_pack_unpack(entry: VicIIPalette)
    ensures
        RawU4::from_spec(entry)@ == entry.spec_ordinal(),
        RawU4::from_spec(entry).wf(),
        VicIIPalette::from_spec(RawU4::from_spec(entry)) == entry,
{
    RawU4::lemma_spec_new(entry.spec_ordinal());
}

/// Unpacking a nibble and packing the entry gives the nibble back.
pub proof fn lemma_unpack_pack(raw: RawU4)
    requires
        raw.wf(),
    ensures
        VicIIPalette::from_spec(raw).spec_ordinal() == raw@,
        RawU4::from_spec(VicIIPalette::from_spec(raw)) == raw,
{
    RawU4::lemma_spec_new(raw@);
}

/// No two entries have the same canonical 24-bit colour.
pub proof fn lemma_canonical_rgb_unique(a: VicIIPalette, b: VicIIPalette)
    requires
        Rgb888::from_spec(a) == Rgb888::from_spec(b),
    ensures
        a == b,
{
}

} // verus!
