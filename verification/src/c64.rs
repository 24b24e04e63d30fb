// Copyright 2024 Mikael Lund aka Wombat
//
// Licensed under the Apache license, version 2.0 (the "license");
// you may not use this file except in compliance with the license.
// You may obtain a copy of the license at
//
//     http://www.apache.org/licenses/license-2.0
//
// Unless required by applicable law or agreed to in writing, software
// distributed under the license is distributed on an "as is" basis,
// without warranties or conditions of any kind, either express or implied.
// See the license for the specific language governing permissions and
// limitations under the license.

//! Commodore 64 display driver and colour palette.

pub mod color;
pub mod display;
pub mod geometry;
pub mod palette;
pub mod raw;

pub use color::{Gray8, Rgb555, Rgb888};
pub use display::{CellWrite, PetsciiDisplay, Pixel, Planes};
pub use geometry::{Point, Size};
pub use palette::VicIIPalette;
pub use raw::RawU4;
