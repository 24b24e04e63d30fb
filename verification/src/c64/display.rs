// Copyright 2024 Mikael Lund aka Wombat
//
// Licensed under the Apache license, version 2.0 (the "license");
// you may not use this file except in compliance with the license.
// You may obtain a copy of the license at
//
//     http://www.apache.org/licenses/license-2.0
//
// Unless required by applicable law or agreed to in writing, software
// distributed under the license is distributed on an "as is" basis,
// without warranties or conditions of any kind, either express or implied.
// See the license for the specific language governing permissions and
// limitations under the license.

//! The PETSCII text screen as a surface of 40 by 25 coloured cells.
//!
//! The screen is two planes of one byte per cell, both row by row: video
//! memory, which holds the symbol shown in a cell, and colour memory, which
//! holds the cell's colour. A pixel is drawn by storing a filled square in
//! the first and the colour's register value in the second.

use crate::c64::geometry::{Point, Size};
use crate::c64::palette::VicIIPalette;
use core::convert::Infallible;
use vstd::prelude::*;

verus! {

/// Number of columns of the text screen.
pub const COLS: i32 = 40;

/// Number of rows of the text screen.
pub const ROWS: i32 = 25;

/// Number of cells of the text screen, and of bytes in each plane.
pub const CELLS: usize = 1000;

/// Address at which the hardware maps video memory.
pub const VIDEO_RAM: usize = 0x0400;

/// Address at which the hardware maps colour memory.
pub const COLOR_RAM: usize = 0xd800;

/// PETSCII symbol that mimics a pixel: a filled square.
pub const PIXEL_SYMBOL: u8 = 0xa0;

/// A pixel: a point and the colour to give it.
#[derive(Clone, Copy, Debug, PartialEq, Eq, Structural)]
pub struct Pixel(pub Point, pub VicIIPalette);

/// The pair of stores that draws one pixel: `symbol` goes to video memory
/// and `color` to colour memory, both at offset `index`.
#[derive(Clone, Copy, Debug, PartialEq, Eq, Structural)]
pub struct CellWrite {
    /// Offset of the cell in either plane.
    pub index: isize,
    /// Byte for video memory.
    pub symbol: u8,
    /// Byte for colour memory.
    pub color: u8,
}

/// Whether a point lies on the screen.
pub open spec fn on_screen(coord: Point) -> bool {
    0 <= coord.x < COLS && 0 <= coord.y < ROWS
}

/// Offset of a point's cell in either plane, rows being 40 bytes apart.
pub open spec fn cell_index(coord: Point) -> int {
    coord.x + coord.y * COLS
}

/// The stores that drawing a pixel comes to: none for a point off the
/// screen, else a filled square and the colour's ordinal at the offset of
/// the point's cell.
pub open spec fn planned_write(coord: Point, color: VicIIPalette) -> Option<CellWrite> {
    if on_screen(coord) {
        Some(
            CellWrite {
                index: cell_index(coord) as isize,
                symbol: PIXEL_SYMBOL,
                color: color.spec_ordinal(),
            },
        )
    } else {
        None
    }
}

/// What the two planes hold.
#[verifier::ext_equal]
pub struct Planes {
    /// Video memory: the symbol of each cell.
    pub symbols: Seq<u8>,
    /// Colour memory: the colour-register value of each cell.
    pub colors: Seq<u8>,
}

impl Planes {
    /// Both planes have one byte for each cell.
    pub open spec fn wf(self) -> bool {
        self.symbols.len() == CELLS && self.colors.len() == CELLS
    }

    /// The planes after the two bytes of a write were stored.
    pub open spec fn commit(self, write: CellWrite) -> Planes {
        Planes {
            symbols: self.symbols.update(write.index as int, write.symbol),
            colors: self.colors.update(write.index as int, write.color),
        }
    }

    /// The planes after a filled square of the given colour was stored at
    /// the given offset.
    pub open spec fn store(self, index: int, color: VicIIPalette) -> Planes {
        Planes {
            symbols: self.symbols.update(index, PIXEL_SYMBOL),
            colors: self.colors.update(index, color.spec_ordinal()),
        }
    }

    /// The planes after one pixel was drawn: a point on the screen has its
    /// cell stored to, any other point changes nothing.
    pub open spec fn plot(self, coord: Point, color: VicIIPalette) -> Planes {
        if on_screen(coord) {
            self.store(cell_index(coord), color)
        } else {
            self
        }
    }

    /// The planes with a filled square of the given colour in every cell.
    pub open spec fn filled(color: VicIIPalette) -> Planes {
        Planes {
            symbols: Seq::new(CELLS as nat, |i: int| PIXEL_SYMBOL),
            colors: Seq::new(CELLS as nat, |i: int| color.spec_ordinal()),
        }
    }

    /// The planes after a sequence of pixels was drawn, first to last.
    pub open spec fn plot_all(self, pixels: Seq<Pixel>) -> Planes
        decreases pixels.len(),
    {
        if pixels.len() == 0 {
            self
        } else {
            self.plot_all(pixels.drop_last()).plot(pixels.last().0, pixels.last().1)
        }
    }
}

/// Color PETSCII display driver.
///
/// Simple display driver for the C64's PETSCII text mode. A "pixel" is a
/// coloured, filled square character on the 40 x 25 text display.
///
/// The display owns an image of the two planes. What is drawn on it is
/// stored there at once; `plan_pixel` gives the same stores to a caller that
/// owns the mapped memory itself.
pub struct PetsciiDisplay {
    video_ram: [u8; CELLS],
    color_ram: [u8; CELLS],
}

impl View for PetsciiDisplay {
    type V = Planes;

    closed spec fn view(&self) -> Planes {
        Planes { symbols: self.video_ram@, colors: self.color_ram@ }
    }
}

impl PetsciiDisplay {
    /// Creates a display with every byte of both planes zero.
    pub fn new() -> (display: Self)
        ensures
            display@.wf(),
            forall|i: int| 0 <= i < CELLS ==> display@.symbols[i] == 0 && display@.colors[i] == 0,
    {
        PetsciiDisplay { video_ram: [0u8; CELLS], color_ram: [0u8; CELLS] }
    }

    /// The planes of a display have one byte for each cell.
    pub proof fn lemma_planes_wf(self)
        ensures
            self@.wf(),
    {
    }

    /// Returns video memory: the symbol of each cell, row by row.
    pub fn video_ram(&self) -> (plane: &[u8; CELLS])
        ensures
            plane@ == self@.symbols,
    {
        &self.video_ram
    }

    /// Returns colour memory: the colour-register value of each cell, row by
    /// row.
    pub fn color_ram(&self) -> (plane: &[u8; CELLS])
        ensures
            plane@ == self@.colors,
    {
        &self.color_ram
    }

    /// Returns the size of the display: 40 columns by 25 rows, whatever was
    /// drawn.
    pub fn size(&self) -> (size: Size)
        ensures
            size == (Size { width: 40, height: 25 }),
            size.width == COLS,
            size.height == ROWS,
    {
        Size::new(40, 25)
    }

    /// Decides what drawing a pixel stores, without storing it: nothing for
    /// a point off the screen, else a filled square and the colour's
    /// register value at the offset of the point's cell.
    pub fn plan_pixel(coord: &Point, color: VicIIPalette) -> (plan: Option<CellWrite>)
        ensures
            plan == planned_write(*coord, color),
            plan is Some <==> on_screen(*coord),
    {
        if 0 <= coord.x && coord.x < COLS {
            if 0 <= coord.y && coord.y < ROWS {
                let index: i32 = coord.x + coord.y * COLS;
                return Some(
                    CellWrite { index: index as isize, symbol: PIXEL_SYMBOL, color: color.ordinal() },
                );
            }
        }
        None
    }

    /// Set pixel without checking if the position is within bounds.
    ///
    /// The index is the offset of the cell and has to lie within a plane.
    pub fn set_pixel_unchecked(&mut self, index: isize, color: VicIIPalette)
        requires
            0 <= index < CELLS,
        ensures
            final(self)@ == old(self)@.store(index as int, color),
    {
        let offset: usize = index as usize;
        self.color_ram[offset] = color.ordinal();
        self.video_ram[offset] = PIXEL_SYMBOL;
    }

    /// Set pixel with bounds checking: a point off the screen is dropped.
    pub fn set_pixel(&mut self, coord: &Point, color: VicIIPalette)
        ensures
            final(self)@ == old(self)@.plot(*coord, color),
    {
        match Self::plan_pixel(coord, color) {
            Some(write) => self.set_pixel_unchecked(write.index, color),
            None => {},
        }
    }

    /// Draws the pixels in their order, each as `set_pixel` draws it. This
    /// cannot fail.
    pub fn draw_iter(&mut self, pixels: &[Pixel]) -> (result: Result<(), Infallible>)
        ensures
            result is Ok,
            final(self)@ == old(self)@.plot_all(pixels@),
    {
        let ghost initial = self@;
        let mut i: usize = 0;
        while i < pixels.len()
            invariant
                i <= pixels.len(),
                self@ == initial.plot_all(pixels@.take(i as int)),
            decreases pixels.len() - i,
        {
            let pixel = pixels[i];
            self.set_pixel(&pixel.0, pixel.1);
            assert(pixels@.take(i + 1).drop_last() == pixels@.take(i as int));
            i += 1;
        }
        assert(pixels@.take(i as int) == pixels@);
        Ok(())
    }

    /// Fills every cell of the display with the given colour. This cannot
    /// fail.
    pub fn clear(&mut self, color: VicIIPalette) -> (result: Result<(), Infallible>)
        ensures
            result is Ok,
            final(self)@ == Planes::filled(color),
    {
        let mut y: i32 = 0;
        while y < ROWS
            invariant
                0 <= y <= ROWS,
                forall|i: int|
                    0 <= i < y * COLS ==> self@.symbols[i] == PIXEL_SYMBOL && self@.colors[i]
                        == color.spec_ordinal(),
            decreases ROWS - y,
        {
            let mut x: i32 = 0;
            while x < COLS
                invariant
                    0 <= y < ROWS,
                    0 <= x <= COLS,
                    forall|i: int|
                        0 <= i < y * COLS + x ==> self@.symbols[i] == PIXEL_SYMBOL
                            && self@.colors[i] == color.spec_ordinal(),
                decreases COLS - x,
            {
                self.set_pixel(&Point::new(x, y), color);
                x += 1;
            }
            y += 1;
        }
        assert(self@ =~= Planes::filled(color));
        Ok(())
    }
}

/// Index of the last pixel of a sequence that is drawn into the cell at the
/// given offset, or -1 where none is.
pub open spec fn last_hit(pixels: Seq<Pixel>, index: int) -> int
    decreases pixels.len(),
{
    if pixels.len() == 0 {
        -1
    } else if on_screen(pixels.last().0) && cell_index(pixels.last().0) == index {
        pixels.len() - 1
    } else {
        last_hit(pixels.drop_last(), index)
    }
}

/// Every point on the screen has an offset within the planes, and no two of
/// them share one.
pub proof fn lemma_cell_index_unique(a: Point, b: Point)
    requires
        on_screen(a),
        on_screen(b),
    ensures
        0 <= cell_index(a) < CELLS,
        cell_index(a) == cell_index(b) ==> a == b,
{
}

/// Every offset within the planes is that of a point on the screen: the
/// point in column `index % 40` of row `index / 40`.
pub proof fn lemma_cell_index_onto(index: int)
    requires
        0 <= index < CELLS,
    ensures
        on_screen(Point { x: (index % 40) as i32, y: (index / 40) as i32 }),
        cell_index(Point { x: (index % 40) as i32, y: (index / 40) as i32 }) == index,
{
}

/// Drawing a pixel on the screen stores the filled square and the colour's
/// ordinal at the offset of its cell, both of them, and leaves every other
/// byte of both planes as it was.
pub proof fn lemma_plot_on_screen(planes: Planes, coord: Point, color: VicIIPalette)
    requires
        planes.wf(),
        on_screen(coord),
    ensures
        planes.plot(coord, color).wf(),
        planes.plot(coord, color).symbols[cell_index(coord)] == PIXEL_SYMBOL,
        planes.plot(coord, color).colors[cell_index(coord)] == color.spec_ordinal(),
        forall|i: int|
            0 <= i < CELLS && i != cell_index(coord) ==> planes.plot(coord, color).symbols[i]
                == planes.symbols[i] && planes.plot(coord, color).colors[i] == planes.colors[i],
{
}

/// To draw a pixel is to commit the stores planned for it: a caller that
/// owns the mapped memory and performs each planned write there has in it
/// what a display holds after the same pixels.
pub proof fn lemma_plot_commits_plan(planes: Planes, coord: Point, color: VicIIPalette)
    ensures
        planned_write(coord, color) matches Some(write) ==> 0 <= write.index < CELLS && write.index
            == cell_index(coord) && planes.plot(coord, color) == planes.commit(write),
        planned_write(coord, color) is None ==> planes.plot(coord, color) == planes,
{
}

/// Drawing a pixel off the screen, be it to the right, below, or at a
/// negative coordinate, changes neither plane.
pub proof fn lemma_plot_off_screen(planes: Planes, coord: Point, color: VicIIPalette)
    requires
        coord.x < 0 || coord.x >= COLS || coord.y < 0 || coord.y >= ROWS,
    ensures
        planes.plot(coord, color) == planes,
{
}

/// The last hit of a cell is a pixel on the screen whose cell it is, and no
/// pixel after it is drawn into that cell; where there is no hit, no pixel of
/// the sequence is drawn into it.
pub proof fn lemma_last_hit(pixels: Seq<Pixel>, index: int)
    ensures
        -1 <= last_hit(pixels, index) < pixels.len(),
        last_hit(pixels, index) >= 0 ==> on_screen(pixels[last_hit(pixels, index)].0) && cell_index(
            pixels[last_hit(pixels, index)].0,
        ) == index,
        forall|j: int|
            last_hit(pixels, index) < j < pixels.len() ==> !(on_screen(#[trigger] pixels[j].0)
                && cell_index(pixels[j].0) == index),
    decreases pixels.len(),
{
    if pixels.len() > 0 {
        lemma_last_hit(pixels.drop_last(), index);
        if !(on_screen(pixels.last().0) && cell_index(pixels.last().0) == index) {
            assert forall|j: int| last_hit(pixels, index) < j < pixels.len() implies !(on_screen(
                #[trigger] pixels[j].0,
            ) && cell_index(pixels[j].0) == index) by {
                if j < pixels.len() - 1 {
                    assert(pixels[j] == pixels.drop_last()[j]);
                }
            }
        }
    }
}

/// Last write wins, and the planes go together: after a sequence of pixels
/// was drawn, a cell that was hit holds the filled square and the ordinal of
/// the last pixel that hit it, and a cell that was not hit holds in both
/// planes what it held before.
pub proof fn lemma_plot_all_cell(planes: Planes, pixels: Seq<Pixel>, index: int)
    requires
        planes.wf(),
        0 <= index < CELLS,
    ensures
        planes.plot_all(pixels).wf(),
        last_hit(pixels, index) >= 0 ==> planes.plot_all(pixels).symbols[index] == PIXEL_SYMBOL
            && planes.plot_all(pixels).colors[index] == pixels[last_hit(
            pixels,
            index,
        )].1.spec_ordinal(),
        last_hit(pixels, index) < 0 ==> planes.plot_all(pixels).symbols[index]
            == planes.symbols[index] && planes.plot_all(pixels).colors[index]
            == planes.colors[index],
    decreases pixels.len(),
{
    if pixels.len() > 0 {
        let before = planes.plot_all(pixels.drop_last());
        lemma_plot_all_cell(planes, pixels.drop_last(), index);
        lemma_last_hit(pixels.drop_last(), index);
        if on_screen(pixels.last().0) {
            lemma_plot_on_screen(before, pixels.last().0, pixels.last().1);
        }
    }
}

/// Colour memory holds ordinals: where every byte of it has its four most
/// significant bits zero, so it has after any sequence of pixels was drawn.
pub proof fn lemma_plot_all_keeps_nibbles(planes: Planes, pixels: Seq<Pixel>)
    requires
        planes.wf(),
        forall|i: int| 0 <= i < CELLS ==> planes.colors[i] <= 15,
    ensures
        forall|i: int| 0 <= i < CELLS ==> planes.plot_all(pixels).colors[i] <= 15,
{
    assert forall|i: int| 0 <= i < CELLS implies planes.plot_all(pixels).colors[i] <= 15 by {
        lemma_plot_all_cell(planes, pixels, i);
    }
}

/// Drawing is committed pixel by pixel: to draw one sequence and then
/// another is to draw the two joined.
pub proof fn lemma_plot_all_concat(planes: Planes, first: Seq<Pixel>, second: Seq<Pixel>)
    ensures
        planes.plot_all(first + second) == planes.plot_all(first).plot_all(second),
    decreases second.len(),
{
    if second.len() == 0 {
        assert(first + second == first);
    } else {
        lemma_plot_all_concat(planes, first, second.drop_last());
        assert((first + second).drop_last() == first + second.drop_last());
    }
}

} // verus!
