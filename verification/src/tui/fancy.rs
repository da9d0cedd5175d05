//! The cover view: how a picture's pixels become terminal cells. One cell
//! shows two pixels, one above the other.

use vstd::prelude::*;

verus! {

/// A colour: red, green and blue.
#[derive(Clone, Copy, Debug, PartialEq, Eq, Structural)]
pub struct Rgb {
    pub r: u8,
    pub g: u8,
    pub b: u8,
}

/// One terminal cell of a picture: the colour of its upper and of its lower
/// half.
#[derive(Clone, Copy, Debug, PartialEq, Eq, Structural)]
pub struct HalfBlock {
    pub top: Rgb,
    pub bottom: Rgb,
}

/// The bounds to scale a cover to for an area of `width` by `height` cells:
/// one column and one row are kept free, and a cell holds two pixels each
/// way. An area without columns or rows has room for none.
pub fn cover_bounds(width: u16, height: u16) -> (bounds: Option<(u32, u32)>)
    ensures
        bounds == if width == 0 || height == 0 {
            None::<(u32, u32)>
        } else {
            Some((((width - 1) * 2) as u32, ((height - 1) * 2) as u32))
        },
{
    if width == 0 || height == 0 {
        None
    } else {
        Some(((width as u32 - 1) * 2, (height as u32 - 1) * 2))
    }
}

/// The pixel numbered `index` of samples that come three to a pixel; black
/// where the samples do not reach that far.
pub open spec fn pixel(samples: Seq<u8>, index: int) -> Rgb {
    if 0 <= index && 3 * index + 3 <= samples.len() {
        Rgb { r: samples[3 * index], g: samples[3 * index + 1], b: samples[3 * index + 2] }
    } else {
        Rgb { r: 0, g: 0, b: 0 }
    }
}

/// The cell in row `row` and column `column` of a picture `width` pixels
/// wide: the pixel there in the picture's row `2 * row` over the one below
/// it.
pub open spec fn half_block(samples: Seq<u8>, width: int, row: int, column: int) -> HalfBlock {
    HalfBlock {
        top: pixel(samples, 2 * row * width + column),
        bottom: pixel(samples, 2 * row * width + column + width),
    }
}

/// The number of rows of cells that a picture of `height` rows of pixels
/// takes.
pub open spec fn cell_rows(height: int) -> int {
    (height + 1) / 2
}

fn pixel_at(samples: &[u8], index: u128) -> (colour: Rgb)
    ensures
        colour == pixel(samples@, index as int),
{
    let whole: usize = samples.len() / 3;
    if index < whole as u128 {
        let at: usize = (index as usize) * 3;
        Rgb { r: samples[at], g: samples[at + 1], b: samples[at + 2] }
    } else {
        Rgb { r: 0, g: 0, b: 0 }
    }
}

/// Turns the samples of a picture, `width` by `height` pixels and three
/// samples to a pixel, into rows of cells.
pub fn half_blocks(samples: &[u8], width: u32, height: u32) -> (lines: Vec<Vec<HalfBlock>>)
    ensures
        lines@.len() == cell_rows(height as int),
        forall|row: int|
            0 <= row < lines@.len() ==> (#[trigger] lines@[row])@.len() == width,
        forall|row: int, column: int|
            0 <= row < lines@.len() && 0 <= column < width ==> (#[trigger] lines@[row]@[column])
                == half_block(samples@, width as int, row, column),
{
    let rows: u32 = height / 2 + height % 2;
    let mut lines: Vec<Vec<HalfBlock>> = Vec::new();
    let mut r: u32 = 0;
    while r < rows
        invariant
            r <= rows,
            rows == cell_rows(height as int),
            lines@.len() == r,
            forall|row: int| 0 <= row < lines@.len() ==> (#[trigger] lines@[row])@.len() == width,
            forall|row: int, column: int|
                0 <= row < lines@.len() && 0 <= column < width ==> (
                #[trigger] lines@[row]@[column]) == half_block(
                    samples@,
                    width as int,
                    row,
                    column,
                ),
        decreases rows - r,
    {
        let mut line: Vec<HalfBlock> = Vec::new();
        let mut x: u32 = 0;
        while x < width
            invariant
                x <= width,
                line@.len() == x,
                forall|column: int|
                    0 <= column < x ==> (#[trigger] line@[column]) == half_block(
                        samples@,
                        width as int,
                        r as int,
                        column,
                    ),
            decreases width - x,
        {
            assert(0 <= (2 * r) * width <= 0x2_0000_0000 * 0xffff_ffff) by (nonlinear_arith)
                requires
                    0 <= r <= 0xffff_ffff,
                    0 <= width <= 0xffff_ffff,
            ;
            assert((2 * r) * width == 2 * r * width);
            let above: u128 = (2 * (r as u128)) * (width as u128) + (x as u128);
            let below: u128 = above + (width as u128);
            line.push(HalfBlock { top: pixel_at(samples, above), bottom: pixel_at(samples, below) });
            x += 1;
        }
        lines.push(line);
        r += 1;
    }
    lines
}

} // verus!
