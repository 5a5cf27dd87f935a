//! The capture side of the raster sink: indexed pixels, one byte per cell,
//! for a two-color palette, and the GIF frame made of them.

use vstd::prelude::*;
use vstd::arithmetic::div_mod::lemma_fundamental_div_mod_converse;
use crate::framebuffer::Color;
use crate::game_of_life::GameOfLife;
use crate::generation::Generation;

verus! {

/// The palette index of a dead cell.
pub const BACKGROUND_INDEX: u8 = 0;

/// The palette index of a live cell.
pub const FOREGROUND_INDEX: u8 = 1;

/// The palette index that a cell of `g` is captured as.
pub open spec fn cell_index(g: Generation, x: int, y: int) -> u8 {
    if g.is_alive(x, y) {
        FOREGROUND_INDEX
    } else {
        BACKGROUND_INDEX
    }
}

/// The indexed raster of `g` over a `width` by `height` rectangle: one byte
/// per cell, row after row. Cells of the rectangle beyond the grid are dead.
pub open spec fn indexed_pixels(g: Generation, width: nat, height: nat) -> Seq<u8> {
    Seq::new(width * height, |i: int| cell_index(g, i % (width as int), i / (width as int)))
}

/// The raster is row-major: it has one entry per cell of the rectangle, and
/// the entry of cell `(x, y)` stands at `y * width + x`.
pub proof fn lemma_indexed_pixels_row_major(g: Generation, width: nat, height: nat, x: nat, y: nat)
    requires
        x < width,
        y < height,
    ensures
        indexed_pixels(g, width, height).len() == width * height,
        y * width + x < width * height,
        indexed_pixels(g, width, height)[(y * width + x) as int] == cell_index(
            g,
            x as int,
            y as int,
        ),
{
    assert(y * width + x < width * height) by (nonlinear_arith)
        requires
            x < width,
            y < height,
    ;
    lemma_fundamental_div_mod_converse(
        (y * width + x) as int,
        width as int,
        y as int,
        x as int,
    );
}

/// The palette that the indices refer to, as RGB triples: black for the
/// background, white for the foreground.
pub open spec fn palette_bytes() -> Seq<u8> {
    seq![
        Color::black().r,
        Color::black().g,
        Color::black().b,
        Color::white().r,
        Color::white().g,
        Color::white().b,
    ]
}

/// The global palette of a capture, as the encoder wants it.
pub fn capture_palette() -> (palette: Vec<u8>)
    ensures
        palette@ == palette_bytes(),
{
    let background = Color::black();
    let foreground = Color::white();
    vec![background.r, background.g, background.b, foreground.r, foreground.g, foreground.b]
}

/// Scans the grid into an indexed raster of the given size.
pub fn create_gif_frame(game: &GameOfLife, width: u16, height: u16) -> (frame_data: Vec<u8>)
    requires
        game.well_formed(),
    ensures
        frame_data@ == indexed_pixels(game@, width as nat, height as nat),
{
    assert(width as nat * height as nat <= 0xffff * 0xffff) by (nonlinear_arith)
        requires
            width <= 0xffff,
            height <= 0xffff,
    ;
    let mut frame_data: Vec<u8> = Vec::with_capacity(width as usize * height as usize);
    let mut y: u16 = 0;
    while y < height
        invariant
            game.well_formed(),
            y <= height,
            frame_data.len() == y as nat * width as nat,
            forall|i: int|
                0 <= i < frame_data.len() ==> #[trigger] frame_data[i] == cell_index(
                    game@,
                    i % (width as int),
                    i / (width as int),
                ),
        decreases height - y,
    {
        let mut x: u16 = 0;
        while x < width
            invariant
                game.well_formed(),
                y < height,
                x <= width,
                frame_data.len() == y as nat * width as nat + x as nat,
                forall|i: int|
                    0 <= i < frame_data.len() ==> #[trigger] frame_data[i] == cell_index(
                        game@,
                        i % (width as int),
                        i / (width as int),
                    ),
            decreases width - x,
        {
            let pixel = if game.is_alive(x as u32, y as u32) {
                FOREGROUND_INDEX
            } else {
                BACKGROUND_INDEX
            };
            proof {
                let i = y as int * width as int + x as int;
                lemma_fundamental_div_mod_converse(i, width as int, y as int, x as int);
            }
            frame_data.push(pixel);
            x += 1;
        }
        assert((y + 1) as nat * width as nat == y as nat * width as nat + width as nat)
            by (nonlinear_arith);
        y += 1;
    }
    assert(height as nat * width as nat == width as nat * height as nat) by (nonlinear_arith);
    frame_data
}

/// A frame of a GIF image. The library hands such frames on and never looks
/// inside one.
#[verifier::external_type_specification]
#[verifier::external_body]
pub struct ExFrame<'a>(gif::Frame<'a>);

/// The frame that `gif::Frame::from_indexed_pixels` makes of a size, a raster
/// of palette indices and an optional transparent index.
pub uninterp spec fn indexed_frame(
    width: u16,
    height: u16,
    pixels: Seq<u8>,
    transparent: Option<u8>,
) -> gif::Frame<'static>;

/// Calls `gif::Frame::from_indexed_pixels`, which copies the indices into a
/// new frame of the given size that refers to the global palette.
///
/// The call panics unless there is exactly one index per pixel, so that is
/// asked of the caller. The frame made depends on the arguments alone.
#[verifier::external_body]
fn frame_from_indexed_pixels(
    width: u16,
    height: u16,
    pixels: &Vec<u8>,
    transparent: Option<u8>,
) -> (frame: gif::Frame<'static>)
    requires
        pixels@.len() == width as nat * height as nat,
    ensures
        frame == indexed_frame(width, height, pixels@, transparent),
{
    gif::Frame::from_indexed_pixels(width, height, pixels.as_slice(), transparent)
}

/// Captures the grid as a GIF frame of the given size in the global palette,
/// with no transparent color.
pub fn capture_frame(game: &GameOfLife, width: u16, height: u16) -> (frame: gif::Frame<'static>)
    requires
        game.well_formed(),
    ensures
        frame == indexed_frame(
            width,
            height,
            indexed_pixels(game@, width as nat, height as nat),
            None,
        ),
{
    let frame_data = create_gif_frame(game, width, height);
    frame_from_indexed_pixels(width, height, &frame_data, None)
}

} // verus!
