//! The display side of the raster sink: a full-color image with one pixel
//! per grid cell, ready to be handed to whatever puts it on a screen.

use vstd::prelude::*;
use crate::generation::Generation;
use crate::rows::{filled, rectangular};

verus! {

/// An RGBA color, eight bits per channel.
#[derive(Clone, Copy, Debug, PartialEq, Eq, Structural)]
pub struct Color {
    pub r: u8,
    pub g: u8,
    pub b: u8,
    pub a: u8,
}

impl Color {
    /// Opaque black.
    pub open spec fn spec_black() -> Color {
        Color { r: 0, g: 0, b: 0, a: 255 }
    }

    /// Opaque white.
    pub open spec fn spec_white() -> Color {
        Color { r: 255, g: 255, b: 255, a: 255 }
    }

    /// Opaque black.
    #[verifier::when_used_as_spec(spec_black)]
    pub fn black() -> (color: Color)
        ensures
            color == Color::spec_black(),
    {
        Color { r: 0, g: 0, b: 0, a: 255 }
    }

    /// Opaque white.
    #[verifier::when_used_as_spec(spec_white)]
    pub fn white() -> (color: Color)
        ensures
            color == Color::spec_white(),
    {
        Color { r: 255, g: 255, b: 255, a: 255 }
    }
}

/// The mathematical content of a framebuffer: a color for every pixel of a
/// `width` by `height` rectangle, and the color that stands for "nothing
/// here".
#[verifier::ext_equal]
pub struct Canvas {
    pub width: nat,
    pub height: nat,
    pub pixels: Map<(int, int), Color>,
    pub background: Color,
}

impl Canvas {
    /// Whether `(x, y)` addresses a pixel of the canvas.
    pub open spec fn in_bounds(self, x: int, y: int) -> bool {
        0 <= x < self.width && 0 <= y < self.height
    }

    /// Exactly the pixels inside the rectangle have a color.
    pub open spec fn well_formed(self) -> bool {
        forall|c: (int, int)| #[trigger] self.pixels.dom().contains(c) <==> self.in_bounds(c.0, c.1)
    }

    /// The canvas of the given size with every pixel, and the background,
    /// black.
    pub open spec fn blank(width: nat, height: nat) -> Canvas {
        Canvas {
            width,
            height,
            pixels: Map::new(
                |c: (int, int)| 0 <= c.0 < width && 0 <= c.1 < height,
                |c: (int, int)| Color::black(),
            ),
            background: Color::black(),
        }
    }

    /// This canvas with the pixel at `(x, y)` set to `color`. Setting a pixel
    /// outside the canvas changes nothing.
    pub open spec fn with_pixel(self, x: int, y: int, color: Color) -> Canvas {
        if self.in_bounds(x, y) {
            Canvas {
                width: self.width,
                height: self.height,
                pixels: self.pixels.insert((x, y), color),
                background: self.background,
            }
        } else {
            self
        }
    }

    /// The color a cell of the generation `g` is shown in: white if it is
    /// alive, the background color if it is dead.
    pub open spec fn cell_color(self, g: Generation, x: int, y: int) -> Color {
        if g.is_alive(x, y) {
            Color::white()
        } else {
            self.background
        }
    }

    /// This canvas with the generation `g` painted onto it, cell `(x, y)` onto
    /// pixel `(x, y)`. Pixels beyond the grid keep their color; cells beyond
    /// the canvas are not shown.
    pub open spec fn painted(self, g: Generation) -> Canvas {
        Canvas {
            width: self.width,
            height: self.height,
            pixels: Map::new(
                |c: (int, int)| self.in_bounds(c.0, c.1),
                |c: (int, int)|
                    if g.in_bounds(c.0, c.1) {
                        self.cell_color(g, c.0, c.1)
                    } else {
                        self.pixels[c]
                    },
            ),
            background: self.background,
        }
    }

    /// This canvas with another background color. No pixel changes.
    pub open spec fn with_background(self, color: Color) -> Canvas {
        Canvas { width: self.width, height: self.height, pixels: self.pixels, background: color }
    }
}

/// A full-color image of fixed size, one pixel per grid cell.
pub struct Framebuffer {
    width: u32,
    height: u32,
    color_buffer: Vec<Vec<Color>>,
    background_color: Color,
}

impl View for Framebuffer {
    type V = Canvas;

    closed spec fn view(&self) -> Canvas {
        Canvas {
            width: self.width as nat,
            height: self.height as nat,
            pixels: Map::new(
                |c: (int, int)| 0 <= c.0 < self.width && 0 <= c.1 < self.height,
                |c: (int, int)| self.color_buffer[c.1][c.0],
            ),
            background: self.background_color,
        }
    }
}

impl Framebuffer {
    /// The pixel rows have the image's dimensions.
    pub closed spec fn well_formed(&self) -> bool {
        rectangular(self.color_buffer@, self.width as nat, self.height as nat)
    }

    /// The view of any framebuffer gives a color to exactly the pixels inside
    /// its rectangle.
    pub proof fn lemma_view_well_formed(&self)
        ensures
            self@.well_formed(),
    {
    }

    /// Creates an image of the given size, all black, with a black background.
    pub fn new(width: u32, height: u32) -> (framebuffer: Self)
        ensures
            framebuffer.well_formed(),
            framebuffer@ == Canvas::blank(width as nat, height as nat),
    {
        let color_buffer = filled(width, height, Color::black());
        let framebuffer = Framebuffer { width, height, color_buffer, background_color: Color::black() };
        assert(framebuffer@.pixels =~= Canvas::blank(width as nat, height as nat).pixels);
        framebuffer
    }

    /// The number of pixel columns.
    pub fn width(&self) -> (width: u32)
        ensures
            width == self@.width,
    {
        self.width
    }

    /// The number of pixel rows.
    pub fn height(&self) -> (height: u32)
        ensures
            height == self@.height,
    {
        self.height
    }

    /// The color that stands for a dead cell.
    pub fn background_color(&self) -> (color: Color)
        ensures
            color == self@.background,
    {
        self.background_color
    }

    /// The color of the pixel at `(x, y)`, if there is such a pixel.
    pub fn pixel(&self, x: u32, y: u32) -> (color: Option<Color>)
        requires
            self.well_formed(),
        ensures
            color == if self@.in_bounds(x as int, y as int) {
                Some(self@.pixels[(x as int, y as int)])
            } else {
                None
            },
    {
        if x < self.width && y < self.height {
            Some(self.color_buffer[y as usize][x as usize])
        } else {
            None
        }
    }

    /// Sets the pixel at `(x, y)`. A coordinate outside the image is ignored.
    pub fn set_pixel_with_color(&mut self, x: u32, y: u32, color: Color)
        requires
            old(self).well_formed(),
        ensures
            final(self).well_formed(),
            final(self)@ == old(self)@.with_pixel(x as int, y as int, color),
    {
        if x < self.width && y < self.height {
            self.color_buffer[y as usize][x as usize] = color;
            assert(self@.pixels =~= old(self)@.with_pixel(x as int, y as int, color).pixels);
        }
    }

    /// Chooses the color that dead cells are painted with from now on.
    pub fn set_background_color(&mut self, color: Color)
        ensures
            final(self).well_formed() == old(self).well_formed(),
            final(self)@ == old(self)@.with_background(color),
    {
        self.background_color = color;
    }
}

/// A uniform magnification, as the fraction `numerator / denominator`.
#[derive(Clone, Copy, Debug, PartialEq, Eq, Structural)]
pub struct Scale {
    pub numerator: u32,
    pub denominator: u32,
}

/// The smaller of the two ratios `target_width / width` and
/// `target_height / height`, as numerator and denominator; the horizontal one
/// if they are equal.
pub open spec fn fitting_scale(target_width: nat, target_height: nat, width: nat, height: nat) -> (
    nat,
    nat,
) {
    if target_width * height <= target_height * width {
        (target_width, width)
    } else {
        (target_height, height)
    }
}

/// The magnification at which an image of `width` by `height` pixels is
/// shown in a target of `target_width` by `target_height`: the same in both
/// directions, and as large as the target allows. An image without pixels
/// has no such magnification, and the fraction returned for it means nothing.
pub fn fit_scale(target_width: u32, target_height: u32, width: u32, height: u32) -> (scale: Scale)
    ensures
        (scale.numerator as nat, scale.denominator as nat) == fitting_scale(
            target_width as nat,
            target_height as nat,
            width as nat,
            height as nat,
        ),
{
    assert(target_width as u64 * height as u64 <= 0xffff_ffff * 0xffff_ffff) by (nonlinear_arith)
        requires
            target_width <= 0xffff_ffff,
            height <= 0xffff_ffff,
    ;
    assert(target_height as u64 * width as u64 <= 0xffff_ffff * 0xffff_ffff) by (nonlinear_arith)
        requires
            target_height <= 0xffff_ffff,
            width <= 0xffff_ffff,
    ;
    if target_width as u64 * height as u64 <= target_height as u64 * width as u64 {
        Scale { numerator: target_width, denominator: width }
    } else {
        Scale { numerator: target_height, denominator: height }
    }
}

/// An image magnified by its fitting scale fits the target in both
/// directions and fills it in one of them.
pub proof fn lemma_fitting_scale_fits(target_width: nat, target_height: nat, width: nat, height: nat)
    requires
        width > 0,
        height > 0,
    ensures
        ({
            let (numerator, denominator) = fitting_scale(target_width, target_height, width, height);
            &&& denominator > 0
            &&& numerator * width <= target_width * denominator
            &&& numerator * height <= target_height * denominator
            &&& (numerator * width == target_width * denominator || numerator * height
                == target_height * denominator)
        }),
{
    assert(target_height * width == width * target_height) by (nonlinear_arith);
    assert(target_width * height == height * target_width) by (nonlinear_arith);
}

} // verus!
