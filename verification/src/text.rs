//! Text on the canvas.
//!
//! The glyphs come from the `embedded-graphics` crate. What it draws for a
//! string is taken as given, under the name [`glyph_coverage`]; how that is
//! laid over a frame is proved here.

use crate::framebuffer::{overlaid, FrameBuffer};
use embedded_graphics::framebuffer::Framebuffer;
use embedded_graphics::mono_font::ascii::{FONT_10X20, FONT_6X12};
use embedded_graphics::mono_font::MonoTextStyle;
use embedded_graphics::pixelcolor::raw::{LittleEndian, RawU1};
use embedded_graphics::pixelcolor::BinaryColor;
use embedded_graphics::prelude::Point;
use embedded_graphics::text::Text;
use embedded_graphics::Drawable;
use vstd::prelude::*;

verus! {

/// The longest text, in characters, that is handed to the rasterizer. It
/// keeps positions in signed 32-bit integers: a character moves the position
/// right by at most 10 and a line break moves it down by at most 20, so
/// that within this limit no position overflows.
pub const MAX_TEXT_CHARS: usize = 100_000_000;

/// The two glyph styles in use.
#[derive(Clone, Copy, Debug, PartialEq, Eq)]
pub enum Font {
    /// Glyphs of 10 by 20 pixels.
    Large,
    /// Glyphs of 6 by 12 pixels.
    Small,
}

/// Why a text could not be drawn.
#[derive(Clone, Copy, Debug, PartialEq, Eq)]
pub enum RenderFailure {
    /// The text has more than [`MAX_TEXT_CHARS`] characters.
    TextTooLong,
}

/// The pixels that `embedded-graphics` sets on an empty canvas of 128 by 40
/// when it draws `text` in `font` from the anchor `(x, y)`: 640 bytes, rows
/// from the top, in each byte the leftmost pixel in the most significant bit.
pub uninterp spec fn glyph_coverage(text: Seq<char>, font: Font, x: int, y: int) -> Seq<u8>;

/// Draws `text` with `embedded_graphics::text::Text::draw` on an empty
/// `embedded_graphics::framebuffer::Framebuffer` of 128 by 40 binary pixels
/// and hands out its bytes. The contract names that result and says that it
/// has the 640 bytes of such a buffer; which pixels are set is not stated.
#[verifier::external_body]
fn rasterize(text: &str, font: Font, x: u8, y: u8) -> (layer: Vec<u8>)
    requires
        text@.len() <= MAX_TEXT_CHARS,
    ensures
        layer@ == glyph_coverage(text@, font, x as int, y as int),
        layer@.len() == 640,
{
    let mut canvas: Framebuffer<BinaryColor, RawU1, LittleEndian, 128, 40, 640> =
        Framebuffer::new();
    let face = match font {
        Font::Large => &FONT_10X20,
        Font::Small => &FONT_6X12,
    };
    let style = MonoTextStyle::new(face, BinaryColor::On);
    let _ = Text::new(text, Point::new(x as i32, y as i32), style).draw(&mut canvas);
    canvas.data().to_vec()
}

/// Whether a text is short enough to be drawn.
pub open spec fn drawable(text: Seq<char>) -> bool {
    text.len() <= MAX_TEXT_CHARS
}

/// Draws `text` on `target`, left to right from the anchor `(x, y)`, over
/// what is there. Nothing wraps; what falls off the canvas is dropped. A text
/// that is too long is refused and the frame stays as it is.
pub fn draw_text(target: &mut FrameBuffer, text: &str, font: Font, x: u8, y: u8) -> (done: Result<
    (),
    RenderFailure,
>)
    ensures
        drawable(text@) ==> done == Ok::<(), RenderFailure>(()) && final(target)@ == overlaid(
            old(target)@,
            glyph_coverage(text@, font, x as int, y as int),
        ),
        !drawable(text@) ==> done == Err::<(), RenderFailure>(RenderFailure::TextTooLong)
            && final(target)@ == old(target)@,
{
    if text.unicode_len() > MAX_TEXT_CHARS {
        return Err(RenderFailure::TextTooLong);
    }
    let layer: Vec<u8> = rasterize(text, font, x, y);
    target.overlay(layer.as_slice());
    Ok(())
}

} // verus!
