//! Trusted: what this crate takes for granted about the `tiny-skia` pixel
//! buffer and color. Nothing in this file is proved; every contract restates
//! what the named function's source shows.

use vstd::prelude::*;

verus! {

/// `tiny_skia::Pixmap`, a buffer that owns premultiplied RGBA pixels.
#[verifier::external_type_specification]
#[verifier::external_body]
pub struct ExPixmap(tiny_skia::Pixmap);

/// `tiny_skia::Color`, four channels in the range 0 to 1.
#[verifier::external_type_specification]
#[verifier::external_body]
pub struct ExColor(tiny_skia::Color);

/// The widest pixmap `tiny_skia::Pixmap::new` makes: a row of four-byte pixels
/// must not be longer than `i32::MAX` bytes.
pub const MAX_PIXMAP_WIDTH: u32 = 0x1FFF_FFFF;

/// The bytes of a pixmap's buffer. Its pixels come first, four bytes each (red,
/// green, blue, alpha), from left to right, rows from top to bottom. A pixmap
/// copied from a lent buffer keeps whatever bytes that buffer held after them.
pub uninterp spec fn pixmap_bytes(pixmap: tiny_skia::Pixmap) -> Seq<u8>;

/// The width and the height of a pixmap, in pixels.
pub uninterp spec fn pixmap_size(pixmap: tiny_skia::Pixmap) -> (u32, u32);

/// The four bytes (red, green, blue, alpha) that `tiny_skia::Pixmap::fill`
/// stores in each pixel for `color`: the color premultiplied by its alpha and
/// rounded to eight bits per channel.
pub uninterp spec fn fill_pixel(color: tiny_skia::Color) -> (u8, u8, u8, u8);

/// What `tiny_skia::Color::from_rgba` makes of the four channels of a parsed
/// color: a color with those channels, or nothing where one of them lies
/// outside the range 0 to 1.
pub uninterp spec fn skia_color_of(parsed: csscolorparser::Color) -> Option<tiny_skia::Color>;

/// Whether the buffer of a pixmap holds its pixels and nothing after them.
pub open spec fn pixmap_is_exact(pixmap: tiny_skia::Pixmap) -> bool {
    pixmap_bytes(pixmap).len() == 4 * pixmap_size(pixmap).0 * pixmap_size(pixmap).1
}

/// Channel `k` of a four-byte pixel: 0 red, 1 green, 2 blue, otherwise alpha.
pub open spec fn channel(pixel: (u8, u8, u8, u8), k: int) -> u8 {
    if k == 0 {
        pixel.0
    } else if k == 1 {
        pixel.1
    } else if k == 2 {
        pixel.2
    } else {
        pixel.3
    }
}

/// The bytes of `pixels` pixels that all equal `pixel`.
pub open spec fn solid(pixels: nat, pixel: (u8, u8, u8, u8)) -> Seq<u8> {
    Seq::new(4 * pixels, |i: int| channel(pixel, i % 4))
}

/// `tiny_skia::Pixmap::new`. It refuses a zero width or height and a width
/// above [`MAX_PIXMAP_WIDTH`], and otherwise hands out a pixmap of the asked
/// size with every byte zero. The `requires` keeps away the one case in which
/// it would ask the allocator for more than `isize::MAX` bytes.
#[verifier::external_body]
pub(crate) fn pixmap_new(width: u32, height: u32) -> (pixmap: Option<tiny_skia::Pixmap>)
    requires
        width <= MAX_PIXMAP_WIDTH ==> 4 * width * height <= isize::MAX,
    ensures
        pixmap.is_some() <==> (1 <= width <= MAX_PIXMAP_WIDTH && 1 <= height),
        pixmap matches Some(p) ==> pixmap_size(p) == (width, height) && pixmap_bytes(p)
            == Seq::new((4 * width * height) as nat, |i: int| 0u8),
{
    tiny_skia::Pixmap::new(width, height)
}

/// `tiny_skia::Pixmap::fill`. It keeps the size and stores the same four bytes,
/// those of [`fill_pixel`], in every pixel. It goes through the whole buffer
/// four bytes at a time, so the `requires` asks for a buffer that holds the
/// pixels and nothing more.
#[verifier::external_body]
pub(crate) fn pixmap_fill(pixmap: &mut tiny_skia::Pixmap, color: tiny_skia::Color)
    requires
        pixmap_is_exact(*old(pixmap)),
    ensures
        pixmap_size(*final(pixmap)) == pixmap_size(*old(pixmap)),
        pixmap_bytes(*final(pixmap)) == solid(
            (pixmap_size(*old(pixmap)).0 * pixmap_size(*old(pixmap)).1) as nat,
            fill_pixel(color),
        ),
{
    pixmap.fill(color)
}

/// `tiny_skia::Pixmap::width`.
#[verifier::external_body]
pub(crate) fn pixmap_width(pixmap: &tiny_skia::Pixmap) -> (width: u32)
    ensures
        width == pixmap_size(*pixmap).0,
{
    pixmap.width()
}

/// `tiny_skia::Pixmap::height`.
#[verifier::external_body]
pub(crate) fn pixmap_height(pixmap: &tiny_skia::Pixmap) -> (height: u32)
    ensures
        height == pixmap_size(*pixmap).1,
{
    pixmap.height()
}

/// `tiny_skia::Pixmap::data`. It lends the whole buffer; every way of making
/// a pixmap gives it at least four bytes per pixel, and a copy of a lent
/// buffer may hold more.
#[verifier::external_body]
pub(crate) fn pixmap_data(pixmap: &tiny_skia::Pixmap) -> (data: &[u8])
    ensures
        data@ == pixmap_bytes(*pixmap),
        data@.len() >= 4 * pixmap_size(*pixmap).0 * pixmap_size(*pixmap).1,
{
    pixmap.data()
}

/// `tiny_skia::Color::WHITE`: all four channels are one, so a fill with it
/// stores 255 in every byte.
#[verifier::external_body]
pub(crate) fn color_white() -> (color: tiny_skia::Color)
    ensures
        fill_pixel(color) == (255u8, 255u8, 255u8, 255u8),
{
    tiny_skia::Color::WHITE
}

/// `tiny_skia::Color::from_rgba` on the four channels of a parsed color. Its
/// answer depends on those channels alone and is named by [`skia_color_of`].
#[verifier::external_body]
pub(crate) fn color_from_rgba(parsed: &csscolorparser::Color) -> (color: Option<tiny_skia::Color>)
    ensures
        color == skia_color_of(*parsed),
{
    tiny_skia::Color::from_rgba(parsed.r, parsed.g, parsed.b, parsed.a)
}

} // verus!
