//! RGBA raster images held as plain bytes, and the codec and drawing calls
//! made on them through the `image` and `imageproc` crates.

use crate::geometry::Point;
use image::GenericImage;
use image::ImageEncoder;
use vstd::prelude::*;

verus! {

/// Coordinates handed to the drawing routines stay within this bound, where
/// every integer is exact as an `f32` and no routine overflows.
pub const DRAW_LIMIT: i32 = 16_777_216;

/// Largest pixel buffer, in bytes, that the codec round trip is relied on for.
pub const CODEC_LIMIT: u64 = 0x400_0000;

/// The mathematical content of an RGBA image: four bytes per pixel, row by row.
pub struct Pixmap {
    pub width: nat,
    pub height: nat,
    pub pixels: Seq<u8>,
}

/// An 8-bit RGBA image.
#[derive(Debug)]
pub struct RasterImage {
    pub width: u32,
    pub height: u32,
    pub pixels: Vec<u8>,
}

impl View for RasterImage {
    type V = Pixmap;

    open spec fn view(&self) -> Pixmap {
        Pixmap { width: self.width as nat, height: self.height as nat, pixels: self.pixels@ }
    }
}

impl Pixmap {
    pub open spec fn wf(self) -> bool {
        self.pixels.len() == 4 * self.width * self.height
    }

    /// Index of channel `c` of the pixel at column `x`, row `y`.
    pub open spec fn index(self, x: int, y: int, c: int) -> int {
        4 * (y * self.width + x) + c
    }

    pub open spec fn small(self) -> bool {
        4 * self.width * self.height <= CODEC_LIMIT
    }
}

impl RasterImage {
    pub open spec fn wf(&self) -> bool {
        self@.wf()
    }

    /// A copy of the image.
    pub fn clone_image(&self) -> (r: RasterImage)
        ensures
            r@ == self@,
    {
        RasterImage { width: self.width, height: self.height, pixels: self.pixels.clone() }
    }

    /// A fully transparent black image.
    pub fn blank(width: u32, height: u32) -> (r: Option<RasterImage>)
        ensures
            r is Some <==> 4 * width * height <= usize::MAX,
            r matches Some(img) ==> img.wf() && img.width == width && img.height == height
                && forall|i: int| 0 <= i < img.pixels@.len() ==> img.pixels@[i] == 0,
    {
        assert((width as u128) * (height as u128) <= 0xffff_ffff_ffff_ffffu128) by (nonlinear_arith)
            requires width <= 0xffff_ffffu32, height <= 0xffff_ffffu32;
        let n = (width as u128) * (height as u128) * 4;
        assert(n == 4 * width * height) by (nonlinear_arith)
            requires n == (width as u128) * (height as u128) * 4;
        if n > usize::MAX as u128 {
            return None;
        }
        let n = n as usize;
        let mut pixels: Vec<u8> = Vec::with_capacity(n);
        while pixels.len() < n
            invariant
                pixels@.len() <= n,
                forall|i: int| 0 <= i < pixels@.len() ==> pixels@[i] == 0,
            decreases n - pixels@.len(),
        {
            pixels.push(0);
        }
        Some(RasterImage { width, height, pixels })
    }
}

/// Where a crop lands once clamped to the image, as `image::imageops` clamps it.
pub open spec fn clamped_crop(img: Pixmap, x: nat, y: nat, w: nat, h: nat) -> (nat, nat, nat, nat) {
    let cx = if x <= img.width { x } else { img.width };
    let cy = if y <= img.height { y } else { img.height };
    let cw = if w <= img.width - cx { w } else { (img.width - cx) as nat };
    let ch = if h <= img.height - cy { h } else { (img.height - cy) as nat };
    (cx, cy, cw, ch)
}

/// The part of `img` inside the (clamped) rectangle at `(x, y)` of size `w`×`h`.
pub open spec fn cropped(img: Pixmap, x: nat, y: nat, w: nat, h: nat) -> Pixmap {
    let (cx, cy, cw, ch) = clamped_crop(img, x, y, w, h);
    Pixmap {
        width: cw,
        height: ch,
        pixels: Seq::new(
            4 * cw * ch,
            |i: int| img.pixels[img.index(cx + (i / 4) % (cw as int), cy + (i / 4) / (cw as int), i % 4)],
        ),
    }
}

/// `dst` with `src` copied over it, its top-left corner at `(x, y)`.
pub open spec fn blitted(dst: Pixmap, src: Pixmap, x: nat, y: nat) -> Pixmap {
    Pixmap {
        width: dst.width,
        height: dst.height,
        pixels: Seq::new(
            dst.pixels.len(),
            |i: int|
                {
                    let px = (i / 4) % (dst.width as int);
                    let py = (i / 4) / (dst.width as int);
                    if x <= px < x + src.width && y <= py < y + src.height {
                        src.pixels[src.index(px - x, py - y, i % 4)]
                    } else {
                        dst.pixels[i]
                    }
                },
        ),
    }
}

/// The eight bytes every PNG file starts with.
pub open spec fn png_signature() -> Seq<u8> {
    seq![137u8, 80u8, 78u8, 71u8, 13u8, 10u8, 26u8, 10u8]
}

pub open spec fn starts_with_png_signature(b: Seq<u8>) -> bool {
    b.len() >= 8 && b.subrange(0, 8) == png_signature()
}

/// What decoding `bytes` as PNG and converting to RGBA gives, if it succeeds.
pub uninterp spec fn png_decoded(bytes: Seq<u8>) -> Option<Pixmap>;

/// The PNG encoding of an RGBA image, if the encoder accepts it.
pub uninterp spec fn png_encoded(img: Pixmap) -> Option<Seq<u8>>;

/// `img` with a one-pixel line segment drawn from `from` to `to`.
pub uninterp spec fn line_drawn(img: Pixmap, from: Point, to: Point, color: (u8, u8, u8, u8)) -> Pixmap;

/// `img` with the outline of a circle drawn.
pub uninterp spec fn hollow_circle_drawn(
    img: Pixmap,
    center: Point,
    radius: int,
    color: (u8, u8, u8, u8),
) -> Pixmap;

/// `img` with the outline of the `width`×`height` rectangle at `corner` drawn.
pub uninterp spec fn hollow_rect_drawn(
    img: Pixmap,
    corner: Point,
    width: nat,
    height: nat,
    color: (u8, u8, u8, u8),
) -> Pixmap;

/// `img` with a filled polygon drawn.
pub uninterp spec fn polygon_drawn(img: Pixmap, corners: Seq<Point>, color: (u8, u8, u8, u8)) -> Pixmap;

pub open spec fn drawable(p: Point) -> bool {
    -DRAW_LIMIT <= p.x <= DRAW_LIMIT && -DRAW_LIMIT <= p.y <= DRAW_LIMIT
}

/// Relies on `image::load_from_memory_with_format` (PNG) and `to_rgba8`: the
/// decoded image depends on the bytes alone.
#[verifier::external_body]
pub(crate) fn decode_png(bytes: &Vec<u8>) -> (r: Option<RasterImage>)
    ensures
        r is Some <==> png_decoded(bytes@) is Some,
        r matches Some(img) ==> img.wf() && png_decoded(bytes@) == Some(img@),
{
    match image::load_from_memory_with_format(bytes, image::ImageFormat::Png) {
        Ok(d) => {
            let b = d.to_rgba8();
            Some(RasterImage { width: b.width(), height: b.height(), pixels: b.into_raw() })
        },
        Err(_) => None,
    }
}

/// Relies on `image::codecs::png::PngEncoder::write_image` with RGBA8 pixels:
/// the output depends on the image alone, and PNG being lossless, decoding it
/// gives the image back (within the decoder's default memory limit). The
/// output starts with the PNG signature, which the `png` encoder writes first.
#[verifier::external_body]
pub(crate) fn encode_png(img: &RasterImage) -> (r: Option<Vec<u8>>)
    requires
        img.wf(),
    ensures
        r is Some <==> png_encoded(img@) is Some,
        r matches Some(b) ==> png_encoded(img@) == Some(b@),
        r matches Some(b) ==> starts_with_png_signature(b@),
        r matches Some(b) ==> (img@.small() ==> png_decoded(b@) == Some(img@)),
{
    let mut out: Vec<u8> = Vec::new();
    let enc = image::codecs::png::PngEncoder::new(&mut out);
    match enc.write_image(&img.pixels, img.width, img.height, image::ColorType::Rgba8) {
        Ok(()) => Some(out),
        Err(_) => None,
    }
}

/// Relies on `image::imageops::crop_imm`, which clamps the rectangle to the image.
#[verifier::external_body]
pub(crate) fn crop_image(img: &RasterImage, x: u32, y: u32, w: u32, h: u32) -> (r: RasterImage)
    requires
        img.wf(),
    ensures
        r.wf(),
        r@ == cropped(img@, x as nat, y as nat, w as nat, h as nat),
{
    let buf = image::RgbaImage::from_raw(img.width, img.height, img.pixels.clone()).unwrap();
    let sub = image::imageops::crop_imm(&buf, x, y, w, h).to_image();
    RasterImage { width: sub.width(), height: sub.height(), pixels: sub.into_raw() }
}

/// Relies on `image::GenericImage::copy_from`, which copies `src` pixel by
/// pixel into `dst` at `(x, y)`.
#[verifier::external_body]
pub(crate) fn copy_into(dst: &mut RasterImage, src: &RasterImage, x: u32, y: u32)
    requires
        old(dst).wf(),
        src.wf(),
        x + src.width <= old(dst).width,
        y + src.height <= old(dst).height,
    ensures
        final(dst).wf(),
        final(dst)@ == blitted(old(dst)@, src@, x as nat, y as nat),
{
    let mut buf = image::RgbaImage::from_raw(dst.width, dst.height, std::mem::take(&mut dst.pixels)).unwrap();
    let part = image::RgbaImage::from_raw(src.width, src.height, src.pixels.clone()).unwrap();
    buf.copy_from(&part, x, y).unwrap();
    dst.pixels = buf.into_raw();
}

/// Relies on `imageproc::drawing::draw_line_segment`: a copy of the image of
/// the same size with the segment drawn.
#[verifier::external_body]
pub(crate) fn draw_line(img: &RasterImage, from: Point, to: Point, color: (u8, u8, u8, u8)) -> (r: RasterImage)
    requires
        img.wf(),
        drawable(from),
        drawable(to),
    ensures
        r.wf(),
        r.width == img.width,
        r.height == img.height,
        r@ == line_drawn(img@, from, to, color),
{
    let buf = image::RgbaImage::from_raw(img.width, img.height, img.pixels.clone()).unwrap();
    let c = image::Rgba([color.0, color.1, color.2, color.3]);
    let out = imageproc::drawing::draw_line_segment(&buf, (from.x as _, from.y as _), (to.x as _, to.y as _), c);
    RasterImage { width: out.width(), height: out.height(), pixels: out.into_raw() }
}

/// Relies on `imageproc::drawing::draw_hollow_circle`: a copy of the image of
/// the same size with the circle's outline drawn.
#[verifier::external_body]
pub(crate) fn draw_circle(img: &RasterImage, center: Point, radius: i32, color: (u8, u8, u8, u8)) -> (r: RasterImage)
    requires
        img.wf(),
        drawable(center),
        0 <= radius <= 4 * DRAW_LIMIT,
    ensures
        r.wf(),
        r.width == img.width,
        r.height == img.height,
        r@ == hollow_circle_drawn(img@, center, radius as int, color),
{
    let buf = image::RgbaImage::from_raw(img.width, img.height, img.pixels.clone()).unwrap();
    let c = image::Rgba([color.0, color.1, color.2, color.3]);
    let out = imageproc::drawing::draw_hollow_circle(&buf, (center.x, center.y), radius, c);
    RasterImage { width: out.width(), height: out.height(), pixels: out.into_raw() }
}

/// Relies on `imageproc::drawing::draw_hollow_rect` (and `Rect::of_size`,
/// which wants a positive size): a copy of the image of the same size with
/// the outline drawn.
#[verifier::external_body]
pub(crate) fn draw_rect(img: &RasterImage, corner: Point, width: u32, height: u32, color: (u8, u8, u8, u8)) -> (r: RasterImage)
    requires
        img.wf(),
        drawable(corner),
        0 < width <= 2 * DRAW_LIMIT,
        0 < height <= 2 * DRAW_LIMIT,
    ensures
        r.wf(),
        r.width == img.width,
        r.height == img.height,
        r@ == hollow_rect_drawn(img@, corner, width as nat, height as nat, color),
{
    let buf = image::RgbaImage::from_raw(img.width, img.height, img.pixels.clone()).unwrap();
    let c = image::Rgba([color.0, color.1, color.2, color.3]);
    let rect = imageproc::rect::Rect::at(corner.x, corner.y).of_size(width, height);
    let out = imageproc::drawing::draw_hollow_rect(&buf, rect, c);
    RasterImage { width: out.width(), height: out.height(), pixels: out.into_raw() }
}

/// Relies on `imageproc::drawing::draw_polygon`, which panics when the first
/// and last corner coincide, and whose `width as i32 - 1` overflows for a side
/// of 2^31 pixels or more: a copy of the image of the same size with the
/// polygon filled.
#[verifier::external_body]
pub(crate) fn draw_filled_polygon(img: &RasterImage, corners: &Vec<Point>, color: (u8, u8, u8, u8)) -> (r: RasterImage)
    requires
        img.wf(),
        0 < img.width < 0x8000_0000,
        0 < img.height < 0x8000_0000,
        corners@.len() > 0,
        corners@[0] != corners@.last(),
        forall|i: int| 0 <= i < corners@.len() ==> drawable(#[trigger] corners@[i]),
    ensures
        r.wf(),
        r.width == img.width,
        r.height == img.height,
        r@ == polygon_drawn(img@, corners@, color),
{
    let buf = image::RgbaImage::from_raw(img.width, img.height, img.pixels.clone()).unwrap();
    let c = image::Rgba([color.0, color.1, color.2, color.3]);
    let poly: Vec<imageproc::point::Point<i32>> = corners.iter().map(|p| imageproc::point::Point::new(p.x, p.y)).collect();
    let out = imageproc::drawing::draw_polygon(&buf, &poly, c);
    RasterImage { width: out.width(), height: out.height(), pixels: out.into_raw() }
}

} // verus!
