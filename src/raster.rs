//! The raster encoder: from a bitmap to the printer's 90-byte bitonal lines.
//!
//! Resize (Lanczos-3), rotation and Floyd-Steinberg dithering are the `image`
//! crate's; grayscale projection and line packing are done here.

use vstd::prelude::*;

use crate::printer::Orientation;

verus! {

/// Bytes in one raster line: 720 dots across the print head.
pub const RASTER_LINE_LENGTH: usize = 90;

/// An 8-bit RGBA image, row-major, four bytes per pixel.
pub struct RgbaBitmap {
    pub width: u32,
    pub height: u32,
    pub pixels: Vec<u8>,
}

/// An 8-bit grayscale image, row-major, one byte per pixel.
pub struct GrayBitmap {
    pub width: u32,
    pub height: u32,
    pub pixels: Vec<u8>,
}

/// Dimensions and bytes of an image.
pub struct Picture {
    pub width: nat,
    pub height: nat,
    pub pixels: Seq<u8>,
}

impl Picture {
    /// Four bytes for each pixel.
    pub open spec fn is_rgba(self) -> bool {
        self.pixels.len() == 4 * self.width * self.height
    }

    /// One byte for each pixel.
    pub open spec fn is_gray(self) -> bool {
        self.pixels.len() == self.width * self.height
    }
}

impl View for RgbaBitmap {
    type V = Picture;

    open spec fn view(&self) -> Picture {
        Picture { width: self.width as nat, height: self.height as nat, pixels: self.pixels@ }
    }
}

impl View for GrayBitmap {
    type V = Picture;

    open spec fn view(&self) -> Picture {
        Picture { width: self.width as nat, height: self.height as nat, pixels: self.pixels@ }
    }
}

/// Index in `v`'s bytes of byte `i` of `v` turned a quarter clockwise: pixel
/// (x, y) of the result is pixel (y, height - 1 - x) of `v`.
pub open spec fn quarter_turn_source(v: Picture, i: int) -> int {
    let p = i / 4;
    let x = p % (v.height as int);
    let y = p / (v.height as int);
    ((v.height - 1 - x) * v.width + y) * 4 + i % 4
}

/// `v` (RGBA) turned 90 degrees clockwise.
pub open spec fn rotated(v: Picture) -> Picture {
    Picture {
        width: v.height,
        height: v.width,
        pixels: Seq::new(4 * v.width * v.height, |i: int| v.pixels[quarter_turn_source(v, i)]),
    }
}

/// `v` as it is printed in orientation `o`.
pub open spec fn oriented(v: Picture, o: Orientation) -> Picture {
    match o {
        Orientation::Normal => v,
        Orientation::Rotated => rotated(v),
    }
}

/// Height that keeps the aspect ratio of a `width` x `height` image scaled to
/// `new_width`; 0 for an image without columns.
pub open spec fn scaled_height(width: nat, height: nat, new_width: nat) -> nat {
    if width == 0 {
        0
    } else {
        new_width * height / width
    }
}

/// Whether `b` is an RGBA image of `new_width` columns and the height that
/// keeps the aspect ratio of `v`: what scaling `v` to that width gives.
pub open spec fn is_scaled(b: Picture, v: Picture, new_width: nat) -> bool {
    &&& b.width == new_width
    &&& b.height == scaled_height(v.width, v.height, new_width)
    &&& b.is_rgba()
}

/// Whether the resized image of `v` in orientation `o` can be held in memory.
pub open spec fn fits(v: Picture, o: Orientation, new_width: nat) -> bool {
    let src = oriented(v, o);
    let h = scaled_height(src.width, src.height, new_width);
    h <= u32::MAX && 4 * new_width * h <= usize::MAX && 4 * src.width * h <= usize::MAX
}

/// Luma of an sRGB pixel, as the `image` crate computes it for 8-bit channels.
pub open spec fn luma(r: u8, g: u8, b: u8) -> u8 {
    ((2126 * r + 7152 * g + 722 * b) / 10000) as u8
}

/// `v` (RGBA) projected to 8-bit luma; alpha is ignored.
pub open spec fn grayscale(v: Picture) -> Picture {
    Picture {
        width: v.width,
        height: v.height,
        pixels: Seq::new(
            v.width * v.height,
            |i: int| luma(v.pixels[4 * i], v.pixels[4 * i + 1], v.pixels[4 * i + 2]),
        ),
    }
}

/// The bytes of the `image` crate's Floyd-Steinberg dithering of a grayscale
/// image against black and white (luma above 127 turns white).
pub uninterp spec fn floyd_steinberg_bilevel(pixels: Seq<u8>, width: nat, height: nat) -> Seq<u8>;

/// `g` (grayscale) dithered to black and white; images narrower than two
/// columns or without rows are left as they are.
pub open spec fn dithered(g: Picture) -> Picture {
    if g.width >= 2 && g.height >= 1 {
        Picture {
            width: g.width,
            height: g.height,
            pixels: floyd_steinberg_bilevel(g.pixels, g.width, g.height),
        }
    } else {
        g
    }
}

/// Whether the pixel at (`col`, `row`) of grayscale `g` prints black.
pub open spec fn is_black(g: Picture, col: int, row: int) -> bool {
    0 <= col < g.width && g.pixels[row * g.width + col] <= 127
}

/// The label column printed by bit `p` of byte `b` of a raster line.
pub open spec fn column_at(b: int, p: int) -> int {
    8 * (89 - b) + p
}

/// 2 to the power `p`.
pub open spec fn weight(p: nat) -> nat
    decreases p,
{
    if p == 0 {
        1
    } else {
        2 * weight((p - 1) as nat)
    }
}

/// Value of the low `n` bits of byte `b` of line `row` of `g`.
pub open spec fn low_bits(g: Picture, row: int, b: int, n: nat) -> nat
    decreases n,
{
    if n == 0 {
        0
    } else {
        low_bits(g, row, b, (n - 1) as nat) + if is_black(g, column_at(b, n - 1), row) {
            weight((n - 1) as nat)
        } else {
            0
        }
    }
}

/// Raster line `row` of `g`: bit `p` of byte `b` is set iff column
/// `8 * (89 - b) + p` is black.
pub open spec fn raster_line(g: Picture, row: int) -> Seq<u8> {
    Seq::new(90, |b: int| low_bits(g, row, b, 8) as u8)
}

/// All raster lines of `g`, top to bottom.
pub open spec fn raster_lines(g: Picture) -> Seq<Seq<u8>> {
    Seq::new(g.height, |row: int| raster_line(g, row))
}

/// The bytes of each line.
pub open spec fn line_views(v: Seq<[u8; 90]>) -> Seq<Seq<u8>> {
    v.map_values(|l: [u8; 90]| l@)
}

/// The lines of a scaled RGBA image `b`: projected to luma, dithered if
/// `dither`, packed.
pub open spec fn rendered(b: Picture, dither: bool) -> Seq<Seq<u8>> {
    let g = grayscale(b);
    raster_lines(if dither { dithered(g) } else { g })
}

/// Whether `lines` encode RGBA image `v` in orientation `o` on a label
/// `new_width` dots wide: they are the rendered lines of an image scaled from
/// `v` turned for `o`.
pub open spec fn encodes(lines: Seq<Seq<u8>>, v: Picture, o: Orientation, new_width: nat, dither: bool) -> bool {
    exists|b: Picture| is_scaled(b, oriented(v, o), new_width) && lines == rendered(b, dither)
}

proof fn lemma_index_in_grid(row: int, col: int, width: int, height: int)
    requires
        0 <= row < height,
        0 <= col < width,
    ensures
        row * width + col < width * height,
        0 <= row * width,
{
    assert(row * width + col < width * height) by (nonlinear_arith)
        requires
            0 <= row < height,
            0 <= col < width,
    ;
    assert(0 <= row * width) by (nonlinear_arith)
        requires
            0 <= row,
            0 <= width,
    ;
}

proof fn lemma_weight_bounds(p: nat)
    requires
        p <= 8,
    ensures
        weight(p) <= 256,
        p < 8 ==> weight(p) <= 128,
{
    assert(weight(0) == 1);
    assert(weight(1) == 2);
    assert(weight(2) == 4);
    assert(weight(3) == 8);
    assert(weight(4) == 16);
    assert(weight(5) == 32);
    assert(weight(6) == 64);
    assert(weight(7) == 128);
    assert(weight(8) == 256);
}

proof fn lemma_low_bits_bound(g: Picture, row: int, b: int, n: nat)
    ensures
        low_bits(g, row, b, n) < weight(n),
    decreases n,
{
    if n > 0 {
        lemma_low_bits_bound(g, row, b, (n - 1) as nat);
    }
}

/// Packs one raster line: row `row` of `image`.
fn raster_line_of(image: &GrayBitmap, row: usize) -> (line: [u8; 90])
    requires
        image@.is_gray(),
        row < image.height,
    ensures
        line@ == raster_line(image@, row as int),
{
    let width = image.width as usize;
    let len = image.pixels.len();
    let mut line = [0u8; 90];
    let mut b: usize = 0;
    while b < 90
        invariant
            image@.is_gray(),
            row < image.height,
            width == image.width,
            len == image.pixels@.len(),
            b <= 90,
            line@.len() == 90,
            forall|k: int| 0 <= k < b ==> line@[k] == raster_line(image@, row as int)[k],
        decreases 90 - b,
    {
        let mut byte: u32 = 0;
        let mut bit_weight: u32 = 1;
        let mut p: usize = 0;
        while p < 8
            invariant
                image@.is_gray(),
                row < image.height,
                width == image.width,
                len == image.pixels@.len(),
                b < 90,
                p <= 8,
                bit_weight == weight(p as nat),
                byte == low_bits(image@, row as int, b as int, p as nat),
                byte < bit_weight,
                line@.len() == 90,
            decreases 8 - p,
        {
            proof {
                lemma_weight_bounds(p as nat);
            }
            let col: usize = 8 * (89 - b) + p;
            if col < width {
                proof {
                    lemma_index_in_grid(row as int, col as int, width as int, image.height as int);
                    assert(row * width + col < image.pixels@.len());
                }
                if image.pixels[row * width + col] <= 127 {
                    byte = byte + bit_weight;
                }
            }
            bit_weight = bit_weight * 2;
            p = p + 1;
        }
        proof {
            lemma_weight_bounds(8);
        }
        line[b] = byte as u8;
        b = b + 1;
    }
    proof {
        assert(line@ =~= raster_line(image@, row as int));
    }
    line
}

/// Packs every row of `image` into a raster line.
pub fn rasterize_image_to_ql_tiff(image: &GrayBitmap) -> (lines: Vec<[u8; 90]>)
    requires
        image@.is_gray(),
    ensures
        line_views(lines@) == raster_lines(image@),
        lines@.len() == image.height,
        forall|i: int| 0 <= i < lines@.len() ==> lines@[i]@.len() == RASTER_LINE_LENGTH,
{
    let height = image.height as usize;
    let mut lines: Vec<[u8; 90]> = Vec::new();
    let mut row: usize = 0;
    while row < height
        invariant
            image@.is_gray(),
            height == image.height,
            row <= height,
            line_views(lines@) == raster_lines(image@).subrange(0, row as int),
        decreases height - row,
    {
        let line = raster_line_of(image, row);
        proof {
            assert(line_views(lines@.push(line)) =~= line_views(lines@).push(line@));
            assert(raster_lines(image@).subrange(0, row + 1) =~= raster_lines(image@).subrange(
                0,
                row as int,
            ).push(line@));
        }
        lines.push(line);
        row = row + 1;
    }
    proof {
        assert(raster_lines(image@).subrange(0, height as int) =~= raster_lines(image@));
    }
    lines
}

/// Relies on `image::imageops::rotate90`: a new buffer `height` x `width`
/// whose pixel (x, y) is pixel (y, height - 1 - x) of the source.
#[verifier::external_body]
fn rotate90(image: &RgbaBitmap) -> (r: RgbaBitmap)
    requires
        image@.is_rgba(),
    ensures
        r@ == rotated(image@),
{
    let source = image::RgbaImage::from_raw(image.width, image.height, image.pixels.clone());
    let out = image::imageops::rotate90(&source.unwrap());
    RgbaBitmap { width: out.width(), height: out.height(), pixels: out.into_raw() }
}

/// Relies on `image::imageops::resize` with the Lanczos-3 filter: a new
/// buffer of exactly `new_width` x `new_height` pixels. It first samples to a
/// `width` x `new_height` buffer of four `f32` per pixel, whose length must fit.
/// The pixel values come from floating-point kernels and are not stated.
#[verifier::external_body]
fn resize_lanczos3(image: &RgbaBitmap, new_width: u32, new_height: u32) -> (r: RgbaBitmap)
    requires
        image@.is_rgba(),
        image.width >= 1,
        image.height >= 1,
        4 * new_width * new_height <= usize::MAX,
        4 * image.width * new_height <= usize::MAX,
    ensures
        r.width == new_width,
        r.height == new_height,
        r@.is_rgba(),
{
    let source = image::RgbaImage::from_raw(image.width, image.height, image.pixels.clone());
    let filter = image::imageops::FilterType::Lanczos3;
    let out = image::imageops::resize(&source.unwrap(), new_width, new_height, filter);
    RgbaBitmap { width: out.width(), height: out.height(), pixels: out.into_raw() }
}

/// Relies on `image::imageops::dither` with the `BiLevel` colour map: the
/// buffer is changed in place and keeps its size.
#[verifier::external_body]
fn dither_bilevel(image: &mut GrayBitmap)
    requires
        old(image)@.is_gray(),
        old(image).width >= 2,
        old(image).height >= 1,
    ensures
        final(image).width == old(image).width,
        final(image).height == old(image).height,
        final(image).pixels@.len() == old(image).pixels@.len(),
        final(image).pixels@ == floyd_steinberg_bilevel(
            old(image).pixels@,
            old(image).width as nat,
            old(image).height as nat,
        ),
{
    let pixels = std::mem::take(&mut image.pixels);
    let mut buffer = image::GrayImage::from_raw(image.width, image.height, pixels).unwrap();
    image::imageops::dither(&mut buffer, &image::imageops::BiLevel);
    image.pixels = buffer.into_raw();
}

/// Height of `width` x `height` scaled to `new_width` columns, if it fits a `u32`.
pub fn target_height(width: u32, height: u32, new_width: u32) -> (r: Option<u32>)
    ensures
        r is Some <==> scaled_height(width as nat, height as nat, new_width as nat) <= u32::MAX,
        r is Some ==> r->0 == scaled_height(width as nat, height as nat, new_width as nat),
{
    if width == 0 {
        return Some(0);
    }
    proof {
        assert((new_width as int) * (height as int) <= u64::MAX) by (nonlinear_arith)
            requires
                new_width <= u32::MAX,
                height <= u32::MAX,
        ;
    }
    let h: u64 = (new_width as u64) * (height as u64) / (width as u64);
    if h > u32::MAX as u64 {
        None
    } else {
        Some(h as u32)
    }
}

/// `image` scaled to `final_width` columns, keeping its aspect ratio; none if
/// the result is too large to hold.
fn scale_to_width(source: &RgbaBitmap, final_width: u32) -> (r: Option<RgbaBitmap>)
    requires
        source@.is_rgba(),
    ensures
        r is Some <==> ({
            let h = scaled_height(source.width as nat, source.height as nat, final_width as nat);
            h <= u32::MAX && 4 * final_width * h <= usize::MAX && 4 * source.width * h
                <= usize::MAX
        }),
        r is Some ==> is_scaled(r->0@, source@, final_width as nat),
{
    let height = match target_height(source.width, source.height, final_width) {
        Some(h) => h,
        None => return None,
    };
    if height == 0 {
        let r = RgbaBitmap { width: final_width, height: 0, pixels: Vec::new() };
        proof {
            assert(4 * (final_width as int) * 0 == 0) by (nonlinear_arith);
            assert(4 * (source.width as int) * 0 == 0) by (nonlinear_arith);
        }
        return Some(r);
    }
    proof {
        assert(4 * (final_width as int) * (height as int) <= u128::MAX) by (nonlinear_arith)
            requires
                final_width <= u32::MAX,
                height <= u32::MAX,
        ;
        assert(4 * (source.width as int) * (height as int) <= u128::MAX) by (nonlinear_arith)
            requires
                source.width <= u32::MAX,
                height <= u32::MAX,
        ;
    }
    let size: u128 = 4 * (final_width as u128) * (height as u128);
    let sampled: u128 = 4 * (source.width as u128) * (height as u128);
    if size > usize::MAX as u128 || sampled > usize::MAX as u128 {
        return None;
    }
    proof {
        if source.width == 0 || source.height == 0 {
            assert(final_width as nat * 0 == 0);
        }
    }
    Some(resize_lanczos3(source, final_width, height))
}

/// `image` turned 90 degrees clockwise.
pub fn rotate_image(image: &RgbaBitmap) -> (r: RgbaBitmap)
    requires
        image@.is_rgba(),
    ensures
        r@ == rotated(image@),
        r@.is_rgba(),
{
    let turned = rotate90(image);
    proof {
        let w = image.width as int;
        let h = image.height as int;
        assert(4 * w * h == 4 * h * w) by (nonlinear_arith);
    }
    turned
}

/// Turns `image` for orientation `orientation` and scales it to `final_width`
/// columns, keeping its aspect ratio; none if the result is too large to hold.
pub fn resize_and_rotate_image(image: &RgbaBitmap, orientation: Orientation, final_width: u32) -> (r:
    Option<RgbaBitmap>)
    requires
        image@.is_rgba(),
    ensures
        r is Some <==> fits(image@, orientation, final_width as nat),
        r is Some ==> is_scaled(r->0@, oriented(image@, orientation), final_width as nat),
        r is Some ==> r->0.height == match orientation {
            Orientation::Normal => scaled_height(image.width as nat, image.height as nat, final_width as nat),
            Orientation::Rotated => scaled_height(image.height as nat, image.width as nat, final_width as nat),
        },
{
    match orientation {
        Orientation::Normal => scale_to_width(image, final_width),
        Orientation::Rotated => {
            let turned = rotate_image(image);
            scale_to_width(&turned, final_width)
        },
    }
}

/// `image` projected to 8-bit luma.
pub fn convert_image_to_luma_u8(image: &RgbaBitmap) -> (r: GrayBitmap)
    requires
        image@.is_rgba(),
    ensures
        r@ == grayscale(image@),
        r@.is_gray(),
{
    proof {
        let w = image.width as int;
        let h = image.height as int;
        assert(4 * w * h == 4 * (w * h) && w * h <= 4 * w * h) by (nonlinear_arith)
            requires
                w >= 0,
                h >= 0,
        ;
    }
    let len = image.pixels.len();
    let count: usize = (image.width as usize) * (image.height as usize);
    let mut pixels: Vec<u8> = Vec::new();
    let mut i: usize = 0;
    while i < count
        invariant
            image@.is_rgba(),
            count == image.width * image.height,
            i <= count,
            image.pixels@.len() == 4 * count,
            len == image.pixels@.len(),
            pixels@ =~= grayscale(image@).pixels.subrange(0, i as int),
        decreases count - i,
    {
        proof {
            assert(len == 4 * count);
        }
        let red = image.pixels[4 * i] as u32;
        let green = image.pixels[4 * i + 1] as u32;
        let blue = image.pixels[4 * i + 2] as u32;
        pixels.push(((2126 * red + 7152 * green + 722 * blue) / 10000) as u8);
        i = i + 1;
    }
    proof {
        assert(pixels@ =~= grayscale(image@).pixels);
    }
    GrayBitmap { width: image.width, height: image.height, pixels }
}

/// Dithers `image` to black and white in place, unless it is narrower than two
/// columns or has no rows.
pub fn dither_luma8_image(image: &mut GrayBitmap)
    requires
        old(image)@.is_gray(),
    ensures
        final(image)@ == dithered(old(image)@),
        final(image)@.is_gray(),
{
    if image.width >= 2 && image.height >= 1 {
        dither_bilevel(image);
    }
}

/// The raster lines of a scaled RGBA image: projected to luma, dithered if
/// `dither`, packed.
pub fn render_lines(scaled: &RgbaBitmap, dither: bool) -> (r: Vec<[u8; 90]>)
    requires
        scaled@.is_rgba(),
    ensures
        line_views(r@) == rendered(scaled@, dither),
        r@.len() == scaled.height,
{
    let mut gray = convert_image_to_luma_u8(scaled);
    if dither {
        dither_luma8_image(&mut gray);
    }
    rasterize_image_to_ql_tiff(&gray)
}

/// Encodes `image` as raster lines for a label `final_width` dots wide: turned
/// for `orientation`, scaled, projected to luma, dithered if `dither`, packed.
/// None if the scaled image is too large to hold.
pub fn encode_image(image: &RgbaBitmap, orientation: Orientation, final_width: u32, dither: bool) -> (r:
    Option<Vec<[u8; 90]>>)
    requires
        image@.is_rgba(),
    ensures
        r is Some <==> fits(image@, orientation, final_width as nat),
        r is Some ==> encodes(line_views(r->0@), image@, orientation, final_width as nat, dither),
        r is Some ==> r->0@.len() == match orientation {
            Orientation::Normal => scaled_height(image.width as nat, image.height as nat, final_width as nat),
            Orientation::Rotated => scaled_height(image.height as nat, image.width as nat, final_width as nat),
        },
        r is Some ==> forall|i: int| 0 <= i < r->0@.len() ==> r->0@[i]@.len() == RASTER_LINE_LENGTH,
{
    let scaled = match resize_and_rotate_image(image, orientation, final_width) {
        Some(s) => s,
        None => return None,
    };
    let lines = render_lines(&scaled, dither);
    proof {
        assert(is_scaled(scaled@, oriented(image@, orientation), final_width as nat));
    }
    Some(lines)
}

/// Printing rotated hands the scaler exactly the image turned a quarter
/// clockwise, as printing that turned image normally does: same source, same
/// size limits, same possible encodings.
pub proof fn lemma_rotation_identity(v: Picture, new_width: nat, dither: bool, lines: Seq<Seq<u8>>)
    ensures
        oriented(v, Orientation::Rotated) == oriented(rotated(v), Orientation::Normal),
        fits(v, Orientation::Rotated, new_width) == fits(rotated(v), Orientation::Normal, new_width),
        encodes(lines, v, Orientation::Rotated, new_width, dither) == encodes(
            lines,
            rotated(v),
            Orientation::Normal,
            new_width,
            dither,
        ),
{
}

/// Whether the only black pixel of grayscale `g` is the one at (`col`, `row`).
pub open spec fn single_black_pixel(g: Picture, col: int, row: int) -> bool {
    &&& g.is_gray()
    &&& 0 <= row < g.height
    &&& forall|c: int, r: int|
        0 <= r < g.height ==> (#[trigger] is_black(g, c, r) <==> (c == col && r == row))
}

proof fn lemma_low_bits_single(g: Picture, row: int, b: int, n: nat, p0: int)
    requires
        forall|p: int| 0 <= p < n ==> (is_black(g, column_at(b, p), row) <==> p == p0),
    ensures
        low_bits(g, row, b, n) == (if 0 <= p0 < n { weight(p0 as nat) } else { 0 }),
    decreases n,
{
    if n > 0 {
        lemma_low_bits_single(g, row, b, (n - 1) as nat, p0);
    }
}

/// An image whose only black pixel is at column `col` (on the print head) and
/// row `row` encodes, on line `row`, exactly one set bit: bit `col % 8` of
/// byte `89 - col / 8`. Every other line is blank.
pub proof fn lemma_bit_placement(g: Picture, col: int, row: int)
    requires
        single_black_pixel(g, col, row),
        0 <= col < 720,
    ensures
        raster_lines(g).len() == g.height,
        raster_lines(g)[row][89 - col / 8] == weight((col % 8) as nat),
        forall|b: int| 0 <= b < 90 && b != 89 - col / 8 ==> raster_lines(g)[row][b] == 0,
        forall|r: int, b: int|
            0 <= r < g.height && r != row && 0 <= b < 90 ==> raster_lines(g)[r][b] == 0,
{
    lemma_weight_bounds((col % 8) as nat);
    assert forall|b: int| 0 <= b < 90 implies raster_lines(g)[row][b] == (if b == 89 - col / 8 {
        weight((col % 8) as nat)
    } else {
        0
    }) by {
        let p0 = if b == 89 - col / 8 { col % 8 } else { -1 };
        assert forall|p: int| 0 <= p < 8 implies (is_black(g, column_at(b, p), row) <==> p == p0) by {
            assert(is_black(g, column_at(b, p), row) <==> column_at(b, p) == col);
        }
        lemma_low_bits_single(g, row, b, 8, p0);
    }
    assert forall|r: int, b: int|
        0 <= r < g.height && r != row && 0 <= b < 90 implies raster_lines(g)[r][b] == 0 by {
        assert forall|p: int| 0 <= p < 8 implies (is_black(g, column_at(b, p), r) <==> p == -1) by {
            assert(!is_black(g, column_at(b, p), r));
        }
        lemma_low_bits_single(g, r, b, 8, -1);
    }
}

proof fn lemma_digit(a: int, c: int, k: int, w: int)
    requires
        0 <= a < w,
        c == 0 || c == 1,
        0 <= k,
    ensures
        ((a + c * w + 2 * w * k) / w) % 2 == c,
{
    assert((a + c * w + 2 * w * k) / w == c + 2 * k) by (nonlinear_arith)
        requires
            0 <= a < w,
            c == 0 || c == 1,
            0 <= k,
    ;
}

/// The value of eight bits `c`, bit `q` worth 2 to the power `q`.
pub open spec fn bits_value(c: Seq<bool>) -> int {
    (if c[0] { 1int } else { 0 }) + (if c[1] { 2int } else { 0 }) + (if c[2] { 4int } else { 0 }) + (if c[3] { 8int } else { 0 }) + (if c[4] { 16int } else { 0 }) + (if c[5] { 32int } else { 0 }) + (if c[6] { 64int } else { 0 }) + (if c[7] { 128int } else { 0 })
}

proof fn lemma_bit_of_value(c: Seq<bool>, p: int)
    requires
        c.len() == 8,
        0 <= p < 8,
    ensures
        (bits_value(c) / weight(p as nat) as int) % 2 == 1 <==> c[p],
{
    lemma_weight_bounds(p as nat);
    assert(weight(0) == 1);
    assert(weight(1) == 2);
    assert(weight(2) == 4);
    assert(weight(3) == 8);
    assert(weight(4) == 16);
    assert(weight(5) == 32);
    assert(weight(6) == 64);
    assert(weight(7) == 128);
    let ghost v = bits_value(c);
    if p == 0 {
        let ghost a = 0int;
        let ghost d = (if c[0] { 1int } else { 0 });
        let ghost k = (if c[1] { 1int } else { 0 }) + (if c[2] { 2int } else { 0 }) + (if c[3] { 4int } else { 0 }) + (if c[4] { 8int } else { 0 }) + (if c[5] { 16int } else { 0 }) + (if c[6] { 32int } else { 0 }) + (if c[7] { 64int } else { 0 });
        assert(v == a + d * 1 + 2 * 1 * k);
        lemma_digit(a, d, k, 1);
    } else if p == 1 {
        let ghost a = (if c[0] { 1int } else { 0 });
        let ghost d = (if c[1] { 1int } else { 0 });
        let ghost k = (if c[2] { 1int } else { 0 }) + (if c[3] { 2int } else { 0 }) + (if c[4] { 4int } else { 0 }) + (if c[5] { 8int } else { 0 }) + (if c[6] { 16int } else { 0 }) + (if c[7] { 32int } else { 0 });
        assert(v == a + d * 2 + 2 * 2 * k);
        lemma_digit(a, d, k, 2);
    } else if p == 2 {
        let ghost a = (if c[0] { 1int } else { 0 }) + (if c[1] { 2int } else { 0 });
        let ghost d = (if c[2] { 1int } else { 0 });
        let ghost k = (if c[3] { 1int } else { 0 }) + (if c[4] { 2int } else { 0 }) + (if c[5] { 4int } else { 0 }) + (if c[6] { 8int } else { 0 }) + (if c[7] { 16int } else { 0 });
        assert(v == a + d * 4 + 2 * 4 * k);
        lemma_digit(a, d, k, 4);
    } else if p == 3 {
        let ghost a = (if c[0] { 1int } else { 0 }) + (if c[1] { 2int } else { 0 }) + (if c[2] { 4int } else { 0 });
        let ghost d = (if c[3] { 1int } else { 0 });
        let ghost k = (if c[4] { 1int } else { 0 }) + (if c[5] { 2int } else { 0 }) + (if c[6] { 4int } else { 0 }) + (if c[7] { 8int } else { 0 });
        assert(v == a + d * 8 + 2 * 8 * k);
        lemma_digit(a, d, k, 8);
    } else if p == 4 {
        let ghost a = (if c[0] { 1int } else { 0 }) + (if c[1] { 2int } else { 0 }) + (if c[2] { 4int } else { 0 }) + (if c[3] { 8int } else { 0 });
        let ghost d = (if c[4] { 1int } else { 0 });
        let ghost k = (if c[5] { 1int } else { 0 }) + (if c[6] { 2int } else { 0 }) + (if c[7] { 4int } else { 0 });
        assert(v == a + d * 16 + 2 * 16 * k);
        lemma_digit(a, d, k, 16);
    } else if p == 5 {
        let ghost a = (if c[0] { 1int } else { 0 }) + (if c[1] { 2int } else { 0 }) + (if c[2] { 4int } else { 0 }) + (if c[3] { 8int } else { 0 }) + (if c[4] { 16int } else { 0 });
        let ghost d = (if c[5] { 1int } else { 0 });
        let ghost k = (if c[6] { 1int } else { 0 }) + (if c[7] { 2int } else { 0 });
        assert(v == a + d * 32 + 2 * 32 * k);
        lemma_digit(a, d, k, 32);
    } else if p == 6 {
        let ghost a = (if c[0] { 1int } else { 0 }) + (if c[1] { 2int } else { 0 }) + (if c[2] { 4int } else { 0 }) + (if c[3] { 8int } else { 0 }) + (if c[4] { 16int } else { 0 }) + (if c[5] { 32int } else { 0 });
        let ghost d = (if c[6] { 1int } else { 0 });
        let ghost k = (if c[7] { 1int } else { 0 });
        assert(v == a + d * 64 + 2 * 64 * k);
        lemma_digit(a, d, k, 64);
    } else if p == 7 {
        let ghost a = (if c[0] { 1int } else { 0 }) + (if c[1] { 2int } else { 0 }) + (if c[2] { 4int } else { 0 }) + (if c[3] { 8int } else { 0 }) + (if c[4] { 16int } else { 0 }) + (if c[5] { 32int } else { 0 }) + (if c[6] { 64int } else { 0 });
        let ghost d = (if c[7] { 1int } else { 0 });
        let ghost k = 0int;
        assert(v == a + d * 128 + 2 * 128 * k);
        lemma_digit(a, d, k, 128);
    }
}

/// Bit `p` of byte `b` of raster line `row` is set exactly when the pixel in
/// column `8 * (89 - b) + p` of that row prints black.
pub proof fn lemma_raster_bit(g: Picture, row: int, b: int, p: int)
    requires
        0 <= b < 90,
        0 <= p < 8,
    ensures
        (raster_line(g, row)[b] as int / weight(p as nat) as int) % 2 == 1 <==> is_black(
            g,
            column_at(b, p),
            row,
        ),
{
    let c = Seq::new(8, |q: int| is_black(g, column_at(b, q), row));
    assert(low_bits(g, row, b, 8) == bits_value(c)) by {
        assert(low_bits(g, row, b, 0) == 0);
        assert(weight(0) == 1);
        assert(weight(1) == 2);
        assert(weight(2) == 4);
        assert(weight(3) == 8);
        assert(weight(4) == 16);
        assert(weight(5) == 32);
        assert(weight(6) == 64);
        assert(weight(7) == 128);
        assert(low_bits(g, row, b, 1) == low_bits(g, row, b, 0) + if c[0] { 1nat } else { 0 });
        assert(low_bits(g, row, b, 2) == low_bits(g, row, b, 1) + if c[1] { 2nat } else { 0 });
        assert(low_bits(g, row, b, 3) == low_bits(g, row, b, 2) + if c[2] { 4nat } else { 0 });
        assert(low_bits(g, row, b, 4) == low_bits(g, row, b, 3) + if c[3] { 8nat } else { 0 });
        assert(low_bits(g, row, b, 5) == low_bits(g, row, b, 4) + if c[4] { 16nat } else { 0 });
        assert(low_bits(g, row, b, 6) == low_bits(g, row, b, 5) + if c[5] { 32nat } else { 0 });
        assert(low_bits(g, row, b, 7) == low_bits(g, row, b, 6) + if c[6] { 64nat } else { 0 });
        assert(low_bits(g, row, b, 8) == low_bits(g, row, b, 7) + if c[7] { 128nat } else { 0 });
    }
    lemma_low_bits_bound(g, row, b, 8);
    lemma_weight_bounds(8);
    lemma_bit_of_value(c, p);
}

} // verus!
