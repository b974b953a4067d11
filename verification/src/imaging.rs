use vstd::prelude::*;

verus! {

/// An RGBA image with 8 bits per channel: `data` holds the pixels row by
/// row, four bytes each.
pub struct RgbaPixels {
    pub width: u32,
    pub height: u32,
    pub data: Vec<u8>,
}

impl View for RgbaPixels {
    type V = (u32, u32, Seq<u8>);

    open spec fn view(&self) -> (u32, u32, Seq<u8>) {
        (self.width, self.height, self.data@)
    }
}

/// An image whose buffer holds exactly its pixels.
pub open spec fn well_formed(img: (u32, u32, Seq<u8>)) -> bool {
    img.2.len() == 4 * img.0 * img.1
}

impl RgbaPixels {
    pub open spec fn wf(&self) -> bool {
        well_formed(self@)
    }
}

/// A colour as red, green, blue and alpha bytes.
pub type Rgba8 = (u8, u8, u8, u8);

/// The RGBA image that decoding `bytes` as PNG gives, if they are a PNG.
pub uninterp spec fn png_decoded(bytes: Seq<u8>) -> Option<(u32, u32, Seq<u8>)>;

/// The PNG file that encoding the RGBA image gives, if encoding succeeds.
pub uninterp spec fn png_encoded(width: u32, height: u32, data: Seq<u8>) -> Option<Seq<u8>>;

/// The pixels of the image after drawing the outline of a rectangle.
pub uninterp spec fn hollow_rect_drawn(
    width: u32,
    height: u32,
    data: Seq<u8>,
    left: i32,
    top: i32,
    rect_width: u32,
    rect_height: u32,
    color: (u8, u8, u8, u8),
) -> Seq<u8>;

/// The pixels of the image after drawing the outline of a circle.
pub uninterp spec fn hollow_circle_drawn(
    width: u32,
    height: u32,
    data: Seq<u8>,
    center_x: i32,
    center_y: i32,
    radius: i32,
    color: (u8, u8, u8, u8),
) -> Seq<u8>;

/// The pixels of the image after filling a polygon.
pub uninterp spec fn polygon_drawn(
    width: u32,
    height: u32,
    data: Seq<u8>,
    points: Seq<(i32, i32)>,
    color: (u8, u8, u8, u8),
) -> Seq<u8>;

/// The pixels of the bottom image after the top image is blended over it,
/// the top image's corner placed at `(x, y)` of the bottom one.
pub uninterp spec fn overlaid(
    bottom_width: u32,
    bottom_height: u32,
    bottom: Seq<u8>,
    top_width: u32,
    top_height: u32,
    top: Seq<u8>,
    x: i64,
    y: i64,
) -> Seq<u8>;

/// The four bytes of the pixel at column `x`, row `y` of an RGBA buffer
/// `width` pixels wide.
pub open spec fn pixel_at(data: Seq<u8>, width: u32, x: int, y: int) -> Seq<u8> {
    data.subrange(4 * (y * width + x), 4 * (y * width + x) + 4)
}

/// Every point lies within 2^21 of the origin on both axes.
pub open spec fn near_origin(points: Seq<(i32, i32)>) -> bool {
    forall|i: int|
        0 <= i < points.len() ==> -0x20_0000 <= #[trigger] points[i].0 <= 0x20_0000 && -0x20_0000
            <= points[i].1 <= 0x20_0000
}

/// An image that the PNG decoder takes back after encoding: both sides
/// positive and at most 256 MiB of pixels.
pub open spec fn decodable_size(img: (u32, u32, Seq<u8>)) -> bool {
    img.0 > 0 && img.1 > 0 && img.2.len() <= 0x1000_0000
}

/// A circle that the outline drawer takes: a radius above `i32::MIN + 1`
/// (the drawer computes `1 - radius`) and at most 2^29, and a box around the
/// centre that stays inside the `i32` range.
pub open spec fn circle_in_range(center_x: i32, center_y: i32, radius: i32) -> bool {
    &&& i32::MIN + 1 < radius <= 0x2000_0000
    &&& radius >= 0 ==> i32::MIN + radius <= center_x && center_x + radius <= i32::MAX
    &&& radius >= 0 ==> i32::MIN + radius <= center_y && center_y + radius <= i32::MAX
}

/// Where a crop starts along one axis: the requested start, at most the size.
pub open spec fn crop_origin(size: u32, at: u32) -> u32 {
    if at < size {
        at
    } else {
        size
    }
}

/// How far a crop reaches along one axis: the requested extent, at most what
/// is left of the image after the start.
pub open spec fn crop_extent(size: u32, at: u32, want: u32) -> u32 {
    let o = crop_origin(size, at);
    if want < size - o {
        want
    } else {
        (size - o) as u32
    }
}

/// The part of `img` in the rectangle at `(x, y)` of `w` by `h` pixels,
/// clipped to the image, as `image::imageops::crop_imm` cuts it.
pub open spec fn cropped(img: (u32, u32, Seq<u8>), x: u32, y: u32, w: u32, h: u32) -> (u32, u32, Seq<u8>) {
    let x0 = crop_origin(img.0, x);
    let y0 = crop_origin(img.1, y);
    let cw = crop_extent(img.0, x, w);
    let ch = crop_extent(img.1, y, h);
    (
        cw,
        ch,
        Seq::new(
            (4 * cw * ch) as nat,
            |k: int| img.2[4 * ((y0 + (k / 4) / (cw as int)) * img.0 + x0 + (k / 4) % (cw as int)) + k % 4],
        ),
    )
}

/// Decodes PNG bytes into an RGBA image (`image::load_from_memory_with_format`
/// with the PNG format, then `DynamicImage::to_rgba8`). The contract says
/// that the result is the named decoding of the bytes, that its buffer holds
/// exactly its pixels, and that it has at least one row and one column (the
/// `png` crate refuses a header with a zero side); what the decoding is, is
/// not stated.
#[verifier::external_body]
pub(crate) fn decode_png(bytes: &[u8]) -> (r: Option<RgbaPixels>)
    ensures
        r is None <==> png_decoded(bytes@) is None,
        r matches Some(p) ==> png_decoded(bytes@) == Some(p@) && p.wf() && p.width > 0 && p.height > 0,
{
    match image::load_from_memory_with_format(bytes, image::ImageFormat::Png) {
        Ok(img) => {
            let rgba = img.to_rgba8();
            Some(RgbaPixels { width: rgba.width(), height: rgba.height(), data: rgba.into_raw() })
        },
        Err(_) => None,
    }
}

/// Encodes an RGBA image as PNG (`DynamicImage::write_to` with the PNG
/// output format). The contract says that the result is the named encoding
/// of the image, that it is never empty (the encoder writes the PNG
/// signature first), and that PNG being lossless, decoding it gives the
/// image back. That last clause is guarded: decoding refuses a zero side,
/// and its default allocation limit of 512 MiB refuses the largest images,
/// so it is stated for images with both sides positive and at most 256 MiB
/// of pixels. The bytes themselves are not stated.
#[verifier::external_body]
pub(crate) fn encode_png(img: &RgbaPixels) -> (r: Option<Vec<u8>>)
    requires
        img.wf(),
    ensures
        r is None <==> png_encoded(img.width, img.height, img.data@) is None,
        r matches Some(v) ==> png_encoded(img.width, img.height, img.data@) == Some(v@),
        r matches Some(v) ==> v@.len() > 0,
        r matches Some(v) ==> (decodable_size(img@) ==> png_decoded(v@) == Some(img@)),
{
    let buffer = image::RgbaImage::from_raw(img.width, img.height, img.data.clone())?;
    let mut out: Vec<u8> = Vec::new();
    match image::DynamicImage::ImageRgba8(buffer).write_to(
        &mut std::io::Cursor::new(&mut out),
        image::ImageOutputFormat::Png,
    ) {
        Ok(()) => Some(out),
        Err(_) => None,
    }
}

/// Cuts a rectangle out of an image (`image::imageops::crop_imm`, then
/// `SubImage::to_image`): the rectangle is clipped to the image and its
/// pixels are copied, as [`cropped`] states.
#[verifier::external_body]
pub(crate) fn crop_pixels(img: &RgbaPixels, x: u32, y: u32, w: u32, h: u32) -> (r: RgbaPixels)
    requires
        img.wf(),
    ensures
        r@ == cropped(img@, x, y, w, h),
        r.wf(),
{
    let buffer = image::RgbaImage::from_raw(img.width, img.height, img.data.clone()).unwrap();
    let part = image::imageops::crop_imm(&buffer, x, y, w, h).to_image();
    RgbaPixels { width: part.width(), height: part.height(), data: part.into_raw() }
}

/// Draws the outline of a rectangle (`imageproc::drawing::draw_hollow_rect`
/// with `imageproc::rect::Rect::at(left, top).of_size(w, h)`). The result
/// has the size of the image; its pixels are the named drawing. `of_size`
/// panics on a zero side; `Rect::right` computes `left + w` in `i32`, and
/// the line drawer steps an `i32` up to an edge taken through `f32`, which
/// overflows for an edge at or near 2^31, so the far edges are kept at most
/// 2^30.
#[verifier::external_body]
pub(crate) fn draw_hollow_rect_pixels(img: &RgbaPixels, left: i32, top: i32, w: u32, h: u32, color: Rgba8) -> (r: RgbaPixels)
    requires
        img.wf(),
        0 < w <= i32::MAX,
        0 < h <= i32::MAX,
        left + w <= 0x4000_0000,
        top + h <= 0x4000_0000,
    ensures
        r.width == img.width,
        r.height == img.height,
        r.data@ == hollow_rect_drawn(img.width, img.height, img.data@, left, top, w, h, color),
        r.wf(),
{
    let buffer = image::RgbaImage::from_raw(img.width, img.height, img.data.clone()).unwrap();
    let rect = imageproc::rect::Rect::at(left, top).of_size(w, h);
    let out = imageproc::drawing::draw_hollow_rect(&buffer, rect, image::Rgba([color.0, color.1, color.2, color.3]));
    RgbaPixels { width: out.width(), height: out.height(), data: out.into_raw() }
}

/// Draws the outline of a circle (`imageproc::drawing::draw_hollow_circle`).
/// The result has the size of the image; its pixels are the named drawing.
/// The crate's midpoint loop computes `1 - radius`, `2 * x + 1` and the
/// eight points `center ± x`, `center ± y` with `0 <= x, y <= radius` in
/// `i32`: the radius is kept at most 2^29 and the circle's box inside the
/// `i32` range, so none of them overflows. A negative radius draws nothing.
#[verifier::external_body]
pub(crate) fn draw_hollow_circle_pixels(img: &RgbaPixels, center_x: i32, center_y: i32, radius: i32, color: Rgba8) -> (r: RgbaPixels)
    requires
        img.wf(),
        circle_in_range(center_x, center_y, radius),
    ensures
        r.width == img.width,
        r.height == img.height,
        r.data@ == hollow_circle_drawn(img.width, img.height, img.data@, center_x, center_y, radius, color),
        r.wf(),
{
    let buffer = image::RgbaImage::from_raw(img.width, img.height, img.data.clone()).unwrap();
    let out = imageproc::drawing::draw_hollow_circle(
        &buffer,
        (center_x, center_y),
        radius,
        image::Rgba([color.0, color.1, color.2, color.3]),
    );
    RgbaPixels { width: out.width(), height: out.height(), data: out.into_raw() }
}

/// Fills a polygon (`imageproc::drawing::draw_polygon`). The result has the
/// size of the image; its pixels are the named drawing. Two facts of the
/// source are stated besides: the filler writes nothing but `color`, through
/// `put_pixel`, so each pixel either keeps its value or becomes the colour's
/// four channels in order; and it draws every edge with a Bresenham line
/// whose iterator visits both ends, so each corner inside the image gets the
/// colour. The iterator works in `f32`; the second fact is stated for
/// corners within 2^21 of the origin, where that arithmetic is exact. Which
/// other pixels are filled is not stated. The crate panics
/// when the first and last points are equal, and on an image without rows
/// it still scans row 0 and writes out of bounds, so both sides must be
/// positive; the points and the image size are bounded so that its `i32`
/// arithmetic cannot overflow.
#[verifier::external_body]
pub(crate) fn draw_polygon_pixels(img: &RgbaPixels, points: &Vec<(i32, i32)>, color: Rgba8) -> (r: RgbaPixels)
    requires
        img.wf(),
        0 < img.width <= i32::MAX,
        0 < img.height <= i32::MAX,
        points@.len() > 0 ==> points@[0] != points@.last(),
        forall|i: int|
            0 <= i < points@.len() ==> -0x2000_0000 <= #[trigger] points@[i].0 <= 0x2000_0000
                && -0x2000_0000 <= points@[i].1 <= 0x2000_0000,
    ensures
        r.width == img.width,
        r.height == img.height,
        r.data@ == polygon_drawn(img.width, img.height, img.data@, points@, color),
        r.wf(),
        forall|x: int, y: int|
            0 <= x < img.width && 0 <= y < img.height ==> #[trigger] pixel_at(r.data@, img.width, x, y)
                == pixel_at(img.data@, img.width, x, y) || pixel_at(r.data@, img.width, x, y) == seq![
                color.0,
                color.1,
                color.2,
                color.3,
            ],
        near_origin(points@) ==> forall|i: int|
            0 <= i < points@.len() && 0 <= #[trigger] points@[i].0 < img.width && 0 <= points@[i].1
                < img.height ==> pixel_at(r.data@, img.width, points@[i].0 as int, points@[i].1 as int)
                == seq![color.0, color.1, color.2, color.3],
{
    let buffer = image::RgbaImage::from_raw(img.width, img.height, img.data.clone()).unwrap();
    let poly: Vec<imageproc::point::Point<i32>> =
        points.iter().map(|p| imageproc::point::Point::new(p.0, p.1)).collect();
    let out = imageproc::drawing::draw_polygon(&buffer, &poly, image::Rgba([color.0, color.1, color.2, color.3]));
    RgbaPixels { width: out.width(), height: out.height(), data: out.into_raw() }
}

/// Blends `top` over `bottom` with its corner at `(x, y)`
/// (`image::imageops::overlay`). The bottom image keeps its size; its
/// pixels become the named blend.
#[verifier::external_body]
pub(crate) fn overlay_pixels(bottom: &mut RgbaPixels, top: &RgbaPixels, x: i64, y: i64)
    requires
        old(bottom).wf(),
        top.wf(),
    ensures
        final(bottom).width == old(bottom).width,
        final(bottom).height == old(bottom).height,
        final(bottom).data@ == overlaid(
            old(bottom).width,
            old(bottom).height,
            old(bottom).data@,
            top.width,
            top.height,
            top.data@,
            x,
            y,
        ),
        final(bottom).wf(),
{
    let mut below = image::RgbaImage::from_raw(bottom.width, bottom.height, bottom.data.clone()).unwrap();
    let above = image::RgbaImage::from_raw(top.width, top.height, top.data.clone()).unwrap();
    image::imageops::overlay(&mut below, &above, x, y);
    bottom.data = below.into_raw();
}


/// A result of drawing on the PNG `png`: when there is one, it is a
/// non-empty PNG, and unless the image is too large for the decoder to take
/// back, it decodes to an image of the same size.
pub open spec fn keeps_size(png: Seq<u8>, r: Option<Vec<u8>>) -> bool {
    match (png_decoded(png), r) {
        (Some(d), Some(v)) => {
            &&& v@.len() > 0
            &&& d.2.len() <= 0x1000_0000 ==> same_size(png_decoded(v@), d)
        },
        (None, Some(v)) => false,
        (_, None) => true,
    }
}

/// The decoding gives an image of the size of `d`.
pub open spec fn same_size(e: Option<(u32, u32, Seq<u8>)>, d: (u32, u32, Seq<u8>)) -> bool {
    match e {
        Some(e) => e.0 == d.0 && e.1 == d.1,
        None => false,
    }
}

/// The bytes held by an optional buffer.
pub open spec fn bytes_of(r: Option<Vec<u8>>) -> Option<Seq<u8>> {
    match r {
        Some(v) => Some(v@),
        None => None,
    }
}

/// The PNG of an image, if it can be encoded.
pub open spec fn encoded(img: (u32, u32, Seq<u8>)) -> Option<Seq<u8>> {
    png_encoded(img.0, img.1, img.2)
}

fn encode(img: &RgbaPixels) -> (r: Option<Vec<u8>>)
    requires
        img.wf(),
    ensures
        bytes_of(r) == encoded(img@),
        r matches Some(v) ==> v@.len() > 0 && (decodable_size(img@) ==> png_decoded(v@) == Some(img@)),
{
    encode_png(img)
}

/// A buffer of `n` zero bytes.
fn zeros(n: usize) -> (v: Vec<u8>)
    ensures
        v@ == Seq::new(n as nat, |i: int| 0u8),
{
    let mut v: Vec<u8> = Vec::new();
    for i in 0..n
        invariant
            v@ == Seq::new(i as nat, |k: int| 0u8),
    {
        v.push(0);
        assert(v@ =~= Seq::new((i + 1) as nat, |k: int| 0u8));
    }
    v
}

/// Decodes PNG bytes into RGBA pixels, at least one row and one column.
/// `None` when the bytes are no PNG.
pub fn png_rgba(png: &[u8]) -> (r: Option<RgbaPixels>)
    ensures
        r is None <==> png_decoded(png@) is None,
        r matches Some(p) ==> png_decoded(png@) == Some(p@) && p.wf() && p.width > 0 && p.height > 0,
{
    decode_png(png)
}

/// Crops a PNG image to the rectangle at `(x, y)` of `w` by `h` pixels
/// (clipped to the image) and encodes the part as an RGBA PNG, whatever the
/// colour type of the input. `None` when the bytes
/// are no PNG or the part cannot be encoded.
pub fn crop_png(png: &[u8], x: u32, y: u32, w: u32, h: u32) -> (r: Option<Vec<u8>>)
    ensures
        match png_decoded(png@) {
            None => r is None,
            Some(d) => bytes_of(r) == encoded(cropped(d, x, y, w, h)),
        },
        match (png_decoded(png@), r) {
            (Some(d), Some(v)) => {
                &&& v@.len() > 0
                &&& decodable_size(cropped(d, x, y, w, h)) ==> png_decoded(v@) == Some(cropped(d, x, y, w, h))
            },
            _ => true,
        },
{
    match decode_png(png) {
        None => None,
        Some(img) => {
            let part = crop_pixels(&img, x, y, w, h);
            encode(&part)
        },
    }
}

/// Draws the outline of a rectangle on a PNG image and encodes the result.
/// `None` when the bytes are no PNG or the result cannot be encoded.
pub fn draw_rectangle_png(png: &[u8], left: i32, top: i32, w: u32, h: u32, color: Rgba8) -> (r: Option<Vec<u8>>)
    requires
        0 < w <= i32::MAX,
        0 < h <= i32::MAX,
        left + w <= 0x4000_0000,
        top + h <= 0x4000_0000,
    ensures
        match png_decoded(png@) {
            None => r is None,
            Some(d) => bytes_of(r) == png_encoded(d.0, d.1, hollow_rect_drawn(d.0, d.1, d.2, left, top, w, h, color)),
        },
        keeps_size(png@, r),
{
    match decode_png(png) {
        None => None,
        Some(img) => {
            let drawn = draw_hollow_rect_pixels(&img, left, top, w, h, color);
            encode(&drawn)
        },
    }
}

/// Draws the outline of a circle on a PNG image and encodes the result.
/// `None` when the bytes are no PNG or the result cannot be encoded.
pub fn draw_circle_png(png: &[u8], center_x: i32, center_y: i32, radius: i32, color: Rgba8) -> (r: Option<Vec<u8>>)
    requires
        circle_in_range(center_x, center_y, radius),
    ensures
        keeps_size(png@, r),
        match png_decoded(png@) {
            None => r is None,
            Some(d) => bytes_of(r) == png_encoded(
                d.0,
                d.1,
                hollow_circle_drawn(d.0, d.1, d.2, center_x, center_y, radius, color),
            ),
        },
{
    match decode_png(png) {
        None => None,
        Some(img) => {
            let drawn = draw_hollow_circle_pixels(&img, center_x, center_y, radius, color);
            encode(&drawn)
        },
    }
}

/// What highlighting gives for a decoded image: the polygon is filled on a
/// transparent layer of the image's size, and the layer is blended over the
/// image.
pub open spec fn highlighted(d: (u32, u32, Seq<u8>), points: Seq<(i32, i32)>, color: (u8, u8, u8, u8)) -> (u32, u32, Seq<u8>) {
    let layer = polygon_drawn(d.0, d.1, Seq::new(d.2.len(), |i: int| 0u8), points, color);
    (d.0, d.1, overlaid(d.0, d.1, d.2, d.0, d.1, layer, 0, 0))
}

/// Highlights the polygon through `points` on a PNG image: the polygon is
/// filled with `color` (whose alpha makes it see-through) on a transparent
/// layer, which is blended over the image; the result is encoded. `None`
/// when the bytes are no PNG, when the image is too large for the polygon
/// filler's `i32` arithmetic, or when the result cannot be encoded.
pub fn highlight_png(png: &[u8], points: &Vec<(i32, i32)>, color: Rgba8) -> (r: Option<Vec<u8>>)
    requires
        points@.len() > 0 ==> points@[0] != points@.last(),
        forall|i: int|
            0 <= i < points@.len() ==> -0x2000_0000 <= #[trigger] points@[i].0 <= 0x2000_0000
                && -0x2000_0000 <= points@[i].1 <= 0x2000_0000,
    ensures
        match png_decoded(png@) {
            None => r is None,
            Some(d) => if d.0 > i32::MAX || d.1 > i32::MAX {
                r is None
            } else {
                &&& bytes_of(r) == encoded(highlighted(d, points@, color))
                &&& exists|layer: Seq<u8>|
                    #![trigger overlaid(d.0, d.1, d.2, d.0, d.1, layer, 0, 0)]
                    {
                        &&& bytes_of(r) == png_encoded(d.0, d.1, overlaid(d.0, d.1, d.2, d.0, d.1, layer, 0, 0))
                        &&& layer.len() == d.2.len()
                        &&& forall|x: int, y: int|
                            0 <= x < d.0 && 0 <= y < d.1 ==> #[trigger] pixel_at(layer, d.0, x, y) == seq![
                                0u8,
                                0u8,
                                0u8,
                                0u8,
                            ] || pixel_at(layer, d.0, x, y) == seq![color.0, color.1, color.2, color.3]
                        &&& near_origin(points@) ==> forall|i: int|
                            0 <= i < points@.len() && 0 <= #[trigger] points@[i].0 < d.0 && 0 <= points@[i].1
                                < d.1 ==> pixel_at(layer, d.0, points@[i].0 as int, points@[i].1 as int)
                                == seq![color.0, color.1, color.2, color.3]
                    }
            },
        },
        keeps_size(png@, r),
{
    match decode_png(png) {
        None => None,
        Some(img) => {
            if img.width > 0x7fff_ffff || img.height > 0x7fff_ffff {
                return None;
            }
            let clear = RgbaPixels { width: img.width, height: img.height, data: zeros(img.data.len()) };
            let layer = draw_polygon_pixels(&clear, points, color);
            let ghost d = img@;
            let mut out = img;
            overlay_pixels(&mut out, &layer, 0, 0);
            let res = encode(&out);
            proof {
                let l = layer.data@;
                assert forall|x: int, y: int| 0 <= x < d.0 && 0 <= y < d.1 implies #[trigger] pixel_at(l, d.0, x, y)
                    == seq![0u8, 0u8, 0u8, 0u8] || pixel_at(l, d.0, x, y) == seq![
                    color.0,
                    color.1,
                    color.2,
                    color.3,
                ] by {
                    let w = d.0 as int;
                    let h = d.1 as int;
                    assert(y * w + x + 1 <= w * h) by (nonlinear_arith)
                        requires
                            0 <= x < w,
                            0 <= y < h,
                    ;
                    assert(4 * w * h == 4 * (w * h)) by (nonlinear_arith);
                    assert(clear.data@.len() == 4 * (w * h));
                    assert(pixel_at(clear.data@, d.0, x, y) =~= seq![0u8, 0u8, 0u8, 0u8]);
                }
                assert(overlaid(d.0, d.1, d.2, d.0, d.1, l, 0, 0) == out.data@);
            }
            res
        },
    }
}

/// A crop never reaches outside the image nor beyond the size asked for.
pub proof fn law_crop_stays_inside(img: (u32, u32, Seq<u8>), x: u32, y: u32, w: u32, h: u32)
    ensures
        cropped(img, x, y, w, h).0 <= w,
        cropped(img, x, y, w, h).1 <= h,
        crop_origin(img.0, x) + cropped(img, x, y, w, h).0 <= img.0,
        crop_origin(img.1, y) + cropped(img, x, y, w, h).1 <= img.1,
        well_formed(cropped(img, x, y, w, h)),
{
}

/// Cropping an image to its whole area gives the image back.
pub proof fn law_crop_whole_image_is_identity(img: (u32, u32, Seq<u8>))
    requires
        well_formed(img),
    ensures
        cropped(img, 0, 0, img.0, img.1) == img,
{
    let c = cropped(img, 0, 0, img.0, img.1);
    let wd = img.0 as int;
    assert(c.0 == img.0 && c.1 == img.1);
    assert forall|k: int| 0 <= k < c.2.len() implies #[trigger] c.2[k] == img.2[k] by {
        let p = k / 4;
        assert(wd > 0) by {
            if wd == 0 {
                assert(4 * img.0 * img.1 == 0) by (nonlinear_arith)
                    requires
                        img.0 == 0,
                ;
            }
        }
        vstd::arithmetic::div_mod::lemma_fundamental_div_mod(p, wd);
        vstd::arithmetic::div_mod::lemma_fundamental_div_mod(k, 4);
        assert(4 * ((p / wd) * wd + p % wd) + k % 4 == k) by (nonlinear_arith)
            requires
                p == wd * (p / wd) + p % wd,
                k == 4 * (k / 4) + k % 4,
                p == k / 4,
        ;
    }
    assert(c.2 =~= img.2);
}

} // verus!
