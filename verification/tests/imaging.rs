use screen_grabber::imaging::{crop_png, draw_circle_png, draw_rectangle_png, highlight_png, png_rgba};

fn sample(width: u32, height: u32) -> image::RgbaImage {
    image::RgbaImage::from_fn(width, height, |x, y| image::Rgba([x as u8 * 10, y as u8 * 10, 7, 255]))
}

fn png_of(img: &image::RgbaImage) -> Vec<u8> {
    let mut out = Vec::new();
    image::DynamicImage::ImageRgba8(img.clone())
        .write_to(&mut std::io::Cursor::new(&mut out), image::ImageOutputFormat::Png)
        .unwrap();
    out
}

fn decoded(png: &[u8]) -> image::RgbaImage {
    image::load_from_memory_with_format(png, image::ImageFormat::Png).unwrap().to_rgba8()
}

#[test]
fn operations_refuse_bytes_that_are_no_png() {
    assert!(crop_png(&[1, 2, 3, 4], 0, 0, 1, 1).is_none());
    assert!(draw_rectangle_png(&[0u8; 10], 0, 0, 1, 1, (0, 0, 0, 255)).is_none());
    assert!(draw_circle_png(&[], 0, 0, 1, (0, 0, 0, 255)).is_none());
    assert!(highlight_png(&[9], &vec![(0, 0), (1, 1)], (0, 0, 0, 255)).is_none());
}

#[test]
fn whole_crop_keeps_every_pixel() {
    let img = sample(5, 4);
    let png = png_of(&img);
    assert_eq!(decoded(&crop_png(&png, 0, 0, 5, 4).unwrap()), img);
}

#[test]
fn crop_copies_the_rectangle() {
    let img = sample(6, 5);
    let out = decoded(&crop_png(&png_of(&img), 1, 2, 3, 2).unwrap());
    assert_eq!(out.dimensions(), (3, 2));
    for y in 0..2 {
        for x in 0..3 {
            assert_eq!(out.get_pixel(x, y), img.get_pixel(x + 1, y + 2));
        }
    }
}

#[test]
fn crop_is_clipped_to_the_image() {
    let png = png_of(&sample(4, 4));
    assert_eq!(decoded(&crop_png(&png, 3, 1, 10, 10).unwrap()).dimensions(), (1, 3));
}

#[test]
fn rectangle_outline_is_drawn() {
    let img = image::RgbaImage::from_pixel(6, 6, image::Rgba([0, 0, 0, 255]));
    let out = decoded(&draw_rectangle_png(&png_of(&img), 1, 1, 4, 4, (255, 0, 0, 255)).unwrap());
    assert_eq!(out.dimensions(), (6, 6));
    assert_eq!(out.get_pixel(1, 1), &image::Rgba([255, 0, 0, 255]));
    assert_eq!(out.get_pixel(4, 2), &image::Rgba([255, 0, 0, 255]));
    assert_eq!(out.get_pixel(2, 2), &image::Rgba([0, 0, 0, 255]));
    assert_eq!(out.get_pixel(0, 0), &image::Rgba([0, 0, 0, 255]));
}

#[test]
fn circle_outline_is_drawn() {
    let img = image::RgbaImage::from_pixel(9, 9, image::Rgba([0, 0, 0, 255]));
    let out = decoded(&draw_circle_png(&png_of(&img), 4, 4, 3, (0, 255, 0, 255)).unwrap());
    assert_eq!(out.dimensions(), (9, 9));
    assert_eq!(out.get_pixel(7, 4), &image::Rgba([0, 255, 0, 255]));
    assert_eq!(out.get_pixel(4, 4), &image::Rgba([0, 0, 0, 255]));
}

#[test]
fn highlighter_blends_over_the_polygon() {
    let img = image::RgbaImage::from_pixel(8, 8, image::Rgba([0, 0, 0, 255]));
    let poly = vec![(1, 1), (6, 1), (6, 6), (1, 6)];
    let out = decoded(&highlight_png(&png_of(&img), &poly, (255, 255, 0, 128)).unwrap());
    assert_eq!(out.dimensions(), (8, 8));
    let inside = out.get_pixel(3, 3);
    assert!(inside[0] > 0 && inside[0] < 255, "{:?}", inside);
    assert_eq!(inside[2], 0);
    assert_eq!(out.get_pixel(0, 7), &image::Rgba([0, 0, 0, 255]));
}

#[test]
fn png_rgba_gives_the_pixels() {
    let img = sample(3, 2);
    let p = png_rgba(&png_of(&img)).unwrap();
    assert_eq!((p.width, p.height), (3, 2));
    assert_eq!(p.data, img.into_raw());
    assert!(png_rgba(b"not a png").is_none());
}
