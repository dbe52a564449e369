use image_meme::{Image, Pixel};

fn solid(w: u32, h: u32, px: [u8; 4]) -> Image {
    let buf = image::RgbaImage::from_pixel(w, h, image::Rgba(px));
    Image::from_raster(image::DynamicImage::ImageRgba8(buf)).unwrap()
}

fn gradient(w: u32, h: u32) -> Image {
    let buf = image::RgbaImage::from_fn(w, h, |x, y| {
        image::Rgba([x as u8, y as u8, (x + 2 * y) as u8, 255])
    });
    Image::from_raster(image::DynamicImage::ImageRgba8(buf)).unwrap()
}

fn pixels_of(img: &Image) -> Vec<(u32, u32, Pixel)> {
    let (w, h) = img.dimensions();
    let mut out = Vec::new();
    for y in 0..h {
        for x in 0..w {
            out.push((x, y, img.get_pixel(x, y).unwrap()));
        }
    }
    out
}

#[test]
fn rotate90_four_times_identity() {
    let img = gradient(3, 2);
    let rotated = img.rotate90().rotate90().rotate90().rotate90();
    assert_eq!(rotated.dimensions(), (3, 2));
    assert_eq!(pixels_of(&img), pixels_of(&rotated));
}

#[test]
fn fliph_twice_identity() {
    let img = gradient(4, 3);
    let flipped = img.fliph().fliph();
    assert_eq!(flipped.dimensions(), (4, 3));
    assert_eq!(pixels_of(&img), pixels_of(&flipped));
}

#[test]
fn rotate90_moves_pixels_clockwise() {
    let img = gradient(2, 1);
    let left = img.get_pixel(0, 0).unwrap();
    let right = img.get_pixel(1, 0).unwrap();
    let r = img.rotate90();
    assert_eq!(r.dimensions(), (1, 2));
    assert_eq!(r.get_pixel(0, 0).unwrap(), left);
    assert_eq!(r.get_pixel(0, 1).unwrap(), right);
}

#[test]
fn rotate180_mirrors_both_axes() {
    let img = gradient(3, 2);
    let r = img.rotate180();
    assert_eq!(r.dimensions(), (3, 2));
    assert_eq!(r.get_pixel(0, 0).unwrap(), img.get_pixel(2, 1).unwrap());
    assert_eq!(r.get_pixel(2, 0).unwrap(), img.get_pixel(0, 1).unwrap());
}

#[test]
fn rotate270_is_inverse_of_rotate90() {
    let img = gradient(3, 2);
    let r = img.rotate90().rotate270();
    assert_eq!(pixels_of(&img), pixels_of(&r));
}

#[test]
fn flipv_mirrors_rows() {
    let img = gradient(2, 3);
    let r = img.flipv();
    assert_eq!(r.get_pixel(0, 0).unwrap(), img.get_pixel(0, 2).unwrap());
    assert_eq!(r.get_pixel(1, 1).unwrap(), img.get_pixel(1, 1).unwrap());
}

#[test]
fn brighten_scenario_black_plus_fifty() {
    let bytes = solid(4, 4, [0, 0, 0, 255])
        .as_bytes(&image_meme::FormatToken::Name("PNG".to_string()))
        .unwrap();
    let img = Image::from_bytes(&bytes).unwrap();
    let bright = img.brighten(50);
    let p = bright.get_pixel(0, 0).unwrap();
    assert_eq!((p.r, p.g, p.b, p.a), (50, 50, 50, 255));
}

#[test]
fn brighten_clamps_and_darkens() {
    let img = solid(2, 2, [250, 10, 128, 200]);
    let up = img.brighten(20);
    let p = up.get_pixel(1, 1).unwrap();
    assert_eq!((p.r, p.g, p.b, p.a), (255, 30, 148, 200));
    let down = img.brighten(-20);
    let q = down.get_pixel(0, 0).unwrap();
    assert_eq!((q.r, q.g, q.b, q.a), (230, 0, 108, 200));
}

#[test]
fn invert_in_place_flips_channels() {
    let mut img = solid(2, 2, [0, 0, 0, 255]);
    img.invert();
    let p = img.get_pixel(0, 0).unwrap();
    assert_eq!((p.r, p.g, p.b, p.a), (255, 255, 255, 255));
    img.invert();
    let q = img.get_pixel(1, 0).unwrap();
    assert_eq!((q.r, q.g, q.b, q.a), (0, 0, 0, 255));
}

#[test]
fn grayscale_uses_luminance_and_keeps_alpha() {
    let img = solid(2, 2, [200, 100, 50, 180]);
    let g = img.grayscale();
    assert_eq!(g.dimensions(), (2, 2));
    let p = g.get_pixel(0, 0).unwrap();
    let expected = ((2126u32 * 200 + 7152 * 100 + 722 * 50) / 10000) as u8;
    assert_eq!((p.r, p.g, p.b, p.a), (expected, expected, expected, 180));
}

#[test]
fn huerotate_zero_is_identity() {
    let img = gradient(3, 3);
    let r = img.huerotate(0);
    assert_eq!(pixels_of(&img), pixels_of(&r));
}

#[test]
fn huerotate_keeps_alpha() {
    let img = solid(2, 2, [10, 200, 30, 77]);
    let r = img.huerotate(180);
    assert_eq!(r.get_pixel(0, 0).unwrap().a, 77);
}

#[test]
fn fliph_mirrors_columns() {
    let img = gradient(3, 2);
    let r = img.fliph();
    assert_eq!(r.get_pixel(0, 0).unwrap(), img.get_pixel(2, 0).unwrap());
    assert_eq!(r.get_pixel(2, 1).unwrap(), img.get_pixel(0, 1).unwrap());
}

#[test]
fn rotate270_moves_pixels_counterclockwise() {
    let img = gradient(2, 1);
    let left = img.get_pixel(0, 0).unwrap();
    let right = img.get_pixel(1, 0).unwrap();
    let r = img.rotate270();
    assert_eq!(r.dimensions(), (1, 2));
    assert_eq!(r.get_pixel(0, 0).unwrap(), right);
    assert_eq!(r.get_pixel(0, 1).unwrap(), left);
}

#[test]
fn huerotate_by_half_turn_changes_red() {
    let img = solid(2, 2, [255, 0, 0, 255]);
    let r = img.huerotate(180);
    let p = r.get_pixel(0, 0).unwrap();
    assert_ne!((p.r, p.g, p.b, p.a), (255, 0, 0, 255));
    assert_eq!(p.r, 0);
    assert_eq!(p.a, 255);
}

#[test]
fn huerotate_full_turn_is_identity() {
    let img = gradient(3, 3);
    let r = img.huerotate(360);
    assert_eq!(pixels_of(&img), pixels_of(&r));
}
