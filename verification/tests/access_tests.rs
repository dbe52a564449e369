use image_meme::{ErrorKind, Image, Pixel};

fn solid(w: u32, h: u32, px: [u8; 4]) -> Image {
    let buf = image::RgbaImage::from_pixel(w, h, image::Rgba(px));
    Image::from_raster(image::DynamicImage::ImageRgba8(buf)).unwrap()
}

fn kind_of<T>(r: Result<T, image_meme::ImgError>) -> ErrorKind {
    match r {
        Ok(_) => panic!("expected an error"),
        Err(e) => e.kind(),
    }
}

#[test]
fn accessors_report_the_rectangle() {
    let img = solid(5, 3, [9, 9, 9, 255]);
    assert_eq!(img.dimensions(), (5, 3));
    assert_eq!(img.width(), 5);
    assert_eq!(img.height(), 3);
    assert_eq!(img.bounds(), (0, 0, 5, 3));
}

#[test]
fn in_bounds_is_total() {
    let img = solid(4, 4, [0, 0, 0, 255]);
    assert!(img.in_bounds(0, 0));
    assert!(img.in_bounds(3, 3));
    assert!(!img.in_bounds(4, 3));
    assert!(!img.in_bounds(3, 4));
    assert!(!img.in_bounds(u32::MAX, 0));
}

#[test]
fn get_pixel_fails_outside_the_rectangle() {
    let img = solid(4, 4, [1, 2, 3, 255]);
    assert_eq!(kind_of(img.get_pixel(4, 0)), ErrorKind::Bounds);
    assert_eq!(kind_of(img.get_pixel(0, 4)), ErrorKind::Bounds);
    assert_eq!(kind_of(img.get_pixel(100, 100)), ErrorKind::Bounds);
}

#[test]
fn get_pixel_succeeds_inside_the_rectangle() {
    let img = solid(4, 4, [1, 2, 3, 4]);
    for x in 0..4 {
        for y in 0..4 {
            let p = img.get_pixel(x, y).unwrap();
            assert_eq!((p.r, p.g, p.b, p.a), (1, 2, 3, 4));
        }
    }
}

#[test]
fn put_pixel_fails_outside_the_rectangle() {
    let mut img = solid(4, 4, [0, 0, 0, 255]);
    let red = Pixel::new(255, 0, 0, 255);
    assert_eq!(kind_of(img.put_pixel(4, 0, red)), ErrorKind::Bounds);
    assert_eq!(kind_of(img.put_pixel(0, 4, red)), ErrorKind::Bounds);
    let p = img.get_pixel(3, 3).unwrap();
    assert_eq!((p.r, p.g, p.b, p.a), (0, 0, 0, 255));
}

#[test]
fn put_pixel_overwrites_one_pixel() {
    let mut img = solid(3, 3, [0, 0, 0, 255]);
    let red = Pixel::new(200, 10, 20, 130);
    img.put_pixel(1, 2, red).unwrap();
    assert_eq!(img.get_pixel(1, 2).unwrap(), red);
    let other = img.get_pixel(0, 0).unwrap();
    assert_eq!((other.r, other.g, other.b, other.a), (0, 0, 0, 255));
}

#[test]
fn raw_pixels_are_interleaved_row_major() {
    let mut img = solid(2, 1, [1, 2, 3, 4]);
    img.put_pixel(1, 0, Pixel::new(5, 6, 7, 8)).unwrap();
    assert_eq!(img.raw_pixels(), vec![1, 2, 3, 4, 5, 6, 7, 8]);
}
