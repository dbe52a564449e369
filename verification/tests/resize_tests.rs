use image_meme::{ErrorKind, Image};

fn solid(w: u32, h: u32, px: [u8; 4]) -> Image {
    let buf = image::RgbaImage::from_pixel(w, h, image::Rgba(px));
    Image::from_raster(image::DynamicImage::ImageRgba8(buf)).unwrap()
}

fn kind_of<T>(r: Result<T, image_meme::ImgError>) -> ErrorKind {
    match r {
        Ok(_) => panic!("expected an error"),
        Err(e) => e.kind(),
    }
}

#[test]
fn resize_exact_hits_requested_dimensions_for_every_filter() {
    let img = solid(10, 6, [5, 5, 5, 255]);
    for name in ["Nearest", "Triangle", "CatmullRom", "Gaussian", "Lanczos3"] {
        let r = img.resize_exact(7, 5, name).unwrap();
        assert_eq!(r.dimensions(), (7, 5));
    }
}

#[test]
fn resize_fits_within_bounds_keeping_aspect() {
    let img = solid(10, 5, [5, 5, 5, 255]);
    let r = img.resize(4, 4, "Nearest").unwrap();
    assert_eq!(r.dimensions(), (4, 2));
}

#[test]
fn resize_touches_one_requested_axis() {
    let img = solid(6, 4, [5, 5, 5, 255]);
    let r = img.resize(3, 3, "Triangle").unwrap();
    let (w, h) = r.dimensions();
    assert!(w <= 3 && h <= 3);
    assert!(w == 3 || h == 3);
}

#[test]
fn resize_upscales_to_fit() {
    let img = solid(2, 1, [5, 5, 5, 255]);
    let r = img.resize(8, 8, "Nearest").unwrap();
    assert_eq!(r.dimensions(), (8, 4));
}

#[test]
fn resize_rejects_unknown_filter() {
    let img = solid(4, 4, [5, 5, 5, 255]);
    assert_eq!(kind_of(img.resize(2, 2, "BadFilter")), ErrorKind::Validation);
    assert_eq!(kind_of(img.resize_exact(2, 2, "nearest")), ErrorKind::Validation);
    assert_eq!(kind_of(img.resize_to_fill(2, 2, "")), ErrorKind::Validation);
}

#[test]
fn resize_to_fill_hits_requested_dimensions() {
    let img = solid(10, 5, [5, 5, 5, 255]);
    let r = img.resize_to_fill(4, 4, "Triangle").unwrap();
    assert_eq!(r.dimensions(), (4, 4));
    let r2 = img.resize_to_fill(3, 7, "Nearest").unwrap();
    assert_eq!(r2.dimensions(), (3, 7));
}

#[test]
fn thumbnail_fits_within_bounds() {
    let img = solid(10, 5, [5, 5, 5, 255]);
    let r = img.thumbnail(4, 4);
    assert_eq!(r.dimensions(), (4, 2));
}

#[test]
fn thumbnail_exact_hits_requested_dimensions() {
    let img = solid(10, 5, [5, 5, 5, 255]);
    let r = img.thumbnail_exact(3, 3);
    assert_eq!(r.dimensions(), (3, 3));
}

#[test]
fn kernel_length_must_be_nine() {
    assert_eq!(
        image_meme::format::validate_kernel_len(8).map_err(|e| e.kind()),
        Err(ErrorKind::Validation)
    );
    assert_eq!(
        image_meme::format::validate_kernel_len(10).map_err(|e| e.kind()),
        Err(ErrorKind::Validation)
    );
    assert!(image_meme::format::validate_kernel_len(9).is_ok());
}

#[test]
fn thumbnail_scales_up_to_fit_when_target_is_larger() {
    let img = solid(2, 1, [5, 5, 5, 255]);
    let r = img.thumbnail(20, 20);
    assert_eq!(r.dimensions(), (20, 10));
}

#[test]
fn resize_to_fill_crops_the_tall_axis() {
    let img = solid(5, 10, [5, 5, 5, 255]);
    let r = img.resize_to_fill(4, 4, "Nearest").unwrap();
    assert_eq!(r.dimensions(), (4, 4));
}
