use std::io::Cursor;

use irid::assets::{DiffuseImage, DiffuseImageSize, DynamicImage, ImageLoadError, ImageSize};
use irid::generic::{GenericImage, GenericSize, GenericTexture};
use irid::texture::{DiffuseTexture, TextureError};

fn png_bytes(width: u32, height: u32) -> Vec<u8> {
    let mut img = image::RgbaImage::new(width, height);
    for (x, y, p) in img.enumerate_pixels_mut() {
        *p = image::Rgba([x as u8, y as u8, 7, 255]);
    }
    let mut out = Cursor::new(Vec::new());
    image::DynamicImage::ImageRgba8(img)
        .write_to(&mut out, image::ImageOutputFormat::Png)
        .unwrap();
    out.into_inner()
}

fn bmp_rgb_bytes(width: u32, height: u32) -> Vec<u8> {
    let img = image::RgbImage::new(width, height);
    let mut out = Cursor::new(Vec::new());
    image::DynamicImage::ImageRgb8(img)
        .write_to(&mut out, image::ImageOutputFormat::Bmp)
        .unwrap();
    out.into_inner()
}

#[test]
fn decodes_png_by_extension() {
    let bytes = png_bytes(3, 2);
    let img = DynamicImage::new("assets/happy-tree.png", &bytes).unwrap();
    assert_eq!(img.dimensions(), (3, 2));
    assert_eq!(img.width(), 3);
    assert_eq!(img.height(), 2);
    let pixels = img.as_rgba8_bytes().unwrap();
    assert_eq!(pixels.len(), 3 * 2 * 4);
    assert_eq!(&pixels[4..8], &[1, 0, 7, 255]);
}

#[test]
fn unknown_extension_is_unsupported() {
    let bytes = png_bytes(2, 2);
    assert!(matches!(
        DynamicImage::new("assets/happy-tree.unknown", &bytes),
        Err(ImageLoadError::UnsupportedFormat)
    ));
    assert!(matches!(DynamicImage::new("no_extension", &bytes), Err(ImageLoadError::UnsupportedFormat)));
}

#[test]
fn guessing_reads_the_content() {
    let bytes = png_bytes(4, 1);
    let img = DynamicImage::new_with_guessed_format("assets/texture.jpg", &bytes).unwrap();
    assert_eq!(img.dimensions(), (4, 1));
    let img = DynamicImage::new_with_guessed_format("assets/texture", &bytes).unwrap();
    assert_eq!(img.dimensions(), (4, 1));
}

#[test]
fn wrong_extension_without_guessing_fails_to_decode() {
    let bytes = png_bytes(4, 1);
    assert!(matches!(DynamicImage::new("texture.jpg", &bytes), Err(ImageLoadError::Decoding(_))));
}

#[test]
fn guess_falls_back_to_the_path() {
    let garbage = vec![0u8, 1, 2, 3, 4, 5];
    assert!(matches!(
        DynamicImage::new_with_guessed_format("texture.png", &garbage),
        Err(ImageLoadError::Decoding(_))
    ));
    assert!(matches!(
        DynamicImage::new_with_guessed_format("texture", &garbage),
        Err(ImageLoadError::UnsupportedFormat)
    ));
}

#[test]
fn non_rgba_images_have_no_rgba_bytes() {
    let bytes = bmp_rgb_bytes(2, 3);
    let img = DynamicImage::new("image.bmp", &bytes).unwrap();
    assert_eq!(img.dimensions(), (2, 3));
    assert!(img.as_rgba8_bytes().is_none());
}

#[test]
fn image_size_constructors() {
    assert!(<DiffuseImageSize as ImageSize>::new(0, 4).is_none());
    assert!(<DiffuseImageSize as ImageSize>::new(4, 0).is_none());
    let s = <DiffuseImageSize as ImageSize>::new(4, 5).unwrap();
    assert_eq!(ImageSize::as_tuple(&s), (4, 5));
    assert!(<DiffuseImageSize as ImageSize>::try_new(0, 1).is_err());
    assert!(<DiffuseImageSize as ImageSize>::try_new(1, 0).is_err());
    let t = <DiffuseImageSize as ImageSize>::try_new(7, 8).unwrap();
    assert_eq!((ImageSize::width(&t), ImageSize::height(&t)), (7, 8));
    let u = <DiffuseImageSize as ImageSize>::new_unchecked(9, 10);
    assert_eq!(ImageSize::as_tuple(&u), (9, 10));
    let g = <DiffuseImageSize as GenericSize>::new(2, 3);
    assert_eq!(GenericSize::as_tuple(&g), (2, 3));
    assert!(DiffuseImageSize::from_tuple((0, 3)).is_none());
    assert_eq!(ImageSize::as_tuple(&DiffuseImageSize::from_array([5, 6]).unwrap()), (5, 6));
}

#[test]
fn diffuse_image_loads() {
    let bytes = png_bytes(5, 6);
    let img = DiffuseImage::load("tree.png", &bytes).unwrap();
    assert_eq!(ImageSize::as_tuple(&img.size()), (5, 6));
    assert_eq!(img.as_rgba8_bytes().unwrap().len(), 120);
    let img = <DiffuseImage as GenericImage>::load_with_guessed_format("tree", &bytes).unwrap();
    assert_eq!(ImageSize::as_tuple(&GenericImage::size(&img)), (5, 6));
    assert!(matches!(DiffuseImage::load("tree", &bytes), Err(ImageLoadError::UnsupportedFormat)));
}

#[test]
fn diffuse_texture_keeps_its_path() {
    let bytes = png_bytes(2, 2);
    let texture = DiffuseTexture::load("assets/happy-tree.png", &bytes).unwrap();
    assert_eq!(texture.path(), "assets/happy-tree.png");
    assert_eq!(ImageSize::as_tuple(&texture.size()), (2, 2));
    assert_eq!(texture.as_rgba8_bytes().unwrap().len(), 16);
    assert_eq!(ImageSize::as_tuple(&texture.image().size()), (2, 2));
    let guessed = <DiffuseTexture as GenericTexture>::load_with_guessed_format("x.bin", &bytes).unwrap();
    assert_eq!(ImageSize::as_tuple(&GenericTexture::size(&guessed)), (2, 2));
    match DiffuseTexture::load("assets/happy-tree.bin", &bytes) {
        Err(TextureError::CannotLoad { source: ImageLoadError::UnsupportedFormat }) => {}
        _ => panic!("expected an unsupported format"),
    }
}
