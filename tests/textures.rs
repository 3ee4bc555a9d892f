use std::io::Cursor;

use gp_tuts::error::PipelineError;
use gp_tuts::texture::{load_texture, ImageEncoding, RawTexture};

fn png_of(width: u32, height: u32, pixels: Vec<u8>) -> Vec<u8> {
    let image = image::RgbaImage::from_raw(width, height, pixels).unwrap();
    let mut out = Cursor::new(Vec::new());
    image.write_to(&mut out, image::ImageOutputFormat::Png).unwrap();
    out.into_inner()
}

#[test]
fn rows_are_reversed_and_bytes_kept() {
    let top_down = vec![1, 2, 3, 4, 5, 6, 7, 8, 9, 10, 11, 12, 13, 14, 15, 16, 17, 18, 19, 20, 21, 22, 23, 24];
    let texture = RawTexture::from_top_down_rgba8(2, 3, top_down);
    assert_eq!((texture.width, texture.height), (2, 3));
    assert_eq!(
        texture.pixels,
        vec![17, 18, 19, 20, 21, 22, 23, 24, 9, 10, 11, 12, 13, 14, 15, 16, 1, 2, 3, 4, 5, 6, 7, 8]
    );
}

#[test]
fn empty_image_stays_empty() {
    let texture = RawTexture::from_top_down_rgba8(5, 0, vec![]);
    assert!(texture.pixels.is_empty());
    let texture = RawTexture::from_top_down_rgba8(0, 4, vec![]);
    assert!(texture.pixels.is_empty());
}

#[test]
fn png_asset_decodes_bottom_row_first() {
    let top = vec![255, 0, 0, 255, 0, 255, 0, 255];
    let bottom = vec![0, 0, 255, 255, 10, 20, 30, 40];
    let bytes = png_of(2, 2, [top.clone(), bottom.clone()].concat());
    let texture = load_texture(&bytes, ImageEncoding::Png).unwrap();
    assert_eq!((texture.width, texture.height), (2, 2));
    assert_eq!(texture.pixels, [bottom, top].concat());
}

#[test]
fn bytes_that_do_not_decode_fail_resource_creation() {
    let bytes = vec![1, 2, 3, 4, 5];
    assert_eq!(load_texture(&bytes, ImageEncoding::Png).err(), Some(PipelineError::ResourceCreationFailed));
    assert_eq!(load_texture(&bytes, ImageEncoding::Jpeg).err(), Some(PipelineError::ResourceCreationFailed));
}

#[test]
fn png_bytes_are_not_read_as_jpeg() {
    let bytes = png_of(1, 1, vec![1, 2, 3, 4]);
    assert_eq!(load_texture(&bytes, ImageEncoding::Jpeg).err(), Some(PipelineError::ResourceCreationFailed));
}

#[test]
fn jpeg_asset_gives_four_bytes_per_pixel() {
    let image = image::RgbImage::from_raw(3, 2, vec![200; 18]).unwrap();
    let mut out = Cursor::new(Vec::new());
    image.write_to(&mut out, image::ImageOutputFormat::Jpeg(90)).unwrap();
    let texture = load_texture(&out.into_inner(), ImageEncoding::Jpeg).unwrap();
    assert_eq!((texture.width, texture.height), (3, 2));
    assert_eq!(texture.pixels.len(), 24);
    assert!(texture.pixels.chunks(4).all(|p| p[3] == 255));
}
