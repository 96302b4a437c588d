//! Images: the alpha code table, the color space inference, the geometry
//! accessors, and the exact-size check on the pixel data.

use cgbridge::color_space::ColorSpace;
use cgbridge::error::{BridgeError, RawVariant};
use cgbridge::image::{infer_color_space, CGImage, ImageAlphaInfo};
use cgbridge::native::MockNative;

const GENERIC_RGB: &str = "kCGColorSpaceGenericRGB";

fn install_image(
    native: &mut MockNative,
    width: usize,
    height: usize,
    bits_per_pixel: usize,
    alpha_info: u32,
    color_space_name: &str,
    data: Vec<u8>,
) -> CGImage {
    let h = native.create_image(
        width,
        height,
        bits_per_pixel,
        alpha_info,
        String::from(color_space_name),
        data,
    );
    CGImage::from_ref(native, h).unwrap()
}

#[test]
fn alpha_code_round_trip() {
    for code in 0u32..8 {
        let a = ImageAlphaInfo::from_u32(code).unwrap();
        assert_eq!(a.to_u32(), code);
    }
}

#[test]
fn alpha_unknown_code_is_surfaced_raw() {
    let r = ImageAlphaInfo::from_u32(8);
    assert_eq!(r.unwrap_err(), BridgeError::UnsupportedVariant(RawVariant::Code(8)));
    let r = ImageAlphaInfo::from_u32(4_000_000_000);
    assert_eq!(
        r.unwrap_err(),
        BridgeError::UnsupportedVariant(RawVariant::Code(4_000_000_000))
    );
}

#[test]
fn infer_generic_rgb_premultiplied_last_is_rgba() {
    let r = infer_color_space(&String::from(GENERIC_RGB), ImageAlphaInfo::PremultipliedLast);
    assert_eq!(r.unwrap(), ColorSpace::RGBA);
}

#[test]
fn infer_generic_rgb_no_alpha_is_rgb() {
    let r = infer_color_space(&String::from(GENERIC_RGB), ImageAlphaInfo::NoAlpha);
    assert_eq!(r.unwrap(), ColorSpace::RGB);
}

#[test]
fn infer_generic_rgb_first_is_argb() {
    let r = infer_color_space(&String::from(GENERIC_RGB), ImageAlphaInfo::First);
    assert_eq!(r.unwrap(), ColorSpace::ARGB);
    let r = infer_color_space(&String::from(GENERIC_RGB), ImageAlphaInfo::PremultipliedFirst);
    assert_eq!(r.unwrap(), ColorSpace::ARGB);
}

#[test]
fn infer_itu_spaces_are_ycbcr() {
    let r = infer_color_space(&String::from("kCGColorSpaceITUR_709"), ImageAlphaInfo::NoAlpha);
    assert_eq!(r.unwrap(), ColorSpace::YCbCr);
    let r = infer_color_space(
        &String::from("kCGColorSpaceITUR_2020"),
        ImageAlphaInfo::NoneSkipFirst,
    );
    assert_eq!(r.unwrap(), ColorSpace::YCbCr);
}

#[test]
fn infer_unknown_name_is_surfaced_raw_never_defaulted() {
    let r = infer_color_space(&String::from("kCGColorSpaceGenericGray"), ImageAlphaInfo::NoAlpha);
    assert_eq!(
        r.unwrap_err(),
        BridgeError::UnsupportedVariant(RawVariant::Name(String::from("kCGColorSpaceGenericGray")))
    );
}

#[test]
fn image_colorspace_rgba_and_rgb() {
    let mut native = MockNative::new();
    let img = install_image(&mut native, 2, 2, 32, 1, GENERIC_RGB, vec![0u8; 16]);
    assert_eq!(img.colorspace(&native).unwrap(), ColorSpace::RGBA);
    img.release(&mut native);

    let img = install_image(&mut native, 2, 2, 24, 0, GENERIC_RGB, vec![0u8; 12]);
    assert_eq!(img.colorspace(&native).unwrap(), ColorSpace::RGB);
    img.release(&mut native);
}

#[test]
fn image_colorspace_unknown_name_errors() {
    let mut native = MockNative::new();
    let img = install_image(&mut native, 1, 1, 32, 1, "kCGColorSpaceGenericCMYK", vec![0u8; 4]);
    assert_eq!(
        img.colorspace(&native).unwrap_err(),
        BridgeError::UnsupportedVariant(RawVariant::Name(String::from("kCGColorSpaceGenericCMYK")))
    );
    img.release(&mut native);
}

#[test]
fn image_colorspace_unknown_alpha_code_errors() {
    let mut native = MockNative::new();
    let img = install_image(&mut native, 1, 1, 32, 9, GENERIC_RGB, vec![0u8; 4]);
    assert_eq!(
        img.colorspace(&native).unwrap_err(),
        BridgeError::UnsupportedVariant(RawVariant::Code(9))
    );
    assert_eq!(
        img.alphainfo(&native).unwrap_err(),
        BridgeError::UnsupportedVariant(RawVariant::Code(9))
    );
    img.release(&mut native);
}

#[test]
fn image_geometry_accessors() {
    let mut native = MockNative::new();
    let img = install_image(&mut native, 640, 480, 32, 1, GENERIC_RGB, vec![0u8; 640 * 480 * 4]);
    assert_eq!(img.width(&native), 640);
    assert_eq!(img.height(&native), 480);
    assert_eq!(img.pixel_bits(&native), 32);
    assert_eq!(img.pixel_width(&native), 4);
    assert_eq!(img.alphainfo(&native).unwrap(), ImageAlphaInfo::PremultipliedLast);
    img.release(&mut native);
}

#[test]
fn image_data_matches_geometry() {
    let mut native = MockNative::new();
    let payload: Vec<u8> = (0u8..16).collect();
    let img = install_image(&mut native, 2, 2, 32, 1, GENERIC_RGB, payload.clone());
    assert_eq!(img.data(&native).unwrap(), payload);
    img.release(&mut native);
}

#[test]
fn image_data_size_mismatch_fails_loudly() {
    let mut native = MockNative::new();
    // 2 x 2 x 32 bits = 128 bits, but only 15 bytes = 120 bits reported.
    let img = install_image(&mut native, 2, 2, 32, 1, GENERIC_RGB, vec![0u8; 15]);
    assert_eq!(
        img.data(&native).unwrap_err(),
        BridgeError::SizeMismatch { expected_bits: 128, reported_bits: 120 }
    );
    img.release(&mut native);
}
