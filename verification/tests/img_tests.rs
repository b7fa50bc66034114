use setroot::err;
use setroot::img::{
    fix_channel_order, new_dimensions, prepare_put_image, prepare_put_raw, IntoXBuffer,
    LumaAImage, LumaImage, RgbImage, RgbaImage, RgbShifts, Subpixel,
};
use setroot::Error;

#[test]
fn test_buffer_size_mismatch() {
    // 2x2 image with 4 pixels = 12 bytes
    let data: [u8; 13] = [0; 13];
    let res = RgbImage::new(2, 2, data[..11].to_vec());
    assert!(matches!(res, Err(Error::BadBufferSize(11, 2, 2))));
    let res = RgbImage::new(2, 2, data[..13].to_vec());
    assert!(matches!(res, Err(Error::BadBufferSize(13, 2, 2))));
    RgbImage::new(2, 2, data[..12].to_vec()).unwrap();
}

#[test]
fn test_from_rgb_packs_without_bleed() {
    let shifts = RgbShifts { r: 16, g: 8, b: 0 };
    // Distinct single-bit values per channel land in their own lanes.
    let colour = shifts.from_rgb(0x80u8, 0x40, 0x01);
    assert_eq!(0x0080_4001, colour);
    assert_eq!(0x80, (colour >> 16) & 0xFF);
    assert_eq!(0x40, (colour >> 8) & 0xFF);
    assert_eq!(0x01, colour & 0xFF);

    let colour = shifts.from_rgb(1u8, 2, 3);
    assert_eq!(0x0001_0203, colour);
    assert_eq!([3, 2, 1, 0], colour.to_le_bytes());

    // 16-bit samples are reduced to their most significant byte first.
    assert_eq!(0x00FF_F8E7, shifts.from_rgb(0xFFFFu16, 0xF8F8, 0xE7E7));
}

#[test]
fn test_from_luma_fills_every_lane() {
    let shifts = RgbShifts { r: 16, g: 8, b: 0 };
    let luma = shifts.from_luma(0x42u8);
    assert_eq!(0x4242_4242, luma);
    // from_rgb leaves the unused fourth lane zero; from_luma fills it too.
    let rgb = shifts.from_rgb(0x42u8, 0x42, 0x42);
    assert_eq!(0x0042_4242, rgb);
    assert_eq!(luma, rgb | (0x42 << 24));
}

#[test]
fn test_subpixel_reduction() {
    assert_eq!(255, 255u8.to_u8());
    assert_eq!(0, 0u8.to_u8());
    assert_eq!(0xFF, 0xFFFFu16.to_u8());
    assert_eq!(0x00, 0x00FFu16.to_u8());
    assert_eq!(0x12, 0x1234u16.to_u8());
}

#[test]
fn test_new_dimensions() {
    assert_eq!(Ok((100, 200)), new_dimensions((100, 200)));
    assert_eq!(
        Err(err::ImageTooLarge(70_000, 100)),
        new_dimensions((70_000, 100))
    );
    assert_eq!(
        Err(err::ImageTooLarge(100, 70_000)),
        new_dimensions((100, 70_000))
    );
    assert_eq!(Ok((0xFFFF, 0xFFFF)), new_dimensions((0xFFFF, 0xFFFF)));
}

#[test]
fn test_image_too_large() {
    let data = vec![0u8; 12];
    let res = RgbImage::new(70_000, 100, data);
    assert!(matches!(res, Err(Error::ImageTooLarge(70_000, 100))));
}

#[test]
fn test_rgb_image_conversion() {
    // Construct a 2x1 RGB image.
    let data: Vec<u8> = vec![1, 2, 3, 4, 5, 6];
    let img = RgbImage::new(2, 1, data).unwrap();
    assert_eq!(Ok((2, 1)), img.dimensions());

    let shifts = RgbShifts { r: 16, g: 8, b: 0 };
    let xbuf = img.into_x_buffer(shifts).unwrap();
    assert_eq!(&[0x0001_0203, 0x0004_0506], xbuf.words().as_slice());
    assert_eq!(&[3, 2, 1, 0, 6, 5, 4, 0], xbuf.bytes().as_slice());
}

#[test]
fn test_rgba_image_conversion() {
    // Construct a 1x1 RGBA image; alpha is discarded.
    let data: Vec<u8> = vec![0x10, 0x20, 0x30, 255];
    let img = RgbaImage::new(1, 1, data).unwrap();
    assert_eq!(Ok((1, 1)), img.dimensions());

    let shifts = RgbShifts { r: 16, g: 8, b: 0 };
    let xbuf = img.into_x_buffer(shifts).unwrap();
    assert_eq!(&[0x0010_2030], xbuf.words().as_slice());
}

#[test]
fn test_luma_image_conversion() {
    let data: Vec<u8> = vec![10, 20];
    let img = LumaImage::new(2, 1, data).unwrap();
    assert_eq!(Ok((2, 1)), img.dimensions());

    let shifts = RgbShifts { r: 16, g: 8, b: 0 };
    let xbuf = img.into_x_buffer(shifts).unwrap();
    assert_eq!(&[0x0A0A_0A0A, 0x1414_1414], xbuf.words().as_slice());
    assert_eq!(&[10, 10, 10, 10, 20, 20, 20, 20], xbuf.bytes().as_slice());
}

#[test]
fn test_luma_alpha_image_conversion() {
    // Alpha samples are discarded entirely.
    let data: Vec<u8> = vec![10, 255, 20, 255];
    let img = LumaAImage::new(2, 1, data).unwrap();
    assert_eq!(Ok((2, 1)), img.dimensions());

    let shifts = RgbShifts { r: 16, g: 8, b: 0 };
    let xbuf = img.into_x_buffer(shifts).unwrap();
    assert_eq!(&[10, 10, 10, 10, 20, 20, 20, 20], xbuf.bytes().as_slice());
}

#[test]
fn test_u16_image_conversion() {
    let data: Vec<u16> = vec![0xFFFF, 0xF8F8, 0xE7E7];
    let img = RgbImage::new(1, 1, data).unwrap();
    let shifts = RgbShifts { r: 16, g: 8, b: 0 };
    let xbuf = img.into_x_buffer(shifts).unwrap();
    assert_eq!(&[0x00FF_F8E7], xbuf.words().as_slice());
}

#[test]
fn test_u16_buffer_size_reports_bytes() {
    // Two u16 samples occupy four bytes; the error carries the byte length.
    let data: Vec<u16> = vec![1, 2];
    let res = RgbImage::new(1, 1, data);
    assert!(matches!(res, Err(Error::BadBufferSize(4, 1, 1))));
}

#[test]
fn test_fix_channel_order_matching_order() {
    // A format that packs (1, 2, 3) into bytes [1, 2, 3, 0] keeps the
    // three channel bytes in place; the decoded alpha byte is still
    // overwritten by the packing function's fourth lane, which is zero.
    let shifts = RgbShifts { r: 0, g: 8, b: 16 };
    let data: Vec<u8> = vec![1, 2, 3, 77, 4, 5, 6, 88];
    let out = fix_channel_order(data, shifts);
    assert_eq!(vec![1, 2, 3, 0, 4, 5, 6, 0], out);
}

#[test]
fn test_fix_channel_order_repacks() {
    // The common 0x00RRGGBB format swaps red and blue in memory and zeroes
    // the alpha byte.
    let shifts = RgbShifts { r: 16, g: 8, b: 0 };
    let data: Vec<u8> = vec![1, 2, 3, 77, 4, 5, 6, 88];
    let out = fix_channel_order(data, shifts);
    assert_eq!(vec![3, 2, 1, 0, 6, 5, 4, 0], out);
}

#[test]
fn test_prepare_put_raw() {
    let words: Vec<u32> = vec![0x0001_0203, 0x0004_0506];
    let bytes = prepare_put_raw(2, 1, &words).unwrap();
    assert_eq!(vec![3, 2, 1, 0, 6, 5, 4, 0], bytes);

    let res = prepare_put_raw(2, 2, &words);
    assert!(matches!(res, Err(Error::BadBufferSize(8, 2, 2))));
}

#[test]
fn test_prepare_put_image() {
    let data: Vec<u8> = vec![1, 2, 3, 4, 5, 6];
    let img = RgbImage::new(2, 1, data).unwrap();
    let shifts = RgbShifts { r: 16, g: 8, b: 0 };
    let (width, height, bytes) = prepare_put_image(img, shifts).unwrap();
    assert_eq!((2, 1), (width, height));
    assert_eq!(vec![3, 2, 1, 0, 6, 5, 4, 0], bytes);
}
