use jbig2dec::image::invert;
use jbig2dec::{Image, PageGeometry};

fn geometry(width: u32, height: u32, stride: u32) -> PageGeometry {
    PageGeometry { width, height, stride }
}

fn image(width: u32, height: u32, stride: u32, data: Vec<u8>) -> Image {
    Image::from_raw(geometry(width, height, stride), data).expect("a valid raster")
}

#[test]
fn buffer_len_is_height_times_stride() {
    assert_eq!(geometry(64, 56, 8).buffer_len(), Some(448));
    assert_eq!(geometry(1, 1, 1).buffer_len(), Some(1));
    assert_eq!(geometry(0, 0, 0).buffer_len(), Some(0));
    assert_eq!(geometry(8, 0, 1).buffer_len(), Some(0));
    assert_eq!(geometry(10, 3, 4).buffer_len(), Some(12));
}

#[test]
fn buffer_len_refuses_rows_that_are_too_short() {
    assert_eq!(geometry(9, 1, 1).buffer_len(), None);
    assert_eq!(geometry(1, 1, 0).buffer_len(), None);
    assert_eq!(geometry(u32::MAX, 1, 0x1fff_ffff).buffer_len(), None);
    assert_eq!(geometry(u32::MAX, 1, 0x2000_0000).buffer_len(), Some(0x2000_0000));
}

#[test]
fn buffer_len_of_the_largest_geometry_fits_or_is_refused() {
    let len = geometry(u32::MAX, u32::MAX, u32::MAX).buffer_len();
    let product = u32::MAX as u64 * u32::MAX as u64;
    if product <= usize::MAX as u64 {
        assert_eq!(len, Some(product as usize));
    } else {
        assert_eq!(len, None);
    }
}

#[test]
fn from_raw_keeps_geometry_and_bytes() {
    let i = image(10, 2, 2, vec![1, 2, 3, 4]);
    assert_eq!(i.width(), 10);
    assert_eq!(i.height(), 2);
    assert_eq!(i.stride(), 2);
    assert_eq!(i.geometry(), geometry(10, 2, 2));
    assert_eq!(i.data(), &[1, 2, 3, 4]);
    assert_eq!(i.data().len(), (i.height() * i.stride()) as usize);
}

#[test]
fn from_raw_refuses_what_does_not_fit() {
    assert!(Image::from_raw(geometry(10, 2, 2), vec![1, 2, 3]).is_none());
    assert!(Image::from_raw(geometry(10, 2, 2), vec![1, 2, 3, 4, 5]).is_none());
    assert!(Image::from_raw(geometry(17, 2, 2), vec![1, 2, 3, 4]).is_none());
    assert!(Image::from_raw(geometry(16, 2, 2), vec![1, 2, 3, 4]).is_some());
    assert!(Image::from_raw(geometry(0, 0, 0), vec![]).is_some());
}

#[test]
fn stride_may_exceed_the_packed_width() {
    let i = image(3, 2, 4, vec![0; 8]);
    assert!(i.stride() * 8 >= i.width());
    assert_eq!(i.data().len(), 8);
}

#[test]
fn the_copy_does_not_follow_its_source() {
    let mut source = vec![0xAA, 0xBB, 0xCC, 0xDD];
    let i = image(16, 2, 2, source.clone());
    for b in source.iter_mut() {
        *b = 0;
    }
    drop(source);
    assert_eq!(i.data(), &[0xAA, 0xBB, 0xCC, 0xDD]);
}

#[test]
fn a_clone_is_equal_and_independent() {
    let first = image(16, 2, 2, vec![1, 2, 3, 4]);
    let mut copy = first.clone();
    assert!(first == copy);
    copy.data_mut()[0] = 9;
    assert!(first != copy);
    assert_eq!(first.data(), &[1, 2, 3, 4]);
    assert_eq!(copy.data(), &[9, 2, 3, 4]);
}

#[test]
fn images_differ_by_geometry_or_bytes() {
    let a = image(16, 2, 2, vec![1, 2, 3, 4]);
    assert!(a == image(16, 2, 2, vec![1, 2, 3, 4]));
    assert!(a != image(15, 2, 2, vec![1, 2, 3, 4]));
    assert!(a != image(16, 1, 4, vec![1, 2, 3, 4]));
    assert!(a != image(16, 2, 2, vec![1, 2, 3, 5]));
    assert!(a != image(16, 4, 1 + 1, vec![1, 2, 3, 4, 0, 0, 0, 0]));
}

#[test]
fn data_mut_changes_bytes_and_nothing_else() {
    let mut i = image(12, 2, 2, vec![0, 0, 0, 0]);
    {
        let bytes = i.data_mut();
        assert_eq!(bytes.len(), 4);
        bytes[3] = 0x80;
        bytes[0] = 0x01;
    }
    assert_eq!(i.data(), &[0x01, 0, 0, 0x80]);
    assert_eq!(i.geometry(), geometry(12, 2, 2));
}

#[test]
fn pixels_are_read_most_significant_bit_first() {
    let i = image(12, 2, 2, vec![0b1000_0001, 0b0100_0000, 0b0000_0000, 0b0001_0000]);
    assert_eq!(i.pixel(0, 0), Some(true));
    assert_eq!(i.pixel(1, 0), Some(false));
    assert_eq!(i.pixel(7, 0), Some(true));
    assert_eq!(i.pixel(8, 0), Some(false));
    assert_eq!(i.pixel(9, 0), Some(true));
    assert_eq!(i.pixel(0, 1), Some(false));
    assert_eq!(i.pixel(11, 1), Some(true));
}

#[test]
fn pixels_outside_the_image_are_none() {
    let i = image(12, 2, 2, vec![0xFF; 4]);
    assert_eq!(i.pixel(12, 0), None);
    assert_eq!(i.pixel(15, 0), None);
    assert_eq!(i.pixel(0, 2), None);
    assert_eq!(i.pixel(u32::MAX, u32::MAX), None);
}

#[test]
fn invert_flips_every_bit() {
    assert_eq!(invert(&[0x00, 0xFF, 0x0F, 0x01, 254]), vec![0xFF, 0x00, 0xF0, 0xFE, 1]);
    assert_eq!(invert(&[]), Vec::<u8>::new());
}

#[test]
fn to_png_writes_the_inverted_rows() {
    let rows = vec![0b1010_0000, 0b0000_0000, 0b1111_1111, 0b0100_0000];
    let i = image(10, 2, 2, rows.clone());
    let file = i.to_png().unwrap();
    assert_eq!(&file[..8], &[137, 80, 78, 71, 13, 10, 26, 10]);
    assert_ne!(file, rows);

    let mut decoder = png::Decoder::new(&file[..]);
    decoder.set_transformations(png::Transformations::IDENTITY);
    let (info, mut reader) = decoder.read_info().unwrap();
    assert_eq!(info.width, 10);
    assert_eq!(info.height, 2);
    assert_eq!(info.color_type, png::ColorType::Grayscale);
    assert_eq!(info.bit_depth, png::BitDepth::One);
    let mut decoded = vec![0; info.buffer_size()];
    reader.next_frame(&mut decoded).unwrap();
    assert_eq!(decoded, invert(&rows));
    assert_eq!(decoded, vec![0b0101_1111, 0b1111_1111, 0b0000_0000, 0b1011_1111]);
}

#[test]
fn to_png_is_the_same_for_the_same_image() {
    let a = image(16, 2, 2, vec![1, 2, 3, 4]);
    let b = image(16, 2, 2, vec![1, 2, 3, 4]);
    assert_eq!(a.to_png().unwrap(), b.to_png().unwrap());
}

#[test]
fn to_png_refuses_an_empty_image() {
    assert!(image(0, 0, 0, vec![]).to_png().is_err());
    assert!(image(0, 2, 0, vec![]).to_png().is_err());
    assert!(image(8, 0, 1, vec![]).to_png().is_err());
}

#[test]
fn to_png_refuses_padded_rows() {
    assert!(image(8, 2, 2, vec![0; 4]).to_png().is_err());
    assert!(image(8, 2, 1, vec![0; 2]).to_png().is_ok());
    assert!(image(9, 2, 2, vec![0; 4]).to_png().is_ok());
    assert!(image(1, 1, 1, vec![0]).to_png().is_ok());
}

#[test]
fn summary_names_the_geometry_only() {
    let i = image(64, 56, 8, vec![0; 448]);
    assert_eq!(i.summary(), "Image { width: 64, height: 56, stride: 8 }");
    let i = image(0, 0, 0, vec![]);
    assert_eq!(i.summary(), "Image { width: 0, height: 0, stride: 0 }");
    let i = image(1000, 1, 125, vec![0; 125]);
    assert_eq!(i.summary(), "Image { width: 1000, height: 1, stride: 125 }");
}
