use gfx_hal::format::Format as HalFormat;
use gfx_texture::{
    cast_back, cast_cow, cast_slice, cast_vec, Extent, Format, Kind, TexelData, Texture,
    TextureBuilder, TextureError, ViewKind, FORMAT_COUNT, RGBA8_SRGB,
};

fn fmt(f: HalFormat) -> Format {
    Format { code: f as u32 }
}

fn square() -> Kind {
    Kind::D2(4, 4, 1, 1)
}

#[test]
fn default_format_is_rgba8_srgb() {
    assert_eq!(HalFormat::Rgba8Srgb as u32, RGBA8_SRGB);
    assert_eq!(Format::rgba8_srgb(), fmt(HalFormat::Rgba8Srgb));
    assert_eq!(HalFormat::Astc12x12Srgb as u32, FORMAT_COUNT);
}

#[test]
fn format_bits_come_from_the_surface() {
    assert_eq!(fmt(HalFormat::Rgba8Srgb).bits(), 32);
    assert_eq!(fmt(HalFormat::R8Unorm).bits(), 8);
    assert_eq!(fmt(HalFormat::Rgba32Sfloat).bits(), 128);
}

#[test]
fn color_formats_are_recognised() {
    assert!(fmt(HalFormat::Rgba8Srgb).is_color());
    assert!(fmt(HalFormat::Bgra8Unorm).is_color());
    assert!(!fmt(HalFormat::D16Unorm).is_color());
    assert!(!fmt(HalFormat::D32SfloatS8Uint).is_color());
    assert!(!Format { code: 0 }.is_color());
    assert!(!Format { code: FORMAT_COUNT + 1 }.is_color());
}

#[test]
fn new_builder_takes_extent_as_stride() {
    let b = TextureBuilder::new(Kind::D3(5, 6, 7));
    assert_eq!(b.data().len(), 0);
    // The default stride equals the extent, so width 5 is accepted and 4 is not.
    let mut b = b;
    assert_eq!(b.set_data_width(4), Err(TextureError::DataWidthTooSmall));
    assert_eq!(b.set_data_height(5), Err(TextureError::DataHeightTooSmall));
    assert_eq!(b.set_data_width(5), Ok(()));
    assert_eq!(b.set_data_height(6), Ok(()));
}

#[test]
fn extent_and_view_kind_follow_dimensionality() {
    assert_eq!(Kind::D1(8, 2).extent(), Extent { width: 8, height: 1, depth: 1 });
    assert_eq!(Kind::D2(8, 3, 1, 1).extent(), Extent { width: 8, height: 3, depth: 1 });
    assert_eq!(Kind::D3(8, 3, 2).extent(), Extent { width: 8, height: 3, depth: 2 });
    assert_eq!(Kind::D1(8, 2).view_kind(), ViewKind::D1);
    assert_eq!(Kind::D2(8, 3, 1, 1).view_kind(), ViewKind::D2);
    assert_eq!(Kind::D3(8, 3, 2).view_kind(), ViewKind::D3);
}

#[test]
fn square_rgba_with_64_bytes_builds() {
    let format = fmt(HalFormat::Rgba8Srgb);
    let data = vec![7u8; 64];
    let b = TextureBuilder::new(square())
        .with_format(format)
        .unwrap()
        .with_data_width(4)
        .unwrap()
        .with_data_height(4)
        .unwrap()
        .with_data(TexelData::Borrowed(&data[..]));
    let params = b.build().unwrap();
    assert_eq!(params.kind, square());
    assert_eq!(params.format, format);
    assert_eq!(params.view_kind, ViewKind::D2);
    assert_eq!(params.extent, Extent { width: 4, height: 4, depth: 1 });
    assert_eq!(params.data_width, 4);
    assert_eq!(params.data_height, 4);
    let texture = params.finish("image", "view");
    assert_eq!(texture.format(), format);
    assert_eq!(texture.kind(), square());
    assert_eq!(*texture.image(), "image");
    assert_eq!(*texture.view(), "view");
}

#[test]
fn square_rgba_with_63_bytes_is_too_short() {
    let mut b = TextureBuilder::new(square());
    b.set_format(fmt(HalFormat::Rgba8Srgb)).unwrap();
    b.set_data(TexelData::Owned(vec![0u8; 63]));
    assert_eq!(b.build(), Err(TextureError::DataTooShort));
}

#[test]
fn data_width_below_extent_is_rejected() {
    let mut b = TextureBuilder::new(square());
    assert_eq!(b.set_data_width(3), Err(TextureError::DataWidthTooSmall));
    assert!(matches!(
        TextureBuilder::new(square()).with_data_width(3),
        Err(TextureError::DataWidthTooSmall)
    ));
    // The refused value leaves the stride as it was.
    b.set_data(TexelData::Owned(vec![0u8; 64]));
    assert!(b.build().is_ok());
}

#[test]
fn depth_and_stencil_formats_are_rejected() {
    let mut b = TextureBuilder::new(Kind::D1(16, 1));
    assert_eq!(b.set_format(fmt(HalFormat::D16Unorm)), Err(TextureError::FormatNotColor));
    assert_eq!(
        b.set_format(fmt(HalFormat::D32SfloatS8Uint)),
        Err(TextureError::FormatNotColor)
    );
    assert!(matches!(
        TextureBuilder::new(square()).with_format(fmt(HalFormat::S8Uint)),
        Err(TextureError::FormatNotColor)
    ));
    assert_eq!(b.set_format(Format { code: 0 }), Err(TextureError::FormatNotColor));
    // The format stays the default, 32 bits a pixel.
    b.set_data(TexelData::Owned(vec![0u32; 16]));
    assert!(b.build().is_ok());
    b.set_data(TexelData::Owned(vec![0u32; 15]));
    assert_eq!(b.build(), Err(TextureError::DataTooShort));
}

#[test]
fn minimal_zero_buffer_builds_for_color_formats() {
    let kinds = [Kind::D1(3, 1), Kind::D2(5, 3, 1, 1), Kind::D3(2, 3, 4)];
    let formats = [HalFormat::R8Unorm, HalFormat::Rgb8Unorm, HalFormat::Rgba32Sfloat];
    for kind in kinds.iter() {
        for f in formats.iter() {
            let format = fmt(*f);
            let e = kind.extent();
            let bits = e.width as usize * e.height as usize * e.depth as usize
                * format.bits() as usize;
            let len = (bits + 7) / 8;
            let b = Texture::<(), ()>::new(*kind)
                .with_format(format)
                .unwrap()
                .with_data(TexelData::Owned(vec![0u8; len]));
            let texture = b.build().unwrap().finish((), ());
            assert_eq!(texture.kind(), *kind);
            assert_eq!(texture.format(), format);
            let short = b.with_data(TexelData::Owned(vec![0u8; len - 1]));
            assert_eq!(short.build(), Err(TextureError::DataTooShort));
        }
    }
}

#[test]
fn wider_stride_needs_more_data() {
    let b = TextureBuilder::new(square())
        .with_data_width(6)
        .unwrap()
        .with_data(TexelData::Owned(vec![0u8; 64]));
    assert_eq!(b.build(), Err(TextureError::DataTooShort));
    let b = b.with_data(TexelData::Owned(vec![0u8; 96]));
    assert_eq!(b.build().unwrap().data_width, 6);
}

#[test]
fn data_height_is_not_part_of_the_size_check() {
    let b = TextureBuilder::new(square())
        .with_data_height(9)
        .unwrap()
        .with_data(TexelData::Owned(vec![0u8; 64]));
    assert_eq!(b.build().unwrap().data_height, 9);
}

#[test]
fn typed_data_is_stored_as_little_endian_bytes() {
    let b = TextureBuilder::new(Kind::D1(1, 1))
        .with_data(TexelData::Owned(vec![0x0403_0201u32, 0x0807_0605]));
    assert_eq!(b.data(), &[1u8, 2, 3, 4, 5, 6, 7, 8][..]);
}

#[test]
fn cast_gives_size_times_count_bytes() {
    let words = [0x1234u16, 0xabcd, 0x00ff];
    let bytes = cast_slice(&words[..]);
    assert_eq!(bytes, vec![0x34, 0x12, 0xcd, 0xab, 0xff, 0x00]);
    let quads = vec![1u32, 0xdead_beef];
    assert_eq!(cast_vec(quads), vec![1, 0, 0, 0, 0xef, 0xbe, 0xad, 0xde]);
    assert_eq!(cast_cow(TexelData::Borrowed(&[9u8, 8][..])), vec![9, 8]);
}

#[test]
fn cast_round_trip_recovers_values() {
    let words = vec![0u16, 1, 0x8000, 0xffff, 0x1234];
    assert_eq!(cast_back::<u16>(&cast_slice(&words[..])), words);
    let quads = vec![0u32, 7, 0x8000_0000, 0xffff_ffff, 0x0102_0304];
    assert_eq!(cast_back::<u32>(&cast_cow(TexelData::Borrowed(&quads[..]))), quads);
    let bytes = vec![3u8, 1, 4, 1, 5];
    assert_eq!(cast_back::<u8>(&cast_vec(bytes.clone())), bytes);
}

#[test]
fn cast_of_empty_buffer_is_empty() {
    let empty: Vec<u32> = Vec::new();
    assert!(cast_slice(&empty[..]).is_empty());
    assert!(cast_vec(Vec::<u16>::new()).is_empty());
    assert!(cast_cow(TexelData::<u8>::Owned(Vec::new())).is_empty());
    assert!(cast_back::<u32>(&[]).is_empty());
}

#[test]
fn cast_back_ignores_a_trailing_partial_element() {
    assert_eq!(cast_back::<u16>(&[1, 0, 2]), vec![1u16]);
    assert_eq!(cast_back::<u32>(&[1, 0, 0]), Vec::<u32>::new());
}

#[test]
fn wide_elements_round_trip() {
    let longs = vec![0x0807_0605_0403_0201u64, u64::MAX, 0];
    let bytes = cast_slice(&longs[..]);
    assert_eq!(bytes.len(), 24);
    assert_eq!(&bytes[..8], &[1u8, 2, 3, 4, 5, 6, 7, 8][..]);
    assert_eq!(cast_back::<u64>(&bytes), longs);
}
