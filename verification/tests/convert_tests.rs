use wayshot_core::convert::create_converter;
use wayshot_core::convert::Convert;
use wayshot_core::convert::Converter;
use wayshot_core::types::ColorType;
use wayshot_core::types::PixelFormat;

#[test]
fn converter_lookup_matches_format_table() {
    assert!(matches!(
        create_converter(PixelFormat::Xbgr8888),
        Some(Converter::Pass(_))
    ));
    assert!(matches!(
        create_converter(PixelFormat::Abgr8888),
        Some(Converter::Pass(_))
    ));
    assert!(matches!(
        create_converter(PixelFormat::Xrgb8888),
        Some(Converter::SwapRedBlue(_))
    ));
    assert!(matches!(
        create_converter(PixelFormat::Argb8888),
        Some(Converter::SwapRedBlue(_))
    ));
    assert!(matches!(
        create_converter(PixelFormat::Bgr888),
        Some(Converter::KeepBgr(_))
    ));
    assert!(create_converter(PixelFormat::Xrgb2101010).is_none());
    assert!(create_converter(PixelFormat::Other(0x1234)).is_none());
}

#[test]
fn identity_converter_reports_rgba_and_keeps_bytes() {
    let converter = create_converter(PixelFormat::Xbgr8888).unwrap();
    let mut data = vec![1u8, 2, 3, 4, 5, 6, 7, 8];
    let color = converter.convert_inplace(&mut data);
    assert_eq!(color, ColorType::Rgba8);
    assert_eq!(data, vec![1u8, 2, 3, 4, 5, 6, 7, 8]);
}

#[test]
fn swap_converter_swaps_red_and_blue_in_every_group() {
    let converter = create_converter(PixelFormat::Argb8888).unwrap();
    let mut data = vec![10u8, 20, 30, 40, 50, 60, 70, 80];
    let color = converter.convert_inplace(&mut data);
    assert_eq!(color, ColorType::Rgba8);
    assert_eq!(data, vec![30u8, 20, 10, 40, 70, 60, 50, 80]);
}

#[test]
fn bgr_converter_reports_rgb_and_keeps_bytes() {
    let converter = create_converter(PixelFormat::Bgr888).unwrap();
    let mut data = vec![9u8, 8, 7, 6, 5, 4];
    let color = converter.convert_inplace(&mut data);
    assert_eq!(color, ColorType::Rgb8);
    assert_eq!(data, vec![9u8, 8, 7, 6, 5, 4]);
}

#[test]
fn apply_on_partial_group_leaves_tail_untouched() {
    let converter = create_converter(PixelFormat::Xrgb8888).unwrap();
    let mut data = vec![1u8, 2, 3, 4, 90, 91, 92];
    let color = converter.convert_inplace(&mut data);
    assert_eq!(color, ColorType::Rgba8);
    assert_eq!(data, vec![3u8, 2, 1, 4, 90, 91, 92]);

    let mut tiny = vec![11u8, 22, 33];
    converter.convert_inplace(&mut tiny);
    assert_eq!(tiny, vec![11u8, 22, 33]);

    let mut empty: Vec<u8> = Vec::new();
    converter.convert_inplace(&mut empty);
    assert!(empty.is_empty());
}

#[test]
fn swap_converter_is_self_inverse() {
    let converter = create_converter(PixelFormat::Xrgb8888).unwrap();
    let original = vec![1u8, 2, 3, 4, 5, 6, 7, 8, 9, 10];
    let mut data = original.clone();
    converter.convert_inplace(&mut data);
    converter.convert_inplace(&mut data);
    assert_eq!(data, original);
}
