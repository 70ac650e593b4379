use wayshot_core::screencopy::ImageView;
use wayshot_core::tonemap::alpha_high_byte;
use wayshot_core::tonemap::tonemap_gate;
use wayshot_core::tonemap::tonemap_validate;
use wayshot_core::types::ColorType;
use wayshot_core::types::Error;

#[test]
fn tonemap_accepts_sixteen_bit_kinds_only() {
    assert_eq!(tonemap_validate(ColorType::Rgb16), Ok(false));
    assert_eq!(tonemap_validate(ColorType::Rgba16), Ok(true));
    assert_eq!(tonemap_validate(ColorType::Rgb8), Err(Error::InvalidColor));
    assert_eq!(tonemap_validate(ColorType::Rgba8), Err(Error::InvalidColor));
}

#[test]
fn tonemap_gate_hands_back_geometry() {
    let image = ImageView::Rgba16 {
        width: 3,
        height: 2,
        data: vec![0u16; 24],
    };
    assert_eq!(tonemap_gate(&image), Ok((3, 2, true)));
}

#[test]
fn tonemap_gate_rejects_already_eight_bit_input() {
    let image = ImageView::Rgb8 {
        width: 1,
        height: 1,
        data: vec![0u8; 3],
    };
    assert_eq!(tonemap_gate(&image), Err(Error::InvalidColor));
}

#[test]
fn alpha_keeps_top_eight_bits() {
    assert_eq!(alpha_high_byte(0x0000), 0x00);
    assert_eq!(alpha_high_byte(0xFFFF), 0xFF);
    assert_eq!(alpha_high_byte(0xABCD), 0xAB);
    assert_eq!(alpha_high_byte(0x00FF), 0x00);
}
