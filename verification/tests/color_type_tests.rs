use png::color_type::ColorType;

#[test]
fn test_try_from() {
    assert_eq!(ColorType::try_from(0).is_ok(), true);
    assert_eq!(ColorType::try_from(2).is_ok(), true);
    assert_eq!(ColorType::try_from(3).is_ok(), true);
    assert_eq!(ColorType::try_from(4).is_ok(), true);
    assert_eq!(ColorType::try_from(6).is_ok(), true);
    assert_eq!(ColorType::try_from(8).is_err(), true);
}

#[test]
fn test_into() {
    assert_eq!(ColorType::Grayscale.into(), 0);
    assert_eq!(ColorType::Rgb.into(), 2);
    assert_eq!(ColorType::PaletteIndex.into(), 3);
    assert_eq!(ColorType::GrayscaleWithAlpha.into(), 4);
    assert_eq!(ColorType::RgbWithAlpha.into(), 6);
}

#[test]
fn test_fmt() {
    assert_eq!(ColorType::Grayscale.render_as_text(), "Grayscale");
    assert_eq!(ColorType::Rgb.render_as_text(), "RGB");
    assert_eq!(ColorType::PaletteIndex.render_as_text(), "Palette Index");
    assert_eq!(ColorType::GrayscaleWithAlpha.render_as_text(), "Grayscale(with alpha)");
    assert_eq!(ColorType::RgbWithAlpha.render_as_text(), "RGBA");
}

#[test]
fn test_channels() {
    assert_eq!(ColorType::Grayscale.channels(), 1);
    assert_eq!(ColorType::Rgb.channels(), 3);
    assert_eq!(ColorType::PaletteIndex.channels(), 1);
    assert_eq!(ColorType::GrayscaleWithAlpha.channels(), 2);
    assert_eq!(ColorType::RgbWithAlpha.channels(), 4);
}
