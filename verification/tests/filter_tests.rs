use png::color::Color;
use png::filter_method::{reverse_average_filter, reverse_paeth_filter, reverse_sub_filter,
    reverse_up_filter};
use png::filter_type::FilterType;

#[test]
fn test_reverse_sub_filter() {
    let mut scanline = vec![1u8, 2, 3, 4];
    reverse_sub_filter(&mut scanline);
    assert_eq!(scanline, vec![1, 3, 6, 10]);

    let mut wrapping = vec![200u8, 100];
    reverse_sub_filter(&mut wrapping);
    assert_eq!(wrapping, vec![200, 44]);
}

#[test]
fn test_reverse_up_filter() {
    let mut scanline = vec![1u8, 2, 250];
    let prev = vec![10u8, 20, 30];
    reverse_up_filter(&mut scanline, &prev);
    assert_eq!(scanline, vec![11, 22, 24]);
}

#[test]
fn test_reverse_average_filter() {
    let mut scanline = vec![1u8, 2, 3];
    let prev = vec![10u8, 20, 30];
    reverse_average_filter(&mut scanline, &prev);
    // r0 = 1 + (10 + 0)/2 = 6; r1 = 2 + (20 + 6)/2 = 15;
    // r2 = 3 + (30 + 15)/2 = 25.
    assert_eq!(scanline, vec![6, 15, 25]);
}

#[test]
fn test_reverse_paeth_filter() {
    let mut scanline = vec![1u8, 2, 3];
    let prev = vec![10u8, 20, 30];
    reverse_paeth_filter(&mut scanline, &prev);
    // The predictor picks the above byte here at each step.
    assert_eq!(scanline, vec![11, 22, 33]);
}

#[test]
fn test_filter_type_try_from() {
    assert_eq!(FilterType::try_from(0).unwrap(), FilterType::NoFilter);
    assert_eq!(FilterType::try_from(1).unwrap(), FilterType::Sub);
    assert_eq!(FilterType::try_from(2).unwrap(), FilterType::Up);
    assert_eq!(FilterType::try_from(3).unwrap(), FilterType::Average);
    assert_eq!(FilterType::try_from(4).unwrap(), FilterType::Paeth);
    assert!(FilterType::try_from(5).is_err());
}

#[test]
fn test_filter_type_into() {
    assert_eq!(FilterType::NoFilter.into(), 0);
    assert_eq!(FilterType::Sub.into(), 1);
    assert_eq!(FilterType::Up.into(), 2);
    assert_eq!(FilterType::Average.into(), 3);
    assert_eq!(FilterType::Paeth.into(), 4);
}

#[test]
fn test_filter_type_render() {
    assert_eq!(FilterType::NoFilter.render_as_text(), "None");
    assert_eq!(FilterType::Paeth.render_as_text(), "Paeth");
}

#[test]
fn test_color_render() {
    assert_eq!(Color::Grayscale(1, 2, 3).render_as_text(), "Grayscale(1, 2, 3)");
    assert_eq!(Color::Rgb(255, 0, 128).render_as_text(), "RGB(255, 0, 128)");
    assert_eq!(Color::PaletteIndex(1, 2, 3, 4).render_as_text(), "Palette(1, 2, 3, 4)");
    assert_eq!(Color::GrayscaleA(9, 8, 7, 6).render_as_text(), "GrayscaleAlpha(9, 8, 7, 6)");
    assert_eq!(Color::RgbA(1, 2, 3, 4).render_as_text(), "RGBA(1, 2, 3, 4)");
}
