use png::chromaticities::ChunkChromaticities;
use png::color_type::ColorType;
use png::error::PngError;
use png::gamma::ChunkGamma;
use png::icc_profile::ChunkICCProfile;
use png::image_header::ChunkImageHeader;
use png::palette::ChunkPalette;
use png::srgb::ChunkSRGB;
use png::textual::ChunkTextual;
use png::transparency::ChunkTransparency;

fn header_bytes(
    width: u32,
    height: u32,
    bit_depth: u8,
    color_type: u8,
    compression: u8,
    filter: u8,
    interlace: u8,
) -> Vec<u8> {
    let mut v = width.to_be_bytes().to_vec();
    v.extend_from_slice(&height.to_be_bytes());
    v.push(bit_depth);
    v.push(color_type);
    v.push(compression);
    v.push(filter);
    v.push(interlace);
    v
}

#[test]
fn test_header_valid_indexed() {
    // width=0, height=0, bit-depth=1, color-type=3 (indexed),
    // compression=0, filter=0, interlace=0 decodes successfully.
    let raw = header_bytes(0, 0, 1, 3, 0, 0, 0);
    let h = ChunkImageHeader::decode(&raw).unwrap();
    assert_eq!(h.width(), 0);
    assert_eq!(h.height(), 0);
    assert_eq!(h.bit_depth(), 1);
    assert_eq!(h.color_type(), ColorType::PaletteIndex);
    assert_eq!(h.color_channels(), 1);
    assert_eq!(h.compression_method(), 0);
    assert_eq!(h.filter_method(), 0);
    assert_eq!(h.interface_method(), 0);
    assert_eq!(h.as_bytes(), raw);
}

#[test]
fn test_header_bad_bit_depth() {
    // bit-depth=3 with color-type=0 is no legal combination.
    let raw = header_bytes(1, 1, 3, 0, 0, 0, 0);
    assert_eq!(ChunkImageHeader::decode(&raw).unwrap_err(), PngError::InvalidBitDepth);
}

#[test]
fn test_header_bad_compression_regardless() {
    // compression=1 fails whatever the other fields hold.
    let raw = header_bytes(1, 1, 8, 0, 1, 0, 0);
    assert_eq!(ChunkImageHeader::decode(&raw).unwrap_err(), PngError::InvalidCompressionMethod);
    let raw = header_bytes(640, 480, 8, 6, 1, 0, 1);
    assert_eq!(ChunkImageHeader::decode(&raw).unwrap_err(), PngError::InvalidCompressionMethod);
}

#[test]
fn test_header_other_field_errors() {
    let raw = header_bytes(1, 1, 8, 5, 0, 0, 0);
    assert_eq!(ChunkImageHeader::decode(&raw).unwrap_err(), PngError::InvalidColorType);
    let raw = header_bytes(1, 1, 8, 0, 0, 2, 0);
    assert_eq!(ChunkImageHeader::decode(&raw).unwrap_err(), PngError::InvalidFilterMethod);
    let raw = header_bytes(1, 1, 8, 0, 0, 0, 2);
    assert_eq!(ChunkImageHeader::decode(&raw).unwrap_err(), PngError::InvalidInterlaceMethod);
    let raw = vec![0u8; 12];
    assert_eq!(ChunkImageHeader::decode(&raw).unwrap_err(), PngError::InvalidHeaderLength);
}

#[test]
fn test_header_round_trip_exact() {
    let raw = header_bytes(800, 600, 8, 2, 0, 0, 1);
    let h = ChunkImageHeader::decode(&raw).unwrap();
    assert_eq!(h.width(), 800);
    assert_eq!(h.height(), 600);
    assert_eq!(h.as_bytes(), raw);
    assert_eq!(
        h.render_as_text(),
        "Width: 800, Height: 600\nBit depth: 8, Color type: RGB"
    );
}

#[test]
fn test_gamma_codec() {
    let g = ChunkGamma::decode(&vec![0, 1, 0, 0]).unwrap();
    assert_eq!(g.value(), 65536);
    assert_eq!(g.as_bytes(), vec![0, 1, 0, 0]);
    assert_eq!(g.render_as_text(), "65536");
    assert_eq!(ChunkGamma::decode(&vec![0, 1, 0]).unwrap_err(), PngError::ChunkParseError);
    assert_eq!(ChunkGamma::decode(&vec![0, 1, 0, 0, 0]).unwrap_err(), PngError::ChunkParseError);
}

#[test]
fn test_chromaticities_codec() {
    let mut raw: Vec<u8> = Vec::new();
    for v in [31270u32, 32900, 64000, 33000, 30000, 60000, 15000, 6000] {
        raw.extend_from_slice(&v.to_be_bytes());
    }
    let c = ChunkChromaticities::decode(&raw).unwrap();
    assert_eq!(c.white_point_x, 31270);
    assert_eq!(c.blue_y, 6000);
    assert_eq!(c.as_bytes(), raw);
    assert_eq!(ChunkChromaticities::decode(&vec![0u8; 31]).unwrap_err(), PngError::ChunkParseError);
}

#[test]
fn test_srgb_codec() {
    let s = ChunkSRGB::decode(&vec![2]).unwrap();
    assert_eq!(s.intent(), 2);
    assert_eq!(s.as_bytes(), vec![2]);
    assert_eq!(s.render_as_text(), "Saturation");
    assert_eq!(ChunkSRGB::decode(&vec![]).unwrap_err(), PngError::ChunkParseError);
    assert_eq!(ChunkSRGB::decode(&vec![0, 0]).unwrap_err(), PngError::ChunkParseError);
    assert_eq!(ChunkSRGB::decode(&vec![9]).unwrap().render_as_text(), "Unknown");
}

#[test]
fn test_palette_codec() {
    let raw = vec![1, 2, 3, 4, 5, 6];
    let p = ChunkPalette::decode(&raw).unwrap();
    let first = p.get(0).unwrap();
    assert_eq!(first.red(), 1);
    assert_eq!(first.green(), 2);
    assert_eq!(first.blue(), 3);
    let second = p.get(1).unwrap();
    assert_eq!(second.red(), 4);
    assert!(p.get(2).is_none());
    assert_eq!(p.as_bytes(), raw);
    assert_eq!(p.render_as_text(), "Palette: (1, 2, 3)\nPalette: (4, 5, 6)");
}

#[test]
fn test_palette_rejects_partial_triple() {
    // A byte count not divisible by three is a structural anomaly, not
    // silently truncated.
    let raw = vec![1, 2, 3, 4];
    assert_eq!(ChunkPalette::decode(&raw).unwrap_err(), PngError::ChunkParseError);
}

#[test]
fn test_icc_profile_codec() {
    let mut raw = b"name".to_vec();
    raw.push(0);
    raw.push(0);
    raw.extend_from_slice(&[9, 8, 7]);
    let p = ChunkICCProfile::decode(&raw).unwrap();
    assert_eq!(p.profile_name().unwrap(), "name");
    assert_eq!(p.compression_method, 0);
    assert_eq!(p.compression_profile, vec![9, 8, 7]);
    assert_eq!(p.as_bytes(), raw);
}

#[test]
fn test_icc_profile_errors() {
    // No separator.
    assert_eq!(ChunkICCProfile::decode(&b"name".to_vec()).unwrap_err(), PngError::ChunkParseError);
    // Separator at position 0: empty name.
    assert_eq!(ChunkICCProfile::decode(&vec![0, 0, 1]).unwrap_err(), PngError::ChunkParseError);
    // Name longer than 79 bytes.
    let mut long = vec![b'a'; 80];
    long.push(0);
    long.push(0);
    assert_eq!(ChunkICCProfile::decode(&long).unwrap_err(), PngError::ChunkParseError);
    // Missing compression method byte after the separator.
    let mut no_method = b"name".to_vec();
    no_method.push(0);
    assert_eq!(ChunkICCProfile::decode(&no_method).unwrap_err(), PngError::ChunkParseError);
}

#[test]
fn test_textual_codec() {
    let mut raw = b"Title".to_vec();
    raw.push(0);
    raw.extend_from_slice(b"Hello");
    let t = ChunkTextual::decode(&raw).unwrap();
    assert_eq!(t.keyword().unwrap(), "Title");
    assert_eq!(t.text().unwrap(), Some("Hello".to_string()));
    assert_eq!(t.as_bytes(), raw);
    assert_eq!(t.render_as_text(), "ChunkTextual {Keyword: Title, Text: Hello}");
}

#[test]
fn test_textual_text_absent_when_separator_last() {
    let mut raw = b"Title".to_vec();
    raw.push(0);
    let t = ChunkTextual::decode(&raw).unwrap();
    assert_eq!(t.keyword().unwrap(), "Title");
    assert_eq!(t.text().unwrap(), None);
    assert_eq!(t.as_bytes(), raw);
}

#[test]
fn test_textual_errors() {
    // No separator at all.
    assert_eq!(ChunkTextual::decode(&b"Title".to_vec()).unwrap_err(), PngError::ChunkParseError);
    // Empty keyword.
    assert_eq!(ChunkTextual::decode(&vec![0, b'x']).unwrap_err(), PngError::ChunkParseError);
    // Keyword bytes that are not UTF-8 fail only on interpretation.
    let t = ChunkTextual::decode(&vec![0xff, 0]).unwrap();
    assert_eq!(t.keyword().unwrap_err(), PngError::EncodingError);
}

#[test]
fn test_transparency_queries() {
    let raw = vec![10, 20, 30];
    let t = ChunkTransparency::decode(&raw).unwrap();
    assert_eq!(t.as_bytes(), raw);
    // Only indexed color defines a transparency entry per index.
    assert_eq!(t.get_transparency(&ColorType::PaletteIndex, 1), Some(&20));
    assert_eq!(t.get_transparency(&ColorType::PaletteIndex, 3), None);
    assert_eq!(t.get_transparency(&ColorType::Rgb, 1), None);
    assert_eq!(t.get_transparency(&ColorType::Grayscale, 0), None);
}
