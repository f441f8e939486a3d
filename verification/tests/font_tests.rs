use vt_core::error::Error;
use vt_core::font::{kd_font_op_req, parse};

fn psf1(charsize: u8, extra: usize) -> Vec<u8> {
    let mut d = vec![0x36, 0x04, 0x00, charsize];
    for i in 0..(256 * charsize as usize + extra) {
        d.push((i % 251) as u8);
    }
    d
}

fn psf2_header(version: u32, headersize: u32, length: u32, charsize: u32, height: u32, width: u32) -> Vec<u8> {
    let mut d = vec![0x72, 0xb5, 0x4a, 0x86];
    for v in [version, headersize, 0, length, charsize, height, width] {
        d.extend_from_slice(&v.to_le_bytes());
    }
    d
}

fn font_error(data: &[u8]) -> &'static str {
    match parse(data) {
        Err(Error::FontParse(m)) => m,
        Err(e) => panic!("unexpected error {:?}", e),
        Ok(_) => panic!("unexpected success"),
    }
}

#[test]
fn parse_psf1_font() {
    let d = psf1(16, 0);
    let f = parse(&d).unwrap();
    assert_eq!(f.width, 8);
    assert_eq!(f.height, 16);
    assert_eq!(f.charcount, 256);
    assert_eq!(f.bytes_per_glyph, 16);
    assert_eq!(f.data.len(), 4096);
    assert_eq!(&f.data[..], &d[4..4 + 4096]);
}

#[test]
fn parse_psf1_ignores_trailing_bytes() {
    let d = psf1(8, 100);
    let f = parse(&d).unwrap();
    assert_eq!(f.data.len(), 2048);
    assert_eq!(&f.data[..], &d[4..4 + 2048]);
}

#[test]
fn parse_psf1_zero_charsize() {
    let f = parse(&[0x36, 0x04, 0x00, 0x00]).unwrap();
    assert_eq!(f.height, 0);
    assert_eq!(f.bytes_per_glyph, 0);
    assert!(f.data.is_empty());
}

#[test]
fn parse_psf2_font() {
    let mut d = psf2_header(0, 32, 3, 4, 2, 16);
    d.extend_from_slice(&[1, 2, 3, 4, 5, 6, 7, 8, 9, 10, 11, 12, 99]);
    let f = parse(&d).unwrap();
    assert_eq!(f.width, 16);
    assert_eq!(f.height, 2);
    assert_eq!(f.charcount, 3);
    assert_eq!(f.bytes_per_glyph, 4);
    assert_eq!(f.data, vec![1, 2, 3, 4, 5, 6, 7, 8, 9, 10, 11, 12]);
}

#[test]
fn parse_psf2_small_headersize_reads_from_header() {
    let d = psf2_header(0, 4, 1, 8, 1, 8);
    let f = parse(&d).unwrap();
    assert_eq!(f.data, d[4..12].to_vec());
}

#[test]
fn parse_errors() {
    assert_eq!(font_error(&[]), "file too short");
    assert_eq!(font_error(&[0x36]), "file too short");
    assert_eq!(font_error(&[0x36, 0x04]), "PSF1 file too short");
    assert_eq!(font_error(&[0x36, 0x04, 0, 1]), "PSF1 glyph data truncated");
    assert_eq!(font_error(&[0x72, 0xb5, 0x4a]), "unknown font format (not PSF1 or PSF2)");
    assert_eq!(font_error(&[0x00, 0x00, 0x00, 0x00]), "unknown font format (not PSF1 or PSF2)");
    assert_eq!(font_error(&[0x72, 0xb5, 0x4a, 0x86, 0]), "PSF2 file too short");
    assert_eq!(font_error(&psf2_header(1, 32, 0, 0, 0, 0)), "PSF2 unsupported version");
    assert_eq!(font_error(&psf2_header(0, 32, 2, 8, 8, 8)), "PSF2 glyph data truncated");
    assert_eq!(font_error(&psf2_header(0, 33, 0, 0, 8, 8)), "PSF2 glyph data truncated");
    assert_eq!(font_error(&psf2_header(0, 32, u32::MAX, u32::MAX, 8, 8)), "PSF2 glyph data truncated");
}

#[test]
fn parse_error_message() {
    let e = parse(&[1]).err().unwrap();
    assert_eq!(e.message(), "font parse error: file too short");
}

#[test]
fn parsed_font_holds_charcount_glyphs() {
    let mut d = psf2_header(0, 32, 5, 3, 3, 8);
    d.extend_from_slice(&[7; 20]);
    let f = parse(&d).unwrap();
    assert_eq!(f.data.len(), f.charcount as usize * f.bytes_per_glyph);
    let f = parse(&psf1(14, 3)).unwrap();
    assert_eq!(f.data.len(), f.charcount as usize * f.bytes_per_glyph);
}

#[test]
fn font_op_request_number() {
    assert_eq!(kd_font_op_req(32), 0xC020_4B71);
    assert_eq!(kd_font_op_req(24), 0xC018_4B71);
    assert_eq!(kd_font_op_req(0), 0xC000_4B71);
}
