use vstd::prelude::*;

use crate::error::{Error, Result};

verus! {

/// Magic bytes that open a PSF1 font.
pub const PSF1_MAGIC: [u8; 2] = [0x36, 0x04];

/// Magic bytes that open a PSF2 font.
pub const PSF2_MAGIC: [u8; 4] = [0x72, 0xb5, 0x4a, 0x86];

/// Size of the PSF1 header: magic (2 bytes), mode, charsize.
pub const PSF1_HEADER_SIZE: usize = 4;

/// Size of the PSF2 header: magic (4 bytes) and seven little-endian `u32` fields.
pub const PSF2_HEADER_SIZE: usize = 32;

/// A console font: glyph geometry and the glyph bitmaps.
#[derive(Clone)]
pub struct Font {
    pub width: u32,
    pub height: u32,
    pub charcount: u32,
    pub data: Vec<u8>,
    pub bytes_per_glyph: usize,
}

/// The mathematical value of a [`Font`].
pub struct FontView {
    pub width: u32,
    pub height: u32,
    pub charcount: u32,
    pub data: Seq<u8>,
    pub bytes_per_glyph: usize,
}

impl View for Font {
    type V = FontView;

    open spec fn view(&self) -> FontView {
        FontView {
            width: self.width,
            height: self.height,
            charcount: self.charcount,
            data: self.data@,
            bytes_per_glyph: self.bytes_per_glyph,
        }
    }
}

/// The little-endian 32-bit number stored at `d[off..off + 4]`.
pub open spec fn le_u32(d: Seq<u8>, off: int) -> int {
    d[off] + 256 * d[off + 1] + 65536 * d[off + 2] + 16777216 * d[off + 3]
}

/// What parsing a PSF1 file `d` (whose magic has been recognised) yields:
/// the font, or the message of the parse error.
pub open spec fn spec_parse_psf1(d: Seq<u8>) -> core::result::Result<FontView, Seq<char>> {
    if d.len() < 4 {
        Err("PSF1 file too short"@)
    } else {
        let charsize = d[3];
        let glyph_bytes = 256 * charsize;
        if d.len() < 4 + glyph_bytes {
            Err("PSF1 glyph data truncated"@)
        } else {
            Ok(FontView {
                width: 8,
                height: charsize as u32,
                charcount: 256,
                data: d.subrange(4, 4 + glyph_bytes),
                bytes_per_glyph: charsize as usize,
            })
        }
    }
}

/// What parsing a PSF2 file `d` (whose magic has been recognised) yields.
/// The header fields are little-endian: version at 4, headersize at 8,
/// length (glyph count) at 16, charsize at 20, height at 24, width at 28.
pub open spec fn spec_parse_psf2(d: Seq<u8>) -> core::result::Result<FontView, Seq<char>> {
    if d.len() < 32 {
        Err("PSF2 file too short"@)
    } else if le_u32(d, 4) != 0 {
        Err("PSF2 unsupported version"@)
    } else {
        let headersize = le_u32(d, 8);
        let charcount = le_u32(d, 16);
        let charsize = le_u32(d, 20);
        let glyph_bytes = charcount * charsize;
        if d.len() < headersize + glyph_bytes {
            Err("PSF2 glyph data truncated"@)
        } else {
            Ok(FontView {
                width: le_u32(d, 28) as u32,
                height: le_u32(d, 24) as u32,
                charcount: charcount as u32,
                data: d.subrange(headersize, headersize + glyph_bytes),
                bytes_per_glyph: charsize as usize,
            })
        }
    }
}

pub open spec fn is_psf1(d: Seq<u8>) -> bool {
    d.len() >= 2 && d[0] == 0x36 && d[1] == 0x04
}

pub open spec fn is_psf2(d: Seq<u8>) -> bool {
    d.len() >= 4 && d[0] == 0x72 && d[1] == 0xb5 && d[2] == 0x4a && d[3] == 0x86
}

/// What parsing the font file `d` yields: the font, or the message of the
/// parse error.
pub open spec fn spec_parse_font(d: Seq<u8>) -> core::result::Result<FontView, Seq<char>> {
    if d.len() < 2 {
        Err("file too short"@)
    } else if is_psf1(d) {
        spec_parse_psf1(d)
    } else if is_psf2(d) {
        spec_parse_psf2(d)
    } else {
        Err("unknown font format (not PSF1 or PSF2)"@)
    }
}

/// `res` is what `spec` describes: the same font, or a font parse error
/// with the same message.
pub open spec fn font_result_matches(
    res: Result<Font>,
    spec: core::result::Result<FontView, Seq<char>>,
) -> bool {
    match spec {
        Ok(v) => res matches Ok(f) && f@ == v,
        Err(msg) => res matches Err(Error::FontParse(m)) && m@ == msg,
    }
}

/// Reads the little-endian `u32` at `data[off..off + 4]`.
fn read_u32_le(data: &[u8], off: usize) -> (r: u32)
    requires
        off + 4 <= data@.len(),
    ensures
        r == le_u32(data@, off as int),
{
    let b0 = data[off] as u32;
    let b1 = data[off + 1] as u32;
    let b2 = data[off + 2] as u32;
    let b3 = data[off + 3] as u32;
    b0 + 256 * b1 + 65536 * b2 + 16777216 * b3
}

/// Copies `data[start..end]` into a new vector.
fn copy_range(data: &[u8], start: usize, end: usize) -> (v: Vec<u8>)
    requires
        start <= end <= data@.len(),
    ensures
        v@ == data@.subrange(start as int, end as int),
{
    let mut v: Vec<u8> = Vec::with_capacity(end - start);
    let mut i: usize = start;
    while i < end
        invariant
            start <= i <= end <= data@.len(),
            v@ == data@.subrange(start as int, i as int),
        decreases end - i,
    {
        v.push(data[i]);
        i = i + 1;
    }
    v
}

/// Parses a PSF1 font (the magic has already been recognised).
fn parse_psf1(data: &[u8]) -> (res: Result<Font>)
    ensures
        font_result_matches(res, spec_parse_psf1(data@)),
{
    if data.len() < PSF1_HEADER_SIZE {
        return Err(Error::FontParse("PSF1 file too short"));
    }
    let charsize: u8 = data[3];
    let charcount: u32 = 256;
    let width: u32 = 8;
    let height = charsize as u32;
    let bpg = charsize as usize;
    let glyph_bytes: usize = 256 * bpg;
    if data.len() < PSF1_HEADER_SIZE + glyph_bytes {
        return Err(Error::FontParse("PSF1 glyph data truncated"));
    }
    let glyph_data = copy_range(data, PSF1_HEADER_SIZE, PSF1_HEADER_SIZE + glyph_bytes);
    Ok(Font { width, height, charcount, data: glyph_data, bytes_per_glyph: bpg })
}

/// Parses a PSF2 font (the magic has already been recognised).
fn parse_psf2(data: &[u8]) -> (res: Result<Font>)
    ensures
        font_result_matches(res, spec_parse_psf2(data@)),
{
    if data.len() < PSF2_HEADER_SIZE {
        return Err(Error::FontParse("PSF2 file too short"));
    }
    let version = read_u32_le(data, 4);
    if version != 0 {
        return Err(Error::FontParse("PSF2 unsupported version"));
    }
    let headersize = read_u32_le(data, 8);
    let charcount = read_u32_le(data, 16);
    let charsize = read_u32_le(data, 20);
    let height = read_u32_le(data, 24);
    let width = read_u32_le(data, 28);

    assert((charcount as int) * (charsize as int) <= 0xffff_ffff * 0xffff_ffff) by (nonlinear_arith)
        requires
            charcount <= 0xffff_ffff,
            charsize <= 0xffff_ffff,
    ;
    let glyph_bytes: u64 = (charcount as u64) * (charsize as u64);
    let end: u64 = headersize as u64 + glyph_bytes;
    if (data.len() as u64) < end {
        return Err(Error::FontParse("PSF2 glyph data truncated"));
    }
    let glyph_data = copy_range(data, headersize as usize, end as usize);
    Ok(Font {
        width,
        height,
        charcount,
        data: glyph_data,
        bytes_per_glyph: charsize as usize,
    })
}

/// Parses a PSF1 or PSF2 console font from the bytes of a font file.
pub fn parse(data: &[u8]) -> (res: Result<Font>)
    ensures
        font_result_matches(res, spec_parse_font(data@)),
{
    if data.len() < 2 {
        return Err(Error::FontParse("file too short"));
    }
    if data[0] == PSF1_MAGIC[0] && data[1] == PSF1_MAGIC[1] {
        parse_psf1(data)
    } else if data.len() >= 4 && data[0] == PSF2_MAGIC[0] && data[1] == PSF2_MAGIC[1]
        && data[2] == PSF2_MAGIC[2] && data[3] == PSF2_MAGIC[3] {
        parse_psf2(data)
    } else {
        Err(Error::FontParse("unknown font format (not PSF1 or PSF2)"))
    }
}

/// Where the glyph data starts in the font file `d`: after the PSF1 header,
/// or at the header size that a PSF2 header states.
pub open spec fn glyph_offset(d: Seq<u8>) -> int {
    if is_psf1(d) {
        4
    } else {
        le_u32(d, 8)
    }
}

/// A font is parsed only from a file with a PSF magic, and its glyph data
/// holds exactly `charcount` glyphs of `bytes_per_glyph` bytes each, taken
/// from the file as they stand; a PSF1 font has 256 glyphs, 8 pixels wide.
pub proof fn lemma_parsed_font_shape(d: Seq<u8>)
    requires
        spec_parse_font(d) is Ok,
    ensures
        is_psf1(d) || is_psf2(d),
        ({
            let v = spec_parse_font(d)->Ok_0;
            &&& v.data.len() == v.charcount * v.bytes_per_glyph
            &&& 0 <= glyph_offset(d) && glyph_offset(d) + v.data.len() <= d.len()
            &&& v.data == d.subrange(glyph_offset(d), glyph_offset(d) + v.data.len())
            &&& is_psf1(d) ==> v.charcount == 256 && v.width == 8 && v.height == v.bytes_per_glyph
        }),
{
    let v = spec_parse_font(d)->Ok_0;
    if is_psf1(d) {
        assert(v.data == d.subrange(4, 4 + v.data.len() as int));
    } else {
        let headersize = le_u32(d, 8);
        assert(v.data == d.subrange(headersize, headersize + v.data.len()));
    }
}

/// A PSF1 file is accepted exactly when it holds its 4-byte header and
/// 256 glyphs of `charsize` (its fourth byte) bytes each, whatever its mode
/// byte and whatever follows the glyphs; the font is then 8 pixels wide and
/// `charsize` high, with those glyph bytes.
pub proof fn lemma_psf1_accepted(d: Seq<u8>)
    requires
        is_psf1(d),
    ensures
        spec_parse_font(d) is Ok <==> (d.len() >= 4 && d.len() >= 4 + 256 * d[3]),
        spec_parse_font(d) is Ok ==> ({
            let v = spec_parse_font(d)->Ok_0;
            &&& v.width == 8
            &&& v.height == d[3]
            &&& v.charcount == 256
            &&& v.bytes_per_glyph == d[3]
            &&& v.data == d.subrange(4, 4 + 256 * d[3])
        }),
{
}

/// A PSF2 file is accepted exactly when its header is complete, its version
/// is 0 and it holds `length * charsize` glyph bytes after its header,
/// whatever its flags and whatever follows the glyphs (such as a Unicode
/// table); the font then has the header's geometry and those glyph bytes.
pub proof fn lemma_psf2_accepted(d: Seq<u8>)
    requires
        is_psf2(d),
    ensures
        spec_parse_font(d) is Ok <==> (d.len() >= 32 && le_u32(d, 4) == 0
            && d.len() >= le_u32(d, 8) + le_u32(d, 16) * le_u32(d, 20)),
        spec_parse_font(d) is Ok ==> ({
            let v = spec_parse_font(d)->Ok_0;
            let headersize = le_u32(d, 8);
            let glyph_bytes = le_u32(d, 16) * le_u32(d, 20);
            &&& v.width == le_u32(d, 28)
            &&& v.height == le_u32(d, 24)
            &&& v.charcount == le_u32(d, 16)
            &&& v.bytes_per_glyph == le_u32(d, 20)
            &&& v.data == d.subrange(headersize, headersize + glyph_bytes)
        }),
{
    assert(!is_psf1(d));
    if d.len() >= 32 {
        assert(0 <= le_u32(d, 16) <= u32::MAX);
        assert(0 <= le_u32(d, 20) <= u32::MAX);
        assert(0 <= le_u32(d, 24) <= u32::MAX);
        assert(0 <= le_u32(d, 28) <= u32::MAX);
        assert(0 <= le_u32(d, 8));
        assert(le_u32(d, 16) * le_u32(d, 20) >= 0) by (nonlinear_arith)
            requires
                le_u32(d, 16) >= 0,
                le_u32(d, 20) >= 0,
        ;
    }
}

/// The request number of the `KDFONTOP` ioctl, `_IOWR('K', 0x71, op)` for a
/// font operation structure of `op_size` bytes: direction bits 3 at 30,
/// the size at 16, the type `'K'` at 8 and the number 0x71.
pub fn kd_font_op_req(op_size: u32) -> (r: u64)
    ensures
        r == (3u64 << 30u64) | ((op_size as u64) << 16u64) | (0x4Bu64 << 8u64) | 0x71u64,
        op_size < 0x4000 ==> r == 0xC000_0000 + op_size * 0x10000 + 0x4B71,
{
    let dir: u64 = 3;  // read | write
    let typ: u64 = 0x4B;
    let nr: u64 = 0x71;
    let size = op_size as u64;
    let r = (dir << 30u64) | (typ << 8u64) | nr | (size << 16u64);
    assert(r == (3u64 << 30u64) | (size << 16u64) | (0x4Bu64 << 8u64) | 0x71u64
        && (size < 0x4000 ==> r == 0xC000_0000 + size * 0x10000 + 0x4B71)) by (bit_vector)
        requires
            dir == 3,
            typ == 0x4B,
            nr == 0x71,
            size <= 0xffff_ffff,
            r == (dir << 30u64) | (typ << 8u64) | nr | (size << 16u64),
    ;
    r
}

} // verus!
