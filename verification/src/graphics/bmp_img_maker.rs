use vstd::prelude::*;

use crate::graphics::{Color, PixPos};

verus! {

/// Size of the bitmap file header in bytes.
pub const BMP_HEADER_SIZE: usize = 14;

/// Size of the device-independent bitmap header in bytes.
pub const DIB_HEADER_SIZE: usize = 40;

/// The number of zero bytes that pad one pixel row — `width` pixels of three
/// bytes each — up to the next multiple of four bytes.
pub open spec fn spec_padding(width: u32) -> int {
    (4 - (width * 3) % 4) % 4
}

/// The size in bytes of the pixel array, padding included.
pub open spec fn spec_bitmap_size(width: u32, height: u32) -> int {
    height * (width * 3 + spec_padding(width))
}

/// The size in bytes of the whole file: both headers, then the pixel array.
pub open spec fn spec_file_size(width: u32, height: u32) -> int {
    54 + spec_bitmap_size(width, height)
}

/// The dimensions the encoder accepts: both positive, and the whole file
/// small enough for the format's 32-bit size fields.
pub open spec fn spec_dims_ok(width: u32, height: u32) -> bool {
    &&& 1 <= width
    &&& 1 <= height
    &&& spec_file_size(width, height) <= u32::MAX
}

/// The four bytes of a 32-bit value, least significant first.
pub open spec fn spec_u32_le(v: u32) -> Seq<u8> {
    seq![
        (v & 0xff) as u8,
        ((v >> 8) & 0xff) as u8,
        ((v >> 16) & 0xff) as u8,
        ((v >> 24) & 0xff) as u8,
    ]
}

/// The two bytes of a 16-bit value, least significant first.
pub open spec fn spec_u16_le(v: u16) -> Seq<u8> {
    seq![(v & 0xff) as u8, ((v >> 8) & 0xff) as u8]
}

/// The 54 header bytes — the 14-byte file header, then the 40-byte
/// device-independent header — for an image of the given dimensions.
pub open spec fn spec_header(width: u32, height: u32) -> Seq<u8> {
    seq![66u8, 77u8] + spec_u32_le(spec_file_size(width, height) as u32) + seq![
        0u8,
        0u8,
        0u8,
        0u8,
    ] + spec_u32_le(54) + spec_u32_le(40) + spec_u32_le(width) + spec_u32_le(height) + spec_u16_le(
        1,
    ) + spec_u16_le(24) + spec_u32_le(0) + spec_u32_le(spec_bitmap_size(width, height) as u32)
        + spec_u32_le(2835) + spec_u32_le(2835) + spec_u32_le(0) + spec_u32_le(0)
}

/// The header is always exactly 54 bytes, the row padding always zero to
/// three bytes, and the stated file size always `54 + height * (width * 3 +
/// padding)`.
pub proof fn lemma_header_layout(width: u32, height: u32)
    ensures
        spec_header(width, height).len() == 54,
        0 <= spec_padding(width) <= 3,
        spec_file_size(width, height) == 54 + height * (width * 3 + spec_padding(width)),
{
}

/// Appends the four little-endian bytes of `x`.
fn push_u32_le(v: &mut Vec<u8>, x: u32)
    ensures
        final(v)@ == old(v)@ + spec_u32_le(x),
{
    proof {
        assert(x & 0xff < 256 && (x >> 8) & 0xff < 256 && (x >> 16) & 0xff < 256 && (x >> 24)
            & 0xff < 256) by (bit_vector);
    }
    v.push((x & 0xff) as u8);
    v.push(((x >> 8) & 0xff) as u8);
    v.push(((x >> 16) & 0xff) as u8);
    v.push(((x >> 24) & 0xff) as u8);
    proof {
        assert(v@ =~= old(v)@ + spec_u32_le(x));
    }
}

/// Appends the two little-endian bytes of `x`.
fn push_u16_le(v: &mut Vec<u8>, x: u16)
    ensures
        final(v)@ == old(v)@ + spec_u16_le(x),
{
    proof {
        assert(x & 0xff < 256 && (x >> 8) & 0xff < 256) by (bit_vector);
    }
    v.push((x & 0xff) as u8);
    v.push(((x >> 8) & 0xff) as u8);
    proof {
        assert(v@ =~= old(v)@ + spec_u16_le(x));
    }
}

/// A source of pixel colors: anything that can say, for every pixel
/// position, what color it has. The render driver is the one implementation
/// used for fractal images; the interface keeps the encoder independent of
/// where colors come from.
pub trait PixelSource {
    /// What must hold of the source before colors may be asked of it.
    spec fn inv(&self) -> bool;

    /// What `color_at` returns.
    spec fn spec_color_at(&self, pos: PixPos) -> Color;

    fn color_at(&self, pos: PixPos) -> (c: Color)
        requires
            self.inv(),
        ensures
            c == self.spec_color_at(pos),
    ;
}

/// The three stored bytes of one pixel: blue, green, red — the reverse of
/// the logical color fields.
pub open spec fn spec_bgr(c: Color) -> Seq<u8> {
    seq![c.b, c.g, c.r]
}

/// The bytes of the first `cols` pixels of row `row`, left to right.
pub open spec fn spec_row_prefix<S: PixelSource>(src: S, row: u32, cols: int) -> Seq<u8>
    decreases cols,
{
    if cols <= 0 {
        Seq::empty()
    } else {
        spec_row_prefix(src, row, cols - 1) + spec_bgr(
            src.spec_color_at(PixPos { row, col: (cols - 1) as u32 }),
        )
    }
}

/// One full stored row: its pixel bytes, then its padding zeros.
pub open spec fn spec_row_bytes<S: PixelSource>(src: S, row: u32, width: u32) -> Seq<u8> {
    spec_row_prefix(src, row, width as int) + Seq::new(spec_padding(width) as nat, |k: int| 0u8)
}

/// The bytes of the first `rows` stored rows, top to bottom in iteration
/// order.
pub open spec fn spec_rows_prefix<S: PixelSource>(src: S, width: u32, rows: int) -> Seq<u8>
    decreases rows,
{
    if rows <= 0 {
        Seq::empty()
    } else {
        spec_rows_prefix(src, width, rows - 1) + spec_row_bytes(src, (rows - 1) as u32, width)
    }
}

/// The whole pixel array: every row in row-major order, each padded.
pub open spec fn spec_pixel_bytes<S: PixelSource>(src: S, width: u32, height: u32) -> Seq<u8> {
    spec_rows_prefix(src, width, height as int)
}

/// The stride of one stored row: three bytes per pixel, then the padding.
pub open spec fn spec_stride(width: u32) -> int {
    width * 3 + spec_padding(width)
}

/// The byte offset within the pixel array at which a pixel's three stored
/// bytes begin.
pub open spec fn spec_pixel_offset(width: u32, pos: PixPos) -> int {
    pos.row * spec_stride(width) + 3 * pos.col
}

/// The value stored in four little-endian bytes starting at `off`.
pub open spec fn spec_u32_at(s: Seq<u8>, off: int) -> int {
    s[off] + 0x100 * s[off + 1] + 0x1_0000 * s[off + 2] + 0x100_0000 * s[off + 3]
}

/// The little-endian bytes of a 32-bit value reassemble to that value.
pub proof fn lemma_u32_le_round_trip(v: u32)
    ensures
        spec_u32_at(spec_u32_le(v), 0) == v,
{
    assert(v & 0xff < 256 && (v >> 8) & 0xff < 256 && (v >> 16) & 0xff < 256 && (v >> 24) & 0xff
        < 256 && (v & 0xff) + 0x100 * ((v >> 8) & 0xff) + 0x1_0000 * ((v >> 16) & 0xff)
        + 0x100_0000 * ((v >> 24) & 0xff) == v) by (bit_vector);
}

/// Reading the header back recovers what the encoder wrote: the magic, the
/// width, the height, and the stated file size.
pub proof fn lemma_header_round_trip(width: u32, height: u32)
    requires
        spec_dims_ok(width, height),
    ensures
        spec_header(width, height)[0] == 66,
        spec_header(width, height)[1] == 77,
        spec_u32_at(spec_header(width, height), 2) == spec_file_size(width, height),
        spec_u32_at(spec_header(width, height), 18) == width,
        spec_u32_at(spec_header(width, height), 22) == height,
{
    lemma_u32_le_round_trip(spec_file_size(width, height) as u32);
    lemma_u32_le_round_trip(width);
    lemma_u32_le_round_trip(height);
}

/// A row prefix holds three bytes for each of its pixels.
pub proof fn lemma_row_prefix_len<S: PixelSource>(src: S, row: u32, cols: int)
    requires
        cols >= 0,
    ensures
        spec_row_prefix(src, row, cols).len() == 3 * cols,
    decreases cols,
{
    if cols > 0 {
        lemma_row_prefix_len(src, row, cols - 1);
    }
}

/// The stored rows occupy one stride each.
pub proof fn lemma_rows_prefix_len<S: PixelSource>(src: S, width: u32, rows: int)
    requires
        rows >= 0,
    ensures
        spec_rows_prefix(src, width, rows).len() == rows * spec_stride(width),
    decreases rows,
{
    if rows > 0 {
        lemma_rows_prefix_len(src, width, rows - 1);
        lemma_row_prefix_len(src, (rows - 1) as u32, width as int);
        assert((rows - 1) * spec_stride(width) + spec_stride(width) == rows * spec_stride(width))
            by (nonlinear_arith);
    } else {
        assert(rows == 0);
        assert(rows * spec_stride(width) == 0);
    }
}

/// Within one row's pixel bytes, byte `3 * col + k` belongs to the pixel at
/// `col`: blue, then green, then red.
proof fn lemma_row_prefix_index<S: PixelSource>(src: S, row: u32, cols: int, col: int)
    requires
        0 <= col < cols <= u32::MAX,
    ensures
        spec_row_prefix(src, row, cols).len() == 3 * cols,
        spec_row_prefix(src, row, cols)[3 * col] == src.spec_color_at(
            PixPos { row, col: col as u32 },
        ).b,
        spec_row_prefix(src, row, cols)[3 * col + 1] == src.spec_color_at(
            PixPos { row, col: col as u32 },
        ).g,
        spec_row_prefix(src, row, cols)[3 * col + 2] == src.spec_color_at(
            PixPos { row, col: col as u32 },
        ).r,
    decreases cols,
{
    lemma_row_prefix_len(src, row, cols);
    if col == cols - 1 {
        lemma_row_prefix_len(src, row, cols - 1);
    } else {
        lemma_row_prefix_index(src, row, cols - 1, col);
    }
}

/// Within the stored rows, the byte at `row * stride + off` is byte `off` of
/// that row's stored bytes.
proof fn lemma_rows_prefix_at<S: PixelSource>(src: S, width: u32, rows: int, row: int, off: int)
    requires
        0 <= row < rows <= u32::MAX,
        0 <= off < spec_stride(width),
    ensures
        spec_rows_prefix(src, width, rows)[row * spec_stride(width) + off] == spec_row_bytes(
            src,
            row as u32,
            width,
        )[off],
    decreases rows,
{
    lemma_rows_prefix_len(src, width, rows - 1);
    lemma_row_prefix_len(src, row as u32, width as int);
    if row == rows - 1 {
    } else {
        lemma_rows_prefix_at(src, width, rows - 1, row, off);
        assert(row * spec_stride(width) + off < (rows - 1) * spec_stride(width))
            by (nonlinear_arith)
            requires
                0 <= row < rows - 1,
                0 <= off < spec_stride(width),
        ;
    }
}

/// Round trip for one pixel: in a full pixel array the three bytes at the
/// pixel's offset are exactly the stored blue, green and red of the color
/// the source supplied for that position, so a decoder reading the stream
/// back recovers the per-pixel values.
pub proof fn lemma_pixel_round_trip<S: PixelSource>(src: S, width: u32, height: u32, pos: PixPos)
    requires
        pos.row < height,
        pos.col < width,
    ensures
        spec_pixel_bytes(src, width, height).len() == spec_bitmap_size(width, height),
        spec_pixel_offset(width, pos) + 3 <= spec_bitmap_size(width, height),
        spec_pixel_bytes(src, width, height)[spec_pixel_offset(width, pos)] == src.spec_color_at(
            pos,
        ).b,
        spec_pixel_bytes(src, width, height)[spec_pixel_offset(width, pos) + 1]
            == src.spec_color_at(pos).g,
        spec_pixel_bytes(src, width, height)[spec_pixel_offset(width, pos) + 2]
            == src.spec_color_at(pos).r,
{
    lemma_rows_prefix_len(src, width, height as int);
    lemma_row_prefix_len(src, pos.row, width as int);
    lemma_row_prefix_index(src, pos.row, width as int, pos.col as int);
    lemma_rows_prefix_at(src, width, height as int, pos.row as int, 3 * pos.col);
    lemma_rows_prefix_at(src, width, height as int, pos.row as int, 3 * pos.col + 1);
    lemma_rows_prefix_at(src, width, height as int, pos.row as int, 3 * pos.col + 2);
    assert((pos.row + 1) * spec_stride(width) <= height * spec_stride(width)
        && pos.row * spec_stride(width) + spec_stride(width) == (pos.row + 1) * spec_stride(
        width,
    )) by (nonlinear_arith)
        requires
            pos.row < height,
            spec_stride(width) >= 0,
    ;
}

/// Reads the dimensions back out of an encoded stream. The stream must be
/// long enough for both headers and must open with the magic bytes.
pub fn decode_header(bytes: &Vec<u8>) -> (r: Option<(u32, u32)>)
    ensures
        r matches Some(dims) ==> bytes@.len() >= 54 && bytes@[0] == 66 && bytes@[1] == 77
            && dims.0 == spec_u32_at(bytes@, 18) && dims.1 == spec_u32_at(bytes@, 22),
        r is None <==> bytes@.len() < 54 || bytes@[0] != 66 || bytes@[1] != 77,
{
    if bytes.len() < 54 {
        return None;
    }
    if bytes[0] != 66 || bytes[1] != 77 {
        return None;
    }
    let w = read_u32_le(bytes, 18);
    let h = read_u32_le(bytes, 22);
    Some((w, h))
}

/// Reads a 32-bit little-endian value out of a byte stream.
fn read_u32_le(bytes: &Vec<u8>, off: usize) -> (r: u32)
    requires
        off + 4 <= bytes@.len(),
    ensures
        r == spec_u32_at(bytes@, off as int),
{
    // Taking the executable length bounds every offset by `usize::MAX`.
    let _n: usize = bytes.len();
    let b0 = bytes[off] as u32;
    let b1 = bytes[off + 1] as u32;
    let b2 = bytes[off + 2] as u32;
    let b3 = bytes[off + 3] as u32;
    b0 + b1 * 0x100 + b2 * 0x1_0000 + b3 * 0x100_0000
}

/// Reads one pixel's color back out of a pixel array, undoing the stored
/// blue-green-red order. `None` exactly when the array is too short to hold
/// that pixel.
pub fn decode_pixel(bytes: &Vec<u8>, width: u32, pos: PixPos) -> (r: Option<Color>)
    ensures
        r matches Some(c) ==> spec_pixel_offset(width, pos) + 3 <= bytes@.len() && c == (Color {
            r: bytes@[spec_pixel_offset(width, pos) + 2],
            g: bytes@[spec_pixel_offset(width, pos) + 1],
            b: bytes@[spec_pixel_offset(width, pos)],
        }),
        r is None <==> spec_pixel_offset(width, pos) + 3 > bytes@.len(),
{
    let stride: u64 = (width as u64) * 3 + (4 - (width as u64) * 3 % 4) % 4;
    proof {
        assert((pos.row as int) * (stride as int) + (pos.col as int) * 3 + 3 < u128::MAX)
            by (nonlinear_arith)
            requires
                pos.row <= u32::MAX,
                pos.col <= u32::MAX,
                stride <= u64::MAX,
        ;
    }
    let off: u128 = (pos.row as u128) * (stride as u128) + (pos.col as u128) * 3;
    if off + 3 <= bytes.len() as u128 {
        let idx: usize = off as usize;
        let b = bytes[idx];
        let g = bytes[idx + 1];
        let r = bytes[idx + 2];
        Some(Color { r, g, b })
    } else {
        None
    }
}

/// An image about to be encoded: its dimensions, and the name the caller
/// means to store it under. The name is carried for the caller's benefit;
/// the encoder itself only ever produces bytes.
pub struct BMPImg<'a> {
    pub width: u32,
    pub height: u32,
    pub file_name: &'a str,
}

impl<'a> BMPImg<'a> {
    pub fn new(width: u32, height: u32, file_name: &'a str) -> (img: Self)
        ensures
            img == (BMPImg { width, height, file_name }),
    {
        Self { width, height, file_name }
    }

    /// The 54 header bytes of this image, exactly as `spec_header` lays them
    /// out.
    pub fn header_bytes(&self) -> (v: Vec<u8>)
        requires
            spec_dims_ok(self.width, self.height),
        ensures
            v@ == spec_header(self.width, self.height),
    {
        proof {
            assert(self.height * (self.width * 3 + spec_padding(self.width)) >= self.width * 3
                + spec_padding(self.width)) by (nonlinear_arith)
                requires
                    self.height >= 1,
                    self.width * 3 + spec_padding(self.width) >= 0,
            ;
        }
        let padding: u32 = (4 - self.width * 3 % 4) % 4;
        let bitmap_size: u32 = self.height * (self.width * 3 + padding);
        let file_size: u32 = 54 + bitmap_size;
        let mut v: Vec<u8> = Vec::new();
        v.push(66);
        v.push(77);
        push_u32_le(&mut v, file_size);
        v.push(0);
        v.push(0);
        v.push(0);
        v.push(0);
        push_u32_le(&mut v, 54);
        push_u32_le(&mut v, 40);
        push_u32_le(&mut v, self.width);
        push_u32_le(&mut v, self.height);
        push_u16_le(&mut v, 1);
        push_u16_le(&mut v, 24);
        push_u32_le(&mut v, 0);
        push_u32_le(&mut v, bitmap_size);
        push_u32_le(&mut v, 2835);
        push_u32_le(&mut v, 2835);
        push_u32_le(&mut v, 0);
        push_u32_le(&mut v, 0);
        proof {
            assert(v@ =~= spec_header(self.width, self.height));
        }
        v
    }

    /// The pixel-array bytes of this image: every position in row-major
    /// order — outer loop over rows, inner over columns — three bytes per
    /// pixel in blue-green-red order, and a run of zero padding at each row
    /// boundary.
    pub fn color_pixels<S: PixelSource>(&self, src: &S) -> (v: Vec<u8>)
        requires
            src.inv(),
            spec_dims_ok(self.width, self.height),
        ensures
            v@ == spec_pixel_bytes(*src, self.width, self.height),
    {
        proof {
            assert(self.height * (self.width * 3 + spec_padding(self.width)) >= self.width * 3
                + spec_padding(self.width)) by (nonlinear_arith)
                requires
                    self.height >= 1,
                    self.width * 3 + spec_padding(self.width) >= 0,
            ;
        }
        let padding: u32 = (4 - self.width * 3 % 4) % 4;
        let mut v: Vec<u8> = Vec::new();
        let mut row: u32 = 0;
        while row < self.height
            invariant
                row <= self.height,
                src.inv(),
                padding == spec_padding(self.width),
                v@ == spec_rows_prefix(*src, self.width, row as int),
            decreases self.height - row,
        {
            let ghost row_start = v@;
            let mut col: u32 = 0;
            while col < self.width
                invariant
                    col <= self.width,
                    src.inv(),
                    v@ == row_start + spec_row_prefix(*src, row, col as int),
                decreases self.width - col,
            {
                let c = src.color_at(PixPos { row, col });
                v.push(c.b);
                v.push(c.g);
                v.push(c.r);
                proof {
                    assert(v@ =~= row_start + spec_row_prefix(*src, row, col + 1));
                }
                col = col + 1;
            }
            let mut p: u32 = 0;
            while p < padding
                invariant
                    p <= padding,
                    v@ == row_start + spec_row_prefix(*src, row, self.width as int) + Seq::new(
                        p as nat,
                        |k: int| 0u8,
                    ),
                decreases padding - p,
            {
                v.push(0);
                proof {
                    assert(v@ =~= row_start + spec_row_prefix(*src, row, self.width as int)
                        + Seq::new((p + 1) as nat, |k: int| 0u8));
                }
                p = p + 1;
            }
            proof {
                assert(Seq::new(padding as nat, |k: int| 0u8) =~= Seq::new(
                    spec_padding(self.width) as nat,
                    |k: int| 0u8,
                ));
                assert(v@ =~= spec_rows_prefix(*src, self.width, row + 1));
            }
            row = row + 1;
        }
        v
    }

    /// The whole file: the 54 header bytes first, then the pixel array, in
    /// that order — position in the stream is the only record of position in
    /// the image. The stream's length is exactly the file size the header
    /// states.
    pub fn file_bytes<S: PixelSource>(&self, src: &S) -> (v: Vec<u8>)
        requires
            src.inv(),
            spec_dims_ok(self.width, self.height),
        ensures
            v@ == spec_header(self.width, self.height) + spec_pixel_bytes(
                *src,
                self.width,
                self.height,
            ),
            v@.len() == spec_file_size(self.width, self.height),
    {
        let mut v = self.header_bytes();
        let mut p = self.color_pixels(src);
        v.append(&mut p);
        proof {
            lemma_header_layout(self.width, self.height);
            lemma_rows_prefix_len(*src, self.width, self.height as int);
        }
        v
    }
}

} // verus!
