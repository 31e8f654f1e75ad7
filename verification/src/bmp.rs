use crate::display::Color;
use crate::epd::{pack_epd_pixels, spec_pack_epd_pixels, EPD_HEIGHT, EPD_ROW_BYTES, EPD_WIDTH};
use vstd::prelude::*;

verus! {

/// Why a bitmap could not be read.
#[derive(Clone, Copy, Debug, PartialEq, Eq, Structural)]
pub enum BmpError {
    InvalidHeader,
    UnsupportedFormat,
    UnsupportedColor,
    UnexpectedEof,
}

impl BmpError {
    pub open spec fn spec_text(self) -> Seq<char> {
        match self {
            BmpError::InvalidHeader => "invalid-header"@,
            BmpError::UnsupportedFormat => "unsupported-format"@,
            BmpError::UnsupportedColor => "unsupported-color"@,
            BmpError::UnexpectedEof => "unexpected-eof"@,
        }
    }

    /// The short name the device logs for this error.
    pub fn text(self) -> (text: &'static str)
        ensures
            text@ == self.spec_text(),
    {
        match self {
            BmpError::InvalidHeader => "invalid-header",
            BmpError::UnsupportedFormat => "unsupported-format",
            BmpError::UnsupportedColor => "unsupported-color",
            BmpError::UnexpectedEof => "unexpected-eof",
        }
    }
}

/// What the file header of an uncompressed 24-bit bitmap says.
#[derive(Clone, Copy, Debug, PartialEq, Eq, Structural)]
pub struct BmpHeader {
    pub pixel_offset: u64,
    pub width: usize,
    pub height: usize,
    pub row_stride: usize,
    pub top_down: bool,
}

/// A little-endian unsigned 16-bit field.
pub open spec fn le_u16(data: Seq<u8>, offset: int) -> int {
    data[offset] + data[offset + 1] * 256
}

/// A little-endian unsigned 32-bit field.
pub open spec fn le_u32(data: Seq<u8>, offset: int) -> int {
    data[offset] + data[offset + 1] * 256 + data[offset + 2] * 65536 + data[offset + 3] * 16777216
}

/// A little-endian two's-complement 32-bit field.
pub open spec fn le_i32(data: Seq<u8>, offset: int) -> int {
    let unsigned = le_u32(data, offset);
    if unsigned >= 0x8000_0000 {
        unsigned - 0x1_0000_0000
    } else {
        unsigned
    }
}

/// Bytes per stored row of a 24-bit bitmap: three per pixel, padded to four.
pub open spec fn spec_row_stride(width: int) -> int {
    (width * 3 + 3) / 4 * 4
}

pub open spec fn header_magic_ok(data: Seq<u8>) -> bool {
    data.len() >= 54 && data[0] == 0x42 && data[1] == 0x4D
}

/// An uncompressed, single-plane, 24-bit image with a positive width and a
/// non-zero height.
pub open spec fn header_format_ok(data: Seq<u8>) -> bool {
    &&& le_u32(data, 14) >= 40
    &&& le_i32(data, 18) > 0
    &&& le_i32(data, 22) != 0
    &&& le_u16(data, 26) == 1
    &&& le_u16(data, 28) == 24
    &&& le_u32(data, 30) == 0
}

pub open spec fn header_height(data: Seq<u8>) -> int {
    let height = le_i32(data, 22);
    if height < 0 {
        -height
    } else {
        height
    }
}

/// How long the whole file must be for every row to be present.
pub open spec fn header_required_len(data: Seq<u8>) -> int {
    le_u32(data, 10) + spec_row_stride(le_i32(data, 18)) * header_height(data)
}

/// What reading the header of `data`, from a file of `total_len` bytes, gives.
pub open spec fn spec_parse_bmp_header(data: Seq<u8>, total_len: int) -> Result<BmpHeader, BmpError> {
    if !header_magic_ok(data) {
        Err(BmpError::InvalidHeader)
    } else if !header_format_ok(data) || spec_row_stride(le_i32(data, 18)) > usize::MAX {
        Err(BmpError::UnsupportedFormat)
    } else if total_len < header_required_len(data) {
        Err(BmpError::UnexpectedEof)
    } else {
        Ok(
            BmpHeader {
                pixel_offset: le_u32(data, 10) as u64,
                width: le_i32(data, 18) as usize,
                height: header_height(data) as usize,
                row_stride: spec_row_stride(le_i32(data, 18)) as usize,
                top_down: le_i32(data, 22) < 0,
            },
        )
    }
}

fn read_u16(data: &[u8], offset: usize) -> (value: Result<u16, BmpError>)
    requires
        offset + 2 <= usize::MAX,
    ensures
        offset + 2 <= data@.len() ==> value == Ok::<u16, BmpError>(le_u16(data@, offset as int) as u16),
        offset + 2 > data@.len() ==> value == Err::<u16, BmpError>(BmpError::UnexpectedEof),
{
    if offset + 2 > data.len() {
        return Err(BmpError::UnexpectedEof);
    }
    Ok(data[offset] as u16 + (data[offset + 1] as u16) * 256)
}

fn read_u32(data: &[u8], offset: usize) -> (value: Result<u32, BmpError>)
    requires
        offset + 4 <= usize::MAX,
    ensures
        offset + 4 <= data@.len() ==> value == Ok::<u32, BmpError>(le_u32(data@, offset as int) as u32),
        offset + 4 > data@.len() ==> value == Err::<u32, BmpError>(BmpError::UnexpectedEof),
{
    if offset + 4 > data.len() {
        return Err(BmpError::UnexpectedEof);
    }
    Ok(data[offset] as u32 + (data[offset + 1] as u32) * 256 + (data[offset + 2] as u32) * 65536
        + (data[offset + 3] as u32) * 16777216)
}

fn read_i32(data: &[u8], offset: usize) -> (value: Result<i32, BmpError>)
    requires
        offset + 4 <= usize::MAX,
    ensures
        offset + 4 <= data@.len() ==> value == Ok::<i32, BmpError>(le_i32(data@, offset as int) as i32),
        offset + 4 > data@.len() ==> value == Err::<i32, BmpError>(BmpError::UnexpectedEof),
{
    let unsigned = read_u32(data, offset)?;
    if unsigned >= 0x8000_0000 {
        Ok((unsigned as i64 - 0x1_0000_0000i64) as i32)
    } else {
        Ok(unsigned as i32)
    }
}

/// Bytes per stored row of a 24-bit bitmap `width` pixels wide.
pub fn bmp_row_stride(width: usize) -> (stride: usize)
    requires
        width * 3 + 3 <= usize::MAX,
    ensures
        stride == spec_row_stride(width as int),
{
    (width * 3 + 3) / 4 * 4
}

/// The row stride of a full-panel bitmap.
pub fn bmp_24bit_row_stride() -> (stride: usize)
    ensures
        stride == spec_row_stride(EPD_WIDTH as int),
        stride == 2400,
{
    bmp_row_stride(EPD_WIDTH)
}

/// Reads the header of a bitmap whose first bytes are `data` and whose whole
/// file is `total_len` bytes long.
pub fn parse_bmp_header(data: &[u8], total_len: u64) -> (header: Result<BmpHeader, BmpError>)
    ensures
        header == spec_parse_bmp_header(data@, total_len as int),
{
    if data.len() < 54 || data[0] != 0x42 || data[1] != 0x4D {
        return Err(BmpError::InvalidHeader);
    }
    let pixel_offset = read_u32(data, 10)?;
    let dib_size = read_u32(data, 14)?;
    let width = read_i32(data, 18)?;
    let height = read_i32(data, 22)?;
    let planes = read_u16(data, 26)?;
    let bit_count = read_u16(data, 28)?;
    let compression = read_u32(data, 30)?;
    if dib_size < 40 || width <= 0 || height == 0 || planes != 1 || bit_count != 24 || compression != 0 {
        return Err(BmpError::UnsupportedFormat);
    }
    let top_down = height < 0;
    let width_wide: u64 = width as u64;
    let height_wide: u64 = if height < 0 {
        (-(height as i64)) as u64
    } else {
        height as u64
    };
    let stride_wide: u64 = (width_wide * 3 + 3) / 4 * 4;
    if stride_wide > usize::MAX as u64 {
        return Err(BmpError::UnsupportedFormat);
    }
    assert(stride_wide <= 0x1_8000_0000);
    assert(height_wide <= 0x8000_0000);
    assert(stride_wide * height_wide <= 0x1_8000_0000 * 0x8000_0000) by (nonlinear_arith)
        requires
            stride_wide <= 0x1_8000_0000,
            height_wide <= 0x8000_0000,
    ;
    let required_len: u64 = pixel_offset as u64 + stride_wide * height_wide;
    if total_len < required_len {
        return Err(BmpError::UnexpectedEof);
    }
    Ok(
        BmpHeader {
            pixel_offset: pixel_offset as u64,
            width: width as usize,
            height: height_wide as usize,
            row_stride: stride_wide as usize,
            top_down,
        },
    )
}

/// The ink whose colour is exactly `(red, green, blue)`, if there is one.
pub open spec fn spec_exact_panel_color(red: u8, green: u8, blue: u8) -> Option<Color> {
    if red == 255 && green == 255 && blue == 255 {
        Some(Color::White)
    } else if red == 0 && green == 0 && blue == 0 {
        Some(Color::Black)
    } else if red == 255 && green == 255 && blue == 0 {
        Some(Color::Yellow)
    } else if red == 255 && green == 0 && blue == 0 {
        Some(Color::Red)
    } else if red == 0 && green == 0 && blue == 255 {
        Some(Color::Blue)
    } else if red == 0 && green == 255 && blue == 0 {
        Some(Color::Green)
    } else {
        None
    }
}

pub fn exact_panel_color(red: u8, green: u8, blue: u8) -> (color: Option<Color>)
    ensures
        color == spec_exact_panel_color(red, green, blue),
{
    if red == 255 && green == 255 && blue == 255 {
        Some(Color::White)
    } else if red == 0 && green == 0 && blue == 0 {
        Some(Color::Black)
    } else if red == 255 && green == 255 && blue == 0 {
        Some(Color::Yellow)
    } else if red == 255 && green == 0 && blue == 0 {
        Some(Color::Red)
    } else if red == 0 && green == 0 && blue == 255 {
        Some(Color::Blue)
    } else if red == 0 && green == 255 && blue == 0 {
        Some(Color::Green)
    } else {
        None
    }
}

/// The ink of pixel `x` of a row stored blue, green, red.
pub open spec fn spec_bgr_color(row: Seq<u8>, x: int) -> Option<Color> {
    spec_exact_panel_color(row[3 * x + 2], row[3 * x + 1], row[3 * x])
}

fn bgr_pixel_color(row_bgr: &[u8], x: usize) -> (color: Result<Color, BmpError>)
    requires
        3 * x + 3 <= row_bgr@.len(),
    ensures
        color == (match spec_bgr_color(row_bgr@, x as int) {
            Some(c) => Ok::<Color, BmpError>(c),
            None => Err(BmpError::UnsupportedColor),
        }),
{
    let _len = row_bgr.len();
    let pixel_offset = x * 3;
    let blue = row_bgr[pixel_offset];
    let green = row_bgr[pixel_offset + 1];
    let red = row_bgr[pixel_offset + 2];
    match exact_panel_color(red, green, blue) {
        Some(color) => Ok(color),
        None => Err(BmpError::UnsupportedColor),
    }
}

/// Every pixel of a full-panel row, stored blue, green, red, is an ink.
pub open spec fn bgr_row_is_palette(row: Seq<u8>) -> bool {
    forall|x: int| 0 <= x < EPD_WIDTH ==> (#[trigger] spec_bgr_color(row, x)) is Some
}

/// The packed byte for panel column pair `i` taken from a row in file order.
pub open spec fn bgr_packed_byte(row: Seq<u8>, i: int) -> u8 {
    spec_pack_epd_pixels(spec_bgr_color(row, 2 * i)->0, spec_bgr_color(row, 2 * i + 1)->0)
}

/// The packed byte for panel column pair `i` taken from a row stored right to left.
pub open spec fn bgr_mirrored_packed_byte(row: Seq<u8>, i: int) -> u8 {
    spec_pack_epd_pixels(
        spec_bgr_color(row, EPD_WIDTH - 1 - 2 * i)->0,
        spec_bgr_color(row, EPD_WIDTH - 2 - 2 * i)->0,
    )
}

/// Packs one full-panel row read straight from a bitmap file.
pub fn fill_epd_row_from_bgr(row_bgr: &[u8], output: &mut [u8; EPD_ROW_BYTES]) -> (result: Result<(), BmpError>)
    ensures
        row_bgr@.len() < EPD_WIDTH * 3 ==> result == Err::<(), BmpError>(BmpError::UnexpectedEof)
            && *final(output) == *old(output),
        row_bgr@.len() >= EPD_WIDTH * 3 ==> (result is Ok <==> bgr_row_is_palette(row_bgr@)),
        row_bgr@.len() >= EPD_WIDTH * 3 && !bgr_row_is_palette(row_bgr@) ==> result == Err::<(), BmpError>(
            BmpError::UnsupportedColor,
        ),
        result is Ok ==> forall|i: int|
            0 <= i < EPD_ROW_BYTES ==> #[trigger] final(output)@[i] == bgr_packed_byte(row_bgr@, i),
{
    if row_bgr.len() < EPD_WIDTH * 3 {
        return Err(BmpError::UnexpectedEof);
    }
    let mut i: usize = 0;
    while i < EPD_ROW_BYTES
        invariant
            i <= EPD_ROW_BYTES,
            output@.len() == EPD_ROW_BYTES,
            row_bgr@.len() >= EPD_WIDTH * 3,
            forall|x: int| 0 <= x < 2 * i ==> (#[trigger] spec_bgr_color(row_bgr@, x)) is Some,
            forall|j: int| 0 <= j < i ==> #[trigger] output@[j] == bgr_packed_byte(row_bgr@, j),
        decreases EPD_ROW_BYTES - i,
    {
        let left = bgr_pixel_color(row_bgr, i * 2)?;
        let right = bgr_pixel_color(row_bgr, i * 2 + 1)?;
        output[i] = pack_epd_pixels(left, right);
        i = i + 1;
    }
    Ok(())
}

/// Packs one full-panel row of a bitmap stored right to left.
pub fn fill_epd_row_from_bgr_mirrored(row_bgr: &[u8], output: &mut [u8; EPD_ROW_BYTES]) -> (result: Result<(), BmpError>)
    ensures
        row_bgr@.len() < EPD_WIDTH * 3 ==> result == Err::<(), BmpError>(BmpError::UnexpectedEof)
            && *final(output) == *old(output),
        row_bgr@.len() >= EPD_WIDTH * 3 ==> (result is Ok <==> bgr_row_is_palette(row_bgr@)),
        row_bgr@.len() >= EPD_WIDTH * 3 && !bgr_row_is_palette(row_bgr@) ==> result == Err::<(), BmpError>(
            BmpError::UnsupportedColor,
        ),
        result is Ok ==> forall|i: int|
            0 <= i < EPD_ROW_BYTES ==> #[trigger] final(output)@[i] == bgr_mirrored_packed_byte(row_bgr@, i),
{
    if row_bgr.len() < EPD_WIDTH * 3 {
        return Err(BmpError::UnexpectedEof);
    }
    let mut i: usize = 0;
    while i < EPD_ROW_BYTES
        invariant
            i <= EPD_ROW_BYTES,
            output@.len() == EPD_ROW_BYTES,
            row_bgr@.len() >= EPD_WIDTH * 3,
            forall|x: int|
                EPD_WIDTH - 2 * i <= x < EPD_WIDTH ==> (#[trigger] spec_bgr_color(row_bgr@, x)) is Some,
            forall|j: int| 0 <= j < i ==> #[trigger] output@[j] == bgr_mirrored_packed_byte(row_bgr@, j),
        decreases EPD_ROW_BYTES - i,
    {
        let left = bgr_pixel_color(row_bgr, EPD_WIDTH - 1 - i * 2)?;
        let right = bgr_pixel_color(row_bgr, EPD_WIDTH - 2 - i * 2)?;
        output[i] = pack_epd_pixels(left, right);
        i = i + 1;
    }
    Ok(())
}

/// The `(red, green, blue)` of pixel `(x, y)` of the bitmap `data` with header
/// `header`, counting rows from the top.
pub open spec fn header_rgb_at(data: Seq<u8>, header: BmpHeader, x: int, y: int) -> (u8, u8, u8) {
    let row = if header.top_down {
        y
    } else {
        header.height - 1 - y
    };
    let offset = header.pixel_offset + row * header.row_stride + x * 3;
    (data[offset + 2], data[offset + 1], data[offset])
}

/// The ink of pixel `(x, y)` of the bitmap `data` with header `header`.
pub open spec fn header_color_at(data: Seq<u8>, header: BmpHeader, x: int, y: int) -> Option<Color> {
    let (red, green, blue) = header_rgb_at(data, header, x, y);
    spec_exact_panel_color(red, green, blue)
}

/// A parsed 24-bit bitmap over borrowed bytes.
pub struct BmpImage<'a> {
    data: &'a [u8],
    pixel_offset: usize,
    width: usize,
    height: usize,
    row_stride: usize,
    top_down: bool,
}

impl<'a> BmpImage<'a> {
    #[verifier::type_invariant]
    closed spec fn rows_in_bounds(self) -> bool {
        &&& self.width > 0
        &&& self.height > 0
        &&& self.row_stride >= self.width * 3
        &&& self.pixel_offset + self.row_stride * self.height <= self.data@.len()
    }

    pub closed spec fn spec_width(&self) -> usize {
        self.width
    }

    pub closed spec fn spec_height(&self) -> usize {
        self.height
    }

    /// The bytes the image reads its pixels from.
    pub closed spec fn spec_data(&self) -> Seq<u8> {
        self.data@
    }

    /// The header the image was made from.
    pub closed spec fn spec_header(&self) -> BmpHeader {
        BmpHeader {
            pixel_offset: self.pixel_offset as u64,
            width: self.width,
            height: self.height,
            row_stride: self.row_stride,
            top_down: self.top_down,
        }
    }

    /// The `(red, green, blue)` of pixel `(x, y)`, counting rows from the top.
    pub open spec fn spec_rgb_at(&self, x: int, y: int) -> (u8, u8, u8) {
        header_rgb_at(self.spec_data(), self.spec_header(), x, y)
    }

    pub open spec fn spec_color_at(&self, x: int, y: int) -> Option<Color> {
        header_color_at(self.spec_data(), self.spec_header(), x, y)
    }

    pub open spec fn in_image(&self, x: int, y: int) -> bool {
        0 <= x < self.spec_width() && 0 <= y < self.spec_height()
    }

    /// Reads a bitmap; it must hold every row that its header announces.
    pub fn parse(data: &'a [u8]) -> (image: Result<Self, BmpError>)
        ensures
            match spec_parse_bmp_header(data@, data@.len() as int) {
                Ok(header) => image matches Ok(image) && image.spec_header() == header
                    && image.spec_data() == data@,
                Err(error) => image == Err::<Self, BmpError>(error),
            },
    {
        let header = parse_bmp_header(data, data.len() as u64)?;
        proof {
            let d = data@;
            assert(header.row_stride == spec_row_stride(le_i32(d, 18)));
            assert(header.height == header_height(d));
            assert(header.pixel_offset == le_u32(d, 10));
            assert(header_required_len(d) <= data@.len());
        }
        assert(header.row_stride * header.height <= usize::MAX) by (nonlinear_arith)
            requires
                header.row_stride * header.height + header.pixel_offset <= data@.len(),
                header.pixel_offset >= 0,
                data@.len() <= usize::MAX,
        ;
        let required_len = header.pixel_offset as usize + header.row_stride * header.height;
        if data.len() < required_len {
            return Err(BmpError::UnexpectedEof);
        }
        Ok(
            BmpImage {
                data,
                pixel_offset: header.pixel_offset as usize,
                width: header.width,
                height: header.height,
                row_stride: header.row_stride,
                top_down: header.top_down,
            },
        )
    }

    pub fn width(&self) -> (width: usize)
        ensures
            width == self.spec_width(),
            width == self.spec_header().width,
            width > 0,
    {
        proof {
            use_type_invariant(self);
        }
        self.width
    }

    pub fn height(&self) -> (height: usize)
        ensures
            height == self.spec_height(),
            height == self.spec_header().height,
            height > 0,
    {
        proof {
            use_type_invariant(self);
        }
        self.height
    }

    /// The colour of pixel `(x, y)`; a point outside the image is an early end of file.
    pub fn rgb_at(&self, x: usize, y: usize) -> (rgb: Result<(u8, u8, u8), BmpError>)
        ensures
            self.in_image(x as int, y as int) ==> rgb == Ok::<(u8, u8, u8), BmpError>(
                self.spec_rgb_at(x as int, y as int),
            ),
            !self.in_image(x as int, y as int) ==> rgb == Err::<(u8, u8, u8), BmpError>(
                BmpError::UnexpectedEof,
            ),
    {
        proof {
            use_type_invariant(self);
        }
        if x >= self.width || y >= self.height {
            return Err(BmpError::UnexpectedEof);
        }
        let row = if self.top_down {
            y
        } else {
            self.height - 1 - y
        };
        assert(row * self.row_stride + self.row_stride <= self.row_stride * self.height) by (nonlinear_arith)
            requires
                row < self.height,
        ;
        let _data_len = self.data.len();
        assert(self.data@.len() <= usize::MAX);
        assert(row * self.row_stride <= usize::MAX);
        let row_offset = self.pixel_offset + row * self.row_stride;
        let pixel_offset = row_offset + x * 3;
        let blue = self.data[pixel_offset];
        let green = self.data[pixel_offset + 1];
        let red = self.data[pixel_offset + 2];
        Ok((red, green, blue))
    }

    /// The ink of pixel `(x, y)`; a colour that is no ink is refused.
    pub fn color_at(&self, x: usize, y: usize) -> (color: Result<Color, BmpError>)
        ensures
            !self.in_image(x as int, y as int) ==> color == Err::<Color, BmpError>(BmpError::UnexpectedEof),
            self.in_image(x as int, y as int) ==> color == (match self.spec_color_at(x as int, y as int) {
                Some(c) => Ok::<Color, BmpError>(c),
                None => Err(BmpError::UnsupportedColor),
            }),
    {
        let (red, green, blue) = self.rgb_at(x, y)?;
        match exact_panel_color(red, green, blue) {
            Some(color) => Ok(color),
            None => Err(BmpError::UnsupportedColor),
        }
    }

    /// Every pixel of row `y` is an ink.
    pub open spec fn row_is_palette(&self, y: int) -> bool {
        forall|x: int| 0 <= x < self.spec_width() ==> (#[trigger] self.spec_color_at(x, y)) is Some
    }

    pub open spec fn packed_byte(&self, y: int, i: int) -> u8 {
        spec_pack_epd_pixels(self.spec_color_at(2 * i, y)->0, self.spec_color_at(2 * i + 1, y)->0)
    }

    /// Packs row `source_y` of a full-panel image.
    pub fn fill_epd_row(&self, source_y: usize, output: &mut [u8; EPD_ROW_BYTES]) -> (result: Result<(), BmpError>)
        ensures
            (self.spec_width() != EPD_WIDTH || self.spec_height() != EPD_HEIGHT) ==> result == Err::<
                (),
                BmpError,
            >(BmpError::UnsupportedFormat),
            (self.spec_width() == EPD_WIDTH && self.spec_height() == EPD_HEIGHT && source_y >= EPD_HEIGHT)
                ==> result == Err::<(), BmpError>(BmpError::UnexpectedEof),
            (self.spec_width() == EPD_WIDTH && self.spec_height() == EPD_HEIGHT && source_y < EPD_HEIGHT)
                ==> (result is Ok <==> self.row_is_palette(source_y as int)),
            (self.spec_width() == EPD_WIDTH && self.spec_height() == EPD_HEIGHT && source_y < EPD_HEIGHT
                && !self.row_is_palette(source_y as int)) ==> result == Err::<(), BmpError>(
                BmpError::UnsupportedColor,
            ),
            result is Ok ==> forall|i: int|
                0 <= i < EPD_ROW_BYTES ==> #[trigger] final(output)@[i] == self.packed_byte(source_y as int, i),
    {
        if self.width != EPD_WIDTH || self.height != EPD_HEIGHT {
            return Err(BmpError::UnsupportedFormat);
        }
        let mut i: usize = 0;
        while i < EPD_ROW_BYTES
            invariant
                i <= EPD_ROW_BYTES,
                output@.len() == EPD_ROW_BYTES,
                self.spec_width() == EPD_WIDTH,
                self.spec_height() == EPD_HEIGHT,
                forall|x: int| 0 <= x < 2 * i ==> (#[trigger] self.spec_color_at(x, source_y as int)) is Some,
                i > 0 ==> source_y < EPD_HEIGHT,
                forall|j: int| 0 <= j < i ==> #[trigger] output@[j] == self.packed_byte(source_y as int, j),
            decreases EPD_ROW_BYTES - i,
        {
            let left = self.color_at(i * 2, source_y)?;
            let right = self.color_at(i * 2 + 1, source_y)?;
            output[i] = pack_epd_pixels(left, right);
            i = i + 1;
        }
        Ok(())
    }
}

} // verus!
