use crate::bmp::{
    header_color_at, header_rgb_at, le_i32, le_u16, le_u32, spec_exact_panel_color, spec_parse_bmp_header,
    spec_row_stride, BmpHeader,
};
use crate::server::requests::{is_hex_digit, spec_valid_sha256};
use vstd::prelude::*;

verus! {

/// The panel's size in pixels.
pub const DISPLAY_WIDTH: u32 = 800;

pub const DISPLAY_HEIGHT: u32 = 480;

/// Pixels of a display image.
pub const DISPLAY_PIXELS: usize = 384000;

/// The kinds of file an administrator can upload.
#[derive(Clone, Copy, Debug, PartialEq, Eq, Structural)]
pub enum UploadedImageFormat {
    Bmp,
    Jpeg,
    Png,
}

impl UploadedImageFormat {
    pub open spec fn spec_extension(self) -> Seq<char> {
        match self {
            UploadedImageFormat::Bmp => "bmp"@,
            UploadedImageFormat::Jpeg => "jpg"@,
            UploadedImageFormat::Png => "png"@,
        }
    }

    /// The file name extension the original upload is kept under.
    pub fn extension(self) -> (extension: &'static str)
        ensures
            extension@ == self.spec_extension(),
    {
        match self {
            UploadedImageFormat::Bmp => "bmp",
            UploadedImageFormat::Jpeg => "jpg",
            UploadedImageFormat::Png => "png",
        }
    }
}

/// Why an uploaded image was refused.
#[derive(Clone, Copy, Debug, PartialEq, Eq, Structural)]
pub enum ImageRequestError {
    MissingImage,
    EmptyImage,
    UnsupportedFormat,
    UndecodableImage,
    EncodeFailed,
}

impl ImageRequestError {
    pub open spec fn spec_message(self) -> Seq<char> {
        match self {
            ImageRequestError::MissingImage => "请选择要上传的图片"@,
            ImageRequestError::EmptyImage => "图片文件不能为空"@,
            ImageRequestError::UnsupportedFormat => "图片格式支持 JPG、PNG 和 BMP"@,
            ImageRequestError::UndecodableImage => "图片无法解码"@,
            ImageRequestError::EncodeFailed => "图片编码失败"@,
        }
    }

    /// The message the administrator sees.
    pub fn message(self) -> (message: &'static str)
        ensures
            message@ == self.spec_message(),
    {
        match self {
            ImageRequestError::MissingImage => "请选择要上传的图片",
            ImageRequestError::EmptyImage => "图片文件不能为空",
            ImageRequestError::UnsupportedFormat => "图片格式支持 JPG、PNG 和 BMP",
            ImageRequestError::UndecodableImage => "图片无法解码",
            ImageRequestError::EncodeFailed => "图片编码失败",
        }
    }
}

/// `bytes` begins with `prefix`.
pub open spec fn starts_with(bytes: Seq<u8>, prefix: Seq<u8>) -> bool {
    bytes.len() >= prefix.len() && bytes.subrange(0, prefix.len() as int) == prefix
}

pub open spec fn bmp_magic() -> Seq<u8> {
    seq![0x42u8, 0x4d]
}

pub open spec fn jpeg_magic() -> Seq<u8> {
    seq![0xffu8, 0xd8, 0xff]
}

pub open spec fn png_magic() -> Seq<u8> {
    seq![0x89u8, 0x50, 0x4e, 0x47, 0x0d, 0x0a, 0x1a, 0x0a]
}

/// The format an upload announces by its first bytes.
pub open spec fn spec_detect_format(bytes: Seq<u8>) -> Result<UploadedImageFormat, ImageRequestError> {
    if starts_with(bytes, bmp_magic()) {
        Ok(UploadedImageFormat::Bmp)
    } else if starts_with(bytes, jpeg_magic()) {
        Ok(UploadedImageFormat::Jpeg)
    } else if starts_with(bytes, png_magic()) {
        Ok(UploadedImageFormat::Png)
    } else {
        Err(ImageRequestError::UnsupportedFormat)
    }
}

fn has_prefix(bytes: &[u8], prefix: &[u8]) -> (found: bool)
    ensures
        found == starts_with(bytes@, prefix@),
{
    if bytes.len() < prefix.len() {
        return false;
    }
    let mut i: usize = 0;
    while i < prefix.len()
        invariant
            i <= prefix@.len() <= bytes@.len(),
            forall|j: int| 0 <= j < i ==> bytes@[j] == prefix@[j],
        decreases prefix@.len() - i,
    {
        if bytes[i] != prefix[i] {
            assert(bytes@.subrange(0, prefix@.len() as int)[i as int] != prefix@[i as int]);
            return false;
        }
        i = i + 1;
    }
    assert(bytes@.subrange(0, prefix@.len() as int) =~= prefix@);
    true
}

/// Tells a bitmap, a JPEG and a PNG apart by their signatures.
pub fn detect_uploaded_image_format(bytes: &[u8]) -> (format: Result<UploadedImageFormat, ImageRequestError>)
    ensures
        format == spec_detect_format(bytes@),
{
    let bmp: [u8; 2] = [0x42, 0x4d];
    let jpeg: [u8; 3] = [0xff, 0xd8, 0xff];
    let png: [u8; 8] = [0x89, 0x50, 0x4e, 0x47, 0x0d, 0x0a, 0x1a, 0x0a];
    assert(bmp@ =~= bmp_magic());
    assert(jpeg@ =~= jpeg_magic());
    assert(png@ =~= png_magic());
    if has_prefix(bytes, bmp.as_slice()) {
        Ok(UploadedImageFormat::Bmp)
    } else if has_prefix(bytes, jpeg.as_slice()) {
        Ok(UploadedImageFormat::Jpeg)
    } else if has_prefix(bytes, png.as_slice()) {
        Ok(UploadedImageFormat::Png)
    } else {
        Err(ImageRequestError::UnsupportedFormat)
    }
}

/// Where an image is in its processing.
#[derive(Clone, Copy, Debug, PartialEq, Eq, Structural)]
pub enum ImageStatus {
    Pending,
    Processing,
    Ready,
    Failed,
}

pub open spec fn spec_image_status_str(status: ImageStatus) -> Seq<char> {
    match status {
        ImageStatus::Pending => "pending"@,
        ImageStatus::Processing => "processing"@,
        ImageStatus::Ready => "ready"@,
        ImageStatus::Failed => "failed"@,
    }
}

/// The word a status is stored as.
pub fn image_status_str(status: ImageStatus) -> (text: &'static str)
    ensures
        text@ == spec_image_status_str(status),
{
    match status {
        ImageStatus::Pending => "pending",
        ImageStatus::Processing => "processing",
        ImageStatus::Ready => "ready",
        ImageStatus::Failed => "failed",
    }
}

/// The status stored as `text`, if it is one.
pub open spec fn spec_image_status_from_str(text: Seq<char>) -> Option<ImageStatus> {
    if text == "pending"@ {
        Some(ImageStatus::Pending)
    } else if text == "processing"@ {
        Some(ImageStatus::Processing)
    } else if text == "ready"@ {
        Some(ImageStatus::Ready)
    } else if text == "failed"@ {
        Some(ImageStatus::Failed)
    } else {
        None
    }
}

pub fn image_status_from_str(text: &str) -> (status: Option<ImageStatus>)
    ensures
        status == spec_image_status_from_str(text@),
{
    let given = String::from_str(text);
    if given == String::from_str("pending") {
        Some(ImageStatus::Pending)
    } else if given == String::from_str("processing") {
        Some(ImageStatus::Processing)
    } else if given == String::from_str("ready") {
        Some(ImageStatus::Ready)
    } else if given == String::from_str("failed") {
        Some(ImageStatus::Failed)
    } else {
        None
    }
}

/// What the image table gets when an image is uploaded.
#[derive(Clone, Copy, Debug, PartialEq, Eq, Structural)]
pub enum UploadWrite {
    /// A new row, pending, with the remark (empty when none was given).
    Insert,
    /// The row's status and remark are replaced.
    StatusAndRemark,
    /// Only the row's status is replaced.
    Status,
    /// The row is left as it is.
    Nothing,
}

/// The outcome of an upload for the image table and the processing queue.
#[derive(Clone, Copy, Debug, PartialEq, Eq, Structural)]
pub struct UploadTransition {
    pub write: UploadWrite,
    pub status: ImageStatus,
    pub enqueue: bool,
}

/// A new image is pending and queued; a known one that failed goes back to
/// pending and is queued again; one still pending or processing is queued
/// again; a ready one stays ready. A given remark replaces the stored one.
pub open spec fn spec_upload_transition(existing: Option<ImageStatus>, remark_given: bool) -> UploadTransition {
    match existing {
        None => UploadTransition { write: UploadWrite::Insert, status: ImageStatus::Pending, enqueue: true },
        Some(status) => {
            let next = if status == ImageStatus::Failed {
                ImageStatus::Pending
            } else {
                status
            };
            let enqueue = status != ImageStatus::Ready;
            let write = if remark_given {
                UploadWrite::StatusAndRemark
            } else if next != status {
                UploadWrite::Status
            } else {
                UploadWrite::Nothing
            };
            UploadTransition { write, status: next, enqueue }
        },
    }
}

/// Decides what an upload does to the image table and the queue.
pub fn upload_transition(existing: Option<ImageStatus>, remark_given: bool) -> (transition: UploadTransition)
    ensures
        transition == spec_upload_transition(existing, remark_given),
{
    match existing {
        None => UploadTransition { write: UploadWrite::Insert, status: ImageStatus::Pending, enqueue: true },
        Some(status) => {
            let mut next = status;
            let mut enqueue = match status {
                ImageStatus::Pending | ImageStatus::Processing => true,
                _ => false,
            };
            if status == ImageStatus::Failed {
                next = ImageStatus::Pending;
                enqueue = true;
            }
            let write = if remark_given {
                UploadWrite::StatusAndRemark
            } else if next != status {
                UploadWrite::Status
            } else {
                UploadWrite::Nothing
            };
            UploadTransition { write, status: next, enqueue }
        },
    }
}


/// The six inks of the panel, in the order the server tries them.
pub open spec fn palette_rgb(index: int) -> (u8, u8, u8) {
    if index == 0 {
        (0, 0, 0)
    } else if index == 1 {
        (255, 255, 255)
    } else if index == 2 {
        (255, 0, 0)
    } else if index == 3 {
        (255, 255, 0)
    } else if index == 4 {
        (0, 0, 255)
    } else {
        (0, 255, 0)
    }
}

pub open spec fn square(value: int) -> int {
    value * value
}

/// The squared distance between two colours.
pub open spec fn spec_color_distance(left: (u8, u8, u8), right: (u8, u8, u8)) -> int {
    square(left.0 - right.0) + square(left.1 - right.1) + square(left.2 - right.2)
}

/// The first of the first `count` inks that is nearest to `pixel`.
pub open spec fn nearest_among(pixel: (u8, u8, u8), count: int) -> int
    decreases count,
{
    if count <= 1 {
        0
    } else {
        let best = nearest_among(pixel, count - 1);
        if spec_color_distance(pixel, palette_rgb(count - 1)) < spec_color_distance(pixel, palette_rgb(best)) {
            count - 1
        } else {
            best
        }
    }
}

/// The ink nearest to `pixel`; on a tie the one tried first.
pub open spec fn nearest_ink(pixel: (u8, u8, u8)) -> (u8, u8, u8) {
    palette_rgb(nearest_among(pixel, 6))
}

/// Rust's division by sixteen, which rounds towards zero.
pub open spec fn div16_toward_zero(value: int) -> int {
    if value >= 0 {
        value / 16
    } else {
        -((-value) / 16)
    }
}

pub open spec fn clamp_u8(value: int) -> u8 {
    if value < 0 {
        0
    } else if value > 255 {
        255
    } else {
        value as u8
    }
}

/// A channel after receiving `weight` sixteenths of a quantisation error.
pub open spec fn with_error(channel: u8, error: int, weight: int) -> u8 {
    clamp_u8(channel + div16_toward_zero(error * weight))
}

/// The working image (four bytes a pixel) after pixel `(x, y)`, if it is on
/// the screen, received `weight` sixteenths of `error`.
pub open spec fn spec_add_error(work: Seq<u8>, x: int, y: int, error: (int, int, int), weight: int) -> Seq<u8> {
    if x < 0 || y < 0 || x >= DISPLAY_WIDTH || y >= DISPLAY_HEIGHT {
        work
    } else {
        let i = (y * DISPLAY_WIDTH + x) * 4;
        work.update(i, with_error(work[i], error.0, weight)).update(
            i + 1,
            with_error(work[i + 1], error.1, weight),
        ).update(i + 2, with_error(work[i + 2], error.2, weight))
    }
}

/// The red, green and blue of pixel `p` of an image with `bytes` bytes a pixel.
pub open spec fn pixel_rgb(data: Seq<u8>, p: int, bytes: int) -> (u8, u8, u8) {
    (data[p * bytes], data[p * bytes + 1], data[p * bytes + 2])
}

/// One step of Floyd-Steinberg dithering at `(x, y)`: the pixel takes its
/// nearest ink, and the error goes seven sixteenths right, three down-left,
/// five down and one down-right.
pub open spec fn dither_step(work: Seq<u8>, out: Seq<u8>, x: int, y: int) -> (Seq<u8>, Seq<u8>) {
    let p = y * DISPLAY_WIDTH + x;
    let current = pixel_rgb(work, p, 4);
    let ink = nearest_ink(current);
    let error = (current.0 - ink.0, current.1 - ink.1, current.2 - ink.2);
    let out = out.update(p * 3, ink.0).update(p * 3 + 1, ink.1).update(p * 3 + 2, ink.2);
    let work = spec_add_error(work, x + 1, y, error, 7);
    let work = spec_add_error(work, x - 1, y + 1, error, 3);
    let work = spec_add_error(work, x, y + 1, error, 5);
    let work = spec_add_error(work, x + 1, y + 1, error, 1);
    (work, out)
}

/// The working image and the result after the first `count` pixels, row by
/// row, were dithered.
pub open spec fn dither_prefix(input: Seq<u8>, count: nat) -> (Seq<u8>, Seq<u8>)
    decreases count,
{
    if count == 0 {
        (input, Seq::new((DISPLAY_PIXELS * 3) as nat, |i: int| 0u8))
    } else {
        let (work, out) = dither_prefix(input, (count - 1) as nat);
        dither_step(work, out, (count - 1) % (DISPLAY_WIDTH as int), (count - 1) / (DISPLAY_WIDTH as int))
    }
}

/// A screen-sized image reduced to the panel's six inks, three bytes a pixel.
pub open spec fn spec_quantize_six_color(input: Seq<u8>) -> Seq<u8> {
    dither_prefix(input, DISPLAY_PIXELS as nat).1
}

/// A colour is one of the panel's inks exactly.
pub open spec fn is_ink(rgb: (u8, u8, u8)) -> bool {
    spec_exact_panel_color(rgb.0, rgb.1, rgb.2) is Some
}

proof fn lemma_add_error_len(work: Seq<u8>, x: int, y: int, error: (int, int, int), weight: int)
    requires
        work.len() == DISPLAY_PIXELS * 4,
    ensures
        spec_add_error(work, x, y, error, weight).len() == DISPLAY_PIXELS * 4,
{
}

proof fn lemma_dither_step_shape(work: Seq<u8>, out: Seq<u8>, x: int, y: int)
    requires
        work.len() == DISPLAY_PIXELS * 4,
        out.len() == DISPLAY_PIXELS * 3,
        0 <= x < DISPLAY_WIDTH,
        0 <= y < DISPLAY_HEIGHT,
        forall|p: int| 0 <= p < DISPLAY_PIXELS ==> is_ink(#[trigger] pixel_rgb(out, p, 3)),
    ensures
        dither_step(work, out, x, y).0.len() == DISPLAY_PIXELS * 4,
        dither_step(work, out, x, y).1.len() == DISPLAY_PIXELS * 3,
        forall|p: int| 0 <= p < DISPLAY_PIXELS ==> is_ink(#[trigger] pixel_rgb(dither_step(work, out, x, y).1, p, 3)),
{
    let k = y * DISPLAY_WIDTH + x;
    let current = pixel_rgb(work, k, 4);
    let ink = nearest_ink(current);
    let error = (current.0 - ink.0, current.1 - ink.1, current.2 - ink.2);
    assert(is_ink(ink));
    let next = out.update(k * 3, ink.0).update(k * 3 + 1, ink.1).update(k * 3 + 2, ink.2);
    assert(dither_step(work, out, x, y).1 == next);
    assert forall|p: int| 0 <= p < DISPLAY_PIXELS implies is_ink(#[trigger] pixel_rgb(next, p, 3)) by {
        if p != k {
            assert(pixel_rgb(next, p, 3) == pixel_rgb(out, p, 3));
        } else {
            assert(pixel_rgb(next, p, 3) == ink);
        }
    }
    let w1 = spec_add_error(work, x + 1, y, error, 7);
    lemma_add_error_len(work, x + 1, y, error, 7);
    let w2 = spec_add_error(w1, x - 1, y + 1, error, 3);
    lemma_add_error_len(w1, x - 1, y + 1, error, 3);
    let w3 = spec_add_error(w2, x, y + 1, error, 5);
    lemma_add_error_len(w2, x, y + 1, error, 5);
    lemma_add_error_len(w3, x + 1, y + 1, error, 1);
}

proof fn lemma_dither_prefix_shape(input: Seq<u8>, count: nat)
    requires
        input.len() == DISPLAY_PIXELS * 4,
        count <= DISPLAY_PIXELS,
    ensures
        dither_prefix(input, count).0.len() == DISPLAY_PIXELS * 4,
        dither_prefix(input, count).1.len() == DISPLAY_PIXELS * 3,
        forall|p: int| 0 <= p < DISPLAY_PIXELS ==> is_ink(#[trigger] pixel_rgb(dither_prefix(input, count).1, p, 3)),
    decreases count,
{
    if count > 0 {
        lemma_dither_prefix_shape(input, (count - 1) as nat);
        let k = count - 1;
        let previous = dither_prefix(input, (count - 1) as nat);
        let x = k % (DISPLAY_WIDTH as int);
        let y = k / (DISPLAY_WIDTH as int);
        assert(0 <= x < DISPLAY_WIDTH && 0 <= y < DISPLAY_HEIGHT) by {
            vstd::arithmetic::div_mod::lemma_fundamental_div_mod(k, DISPLAY_WIDTH as int);
        }
        lemma_dither_step_shape(previous.0, previous.1, x, y);
    } else {
        let out = dither_prefix(input, 0).1;
        assert forall|p: int| 0 <= p < DISPLAY_PIXELS implies is_ink(#[trigger] pixel_rgb(out, p, 3)) by {
            assert(pixel_rgb(out, p, 3) == (0u8, 0u8, 0u8));
        }
    }
}

fn palette_color(index: usize) -> (rgb: (u8, u8, u8))
    ensures
        rgb == palette_rgb(index as int),
{
    if index == 0 {
        (0, 0, 0)
    } else if index == 1 {
        (255, 255, 255)
    } else if index == 2 {
        (255, 0, 0)
    } else if index == 3 {
        (255, 255, 0)
    } else if index == 4 {
        (0, 0, 255)
    } else {
        (0, 255, 0)
    }
}

fn channel_distance(left: u8, right: u8) -> (distance: u32)
    ensures
        distance == square(left - right),
        distance <= 65025,
{
    let diff: i32 = left as i32 - right as i32;
    assert(0 <= diff * diff <= 65025) by (nonlinear_arith)
        requires
            -255 <= diff <= 255,
    ;
    (diff * diff) as u32
}

/// The squared distance between two colours.
pub fn color_distance(left: (u8, u8, u8), right: (u8, u8, u8)) -> (distance: u32)
    ensures
        distance == spec_color_distance(left, right),
{
    channel_distance(left.0, right.0) + channel_distance(left.1, right.1) + channel_distance(left.2, right.2)
}

fn nearest_palette_color(pixel: (u8, u8, u8)) -> (ink: (u8, u8, u8))
    ensures
        ink == nearest_ink(pixel),
{
    let mut best: usize = 0;
    let mut best_distance = color_distance(pixel, palette_color(0));
    let mut index: usize = 1;
    while index < 6
        invariant
            1 <= index <= 6,
            best as int == nearest_among(pixel, index as int),
            best < index,
            best_distance == spec_color_distance(pixel, palette_rgb(best as int)),
        decreases 6 - index,
    {
        let distance = color_distance(pixel, palette_color(index));
        if distance < best_distance {
            best = index;
            best_distance = distance;
        }
        index = index + 1;
    }
    palette_color(best)
}

fn channel_with_error(channel: u8, error: i32, weight: i32) -> (value: u8)
    requires
        -255 <= error <= 255,
        0 <= weight <= 16,
    ensures
        value == with_error(channel, error as int, weight as int),
{
    assert(-4080 <= error * weight <= 4080) by (nonlinear_arith)
        requires
            -255 <= error <= 255,
            0 <= weight <= 16,
    ;
    let scaled = error * weight;
    let delta = if scaled >= 0 {
        scaled / 16
    } else {
        -((-scaled) / 16)
    };
    let value = channel as i32 + delta;
    if value < 0 {
        0
    } else if value > 255 {
        255
    } else {
        value as u8
    }
}

/// Adds `weight` sixteenths of `error` to pixel `(x, y)` of the working image,
/// when that pixel is on the screen.
pub fn add_error(work: &mut Vec<u8>, x: i64, y: i64, error: (i32, i32, i32), weight: i32)
    requires
        old(work)@.len() == DISPLAY_PIXELS * 4,
        -255 <= error.0 <= 255,
        -255 <= error.1 <= 255,
        -255 <= error.2 <= 255,
        0 <= weight <= 16,
    ensures
        final(work)@ == spec_add_error(
            old(work)@,
            x as int,
            y as int,
            (error.0 as int, error.1 as int, error.2 as int),
            weight as int,
        ),
{
    if x < 0 || y < 0 || x >= 800 || y >= 480 {
        return;
    }
    let i = ((y * 800 + x) * 4) as usize;
    let red = channel_with_error(work[i], error.0, weight);
    work.set(i, red);
    let green = channel_with_error(work[i + 1], error.1, weight);
    work.set(i + 1, green);
    let blue = channel_with_error(work[i + 2], error.2, weight);
    work.set(i + 2, blue);
}

/// Spreads the error of pixel `(x, y)` over its neighbours still to come.
pub fn diffuse_error(work: &mut Vec<u8>, x: usize, y: usize, current: (u8, u8, u8), quantized: (u8, u8, u8))
    requires
        old(work)@.len() == DISPLAY_PIXELS * 4,
        x < DISPLAY_WIDTH,
        y < DISPLAY_HEIGHT,
    ensures
        final(work)@ == ({
            let error = (current.0 - quantized.0, current.1 - quantized.1, current.2 - quantized.2);
            let work = spec_add_error(old(work)@, x + 1, y as int, error, 7);
            let work = spec_add_error(work, x - 1, y + 1, error, 3);
            let work = spec_add_error(work, x as int, y + 1, error, 5);
            spec_add_error(work, x + 1, y + 1, error, 1)
        }),
{
    let error: (i32, i32, i32) = (
        current.0 as i32 - quantized.0 as i32,
        current.1 as i32 - quantized.1 as i32,
        current.2 as i32 - quantized.2 as i32,
    );
    let x = x as i64;
    let y = y as i64;
    add_error(work, x + 1, y, error, 7);
    add_error(work, x - 1, y + 1, error, 3);
    add_error(work, x, y + 1, error, 5);
    add_error(work, x + 1, y + 1, error, 1);
}

/// Reduces a screen-sized image (four bytes a pixel) to the panel's six inks
/// by Floyd-Steinberg dithering, row by row from the top left; the result has
/// three bytes a pixel.
pub fn quantize_six_color(fitted: &[u8]) -> (pixels: Vec<u8>)
    requires
        fitted@.len() == DISPLAY_PIXELS * 4,
    ensures
        pixels@ == spec_quantize_six_color(fitted@),
        pixels@.len() == DISPLAY_PIXELS * 3,
        forall|p: int| 0 <= p < DISPLAY_PIXELS ==> is_ink(#[trigger] pixel_rgb(pixels@, p, 3)),
{
    let mut work = vstd::slice::slice_to_vec(fitted);
    let mut output: Vec<u8> = vec![0u8; DISPLAY_PIXELS * 3];
    proof {
        assert(output@ =~= dither_prefix(fitted@, 0).1);
    }
    let mut y: usize = 0;
    while y < 480
        invariant
            y <= 480,
            fitted@.len() == DISPLAY_PIXELS * 4,
            work@ == dither_prefix(fitted@, (y * 800) as nat).0,
            output@ == dither_prefix(fitted@, (y * 800) as nat).1,
        decreases 480 - y,
    {
        let mut x: usize = 0;
        while x < 800
            invariant
                x <= 800,
                y < 480,
                fitted@.len() == DISPLAY_PIXELS * 4,
                work@ == dither_prefix(fitted@, (y * 800 + x) as nat).0,
                output@ == dither_prefix(fitted@, (y * 800 + x) as nat).1,
            decreases 800 - x,
        {
            proof {
                lemma_dither_prefix_shape(fitted@, (y * 800 + x) as nat);
                let k = (y * 800 + x) as int;
                vstd::arithmetic::div_mod::lemma_fundamental_div_mod_converse(k, 800, y as int, x as int);
            }
            let p = y * 800 + x;
            let current = (work[p * 4], work[p * 4 + 1], work[p * 4 + 2]);
            let quantized = nearest_palette_color(current);
            output.set(p * 3, quantized.0);
            output.set(p * 3 + 1, quantized.1);
            output.set(p * 3 + 2, quantized.2);
            diffuse_error(&mut work, x, y, current, quantized);
            x = x + 1;
        }
        y = y + 1;
    }
    proof {
        lemma_dither_prefix_shape(fitted@, DISPLAY_PIXELS as nat);
    }
    output
}

/// The failure an image call of the imaging library reports.
#[verifier::external_type_specification]
#[verifier::external_body]
pub struct ExImageError(image::ImageError);

/// Byte `c` (blue, green, red) of pixel `(x, y)`, counting rows from the top,
/// in a bottom-up 24-bit bitmap `width` by `height` with its rows at byte 54.
pub open spec fn stored_byte(bytes: Seq<u8>, width: int, height: int, x: int, y: int, c: int) -> u8 {
    bytes[54 + (height - 1 - y) * spec_row_stride(width) + x * 3 + c]
}

/// Byte `j` of the padding after the pixels of stored row `row`.
pub open spec fn padding_byte(bytes: Seq<u8>, width: int, row: int, j: int) -> u8 {
    bytes[54 + row * spec_row_stride(width) + width * 3 + j]
}

/// Channel `c` (red, green, blue) of pixel `(x, y)` of an image with three
/// bytes a pixel.
pub open spec fn source_byte(pixels: Seq<u8>, width: int, x: int, y: int, c: int) -> u8 {
    pixels[(y * width + x) * 3 + c]
}

/// The file that the imaging library's bitmap encoder writes for a `width`
/// by `height` image of red-green-blue bytes: a 14-byte file header and a
/// 40-byte information header (24 bits a pixel, no compression, no palette),
/// then the rows from the bottom up, each pixel as blue, green, red, each row
/// padded with zeros to a multiple of four bytes.
pub open spec fn rgb_bitmap_layout(bytes: Seq<u8>, width: int, height: int, pixels: Seq<u8>) -> bool {
    let stride = spec_row_stride(width);
    &&& bytes.len() == 54 + stride * height
    &&& bytes[0] == 0x42u8
    &&& bytes[1] == 0x4du8
    &&& le_u32(bytes, 2) == 54 + stride * height
    &&& le_u16(bytes, 6) == 0
    &&& le_u16(bytes, 8) == 0
    &&& le_u32(bytes, 10) == 54
    &&& le_u32(bytes, 14) == 40
    &&& le_u32(bytes, 18) == width
    &&& le_u32(bytes, 22) == height
    &&& le_u16(bytes, 26) == 1
    &&& le_u16(bytes, 28) == 24
    &&& le_u32(bytes, 30) == 0
    &&& le_u32(bytes, 34) == stride * height
    &&& le_u32(bytes, 38) == 0
    &&& le_u32(bytes, 42) == 0
    &&& le_u32(bytes, 46) == 0
    &&& le_u32(bytes, 50) == 0
    &&& forall|x: int, y: int, c: int|
        0 <= x < width && 0 <= y < height && 0 <= c < 3 ==> #[trigger] stored_byte(bytes, width, height, x, y, c)
            == source_byte(pixels, width, x, y, 2 - c)
    &&& forall|row: int, j: int|
        0 <= row < height && 0 <= j < stride - width * 3 ==> #[trigger] padding_byte(bytes, width, row, j) == 0
}

/// `image::codecs::bmp::BmpEncoder::write_image` on red-green-blue bytes,
/// writing into memory. The encoder panics unless there are exactly three
/// bytes a pixel; it fails exactly when a row, or the whole file, would not fit
/// in 32 bits; otherwise it writes the file that `rgb_bitmap_layout` describes.
#[verifier::external_body]
fn encode_rgb8_bmp(pixels: &[u8], width: u32, height: u32) -> (bytes: Result<Vec<u8>, image::ImageError>)
    requires
        pixels@.len() == width * height * 3,
    ensures
        bytes is Ok <==> (spec_row_stride(width as int) <= u32::MAX && 54 + spec_row_stride(width as int) * height
            <= u32::MAX),
        bytes matches Ok(bytes) ==> rgb_bitmap_layout(bytes@, width as int, height as int, pixels@),
{
    let mut output = std::io::Cursor::new(Vec::new());
    let encoder = image::codecs::bmp::BmpEncoder::new(&mut output);
    match image::ImageEncoder::write_image(encoder, pixels, width, height, image::ExtendedColorType::Rgb8) {
        Ok(()) => Ok(output.into_inner()),
        Err(error) => Err(error),
    }
}

/// Writes a screen-sized image of three bytes a pixel as a 24-bit bitmap.
pub fn encode_rgb_bmp(pixels: &[u8]) -> (bytes: Vec<u8>)
    requires
        pixels@.len() == DISPLAY_PIXELS * 3,
    ensures
        rgb_bitmap_layout(bytes@, DISPLAY_WIDTH as int, DISPLAY_HEIGHT as int, pixels@),
{
    match encode_rgb8_bmp(pixels, DISPLAY_WIDTH, DISPLAY_HEIGHT) {
        Ok(bytes) => bytes,
        Err(_) => {
            proof {
                assert(spec_row_stride(DISPLAY_WIDTH as int) == 2400);
            }
            Vec::new()
        },
    }
}

/// The header the frame reads from a display bitmap.
pub open spec fn display_bitmap_header() -> BmpHeader {
    BmpHeader { pixel_offset: 54, width: 800, height: 480, row_stride: 2400, top_down: false }
}

proof fn lemma_display_bitmap_reads_back(bytes: Seq<u8>, pixels: Seq<u8>)
    requires
        pixels.len() == DISPLAY_PIXELS * 3,
        rgb_bitmap_layout(bytes, DISPLAY_WIDTH as int, DISPLAY_HEIGHT as int, pixels),
    ensures
        spec_parse_bmp_header(bytes, bytes.len() as int) == Ok::<BmpHeader, crate::bmp::BmpError>(
            display_bitmap_header(),
        ),
        forall|x: int, y: int|
            0 <= x < DISPLAY_WIDTH && 0 <= y < DISPLAY_HEIGHT ==> #[trigger] header_rgb_at(
                bytes,
                display_bitmap_header(),
                x,
                y,
            ) == pixel_rgb(pixels, y * DISPLAY_WIDTH + x, 3),
{
    assert(spec_row_stride(800) == 2400);
    assert(le_i32(bytes, 18) == 800);
    assert(le_i32(bytes, 22) == 480);
    assert forall|x: int, y: int| 0 <= x < DISPLAY_WIDTH && 0 <= y < DISPLAY_HEIGHT implies #[trigger] header_rgb_at(
        bytes,
        display_bitmap_header(),
        x,
        y,
    ) == pixel_rgb(pixels, y * DISPLAY_WIDTH + x, 3) by {
        assert(stored_byte(bytes, 800, 480, x, y, 0) == source_byte(pixels, 800, x, y, 2));
        assert(stored_byte(bytes, 800, 480, x, y, 1) == source_byte(pixels, 800, x, y, 1));
        assert(stored_byte(bytes, 800, 480, x, y, 2) == source_byte(pixels, 800, x, y, 0));
    }
}

/// Reduces a screen-sized image (four bytes a pixel) to the panel's inks and
/// writes it as the bitmap the frame shows. The frame reads its header as an
/// 800 by 480 bottom-up bitmap, reads back each pixel as the ink the dithering
/// chose, and finds an ink at every pixel.
pub fn display_bmp_from_fitted(fitted: &[u8]) -> (bytes: Vec<u8>)
    requires
        fitted@.len() == DISPLAY_PIXELS * 4,
    ensures
        rgb_bitmap_layout(bytes@, DISPLAY_WIDTH as int, DISPLAY_HEIGHT as int, spec_quantize_six_color(fitted@)),
        spec_parse_bmp_header(bytes@, bytes@.len() as int) == Ok::<BmpHeader, crate::bmp::BmpError>(
            display_bitmap_header(),
        ),
        forall|x: int, y: int|
            0 <= x < DISPLAY_WIDTH && 0 <= y < DISPLAY_HEIGHT ==> #[trigger] header_rgb_at(
                bytes@,
                display_bitmap_header(),
                x,
                y,
            ) == pixel_rgb(spec_quantize_six_color(fitted@), y * DISPLAY_WIDTH + x, 3),
        forall|x: int, y: int|
            0 <= x < DISPLAY_WIDTH && 0 <= y < DISPLAY_HEIGHT ==> #[trigger] header_color_at(
                bytes@,
                display_bitmap_header(),
                x,
                y,
            ) is Some,
{
    let pixels = quantize_six_color(fitted);
    let bytes = encode_rgb_bmp(pixels.as_slice());
    proof {
        lemma_display_bitmap_reads_back(bytes@, pixels@);
        assert forall|x: int, y: int| 0 <= x < DISPLAY_WIDTH && 0 <= y < DISPLAY_HEIGHT implies #[trigger] header_color_at(
            bytes@,
            display_bitmap_header(),
            x,
            y,
        ) is Some by {
            assert(header_rgb_at(bytes@, display_bitmap_header(), x, y) == pixel_rgb(pixels@, y * 800 + x, 3));
            assert(is_ink(pixel_rgb(pixels@, y * 800 + x, 3)));
        }
    }
    bytes
}

/// The character of a hexadecimal digit, in lower case.
pub open spec fn hex_digit_char(nibble: int) -> char {
    if nibble < 10 {
        (48 + nibble) as char
    } else {
        (87 + nibble) as char
    }
}

/// `bytes` written as hexadecimal, two lower-case digits a byte, the high
/// digit first.
pub open spec fn spec_hex(bytes: Seq<u8>) -> Seq<char> {
    Seq::new(
        bytes.len() * 2,
        |i: int|
            if i % 2 == 0 {
                hex_digit_char(bytes[i / 2] as int / 16)
            } else {
                hex_digit_char(bytes[i / 2] as int % 16)
            },
    )
}

/// `hex::encode`: each byte becomes two lower-case hexadecimal digits, the
/// high one first.
#[verifier::external_body]
fn hex_encode(bytes: &[u8]) -> (text: String)
    ensures
        text@ == spec_hex(bytes@),
{
    hex::encode(bytes)
}

/// The SHA-256 digest of `bytes`.
pub uninterp spec fn sha256_of(bytes: Seq<u8>) -> Seq<u8>;

/// `sha2::Sha256::digest`: the 32-byte SHA-256 digest of `bytes`.
#[verifier::external_body]
fn sha256_digest(bytes: &[u8]) -> (digest: [u8; 32])
    ensures
        digest@ == sha256_of(bytes@),
{
    <sha2::Sha256 as sha2::Digest>::digest(bytes).into()
}

/// The name an uploaded image is stored under: its SHA-256 digest in hexadecimal.
pub open spec fn spec_image_sha256(bytes: Seq<u8>) -> Seq<char> {
    spec_hex(sha256_of(bytes))
}

/// The name of the image `bytes`; it is always a valid image name.
pub fn image_sha256(bytes: &[u8]) -> (sha256: String)
    ensures
        sha256@ == spec_image_sha256(bytes@),
        spec_valid_sha256(sha256@),
{
    let digest = sha256_digest(bytes);
    let sha256 = hex_encode(digest.as_slice());
    proof {
        assert(digest@.len() == 32);
        assert forall|i: int| 0 <= i < 64 implies is_hex_digit(#[trigger] sha256@[i]) by {
            let byte = digest@[i / 2];
            assert(0 <= byte / 16 < 16);
            assert(0 <= byte % 16 < 16);
        }
    }
    sha256
}

/// An upload is refused when it is empty or not a bitmap, JPEG or PNG;
/// otherwise it is kept under its digest with its format's extension.
pub open spec fn spec_identify_upload(bytes: Seq<u8>) -> Result<(UploadedImageFormat, Seq<char>), ImageRequestError> {
    if bytes.len() == 0 {
        Err(ImageRequestError::EmptyImage)
    } else {
        match spec_detect_format(bytes) {
            Ok(format) => Ok((format, spec_image_sha256(bytes))),
            Err(error) => Err(error),
        }
    }
}

/// Checks an uploaded file and names it.
pub fn identify_upload(bytes: &[u8]) -> (identity: Result<(UploadedImageFormat, String), ImageRequestError>)
    ensures
        match spec_identify_upload(bytes@) {
            Ok((format, sha256)) => identity matches Ok((f, s)) && f == format && s@ == sha256,
            Err(error) => identity == Err::<(UploadedImageFormat, String), ImageRequestError>(error),
        },
        identity matches Ok((_, s)) ==> spec_valid_sha256(s@),
{
    if bytes.len() == 0 {
        return Err(ImageRequestError::EmptyImage);
    }
    let format = detect_uploaded_image_format(bytes)?;
    Ok((format, image_sha256(bytes)))
}

/// Checks the image field of an upload form: an upload without one is
/// refused; otherwise its file is checked and named.
pub fn identify_upload_field(image: Option<&[u8]>) -> (identity: Result<
    (UploadedImageFormat, String),
    ImageRequestError,
>)
    ensures
        match image {
            None => identity == Err::<(UploadedImageFormat, String), ImageRequestError>(
                ImageRequestError::MissingImage,
            ),
            Some(bytes) => match spec_identify_upload(bytes@) {
                Ok((format, sha256)) => identity matches Ok((f, s)) && f == format && s@ == sha256,
                Err(error) => identity == Err::<(UploadedImageFormat, String), ImageRequestError>(error),
            },
        },
{
    match image {
        None => Err(ImageRequestError::MissingImage),
        Some(bytes) => identify_upload(bytes),
    }
}

/// What the imaging library decodes `bytes` to, as width, height and
/// red-green-blue-alpha bytes; `None` for a file it refuses.
pub uninterp spec fn decoded_rgba8(bytes: Seq<u8>) -> Option<(u32, u32, Seq<u8>)>;

/// `image::load_from_memory` followed by `DynamicImage::to_rgba8`: the width,
/// the height and the red-green-blue-alpha bytes of a decoded upload, or the
/// library's error; what it decodes a file to is named `decoded_rgba8`.
#[verifier::external_body]
fn load_rgba8(bytes: &[u8]) -> (decoded: Result<(u32, u32, Vec<u8>), image::ImageError>)
    ensures
        decoded is Ok <==> decoded_rgba8(bytes@) is Some,
        decoded matches Ok((width, height, rgba)) ==> decoded_rgba8(bytes@) == Some((width, height, rgba@)),
{
    match image::load_from_memory(bytes) {
        Ok(image) => {
            let rgba = image.to_rgba8();
            Ok((rgba.width(), rgba.height(), rgba.into_raw()))
        },
        Err(error) => Err(error),
    }
}

/// A decoded upload, four bytes a pixel.
#[derive(Debug, PartialEq, Eq)]
pub struct DecodedImage {
    pub width: u32,
    pub height: u32,
    pub rgba: Vec<u8>,
}

/// Keeps a decoded image whose bytes fill its size exactly, four a pixel;
/// anything else is an undecodable image.
pub fn decoded_image(width: u32, height: u32, rgba: Vec<u8>) -> (image: Result<DecodedImage, ImageRequestError>)
    ensures
        rgba@.len() == width * height * 4 ==> (image matches Ok(image) && image.width == width && image.height
            == height && image.rgba@ == rgba@),
        rgba@.len() != width * height * 4 ==> image == Err::<DecodedImage, ImageRequestError>(
            ImageRequestError::UndecodableImage,
        ),
{
    assert((width as u64) * (height as u64) <= u64::MAX) by (nonlinear_arith)
        requires
            width <= u32::MAX,
            height <= u32::MAX,
    ;
    let expected = (width as u64) * (height as u64);
    let length = rgba.len();
    proof {
        if rgba@.len() == width * height * 4 {
            assert(expected * 4 == length);
            assert(expected <= (usize::MAX as u64) / 4);
        }
    }
    if expected <= (usize::MAX as u64) / 4 && length as u64 == expected * 4 {
        Ok(DecodedImage { width, height, rgba })
    } else {
        Err(ImageRequestError::UndecodableImage)
    }
}

/// Decodes an upload; a file the decoder refuses, or whose pixels do not fill
/// its size exactly, is an undecodable image.
pub fn decode_upload(bytes: &[u8]) -> (image: Result<DecodedImage, ImageRequestError>)
    ensures
        match decoded_rgba8(bytes@) {
            Some((width, height, rgba)) => if rgba.len() == width * height * 4 {
                image matches Ok(image) && image.width == width && image.height == height && image.rgba@ == rgba
            } else {
                image == Err::<DecodedImage, ImageRequestError>(ImageRequestError::UndecodableImage)
            },
            None => image == Err::<DecodedImage, ImageRequestError>(ImageRequestError::UndecodableImage),
        },
{
    match load_rgba8(bytes) {
        Ok((width, height, rgba)) => decoded_image(width, height, rgba),
        Err(_) => Err(ImageRequestError::UndecodableImage),
    }
}

} // verus!
