use epaper_album::bmp::BmpImage;
use epaper_album::server::images::{
    color_distance, decode_upload, decoded_image, detect_uploaded_image_format, display_bmp_from_fitted, identify_upload,
    identify_upload_field,
    image_sha256, image_status_from_str, image_status_str, quantize_six_color, upload_transition, ImageRequestError,
    ImageStatus, UploadWrite, UploadedImageFormat, DISPLAY_HEIGHT, DISPLAY_PIXELS, DISPLAY_WIDTH,
};
use epaper_album::server::requests::{parse_tags_json, validate_sha256, TagsRequestError};
use sha2::Digest;

fn uniform(red: u8, green: u8, blue: u8) -> Vec<u8> {
    let mut pixels = Vec::with_capacity(DISPLAY_PIXELS * 4);
    for _ in 0..DISPLAY_PIXELS {
        pixels.extend_from_slice(&[red, green, blue, 255]);
    }
    pixels
}

fn gradient() -> Vec<u8> {
    let mut pixels = Vec::with_capacity(DISPLAY_PIXELS * 4);
    for y in 0..DISPLAY_HEIGHT as usize {
        for x in 0..DISPLAY_WIDTH as usize {
            pixels.extend_from_slice(&[(x % 256) as u8, (y % 256) as u8, 128, 255]);
        }
    }
    pixels
}

#[test]
fn detects_upload_formats_by_signature() {
    assert_eq!(detect_uploaded_image_format(b"BM\x00\x00"), Ok(UploadedImageFormat::Bmp));
    assert_eq!(detect_uploaded_image_format(&[0xff, 0xd8, 0xff, 0xe0]), Ok(UploadedImageFormat::Jpeg));
    assert_eq!(
        detect_uploaded_image_format(b"\x89PNG\r\n\x1a\n\x00"),
        Ok(UploadedImageFormat::Png)
    );
    assert_eq!(detect_uploaded_image_format(b"GIF89a"), Err(ImageRequestError::UnsupportedFormat));
    assert_eq!(detect_uploaded_image_format(b"B"), Err(ImageRequestError::UnsupportedFormat));
    assert_eq!(UploadedImageFormat::Jpeg.extension(), "jpg");
    assert_eq!(UploadedImageFormat::Png.extension(), "png");
    assert_eq!(UploadedImageFormat::Bmp.extension(), "bmp");
    assert_eq!(ImageRequestError::UnsupportedFormat.message(), "图片格式支持 JPG、PNG 和 BMP");
}

#[test]
fn image_statuses_round_trip_through_their_words() {
    for status in [ImageStatus::Pending, ImageStatus::Processing, ImageStatus::Ready, ImageStatus::Failed] {
        assert_eq!(image_status_from_str(image_status_str(status)), Some(status));
    }
    assert_eq!(image_status_str(ImageStatus::Processing), "processing");
    assert_eq!(image_status_from_str("done"), None);
}

#[test]
fn upload_requeues_failed_and_unfinished_images() {
    let new = upload_transition(None, false);
    assert_eq!((new.write, new.status, new.enqueue), (UploadWrite::Insert, ImageStatus::Pending, true));
    let failed = upload_transition(Some(ImageStatus::Failed), false);
    assert_eq!((failed.write, failed.status, failed.enqueue), (UploadWrite::Status, ImageStatus::Pending, true));
    let ready = upload_transition(Some(ImageStatus::Ready), false);
    assert_eq!((ready.write, ready.status, ready.enqueue), (UploadWrite::Nothing, ImageStatus::Ready, false));
    let ready_remark = upload_transition(Some(ImageStatus::Ready), true);
    assert_eq!(ready_remark.write, UploadWrite::StatusAndRemark);
    let processing = upload_transition(Some(ImageStatus::Processing), false);
    assert_eq!((processing.status, processing.enqueue), (ImageStatus::Processing, true));
}

#[test]
fn uploads_are_named_by_their_sha256() {
    let bytes = b"BMsome bitmap bytes";
    let expected = hex::encode(sha2::Sha256::digest(bytes));
    assert_eq!(image_sha256(bytes), expected);
    assert!(validate_sha256(&expected));
    assert_eq!(identify_upload(bytes), Ok((UploadedImageFormat::Bmp, expected)));
    assert_eq!(identify_upload(b""), Err(ImageRequestError::EmptyImage));
    assert_eq!(identify_upload(b"GIF89a"), Err(ImageRequestError::UnsupportedFormat));
    assert_eq!(
        image_sha256(b""),
        "e3b0c44298fc1c149afbf4c8996fb92427ae41e4649b934ca495991b7852b855"
    );
}

#[test]
fn decodes_png_uploads_to_rgba() {
    let mut input = image::RgbImage::new(2, 3);
    input.put_pixel(1, 2, image::Rgb([10, 20, 30]));
    let mut encoded = std::io::Cursor::new(Vec::new());
    image::DynamicImage::ImageRgb8(input)
        .write_to(&mut encoded, image::ImageFormat::Png)
        .unwrap();
    let decoded = decode_upload(&encoded.into_inner()).unwrap();
    assert_eq!((decoded.width, decoded.height), (2, 3));
    assert_eq!(decoded.rgba.len(), 24);
    assert_eq!(&decoded.rgba[20..24], &[10, 20, 30, 255]);
    assert_eq!(decode_upload(b"\x89PNG\r\n\x1a\nbroken").unwrap_err(), ImageRequestError::UndecodableImage);
}

#[test]
fn colour_distance_is_the_sum_of_squares() {
    assert_eq!(color_distance((0, 0, 0), (255, 255, 255)), 195_075);
    assert_eq!(color_distance((10, 20, 30), (13, 16, 30)), 25);
}

#[test]
fn pure_inks_stay_as_they_are() {
    let red = quantize_six_color(&uniform(255, 0, 0));
    assert_eq!(red.len(), DISPLAY_PIXELS * 3);
    assert!(red.chunks(3).all(|pixel| pixel == [255, 0, 0]));
    let white = quantize_six_color(&uniform(255, 255, 255));
    assert!(white.chunks(3).all(|pixel| pixel == [255, 255, 255]));
}

#[test]
fn dithering_spreads_the_error_to_later_pixels() {
    let gray = quantize_six_color(&uniform(128, 128, 128));
    assert_eq!(&gray[0..3], &[255, 255, 255]);
    assert_eq!(&gray[3..6], &[0, 0, 0]);
    let whites = gray.chunks(3).filter(|pixel| *pixel == [255, 255, 255]).count();
    let blacks = gray.chunks(3).filter(|pixel| *pixel == [0, 0, 0]).count();
    assert_eq!(whites + blacks, DISPLAY_PIXELS);
    assert!(whites > DISPLAY_PIXELS / 3 && blacks > DISPLAY_PIXELS / 3);
}

#[test]
fn display_bitmap_is_one_the_frame_accepts() {
    let bmp = display_bmp_from_fitted(&gradient());

    assert_eq!(&bmp[0..2], b"BM");
    assert_eq!(u32::from_le_bytes(bmp[14..18].try_into().unwrap()), 40);
    assert_eq!(i32::from_le_bytes(bmp[18..22].try_into().unwrap()), 800);
    assert_eq!(i32::from_le_bytes(bmp[22..26].try_into().unwrap()), 480);
    assert_eq!(u16::from_le_bytes(bmp[26..28].try_into().unwrap()), 1);
    assert_eq!(u16::from_le_bytes(bmp[28..30].try_into().unwrap()), 24);
    assert_eq!(u32::from_le_bytes(bmp[30..34].try_into().unwrap()), 0);

    let quantized = quantize_six_color(&gradient());
    let image = BmpImage::parse(&bmp).unwrap();
    assert_eq!((image.width(), image.height()), (800, 480));
    for (x, y) in [(0, 0), (799, 0), (0, 479), (400, 240), (123, 321)] {
        let p = (y * 800 + x) * 3;
        let expected = (quantized[p], quantized[p + 1], quantized[p + 2]);
        assert_eq!(image.rgb_at(x, y), Ok(expected));
        assert!(image.color_at(x, y).is_ok());
    }
}

#[test]
fn tags_json_is_read_and_normalized() {
    let tags = parse_tags_json("[\" travel \", \"\", \"family\", \"travel\"]").unwrap();
    assert_eq!(tags, vec!["travel".to_string(), "family".to_string()]);
    assert_eq!(parse_tags_json("[]").unwrap(), Vec::<String>::new());
}

#[test]
fn malformed_tags_json_is_refused() {
    assert_eq!(parse_tags_json("travel,family"), Err(TagsRequestError::MalformedTags));
    assert_eq!(parse_tags_json("[1, 2]"), Err(TagsRequestError::MalformedTags));
    assert_eq!(TagsRequestError::MalformedTags.message(), "标签字段格式不正确");
}

#[test]
fn upload_without_image_field_is_refused() {
    assert_eq!(identify_upload_field(None), Err(ImageRequestError::MissingImage));
    assert_eq!(ImageRequestError::MissingImage.message(), "请选择要上传的图片");
    assert_eq!(identify_upload_field(Some(b"")), Err(ImageRequestError::EmptyImage));
    let (format, sha256) = identify_upload_field(Some(b"BMxyz")).unwrap();
    assert_eq!(format, UploadedImageFormat::Bmp);
    assert_eq!(sha256.len(), 64);
}

#[test]
fn decoded_bytes_must_fill_the_size() {
    let image = decoded_image(2, 1, vec![1, 2, 3, 4, 5, 6, 7, 8]).unwrap();
    assert_eq!((image.width, image.height), (2, 1));
    assert_eq!(image.rgba, vec![1, 2, 3, 4, 5, 6, 7, 8]);
    assert_eq!(decoded_image(2, 1, vec![1, 2, 3, 4]), Err(ImageRequestError::UndecodableImage));
    assert_eq!(decoded_image(0, 5, Vec::new()).unwrap().rgba.len(), 0);
}
