use image::{DynamicImage, GenericImageView, ImageFormat, RgbImage};
use kurp::config::app_config::Format;
use kurp::call_history::CallHistory;
use kurp::handlers::content_disposition::{
    rewrite_content_disposition, with_extension, with_new_file_extension,
};
use kurp::handlers::upscale::{
    book_id_from_path, chapter_id_from_query, find_header, finish_response, finish_transcode,
    is_upscale_candidate, mime_type_of, note_upscaled, recompress, to_response, transcode, upscale,
    upscale_response,
};
use kurp::http_compression::{compress, decompress, Algorithm};
use kurp::models::errors::UpscaleError;
use kurp::models::http::{Header, Response};
use kurp::upscaler::upscaler::{
    decode, finish_upscale, labelled, over_threshold, resolve_format, Upscaler, UpscalerConfig,
};
use std::io::Cursor;

struct Doubler;

impl Upscaler for Doubler {
    fn upscale_image(&self, image: DynamicImage) -> Result<DynamicImage, UpscaleError> {
        let (w, h) = image.dimensions();
        Ok(image.resize_exact(w * 2, h * 2, image::imageops::FilterType::Nearest))
    }
}

fn picture(width: u32, height: u32) -> DynamicImage {
    let mut img = RgbImage::new(width, height);
    for (x, y, pixel) in img.enumerate_pixels_mut() {
        *pixel = image::Rgb([(x * 7 % 256) as u8, (y * 13 % 256) as u8, ((x + y) % 256) as u8]);
    }
    DynamicImage::ImageRgb8(img)
}

fn encoded(image: &DynamicImage, format: ImageFormat) -> Vec<u8> {
    let mut buf = Cursor::new(Vec::new());
    image.write_to(&mut buf, format).unwrap();
    buf.into_inner()
}

fn decoded(bytes: &[u8], format: ImageFormat) -> DynamicImage {
    image::load_from_memory_with_format(bytes, format).unwrap()
}

fn config(return_format: Format) -> UpscalerConfig {
    UpscalerConfig { threshold_enabled: true, threshold: 500, threshold_png: 1000, return_format }
}

fn header(name: &str, value: &str) -> Header {
    Header { name: name.to_string(), value: value.to_string() }
}

fn value_of(headers: &Vec<Header>, name: &str) -> String {
    find_header(headers, name).unwrap()
}

#[test]
fn threshold_is_exceeded_by_a_single_byte() {
    let c = config(Format::WebP);
    assert!(!over_threshold(c, 0, ImageFormat::Jpeg));
    assert!(!over_threshold(c, 500 * 1024 - 1, ImageFormat::Jpeg));
    assert!(!over_threshold(c, 500 * 1024, ImageFormat::Jpeg));
    assert!(over_threshold(c, 500 * 1024 + 1, ImageFormat::Jpeg));
    assert!(over_threshold(c, 500 * 1024 + 1023, ImageFormat::Jpeg));
    assert!(over_threshold(c, 501 * 1024, ImageFormat::WebP));
    assert!(over_threshold(c, usize::MAX, ImageFormat::Gif));
}

#[test]
fn png_has_its_own_threshold() {
    let c = config(Format::WebP);
    assert!(!over_threshold(c, 501 * 1024, ImageFormat::Png));
    assert!(!over_threshold(c, 1000 * 1024, ImageFormat::Png));
    assert!(over_threshold(c, 1000 * 1024 + 1, ImageFormat::Png));
    assert!(over_threshold(c, 1001 * 1024, ImageFormat::Png));
}

#[test]
fn largest_threshold_does_not_overflow() {
    let c = UpscalerConfig { threshold_enabled: true, threshold: u32::MAX, threshold_png: 0, return_format: Format::Png };
    assert!(!over_threshold(c, 1 << 40, ImageFormat::Jpeg));
    assert!(over_threshold(c, 1, ImageFormat::Png));
    assert!(!over_threshold(c, 0, ImageFormat::Png));
}

#[test]
fn image_one_byte_over_the_limit_comes_back_untouched() {
    let mut input = encoded(&picture(8, 8), ImageFormat::Jpeg);
    input.resize(500 * 1024 + 1, 0);
    let out = kurp::upscaler::upscaler::upscale(&Doubler, config(Format::WebP), input.clone(), ImageFormat::Jpeg).unwrap();
    assert_eq!(out, (input.clone(), ImageFormat::Jpeg));
    input.truncate(500 * 1024);
    let out = kurp::upscaler::upscaler::upscale(&Doubler, config(Format::WebP), input.clone(), ImageFormat::Jpeg).unwrap();
    assert_eq!(out.1, ImageFormat::WebP);
    assert_ne!(out.0, input);
}

#[test]
fn disabled_threshold_never_skips() {
    let c = UpscalerConfig { threshold_enabled: false, threshold: 0, threshold_png: 0, return_format: Format::Png };
    assert!(!over_threshold(c, usize::MAX, ImageFormat::Jpeg));
    assert!(!over_threshold(c, usize::MAX, ImageFormat::Png));
}

#[test]
fn target_format_is_the_configured_one_or_the_source() {
    assert_eq!(resolve_format(Format::Png, ImageFormat::Jpeg), ImageFormat::Png);
    assert_eq!(resolve_format(Format::Jpeg, ImageFormat::Png), ImageFormat::Jpeg);
    assert_eq!(resolve_format(Format::WebP, ImageFormat::Png), ImageFormat::WebP);
    assert_eq!(resolve_format(Format::Original, ImageFormat::Gif), ImageFormat::Gif);
    assert_eq!(resolve_format(Format::Original, ImageFormat::Jpeg), ImageFormat::Jpeg);
}

#[test]
fn image_over_threshold_comes_back_untouched() {
    let mut input = encoded(&picture(8, 8), ImageFormat::Jpeg);
    input.resize(501 * 1024, 0);
    let out = kurp::upscaler::upscaler::upscale(&Doubler, config(Format::WebP), input.clone(), ImageFormat::Jpeg).unwrap();
    assert_eq!(out.0, input);
    assert_eq!(out.1, ImageFormat::Jpeg);
}

#[test]
fn image_under_threshold_is_upscaled_and_reencoded() {
    let input = encoded(&picture(16, 12), ImageFormat::Png);
    let (bytes, format) =
        kurp::upscaler::upscaler::upscale(&Doubler, config(Format::WebP), input.clone(), ImageFormat::Png).unwrap();
    assert_eq!(format, ImageFormat::WebP);
    assert_ne!(bytes, input);
    assert_eq!(decoded(&bytes, ImageFormat::WebP).dimensions(), (32, 24));
}

#[test]
fn original_format_is_kept_when_configured() {
    let input = encoded(&picture(10, 10), ImageFormat::Png);
    let (bytes, format) =
        kurp::upscaler::upscaler::upscale(&Doubler, config(Format::Original), input, ImageFormat::Png).unwrap();
    assert_eq!(format, ImageFormat::Png);
    assert_eq!(decoded(&bytes, ImageFormat::Png).dimensions(), (20, 20));
}

#[test]
fn wrongly_declared_format_falls_back_to_the_sniffed_one() {
    let input = encoded(&picture(10, 6), ImageFormat::Png);
    let (bytes, format) =
        kurp::upscaler::upscaler::upscale(&Doubler, config(Format::Jpeg), input, ImageFormat::Jpeg).unwrap();
    assert_eq!(format, ImageFormat::Jpeg);
    assert_eq!(decoded(&bytes, ImageFormat::Jpeg).dimensions(), (20, 12));
}

#[test]
fn undecodable_bytes_fail() {
    let r = kurp::upscaler::upscaler::upscale(&Doubler, config(Format::WebP), b"not an image".to_vec(), ImageFormat::Png);
    assert!(r.is_err());
}

#[test]
fn transcode_reads_jpg_as_jpeg() {
    let input = encoded(&picture(8, 8), ImageFormat::Jpeg);
    let (bytes, format) = transcode(&Doubler, config(Format::Png), input, "image/jpg", None).unwrap();
    assert_eq!(format, ImageFormat::Png);
    assert_eq!(decoded(&bytes, ImageFormat::Png).dimensions(), (16, 16));
}

#[test]
fn transcode_rejects_unknown_content_types() {
    let input = encoded(&picture(8, 8), ImageFormat::Jpeg);
    assert!(transcode(&Doubler, config(Format::Png), input.clone(), "text/html", None).is_err());
    assert!(transcode(&Doubler, config(Format::Png), input.clone(), "IMAGE/JPEG", None).is_err());
    assert!(transcode(&Doubler, config(Format::Png), input, "", None).is_err());
}

#[test]
fn transcode_rejects_unsupported_encodings() {
    let input = encoded(&picture(8, 8), ImageFormat::Jpeg);
    assert!(transcode(&Doubler, config(Format::Png), input, "image/jpeg", Some("zstd".to_string())).is_err());
}

#[test]
fn transcode_rejects_a_body_that_does_not_decompress() {
    let input = encoded(&picture(8, 8), ImageFormat::Jpeg);
    assert!(transcode(&Doubler, config(Format::Png), input, "image/jpeg", Some("gzip".to_string())).is_err());
}

#[test]
fn transcode_recompresses_with_the_encoding_it_came_in() {
    for (name, algorithm) in [("gzip", Algorithm::Gzip), ("deflate", Algorithm::Deflate), ("br", Algorithm::Brotli)] {
        let body = compress(&encoded(&picture(8, 4), ImageFormat::Png), algorithm).unwrap();
        let (bytes, format) =
            transcode(&Doubler, config(Format::WebP), body, "image/png", Some(name.to_string())).unwrap();
        assert_eq!(format, ImageFormat::WebP);
        let payload = decompress(&bytes, algorithm).unwrap();
        assert_eq!(decoded(&payload, ImageFormat::WebP).dimensions(), (16, 8));
    }
}

#[test]
fn transcode_measures_the_decompressed_size() {
    let mut image = encoded(&picture(8, 8), ImageFormat::Jpeg);
    image.resize(600 * 1024, 0);
    let body = compress(&image, Algorithm::Gzip).unwrap();
    assert!(body.len() < 500 * 1024);
    let (bytes, format) =
        transcode(&Doubler, config(Format::WebP), body.clone(), "image/jpeg", Some("gzip".to_string())).unwrap();
    assert_eq!(bytes, body);
    assert_eq!(format, ImageFormat::Jpeg);
}

#[test]
fn mime_types_of_the_formats_the_proxy_labels() {
    assert_eq!(mime_type_of(ImageFormat::Png), Some(("image/png", "png")));
    assert_eq!(mime_type_of(ImageFormat::Jpeg), Some(("image/jpeg", "jpeg")));
    assert_eq!(mime_type_of(ImageFormat::WebP), Some(("image/webp", "webp")));
    assert_eq!(mime_type_of(ImageFormat::Gif), None);
    assert_eq!(mime_type_of(ImageFormat::Bmp), None);
}

#[test]
fn file_extension_is_replaced() {
    assert_eq!(with_new_file_extension("filename=page.jpg", "webp"), Some("filename=page.webp".to_string()));
    assert_eq!(
        with_new_file_extension("filename*=UTF-8''page-001.jpeg", "png"),
        Some("filename*=UTF-8''page-001.png".to_string())
    );
    assert_eq!(with_new_file_extension("filename=cover", "webp"), Some("filename=cover.webp".to_string()));
    assert_eq!(with_new_file_extension("filename=a.b.c", "png"), Some("filename=a.b.png".to_string()));
}

#[test]
fn parameter_without_a_file_name_is_refused() {
    assert_eq!(with_new_file_extension("filename=", "webp"), None);
    assert_eq!(with_new_file_extension("inline", "webp"), None);
}

#[test]
fn content_disposition_parameters_are_rewritten_one_by_one() {
    assert_eq!(
        rewrite_content_disposition("inline; filename=page.jpg; filename*=UTF-8''page.jpg", "webp"),
        Some("inline; filename=page.webp; filename*=UTF-8''page.webp".to_string())
    );
    assert_eq!(rewrite_content_disposition("attachment", "webp"), Some("attachment".to_string()));
    assert_eq!(rewrite_content_disposition("", "webp"), Some("".to_string()));
    assert_eq!(rewrite_content_disposition("inline; filename=", "webp"), None);
}

#[test]
fn reply_headers_are_corrected_for_the_new_body() {
    let headers = vec![
        header("content-type", "image/jpeg"),
        header("content-length", "307200"),
        header("content-disposition", "inline; filename=page.jpg"),
        header("etag", "\"abc\""),
    ];
    let reply = to_response(200, vec![0u8; 1234], &headers, ImageFormat::WebP).unwrap();
    assert_eq!(reply.status, 200);
    assert_eq!(reply.body.len(), 1234);
    assert_eq!(reply.headers.len(), 4);
    assert_eq!(reply.headers[0].name, "Content-Type");
    assert_eq!(reply.headers[0].value, "image/webp");
    assert_eq!(reply.headers[1].name, "Content-Length");
    assert_eq!(reply.headers[1].value, "1234");
    assert_eq!(reply.headers[2].name, "Content-Disposition");
    assert_eq!(reply.headers[2].value, "inline; filename=page.webp");
    assert_eq!(reply.headers[3].name, "etag");
    assert_eq!(reply.headers[3].value, "\"abc\"");
}

#[test]
fn reply_for_an_unlabelled_format_only_corrects_the_length() {
    let headers = vec![
        header("Content-Type", "image/gif"),
        header("Content-Length", "5"),
        header("Content-Disposition", "inline; filename=page.gif"),
    ];
    let reply = to_response(206, Vec::new(), &headers, ImageFormat::Gif).unwrap();
    assert_eq!(reply.status, 206);
    assert_eq!(reply.headers[0].value, "image/gif");
    assert_eq!(reply.headers[1].value, "0");
    assert_eq!(reply.headers[2].value, "inline; filename=page.gif");
}

#[test]
fn reply_fails_on_a_file_name_parameter_without_a_name() {
    let headers = vec![header("content-disposition", "inline; filename=")];
    assert!(to_response(200, Vec::new(), &headers, ImageFormat::Png).is_err());
    assert!(to_response(200, Vec::new(), &headers, ImageFormat::Gif).is_ok());
}

#[test]
fn jpeg_page_becomes_a_webp_page() {
    let mut body = encoded(&picture(64, 48), ImageFormat::Jpeg);
    body.resize(300 * 1024, 0);
    let response = Response {
        status: 200,
        headers: vec![
            header("content-type", "image/jpeg"),
            header("content-length", "307200"),
            header("content-disposition", "inline; filename=page.jpg"),
        ],
        body,
    };
    let mut history = CallHistory::new(1000);
    let reply = upscale(
        &mut history,
        "/api/v1/books/1/pages/1".to_string(),
        response,
        true,
        &Doubler,
        config(Format::WebP),
    )
    .unwrap();
    assert_eq!(reply.status, 200);
    assert_eq!(value_of(&reply.headers, "content-type"), "image/webp");
    assert_eq!(value_of(&reply.headers, "content-length"), reply.body.len().to_string());
    assert_eq!(value_of(&reply.headers, "content-disposition"), "inline; filename=page.webp");
    assert_eq!(decoded(&reply.body, ImageFormat::WebP).dimensions(), (128, 96));
    assert!(history.contains("/api/v1/books/1/pages/1"));
}

#[test]
fn response_without_content_type_fails() {
    let response = Response { status: 200, headers: Vec::new(), body: encoded(&picture(4, 4), ImageFormat::Png) };
    assert!(upscale_response(response, &Doubler, config(Format::WebP)).is_err());
}

#[test]
fn compressed_response_is_answered_compressed() {
    let body = compress(&encoded(&picture(6, 6), ImageFormat::Png), Algorithm::Gzip).unwrap();
    let response = Response {
        status: 200,
        headers: vec![
            header("Content-Type", "image/png"),
            header("Content-Encoding", "gzip"),
            header("Content-Length", "1"),
        ],
        body,
    };
    let reply = upscale_response(response, &Doubler, config(Format::Original)).unwrap();
    assert_eq!(value_of(&reply.headers, "content-encoding"), "gzip");
    assert_eq!(value_of(&reply.headers, "content-length"), reply.body.len().to_string());
    let payload = decompress(&reply.body, Algorithm::Gzip).unwrap();
    assert_eq!(decoded(&payload, ImageFormat::Png).dimensions(), (12, 12));
}

#[test]
fn statuses_that_pass_through() {
    for status in [100u16, 199, 301, 304, 400, 404, 500, 502] {
        assert!(!is_upscale_candidate(status), "{}", status);
    }
    for status in [200u16, 201, 206, 299] {
        assert!(is_upscale_candidate(status), "{}", status);
    }
}

#[test]
fn unsuccessful_response_is_returned_unmodified() {
    for status in [304u16, 404, 500, 302] {
        let mut history = CallHistory::new(1000);
        let response = Response {
            status,
            headers: vec![header("content-type", "image/jpeg"), header("content-length", "3")],
            body: vec![1, 2, 3],
        };
        let reply = upscale(&mut history, "/p".to_string(), response, true, &Doubler, config(Format::WebP)).unwrap();
        assert_eq!(reply.status, status);
        assert_eq!(reply.body, vec![1, 2, 3]);
        assert_eq!(reply.headers.len(), 2);
        assert_eq!(reply.headers[0].value, "image/jpeg");
        assert_eq!(reply.headers[1].value, "3");
        assert!(!history.contains("/p"));
    }
}

#[test]
fn response_for_an_untagged_resource_is_returned_unmodified() {
    let mut history = CallHistory::new(1000);
    let body = encoded(&picture(4, 4), ImageFormat::Png);
    let response = Response { status: 200, headers: vec![header("content-type", "image/png")], body: body.clone() };
    let reply = upscale(&mut history, "/p".to_string(), response, false, &Doubler, config(Format::WebP)).unwrap();
    assert_eq!(reply.body, body);
    assert_eq!(reply.headers[0].value, "image/png");
    assert!(!history.contains("/p"));
}

#[test]
fn failed_upscale_leaves_the_history_alone() {
    let mut history = CallHistory::new(1000);
    let response = Response { status: 200, headers: vec![header("content-type", "image/png")], body: vec![0, 1, 2] };
    assert!(upscale(&mut history, "/p".to_string(), response, true, &Doubler, config(Format::WebP)).is_err());
    assert!(!history.contains("/p"));
}

#[test]
fn book_id_is_the_segment_after_books() {
    assert_eq!(book_id_from_path("/api/v1/books/0A1B2C/pages/3"), Some("0A1B2C".to_string()));
    assert_eq!(book_id_from_path("/books/7"), Some("7".to_string()));
    assert_eq!(book_id_from_path("/api/v1/series/7"), None);
    assert_eq!(book_id_from_path("/api/v1/books"), None);
    assert_eq!(book_id_from_path("/api/v1/books/"), Some("".to_string()));
    assert_eq!(book_id_from_path(""), None);
}

#[test]
fn header_lookup_ignores_case_and_takes_the_first() {
    let headers = vec![header("Accept", "a"), header("content-TYPE", "image/png"), header("Content-Type", "text/plain")];
    assert_eq!(find_header(&headers, "content-type"), Some("image/png".to_string()));
    assert_eq!(find_header(&headers, "content-encoding"), None);
}

#[test]
fn codec_outcome_is_labelled_with_the_format() {
    assert_eq!(labelled(Ok(vec![1, 2]), ImageFormat::WebP).unwrap(), (vec![1, 2], ImageFormat::WebP));
    assert_eq!(labelled(Err("broken".to_string()), ImageFormat::Png).unwrap_err().message, "broken");
}

#[test]
fn chapter_id_is_read_from_the_query() {
    assert_eq!(chapter_id_from_query("chapterId=12&page=3"), Some(12));
    assert_eq!(chapter_id_from_query("page=3&chapterId=0&extractPdf=true"), Some(0));
    assert_eq!(chapter_id_from_query("chapterId=4294967295"), Some(4294967295));
    assert_eq!(chapter_id_from_query("chapterId=007"), Some(7));
    assert_eq!(chapter_id_from_query("chapterId=1&chapterId=2"), Some(1));
}

#[test]
fn query_without_a_usable_chapter_id() {
    assert_eq!(chapter_id_from_query(""), None);
    assert_eq!(chapter_id_from_query("page=3"), None);
    assert_eq!(chapter_id_from_query("chapterId="), None);
    assert_eq!(chapter_id_from_query("chapterId=abc"), None);
    assert_eq!(chapter_id_from_query("chapterId=-1"), None);
    assert_eq!(chapter_id_from_query("chapterId=+1"), None);
    assert_eq!(chapter_id_from_query("chapterId=4294967296"), None);
    assert_eq!(chapter_id_from_query("chapterId=99999999999999999999999"), None);
    assert_eq!(chapter_id_from_query("xchapterId=5"), None);
    assert_eq!(chapter_id_from_query("chapterId=x&chapterId=2"), None);
}

struct Faulty;

impl Upscaler for Faulty {
    fn upscale_image(&self, _image: DynamicImage) -> Result<DynamicImage, UpscaleError> {
        Err(UpscaleError { message: "engine fault".to_string() })
    }
}

#[test]
fn quoted_file_name_keeps_both_quotes() {
    assert_eq!(
        with_new_file_extension("filename=\"page.jpg\"", "webp"),
        Some("filename=\"page.webp\"".to_string())
    );
    assert_eq!(
        with_new_file_extension("filename=\"my page 01.jpeg\"", "png"),
        Some("filename=\"my page 01.png\"".to_string())
    );
    assert_eq!(
        with_new_file_extension("filename=\"cover\"", "webp"),
        Some("filename=\"cover.webp\"".to_string())
    );
    assert_eq!(with_new_file_extension("filename=\"\"", "webp"), None);
    assert_eq!(
        with_new_file_extension("filename=\"page.jpg", "webp"),
        Some("filename=\"page.webp".to_string())
    );
    assert_eq!(
        rewrite_content_disposition("inline; filename=\"page.jpg\"; filename*=UTF-8''page.jpg", "webp"),
        Some("inline; filename=\"page.webp\"; filename*=UTF-8''page.webp".to_string())
    );
}

#[test]
fn other_file_name_parameters_are_refused() {
    assert_eq!(with_new_file_extension("filename*=UTF-8''", "webp"), None);
    assert_eq!(with_new_file_extension("filename*=utf-8''page.jpg", "webp"), None);
    assert_eq!(with_new_file_extension("filename*=ISO-8859-1''page.jpg", "webp"), None);
    assert_eq!(with_new_file_extension("name=page.jpg", "webp"), None);
    assert_eq!(with_new_file_extension("xfilename=page.jpg", "webp"), None);
    assert_eq!(rewrite_content_disposition("inline; filename*=utf-8''page.jpg", "webp"), None);
}

#[test]
fn only_the_extension_of_the_file_name_changes() {
    assert_eq!(with_extension("page.jpg", "webp"), "page.webp");
    assert_eq!(with_extension("archive.tar.gz", "png"), "archive.tar.png");
    assert_eq!(with_extension("cover", "webp"), "cover.webp");
    assert_eq!(with_extension(".hidden", "webp"), ".hidden.webp");
    assert_eq!(with_extension("a.", "webp"), "a.webp");
    assert_eq!(with_extension("dir/page.jpg", "webp"), "dir/page.webp");
    assert_eq!(with_extension("a.b/c", "webp"), "a.b/c.webp");
    assert_eq!(with_extension("a.b\\c", "webp"), "a.b\\c.webp");
    assert_eq!(with_extension("dir/.hidden", "webp"), "dir/.hidden.webp");
    assert_eq!(with_extension("dir/", "webp"), "dir/.webp");
    assert_eq!(with_extension("", "webp"), ".webp");
    assert_eq!(with_extension("page.jpg", ""), "page.");
    assert_eq!(with_extension("p\u{e9}.jpg", "webp"), "p\u{e9}.webp");
}

#[test]
fn quoted_file_name_in_a_reply() {
    let headers = vec![header("Content-Disposition", "attachment; filename=\"page 1.jpg\"; size=3")];
    let reply = to_response(200, vec![1, 2, 3], &headers, ImageFormat::WebP).unwrap();
    assert_eq!(reply.headers[0].name, "Content-Disposition");
    assert_eq!(reply.headers[0].value, "attachment; filename=\"page 1.webp\"; size=3");
}

#[test]
fn reply_failure_names_the_missing_file_name() {
    let headers = vec![header("content-disposition", "inline; filename=")];
    let err = to_response(200, Vec::new(), &headers, ImageFormat::Png).unwrap_err();
    assert_eq!(err.message, "no file name in Content-Disposition");
}

#[test]
fn refusals_carry_their_message() {
    let input = encoded(&picture(8, 8), ImageFormat::Jpeg);
    let err = transcode(&Doubler, config(Format::Png), input.clone(), "text/html", None).unwrap_err();
    assert_eq!(err.message, "unsupported content type");
    let err = transcode(&Doubler, config(Format::Png), input, "image/jpeg", Some("zstd".to_string())).unwrap_err();
    assert_eq!(err.message, "unsupported compression algorithm");
    let err = transcode(&Doubler, config(Format::Png), vec![1, 2, 3], "image/png", None).unwrap_err();
    assert_eq!(err.message, "can't decode image");
    let response = Response { status: 200, headers: Vec::new(), body: vec![1] };
    let err = upscale_response(response, &Doubler, config(Format::WebP)).unwrap_err();
    assert_eq!(err.message, "no content type");
}

#[test]
fn engine_fault_fails_the_request_and_substitutes_nothing() {
    let body = encoded(&picture(4, 4), ImageFormat::Png);
    let err = kurp::upscaler::upscaler::upscale(&Faulty, config(Format::WebP), body.clone(), ImageFormat::Png)
        .unwrap_err();
    assert_eq!(err.message, "engine fault");
    let err = transcode(&Faulty, config(Format::WebP), body.clone(), "image/png", None).unwrap_err();
    assert_eq!(err.message, "engine fault");
    let mut history = CallHistory::new(1000);
    let response = Response { status: 200, headers: vec![header("content-type", "image/png")], body };
    let err = upscale(&mut history, "/p".to_string(), response, true, &Faulty, config(Format::WebP)).unwrap_err();
    assert_eq!(err.message, "engine fault");
    assert!(!history.contains("/p"));
}

#[test]
fn engine_answer_is_encoded_or_passed_on_as_the_error() {
    let r = finish_upscale(Ok(picture(3, 2)), ImageFormat::Png).unwrap();
    assert_eq!(r.1, ImageFormat::Png);
    assert_eq!(decoded(&r.0, ImageFormat::Png).dimensions(), (3, 2));
    let err = finish_upscale(Err(UpscaleError { message: "gone".to_string() }), ImageFormat::Png).unwrap_err();
    assert_eq!(err.message, "gone");
}

#[test]
fn worker_bytes_go_out_under_the_encoding_they_came_in() {
    let bytes = vec![7u8; 300];
    assert_eq!(recompress(bytes.clone(), ImageFormat::WebP, None).unwrap(), (bytes.clone(), ImageFormat::WebP));
    for algorithm in [Algorithm::Gzip, Algorithm::Deflate, Algorithm::Brotli] {
        let (body, format) = recompress(bytes.clone(), ImageFormat::Png, Some(algorithm)).unwrap();
        assert_eq!(format, ImageFormat::Png);
        assert_eq!(body, compress(&bytes, algorithm).unwrap());
        assert_eq!(decompress(&body, algorithm).unwrap(), bytes);
        let (again, _) = finish_transcode(Ok((bytes.clone(), ImageFormat::Png)), Some(algorithm)).unwrap();
        assert_eq!(again, body);
    }
    let err = finish_transcode(Err(UpscaleError { message: "gone".to_string() }), Some(Algorithm::Gzip)).unwrap_err();
    assert_eq!(err.message, "gone");
    assert_eq!(
        finish_transcode(Ok((bytes.clone(), ImageFormat::Jpeg)), None).unwrap(),
        (bytes, ImageFormat::Jpeg)
    );
}

#[test]
fn pipeline_answer_becomes_the_reply_or_its_error() {
    let headers = vec![header("content-length", "1"), header("content-type", "image/png")];
    let reply = finish_response(201, &headers, Ok((vec![1, 2], ImageFormat::Jpeg))).unwrap();
    assert_eq!(reply.status, 201);
    assert_eq!(reply.body, vec![1, 2]);
    assert_eq!(reply.headers[0].value, "2");
    assert_eq!(reply.headers[1].value, "image/jpeg");
    let err = finish_response(200, &headers, Err(UpscaleError { message: "gone".to_string() })).unwrap_err();
    assert_eq!(err.message, "gone");
}

#[test]
fn only_a_reply_is_noted_in_the_history() {
    let mut history = CallHistory::new(1000);
    note_upscaled(&mut history, "/failed".to_string(), &Err(UpscaleError { message: "x".to_string() }));
    assert!(!history.contains("/failed"));
    let reply = Response { status: 200, headers: Vec::new(), body: Vec::new() };
    note_upscaled(&mut history, "/done?page=1".to_string(), &Ok(reply));
    assert!(history.contains("/done?page=1"));
    assert!(!history.contains("/done"));
}

#[test]
fn upscaled_path_is_recognised_on_the_next_request() {
    let mut history = CallHistory::new(0);
    let body = encoded(&picture(4, 4), ImageFormat::Png);
    let response = Response { status: 200, headers: vec![header("content-type", "image/png")], body };
    upscale(&mut history, "/api/v1/books/1/pages/1".to_string(), response, true, &Doubler, config(Format::WebP))
        .unwrap();
    let headers = vec![header("if-none-match", "x"), header("accept", "*/*")];
    let kept = kurp::handlers::upscale::remove_uncached_conditional_headers(
        headers,
        &mut history,
        "/api/v1/books/1/pages/1",
    );
    assert_eq!(kept.len(), 2);
}

#[test]
fn decoding_takes_the_declared_format_or_else_the_sniffed_one() {
    let png = encoded(&picture(5, 3), ImageFormat::Png);
    assert_eq!(decode(&png, ImageFormat::Png).unwrap().dimensions(), (5, 3));
    assert_eq!(decode(&png, ImageFormat::Jpeg).unwrap().dimensions(), (5, 3));
    assert_eq!(decode(&vec![1, 2, 3], ImageFormat::Png).unwrap_err().message, "can't decode image");
    assert_eq!(decode(&Vec::new(), ImageFormat::Jpeg).unwrap_err().message, "can't decode image");
}

#[test]
fn encoder_error_is_the_error_of_the_step() {
    let image = DynamicImage::ImageRgb8(RgbImage::new(2, 2));
    let err = finish_upscale(Ok(image), ImageFormat::Gif).unwrap_err();
    assert!(!err.message.is_empty());
}

#[test]
fn engine_output_is_what_gets_encoded() {
    let image = picture(6, 4);
    let direct = encoded(&image, ImageFormat::Png);
    assert_eq!(finish_upscale(Ok(image), ImageFormat::Png).unwrap(), (direct, ImageFormat::Png));
}
