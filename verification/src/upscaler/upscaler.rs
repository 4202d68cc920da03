//! Decoding, upscaling and re-encoding one image.

use vstd::prelude::*;
use image::{DynamicImage, ImageFormat};
use std::io::Cursor;
use crate::config::app_config::{AppConfig, Format};
use crate::models::errors::UpscaleError;

verus! {

/// `image::ImageFormat`: the image formats, by the variants that the crate
/// declares. It has no fields to look into.
#[verifier::external_type_specification]
pub struct ExImageFormat(ImageFormat);

/// `image::DynamicImage`: a decoded image. It is carried from the decoder to
/// the engine and on to the encoder; nothing here looks inside.
#[verifier::external_type_specification]
#[verifier::external_body]
pub struct ExDynamicImage(DynamicImage);

/// The part of the configuration that the image step reads.
#[derive(Debug, Copy, Clone)]
pub struct UpscalerConfig {
    pub threshold_enabled: bool,
    /// Size limit in KB (1024 bytes) for every source format but PNG.
    pub threshold: u32,
    /// Size limit in KB (1024 bytes) for PNG sources.
    pub threshold_png: u32,
    pub return_format: Format,
}

impl UpscalerConfig {
    /// The image-step settings of a configuration.
    pub fn new(config: &AppConfig) -> (r: Self)
        ensures
            r.threshold_enabled == config.size_threshold_enabled,
            r.threshold == config.size_threshold,
            r.threshold_png == config.size_threshold_png,
            r.return_format == config.return_format,
    {
        UpscalerConfig {
            threshold_enabled: config.size_threshold_enabled,
            threshold: config.size_threshold,
            threshold_png: config.size_threshold_png,
            return_format: config.return_format,
        }
    }
}

/// A super-resolution engine. What it does to an image is its own business:
/// nothing is assumed of the image it returns, nor of when it fails.
pub trait Upscaler {
    fn upscale_image(&self, image: DynamicImage) -> Result<DynamicImage, UpscaleError>;
}

/// The size limit, in KB, that applies to a source of the given format.
pub open spec fn threshold_for(config: UpscalerConfig, format: ImageFormat) -> u32 {
    if format == ImageFormat::Png {
        config.threshold_png
    } else {
        config.threshold
    }
}

/// An image of `len` bytes in `format` is too large to be upscaled: the
/// limit is in force and the image is larger than the limit, be it by a
/// single byte.
pub open spec fn exceeds_threshold(config: UpscalerConfig, len: nat, format: ImageFormat) -> bool {
    config.threshold_enabled && len > threshold_for(config, format) * 1024
}

/// The format an upscaled image is written in.
pub open spec fn target_format(wanted: Format, source: ImageFormat) -> ImageFormat {
    match wanted {
        Format::Png => ImageFormat::Png,
        Format::Jpeg => ImageFormat::Jpeg,
        Format::WebP => ImageFormat::WebP,
        Format::Original => source,
    }
}

/// The image format that a MIME type names.
pub open spec fn format_of_mime(mime: Seq<char>) -> Option<ImageFormat> {
    if mime == "image/avif"@ {
        Some(ImageFormat::Avif)
    } else if mime == "image/jpeg"@ {
        Some(ImageFormat::Jpeg)
    } else if mime == "image/png"@ {
        Some(ImageFormat::Png)
    } else if mime == "image/gif"@ {
        Some(ImageFormat::Gif)
    } else if mime == "image/webp"@ {
        Some(ImageFormat::WebP)
    } else if mime == "image/tiff"@ {
        Some(ImageFormat::Tiff)
    } else if mime == "image/x-targa"@ || mime == "image/x-tga"@ {
        Some(ImageFormat::Tga)
    } else if mime == "image/vnd-ms.dds"@ {
        Some(ImageFormat::Dds)
    } else if mime == "image/bmp"@ {
        Some(ImageFormat::Bmp)
    } else if mime == "image/x-icon"@ {
        Some(ImageFormat::Ico)
    } else if mime == "image/vnd.radiance"@ {
        Some(ImageFormat::Hdr)
    } else if mime == "image/x-exr"@ {
        Some(ImageFormat::OpenExr)
    } else if mime == "image/x-portable-bitmap"@ || mime == "image/x-portable-graymap"@ || mime
        == "image/x-portable-pixmap"@ || mime == "image/x-portable-anymap"@ {
        Some(ImageFormat::Pnm)
    } else if mime == "image/x-qoi"@ {
        Some(ImageFormat::Qoi)
    } else {
        None
    }
}

/// The image that the decoder for `format` makes of `bytes`; none where it
/// rejects them.
pub uninterp spec fn image_decoded_as(bytes: Seq<u8>, format: ImageFormat) -> Option<DynamicImage>;

/// The image that `bytes` decode to in the format that their first bytes
/// announce; none where no format is recognised or its decoder rejects them.
pub uninterp spec fn image_decoded_guessed(bytes: Seq<u8>) -> Option<DynamicImage>;

/// What the encoder for `format` writes for `image`: the bytes, or the
/// message of its error.
pub uninterp spec fn image_encoded_as(image: DynamicImage, format: ImageFormat) -> Result<
    Seq<u8>,
    Seq<char>,
>;

/// The image that is upscaled for `bytes`: the one decoded in the declared
/// format, or else the one decoded in the sniffed format.
pub open spec fn decoded_image(bytes: Seq<u8>, format: ImageFormat) -> Option<DynamicImage> {
    match image_decoded_as(bytes, format) {
        Some(image) => Some(image),
        None => image_decoded_guessed(bytes),
    }
}

/// `bytes` can be decoded, in the declared format or else in the sniffed one.
pub open spec fn image_decodes(bytes: Seq<u8>, format: ImageFormat) -> bool {
    decoded_image(bytes, format) is Some
}

/// What came of a codec call, as plain values.
pub open spec fn produced_view(r: Result<Vec<u8>, String>) -> Result<Seq<u8>, Seq<char>> {
    match r {
        Ok(bytes) => Ok(bytes@),
        Err(message) => Err(message@),
    }
}

/// `image::ImageFormat::from_mime_type`: a fixed table from MIME types to
/// formats, written out in `format_of_mime`; every other text gives `None`.
#[verifier::external_body]
pub(crate) fn format_from_mime(mime: &str) -> (r: Option<ImageFormat>)
    ensures
        r == format_of_mime(mime@),
{
    ImageFormat::from_mime_type(mime)
}

/// `image::io::Reader` with the format set by `set_format`, then `decode`.
/// Trusted: the image, or that none comes out, depends on the bytes and the
/// format alone. Nothing is said of what the image holds.
#[verifier::external_body]
fn decode_as(bytes: &[u8], format: ImageFormat) -> (r: Option<DynamicImage>)
    ensures
        r == image_decoded_as(bytes@, format),
{
    let mut reader = image::io::Reader::new(Cursor::new(bytes));
    reader.set_format(format);
    reader.decode().ok()
}

/// `image::io::Reader::with_guessed_format`, then `decode`. Trusted: the
/// image, or that none comes out, depends on the bytes alone. Nothing is
/// said of what the image holds.
#[verifier::external_body]
fn decode_guessed(bytes: &[u8]) -> (r: Option<DynamicImage>)
    ensures
        r == image_decoded_guessed(bytes@),
{
    image::io::Reader::new(Cursor::new(bytes)).with_guessed_format().ok()?.decode().ok()
}

/// `image::DynamicImage::write_to` into a fresh buffer. Trusted: the bytes,
/// or the error's text, depend on the image and the format alone. Nothing
/// is said of what the bytes hold, nor that encoding succeeds.
#[verifier::external_body]
fn encode_image(image: &DynamicImage, format: ImageFormat) -> (r: Result<Vec<u8>, String>)
    ensures
        produced_view(r) == image_encoded_as(*image, format),
{
    let mut buf = Cursor::new(Vec::new());
    image.write_to(&mut buf, format).map_err(|err| err.to_string())?;
    Ok(buf.into_inner())
}

/// Whether an image of `len` bytes in `format` is too large to be upscaled.
pub fn over_threshold(config: UpscalerConfig, len: usize, format: ImageFormat) -> (r: bool)
    ensures
        r == exceeds_threshold(config, len as nat, format),
{
    if !config.threshold_enabled {
        return false;
    }
    let threshold = match format {
        ImageFormat::Png => config.threshold_png,
        _ => config.threshold,
    };
    len as u64 > threshold as u64 * 1024
}

/// The format an upscaled image is written in: the configured one, or the
/// source's own where the configuration says to keep it.
pub fn resolve_format(wanted: Format, source: ImageFormat) -> (r: ImageFormat)
    ensures
        r == target_format(wanted, source),
{
    match wanted {
        Format::Png => ImageFormat::Png,
        Format::Jpeg => ImageFormat::Jpeg,
        Format::WebP => ImageFormat::WebP,
        Format::Original => source,
    }
}

/// What a codec produced, labelled with its format: the bytes with the
/// format where it succeeded, its message as the error where it failed.
pub fn labelled(produced: Result<Vec<u8>, String>, format: ImageFormat) -> (r: Result<
    (Vec<u8>, ImageFormat),
    UpscaleError,
>)
    ensures
        match produced {
            Ok(bytes) => r == Ok::<(Vec<u8>, ImageFormat), UpscaleError>((bytes, format)),
            Err(message) => r == Err::<(Vec<u8>, ImageFormat), UpscaleError>(
                UpscaleError { message },
            ),
        },
{
    match produced {
        Ok(bytes) => Ok((bytes, format)),
        Err(message) => Err(UpscaleError { message }),
    }
}

/// The message of the error for bytes that no decoder accepts.
pub open spec fn cannot_decode() -> Seq<char> {
    "can't decode image"@
}

/// `r` is what becomes of the engine's answer `engine`: its error is the
/// error of the whole step, unchanged; its image is encoded in `format_to`,
/// which gives exactly the encoder's bytes in that format, or fails with
/// the encoder's message.
pub open spec fn finished(
    engine: Result<DynamicImage, UpscaleError>,
    format_to: ImageFormat,
    r: Result<(Vec<u8>, ImageFormat), UpscaleError>,
) -> bool {
    match engine {
        Err(err) => r == Err::<(Vec<u8>, ImageFormat), UpscaleError>(err),
        Ok(image) => match image_encoded_as(image, format_to) {
            Ok(bytes) => r is Ok && r->Ok_0.0@ == bytes && r->Ok_0.1 == format_to,
            Err(message) => r is Err && r->Err_0.message@ == message,
        },
    }
}

/// `r` is an answer that `upscale` may give for `input`: the input itself
/// where it is over the size limit; the decoding error where no decoder
/// accepts it; otherwise what becomes of some answer of the engine.
pub open spec fn upscale_outcome(
    config: UpscalerConfig,
    input: Vec<u8>,
    image_format: ImageFormat,
    r: Result<(Vec<u8>, ImageFormat), UpscaleError>,
) -> bool {
    if exceeds_threshold(config, input@.len(), image_format) {
        r == Ok::<(Vec<u8>, ImageFormat), UpscaleError>((input, image_format))
    } else if !image_decodes(input@, image_format) {
        r is Err && r->Err_0.message@ == cannot_decode()
    } else {
        &&& r is Ok ==> r->Ok_0.1 == target_format(config.return_format, image_format)
        &&& exists|engine: Result<DynamicImage, UpscaleError>| #[trigger]
            finished(engine, target_format(config.return_format, image_format), r)
    }
}

/// Decodes an image: in the declared format, or else in the format sniffed
/// from its bytes. Fails, with the decoding error, exactly where neither
/// decoder accepts the bytes.
pub fn decode(input: &Vec<u8>, image_format: ImageFormat) -> (r: Result<DynamicImage, UpscaleError>)
    ensures
        match decoded_image(input@, image_format) {
            Some(image) => r == Ok::<DynamicImage, UpscaleError>(image),
            None => r is Err && r->Err_0.message@ == cannot_decode(),
        },
{
    let declared = decode_as(input.as_slice(), image_format);
    let decoded = match declared {
        Some(image) => Some(image),
        None => decode_guessed(input.as_slice()),
    };
    match decoded {
        Some(image) => Ok(image),
        None => Err(UpscaleError { message: String::from_str("can't decode image") }),
    }
}

/// What becomes of the engine's answer: its error is the error of the whole
/// step, unchanged; its image is encoded in `format_to`, and the result is
/// exactly what the encoder wrote, in that format, or the encoder's error.
/// The image is never replaced by anything else.
pub fn finish_upscale(engine: Result<DynamicImage, UpscaleError>, format_to: ImageFormat) -> (r:
    Result<(Vec<u8>, ImageFormat), UpscaleError>)
    ensures
        finished(engine, format_to, r),
{
    match engine {
        Ok(upscaled) => labelled(encode_image(&upscaled, format_to), format_to),
        Err(err) => Err(err),
    }
}

/// Upscales one image.
///
/// An image over the size limit of its format comes back untouched, in its
/// own format. Any other image is decoded (in the declared format, or else
/// in the one sniffed from its bytes), handed to the engine, and encoded in
/// the target format. Where neither decoder accepts the bytes the call
/// fails with the decoding error; it also fails where the engine fails,
/// with the engine's error, and where the encoder refuses the engine's
/// output, with the encoder's.
pub fn upscale<U: Upscaler>(
    upscaler: &U,
    config: UpscalerConfig,
    input: Vec<u8>,
    image_format: ImageFormat,
) -> (r: Result<(Vec<u8>, ImageFormat), UpscaleError>)
    ensures
        upscale_outcome(config, input, image_format, r),
{
    if over_threshold(config, input.len(), image_format) {
        return Ok((input, image_format));
    }
    let image = match decode(&input, image_format) {
        Ok(image) => image,
        Err(err) => {
            return Err(err);
        },
    };
    let format_to = resolve_format(config.return_format, image_format);
    let engine = upscaler.upscale_image(image);
    let r = finish_upscale(engine, format_to);
    proof {
        assert(finished(engine, format_to, r));
    }
    r
}

} // verus!
