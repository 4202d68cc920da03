//! The upscale route: which requests may carry conditional headers upstream,
//! and how an upstream image response becomes the reply.

use vstd::prelude::*;
use image::{DynamicImage, ImageFormat};
use crate::call_history::CallHistory;
use crate::handlers::content_disposition::{
    disposition_out,
    disposition_rewritable,
    rewrite_content_disposition,
};
use crate::http_compression::{
    algorithm_of,
    compress,
    compressed,
    decompress,
    decompressed,
    lossless,
    unwrap_encoding_header,
    Algorithm,
};
use crate::models::errors::UpscaleError;
use crate::models::http::{Header, Request, Response};
use crate::text::{
    ascii_eq,
    decimal,
    decimal_string,
    decimal_value,
    eq_ignore_ascii_case,
    has_prefix,
    option_text,
    parse_u32,
    split_by,
    split_text,
    starts_with,
    str_equal,
    strings_view,
};
use crate::upscaler::upscaler::{
    cannot_decode,
    exceeds_threshold,
    finished,
    image_encoded_as,
    format_from_mime,
    format_of_mime,
    image_decodes,
    labelled,
    over_threshold,
    target_format,
    upscale as upscale_image_bytes,
    Upscaler,
    UpscalerConfig,
};

verus! {

/// A header that makes a request conditional: `If-Modified-Since` or
/// `If-None-Match`, in any letter case.
pub open spec fn is_conditional_name(name: Seq<char>) -> bool {
    eq_ignore_ascii_case(name, "If-Modified-Since"@) || eq_ignore_ascii_case(
        name,
        "If-None-Match"@,
    )
}

/// The headers that do not make a request conditional.
pub open spec fn unconditional() -> spec_fn(Header) -> bool {
    |h: Header| !is_conditional_name(h.name@)
}

/// Whether `header_name` names a conditional header.
pub fn is_conditional_header(header_name: &str) -> (r: bool)
    ensures
        r == is_conditional_name(header_name@),
{
    ascii_eq(header_name, "If-Modified-Since") || ascii_eq(header_name, "If-None-Match")
}

/// The headers to forward, given whether the request's path has been
/// answered with an upscaled image before: all of them if so, otherwise all
/// but the conditional ones.
pub fn strip_conditional_headers(headers: Vec<Header>, upscaled_before: bool) -> (r: Vec<Header>)
    ensures
        upscaled_before ==> r == headers,
        !upscaled_before ==> r@ == headers@.filter(unconditional()),
{
    if upscaled_before {
        return headers;
    }
    let mut out: Vec<Header> = Vec::new();
    let mut i: usize = 0;
    while i < headers.len()
        invariant
            i <= headers.len(),
            out@ == headers@.take(i as int).filter(unconditional()),
        decreases headers.len() - i,
    {
        proof {
            reveal(Seq::filter);
            assert(headers@.take(i + 1).drop_last() =~= headers@.take(i as int));
        }
        if !is_conditional_header(headers[i].name.as_str()) {
            out.push(headers[i].duplicate());
        }
        i += 1;
    }
    proof {
        assert(headers@.take(headers.len() as int) =~= headers@);
    }
    out
}

/// The headers to forward for a request to `request_path`: all of them where
/// the call history holds the path, otherwise all but the conditional ones.
pub fn remove_uncached_conditional_headers(
    headers: Vec<Header>,
    call_cache: &mut CallHistory,
    request_path: &str,
) -> (r: Vec<Header>)
    ensures
        old(call_cache).paths().contains(request_path@) ==> r == headers,
        !old(call_cache).paths().contains(request_path@) ==> r@ == headers@.filter(
            unconditional(),
        ),
        final(call_cache).paths().subset_of(old(call_cache).paths()),
{
    let upscaled_before = call_cache.contains(request_path);
    strip_conditional_headers(headers, upscaled_before)
}

/// The request as it is handed to the forwarding rules: unchanged but for
/// its headers, which lose the conditional ones unless the call history
/// knows the request's path and query.
pub fn to_proxy_request(call_cache: &mut CallHistory, req: Request) -> (r: Request)
    ensures
        r.method == req.method,
        r.path == req.path,
        r.path_and_query == req.path_and_query,
        r.body == req.body,
        old(call_cache).paths().contains(req.history_key()) ==> r.headers == req.headers,
        !old(call_cache).paths().contains(req.history_key()) ==> r.headers@
            == req.headers@.filter(unconditional()),
        final(call_cache).paths().subset_of(old(call_cache).paths()),
{
    let Request { method, path, path_and_query, headers, body } = req;
    let headers = match &path_and_query {
        Some(pq) => remove_uncached_conditional_headers(headers, call_cache, pq.as_str()),
        None => {
            proof {
                reveal_strlit("/");
                assert("/"@ =~= seq!['/']);
            }
            remove_uncached_conditional_headers(headers, call_cache, "/")
        },
    };
    Request { method, path, path_and_query, headers, body }
}

/// The value of the first header called `name`, letter case aside.
pub open spec fn header_value(headers: Seq<Header>, name: Seq<char>) -> Option<Seq<char>>
    decreases headers.len(),
{
    if headers.len() == 0 {
        None
    } else if eq_ignore_ascii_case(headers[0].name@, name) {
        Some(headers[0].value@)
    } else {
        header_value(headers.drop_first(), name)
    }
}

/// Looks up the first header called `name`, letter case aside.
pub fn find_header(headers: &Vec<Header>, name: &str) -> (r: Option<String>)
    ensures
        option_text(r) == header_value(headers@, name@),
{
    let mut i: usize = 0;
    proof {
        assert(headers@.skip(0) =~= headers@);
    }
    while i < headers.len()
        invariant
            i <= headers.len(),
            header_value(headers@, name@) == header_value(headers@.skip(i as int), name@),
        decreases headers.len() - i,
    {
        proof {
            assert(headers@.skip(i as int).drop_first() =~= headers@.skip(i + 1));
        }
        if ascii_eq(headers[i].name.as_str(), name) {
            return Some(headers[i].value.clone());
        }
        i += 1;
    }
    None
}

/// The MIME type with the alias `image/jpg` replaced by `image/jpeg`.
pub open spec fn normalized_mime(content_type: Seq<char>) -> Seq<char> {
    if content_type == "image/jpg"@ {
        "image/jpeg"@
    } else {
        content_type
    }
}

/// Why a response body cannot be transcoded.
pub enum Refusal {
    /// The content type names no image format.
    ContentType,
    /// The content encoding is none of gzip, deflate and br.
    Encoding,
    /// The body does not decompress under its encoding.
    Payload,
}

/// What the pipeline is to do with a response body.
pub enum Plan {
    /// The body cannot be transcoded.
    Reject(Refusal),
    /// The image is over the size limit: it is passed on as it came.
    Keep(ImageFormat),
    /// The image is to be decoded, upscaled and encoded again.
    Upscale { payload: Seq<u8>, format: ImageFormat, algorithm: Option<Algorithm> },
}

/// The plan for an image once its format and its decompressed payload are known.
pub open spec fn plan_for_payload(
    payload: Seq<u8>,
    format: ImageFormat,
    algorithm: Option<Algorithm>,
    config: UpscalerConfig,
) -> Plan {
    if exceeds_threshold(config, payload.len(), format) {
        Plan::Keep(format)
    } else {
        Plan::Upscale { payload, format, algorithm }
    }
}

/// The plan for a response body with its declared type and encoding.
pub open spec fn plan(
    body: Seq<u8>,
    content_type: Seq<char>,
    content_encoding: Option<Seq<char>>,
    config: UpscalerConfig,
) -> Plan {
    match format_of_mime(normalized_mime(content_type)) {
        None => Plan::Reject(Refusal::ContentType),
        Some(format) => match content_encoding {
            None => plan_for_payload(body, format, None, config),
            Some(encoding) => match algorithm_of(encoding) {
                None => Plan::Reject(Refusal::Encoding),
                Some(algorithm) => match decompressed(body, algorithm) {
                    None => Plan::Reject(Refusal::Payload),
                    Some(payload) => plan_for_payload(payload, format, Some(algorithm), config),
                },
            },
        },
    }
}

/// The message of the error for a content type that names no image format.
pub open spec fn unsupported_content_type() -> Seq<char> {
    "unsupported content type"@
}

/// The message of the error for an encoding that is not supported.
pub open spec fn unsupported_encoding() -> Seq<char> {
    "unsupported compression algorithm"@
}

/// The message of the error for a response that declares no content type.
pub open spec fn no_content_type() -> Seq<char> {
    "no content type"@
}

/// The message of the error for a file-name parameter without a file name.
pub open spec fn no_file_name() -> Seq<char> {
    "no file name in Content-Disposition"@
}

/// The message that a result fails with; none where it succeeds.
pub open spec fn failure<T>(r: Result<T, UpscaleError>) -> Option<Seq<char>> {
    match r {
        Ok(_) => None,
        Err(err) => Some(err.message@),
    }
}

/// `error` is the failure that answers a refusal: a fixed message for a
/// content type or an encoding that is not supported, the decoder's own
/// message for a body that does not decompress.
pub open spec fn refused(refusal: Refusal, error: Option<Seq<char>>) -> bool {
    match refusal {
        Refusal::ContentType => error == Some(unsupported_content_type()),
        Refusal::Encoding => error == Some(unsupported_encoding()),
        Refusal::Payload => error is Some,
    }
}

/// The body that carries `bytes` under the encoding the response came in:
/// the bytes themselves where there was none, else what the encoder makes
/// of them; none where the encoder fails.
pub open spec fn packed(bytes: Seq<u8>, algorithm: Option<Algorithm>) -> Option<Seq<u8>> {
    match algorithm {
        None => Some(bytes),
        Some(a) => compressed(bytes, a),
    }
}

/// `body` carries `image`: it is what the encoder for `format` writes for
/// the image, put under the encoding the response came in.
pub open spec fn carries(
    body: Seq<u8>,
    image: DynamicImage,
    format: ImageFormat,
    algorithm: Option<Algorithm>,
) -> bool {
    &&& image_encoded_as(image, format) is Ok
    &&& packed(image_encoded_as(image, format)->Ok_0, algorithm) == Some(body)
}

/// `r` is an outcome of carrying out `p` on `body`.
pub open spec fn transcoded(
    p: Plan,
    body: Vec<u8>,
    config: UpscalerConfig,
    r: Result<(Vec<u8>, ImageFormat), UpscaleError>,
) -> bool {
    match p {
        Plan::Reject(refusal) => refused(refusal, failure(r)),
        Plan::Keep(format) => r == Ok::<(Vec<u8>, ImageFormat), UpscaleError>((body, format)),
        Plan::Upscale { payload, format, algorithm } => {
            &&& !image_decodes(payload, format) ==> failure(r) == Some(cannot_decode())
            &&& r is Ok ==> {
                &&& r->Ok_0.1 == target_format(config.return_format, format)
                &&& exists|image: DynamicImage| #[trigger]
                    carries(
                        r->Ok_0.0@,
                        image,
                        target_format(config.return_format, format),
                        algorithm,
                    )
            }
        },
    }
}

/// With a codec that loses nothing, a body that carries upscaled bytes under
/// an encoding decompresses to exactly those bytes. That the codecs lose
/// nothing is a hypothesis here: nothing in this library shows it, and it
/// rests on the tests.
pub proof fn lemma_packed_body_carries_the_bytes(
    upscaled: Seq<u8>,
    algorithm: Algorithm,
    body: Seq<u8>,
)
    requires
        lossless(algorithm),
        packed(upscaled, Some(algorithm)) == Some(body),
    ensures
        decompressed(body, algorithm) == Some(upscaled),
{
}

/// Puts upscaled bytes back under the encoding the response came in: they
/// are returned as they are where there was none, compressed with the same
/// algorithm otherwise. Fails exactly where the encoder does.
pub fn recompress(upscaled: Vec<u8>, format: ImageFormat, algorithm: Option<Algorithm>) -> (r: Result<
    (Vec<u8>, ImageFormat),
    UpscaleError,
>)
    ensures
        match packed(upscaled@, algorithm) {
            Some(body) => r is Ok && r->Ok_0.0@ == body && r->Ok_0.1 == format,
            None => r is Err,
        },
        algorithm is None ==> r == Ok::<(Vec<u8>, ImageFormat), UpscaleError>((upscaled, format)),
{
    match algorithm {
        None => Ok((upscaled, format)),
        Some(algorithm) => labelled(compress(&upscaled, algorithm), format),
    }
}

/// What becomes of the worker's answer: its error is the error of the whole
/// pipeline, unchanged, and nothing is put in its place; its bytes go out
/// under the encoding the response came in, in the format the worker gave.
pub fn finish_transcode(
    worker: Result<(Vec<u8>, ImageFormat), UpscaleError>,
    algorithm: Option<Algorithm>,
) -> (r: Result<(Vec<u8>, ImageFormat), UpscaleError>)
    ensures
        worker is Err ==> r == Err::<(Vec<u8>, ImageFormat), UpscaleError>(worker->Err_0),
        worker is Ok ==> match packed(worker->Ok_0.0@, algorithm) {
            Some(body) => r is Ok && r->Ok_0.0@ == body && r->Ok_0.1 == worker->Ok_0.1,
            None => r is Err,
        },
        worker is Ok && algorithm is None ==> r == worker,
{
    match worker {
        Ok((upscaled, format)) => recompress(upscaled, format, algorithm),
        Err(err) => Err(err),
    }
}

/// The transcode pipeline on one response body.
///
/// The content type, with `image/jpg` read as `image/jpeg`, must name an
/// image format, and the encoding, if any, must be gzip, deflate or br and
/// fit the body: otherwise the call fails. An image whose decompressed size
/// is over the limit for its format is returned as it came, bytes and
/// format. Any other image is upscaled, written in the target format and
/// compressed again with the encoding it came in; this fails where the
/// image cannot be decoded, where the worker fails and where an encoder does.
pub fn transcode<U: Upscaler>(
    upscaler: &U,
    config: UpscalerConfig,
    body: Vec<u8>,
    content_type: &str,
    content_encoding: Option<String>,
) -> (r: Result<(Vec<u8>, ImageFormat), UpscaleError>)
    ensures
        transcoded(plan(body@, content_type@, option_text(content_encoding), config), body, config, r),
{
    let mime = if str_equal(content_type, "image/jpg") {
        "image/jpeg"
    } else {
        content_type
    };
    let format = match format_from_mime(mime) {
        Some(format) => format,
        None => {
            return Err(UpscaleError { message: String::from_str("unsupported content type") });
        },
    };
    let algorithm = match &content_encoding {
        None => None,
        Some(encoding) => match unwrap_encoding_header(encoding.as_str()) {
            Some(algorithm) => Some(algorithm),
            None => {
                return Err(
                    UpscaleError { message: String::from_str("unsupported compression algorithm") },
                );
            },
        },
    };
    let payload = match algorithm {
        None => None,
        Some(algorithm) => match decompress(&body, algorithm) {
            Ok(payload) => Some(payload),
            Err(message) => {
                return Err(UpscaleError { message });
            },
        },
    };
    let len = match &payload {
        Some(payload) => payload.len(),
        None => body.len(),
    };
    if over_threshold(config, len, format) {
        return Ok((body, format));
    }
    let input = match payload {
        Some(payload) => payload,
        None => body,
    };
    let worker = upscale_image_bytes(upscaler, config, input, format);
    let r = finish_transcode(worker, algorithm);
    proof {
        if r is Ok {
            let format_to = target_format(config.return_format, format);
            let engine = choose|engine: Result<DynamicImage, UpscaleError>| #[trigger]
                finished(engine, format_to, worker);
            assert(carries(r->Ok_0.0@, engine->Ok_0, format_to, algorithm));
        }
    }
    r
}

/// The MIME type and the file extension that go with a format the proxy
/// can label; `None` for every other format.
pub open spec fn mime_and_extension(format: ImageFormat) -> Option<(Seq<char>, Seq<char>)> {
    match format {
        ImageFormat::Png => Some(("image/png"@, "png"@)),
        ImageFormat::Jpeg => Some(("image/jpeg"@, "jpeg"@)),
        ImageFormat::WebP => Some(("image/webp"@, "webp"@)),
        _ => None,
    }
}

/// The MIME type and file extension for a format the proxy can label.
pub fn mime_type_of(format: ImageFormat) -> (r: Option<(&'static str, &'static str)>)
    ensures
        match r {
            Some(pair) => mime_and_extension(format) == Some((pair.0@, pair.1@)),
            None => mime_and_extension(format) is None,
        },
{
    match format {
        ImageFormat::Png => Some(("image/png", "png")),
        ImageFormat::Jpeg => Some(("image/jpeg", "jpeg")),
        ImageFormat::WebP => Some(("image/webp", "webp")),
        _ => None,
    }
}

/// A header of the upstream response can be carried over to the reply.
pub open spec fn header_rewritable(h: Header, format: ImageFormat) -> bool {
    (!eq_ignore_ascii_case(h.name@, "Content-Length"@) && !eq_ignore_ascii_case(
        h.name@,
        "Content-Type"@,
    ) && eq_ignore_ascii_case(h.name@, "Content-Disposition"@) && mime_and_extension(format) is Some)
        ==> disposition_rewritable(h.value@, mime_and_extension(format)->Some_0.1)
}

/// `out` is the header `h` as it stands in the reply for a body of `len`
/// bytes in `format`: `Content-Length` states the new length; for a format
/// the proxy can label, `Content-Type` names it and the file names in
/// `Content-Disposition` get its extension; every other header is unchanged.
pub open spec fn header_rewritten(h: Header, len: nat, format: ImageFormat, out: Header) -> bool {
    if eq_ignore_ascii_case(h.name@, "Content-Length"@) {
        out@ == ("Content-Length"@, decimal(len))
    } else if eq_ignore_ascii_case(h.name@, "Content-Type"@) && mime_and_extension(format) is Some {
        out@ == ("Content-Type"@, mime_and_extension(format)->Some_0.0)
    } else if eq_ignore_ascii_case(h.name@, "Content-Disposition"@) && mime_and_extension(format) is Some {
        out@ == (
            "Content-Disposition"@,
            disposition_out(h.value@, mime_and_extension(format)->Some_0.1),
        )
    } else {
        out == h
    }
}

/// Every header can be carried over to the reply.
pub open spec fn headers_rewritable(headers: Seq<Header>, format: ImageFormat) -> bool {
    forall|i: int| 0 <= i < headers.len() ==> header_rewritable(#[trigger] headers[i], format)
}

/// `outs` are `headers` as they stand in the reply, one by one and in order.
pub open spec fn headers_rewritten(
    headers: Seq<Header>,
    len: nat,
    format: ImageFormat,
    outs: Seq<Header>,
) -> bool {
    &&& outs.len() == headers.len()
    &&& forall|i: int|
        0 <= i < headers.len() ==> header_rewritten(headers[i], len, format, #[trigger] outs[i])
}

/// `reply` answers with `status`, and its headers are `headers` rewritten
/// for its own body in `format`.
pub open spec fn replied(status: u16, headers: Seq<Header>, format: ImageFormat, reply: Response) -> bool {
    &&& reply.status == status
    &&& headers_rewritten(headers, reply.body@.len(), format, reply.headers@)
}

/// Builds the reply for an image body: the upstream status and headers, with
/// length, type and file names corrected for `bytes` in `format`. Fails
/// exactly where a `Content-Disposition` file-name parameter holds no file name.
pub fn to_response(status: u16, bytes: Vec<u8>, headers: &Vec<Header>, format: ImageFormat) -> (r:
    Result<Response, UpscaleError>)
    ensures
        r is Ok == headers_rewritable(headers@, format),
        r is Ok ==> r->Ok_0.body == bytes && replied(status, headers@, format, r->Ok_0),
        r is Err ==> failure(r) == Some(no_file_name()),
{
    let mime_type = mime_type_of(format);
    let mut out: Vec<Header> = Vec::new();
    let mut i: usize = 0;
    while i < headers.len()
        invariant
            i <= headers.len(),
            out@.len() == i,
            match mime_type {
                Some(pair) => mime_and_extension(format) == Some((pair.0@, pair.1@)),
                None => mime_and_extension(format) is None,
            },
            forall|j: int| 0 <= j < i ==> header_rewritable(#[trigger] headers@[j], format),
            forall|j: int|
                0 <= j < i ==> header_rewritten(headers@[j], bytes@.len(), format, #[trigger] out@[j]),
        decreases headers.len() - i,
    {
        let h = &headers[i];
        let name = h.name.as_str();
        let ghost before = out@;
        if ascii_eq(name, "Content-Length") {
            out.push(
                Header { name: String::from_str("Content-Length"), value: decimal_string(bytes.len()) },
            );
        } else if ascii_eq(name, "Content-Type") && mime_type.is_some() {
            out.push(
                Header {
                    name: String::from_str("Content-Type"),
                    value: String::from_str(mime_type.unwrap().0),
                },
            );
        } else if ascii_eq(name, "Content-Disposition") && mime_type.is_some() {
            match rewrite_content_disposition(h.value.as_str(), mime_type.unwrap().1) {
                Some(value) => {
                    out.push(Header { name: String::from_str("Content-Disposition"), value });
                },
                None => {
                    assert(!header_rewritable(headers@[i as int], format));
                    return Err(
                        UpscaleError {
                            message: String::from_str("no file name in Content-Disposition"),
                        },
                    );
                },
            }
        } else {
            out.push(h.duplicate());
        }
        proof {
            assert(out@[i as int] == out@.last());
            assert(header_rewritten(headers@[i as int], bytes@.len(), format, out@[i as int]));
            assert forall|j: int| 0 <= j < i + 1 implies header_rewritten(
                headers@[j],
                bytes@.len(),
                format,
                #[trigger] out@[j],
            ) by {
                if j < i {
                    assert(out@[j] == before[j]);
                }
            }
        }
        i += 1;
    }
    Ok(Response { status, headers: out, body: bytes })
}

/// `r` is an outcome of upscaling `response`.
pub open spec fn upscaled_reply(
    response: Response,
    config: UpscalerConfig,
    r: Result<Response, UpscaleError>,
) -> bool {
    match header_value(response.headers@, "content-type"@) {
        None => failure(r) == Some(no_content_type()),
        Some(content_type) => match plan(
            response.body@,
            content_type,
            header_value(response.headers@, "content-encoding"@),
            config,
        ) {
            Plan::Reject(refusal) => refused(refusal, failure(r)),
            Plan::Keep(format) => {
                &&& r is Ok == headers_rewritable(response.headers@, format)
                &&& r is Err ==> failure(r) == Some(no_file_name())
                &&& r is Ok ==> r->Ok_0.body == response.body && replied(
                    response.status,
                    response.headers@,
                    format,
                    r->Ok_0,
                )
            },
            Plan::Upscale { payload, format, algorithm } => {
                &&& !image_decodes(payload, format) ==> failure(r) == Some(cannot_decode())
                &&& !headers_rewritable(
                    response.headers@,
                    target_format(config.return_format, format),
                ) ==> r is Err
                &&& r is Ok ==> {
                    &&& replied(
                        response.status,
                        response.headers@,
                        target_format(config.return_format, format),
                        r->Ok_0,
                    )
                    &&& exists|image: DynamicImage| #[trigger]
                        carries(
                            r->Ok_0.body@,
                            image,
                            target_format(config.return_format, format),
                            algorithm,
                        )
                }
            },
        },
    }
}

/// What becomes of the pipeline's answer for a response with this status
/// and these headers: its error is the error of the reply, unchanged; its
/// bytes and format become the reply that `to_response` builds.
pub fn finish_response(
    status: u16,
    headers: &Vec<Header>,
    transcoded: Result<(Vec<u8>, ImageFormat), UpscaleError>,
) -> (r: Result<Response, UpscaleError>)
    ensures
        transcoded is Err ==> r == Err::<Response, UpscaleError>(transcoded->Err_0),
        transcoded is Ok ==> {
            &&& r is Ok == headers_rewritable(headers@, transcoded->Ok_0.1)
            &&& r is Err ==> failure(r) == Some(no_file_name())
            &&& r is Ok ==> r->Ok_0.body == transcoded->Ok_0.0 && replied(
                status,
                headers@,
                transcoded->Ok_0.1,
                r->Ok_0,
            )
        },
{
    match transcoded {
        Ok((bytes, format)) => to_response(status, bytes, headers, format),
        Err(err) => Err(err),
    }
}

/// Turns an upstream image response into the reply: the body goes through
/// the transcode pipeline, and the headers are corrected for what came out.
/// A response without a content type fails.
pub fn upscale_response<U: Upscaler>(response: Response, upscaler: &U, config: UpscalerConfig) -> (r:
    Result<Response, UpscaleError>)
    ensures
        upscaled_reply(response, config, r),
{
    let Response { status, headers, body } = response;
    let content_type = match find_header(&headers, "content-type") {
        Some(content_type) => content_type,
        None => {
            return Err(UpscaleError { message: String::from_str("no content type") });
        },
    };
    let encoding = find_header(&headers, "content-encoding");
    let ghost the_plan = plan(body@, content_type@, option_text(encoding), config);
    let transcoded = transcode(upscaler, config, body, content_type.as_str(), encoding);
    let r = finish_response(status, &headers, transcoded);
    proof {
        if r is Ok {
            if let Plan::Upscale { payload, format, algorithm } = the_plan {
                let format_to = target_format(config.return_format, format);
                let image = choose|image: DynamicImage| #[trigger]
                    carries(transcoded->Ok_0.0@, image, format_to, algorithm);
                assert(carries(r->Ok_0.body@, image, format_to, algorithm));
            }
        }
    }
    r
}

/// A status that is passed on without transcoding: 304, or anything outside
/// 200 to 299.
pub open spec fn passes_through(status: u16) -> bool {
    status == 304 || !(200 <= status < 300)
}

/// Whether a response with this status is a candidate for upscaling.
pub fn is_upscale_candidate(status: u16) -> (r: bool)
    ensures
        r == !passes_through(status),
{
    !(status == 304 || !(200 <= status && status < 300))
}

/// Notes the outcome of upscaling in the call history: where a reply was
/// made, the request's path and query are noted and are remembered from
/// then on; where upscaling failed, the history is left alone.
pub fn note_upscaled(
    call_cache: &mut CallHistory,
    request_path: String,
    outcome: &Result<Response, UpscaleError>,
)
    ensures
        outcome is Ok ==> {
            &&& final(call_cache).paths().contains(request_path@)
            &&& final(call_cache).paths().subset_of(old(call_cache).paths().insert(request_path@))
        },
        outcome is Err ==> final(call_cache).paths() == old(call_cache).paths(),
{
    match outcome {
        Ok(_) => call_cache.record(request_path),
        Err(_) => {},
    }
}

/// The upscale route's handling of an upstream response.
///
/// A response whose status is 304 or not a success, and any response for a
/// resource that is not to be upscaled, is returned exactly as it came,
/// and the call history is left alone. Every other response is upscaled;
/// where that succeeds the request's path is noted in the call history,
/// where it fails the history is left alone.
pub fn upscale<U: Upscaler>(
    call_cache: &mut CallHistory,
    request_path: String,
    response: Response,
    should_upscale: bool,
    upscaler: &U,
    config: UpscalerConfig,
) -> (r: Result<Response, UpscaleError>)
    ensures
        passes_through(response.status) || !should_upscale ==> r == Ok::<Response, UpscaleError>(
            response,
        ) && final(call_cache).paths() == old(call_cache).paths(),
        !passes_through(response.status) && should_upscale ==> {
            &&& upscaled_reply(response, config, r)
            &&& r is Ok ==> final(call_cache).paths().contains(request_path@)
            &&& r is Err ==> final(call_cache).paths() == old(call_cache).paths()
            &&& final(call_cache).paths().subset_of(old(call_cache).paths().insert(request_path@))
        },
{
    if !is_upscale_candidate(response.status) || !should_upscale {
        return Ok(response);
    }
    let outcome = upscale_response(response, upscaler, config);
    note_upscaled(call_cache, request_path, &outcome);
    outcome
}

/// The path segment that follows the first `books` segment, as found among
/// `segments`; `None` where no segment but the last is `books`.
pub open spec fn book_segment(segments: Seq<Seq<char>>) -> Option<Seq<char>>
    decreases segments.len(),
{
    if segments.len() < 2 {
        None
    } else if segments[0] == "books"@ {
        Some(segments[1])
    } else {
        book_segment(segments.drop_first())
    }
}

/// Finds the book id among the segments of a request path.
pub fn book_id_of_segments(segments: &Vec<String>) -> (r: Option<String>)
    ensures
        option_text(r) == book_segment(strings_view(segments@)),
{
    let n = segments.len();
    if n < 2 {
        return None;
    }
    let mut i: usize = 0;
    proof {
        assert(strings_view(segments@).skip(0) =~= strings_view(segments@));
    }
    while i < n - 1
        invariant
            n == segments.len(),
            n >= 2,
            i <= n - 1,
            book_segment(strings_view(segments@)) == book_segment(
                strings_view(segments@).skip(i as int),
            ),
        decreases segments.len() - i,
    {
        proof {
            let views = strings_view(segments@);
            assert(views.skip(i as int).drop_first() =~= views.skip(i + 1));
            assert(views.skip(i as int)[0] == segments@[i as int]@);
            assert(views.skip(i as int)[1] == segments@[i + 1]@);
        }
        if str_equal(segments[i].as_str(), "books") {
            return Some(segments[i + 1].clone());
        }
        i += 1;
    }
    None
}

/// The id of the book that a page request asks for: the segment after
/// `books` in the `/`-separated path.
pub fn book_id_from_path(path: &str) -> (r: Option<String>)
    ensures
        option_text(r) == book_segment(split_by(path@, "/"@)),
{
    proof {
        reveal_strlit("/");
    }
    let segments = split_text(path, "/");
    book_id_of_segments(&segments)
}

/// The text after `chapterId=` in the first of `pairs` that starts with it.
pub open spec fn chapter_text(pairs: Seq<Seq<char>>) -> Option<Seq<char>>
    decreases pairs.len(),
{
    if pairs.len() == 0 {
        None
    } else if has_prefix(pairs[0], "chapterId="@) {
        Some(pairs[0].skip("chapterId="@.len() as int))
    } else {
        chapter_text(pairs.drop_first())
    }
}

/// The chapter id that `text` writes, if it writes one.
pub open spec fn chapter_number(text: Option<Seq<char>>) -> Option<u32> {
    match text {
        Some(t) => if decimal_value(t) is Some && decimal_value(t)->Some_0 <= u32::MAX {
            Some(decimal_value(t)->Some_0 as u32)
        } else {
            None
        },
        None => None,
    }
}

/// Finds the chapter id among the `name=value` pairs of a query.
pub fn chapter_id_of_pairs(pairs: &Vec<String>) -> (r: Option<u32>)
    ensures
        r == chapter_number(chapter_text(strings_view(pairs@))),
{
    let mut i: usize = 0;
    proof {
        reveal_strlit("chapterId=");
        assert(strings_view(pairs@).skip(0) =~= strings_view(pairs@));
    }
    while i < pairs.len()
        invariant
            i <= pairs.len(),
            "chapterId="@.len() == 10,
            chapter_text(strings_view(pairs@)) == chapter_text(strings_view(pairs@).skip(i as int)),
        decreases pairs.len() - i,
    {
        let pair = pairs[i].as_str();
        proof {
            let views = strings_view(pairs@);
            assert(views.skip(i as int).drop_first() =~= views.skip(i + 1));
            assert(views.skip(i as int)[0] == pair@);
        }
        if starts_with(pair, "chapterId=") {
            let text = pair.substring_char(10, pair.unicode_len());
            assert(text@ =~= pair@.skip(10));
            return parse_u32(text);
        }
        i += 1;
    }
    None
}

/// The id of the chapter that a page request asks for: the number written
/// after `chapterId=` in the first such pair of the `&`-separated query.
/// `None` where there is no such pair or it writes no number that fits.
pub fn chapter_id_from_query(query: &str) -> (r: Option<u32>)
    ensures
        r == chapter_number(chapter_text(split_by(query@, "&"@))),
{
    proof {
        reveal_strlit("&");
    }
    let pairs = split_text(query, "&");
    chapter_id_of_pairs(&pairs)
}

} // verus!
