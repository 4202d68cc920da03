//! Content-encoding of response bodies: gzip, deflate and brotli.
//!
//! What the codecs make of given bytes is named, not defined. That a codec
//! decodes what it encoded is not taken on trust: it is the hypothesis
//! `lossless`, and it rests on the tests.

use vstd::prelude::*;
use crate::text::str_equal;

verus! {

/// A supported content-encoding.
#[derive(Debug, Clone, Copy, PartialEq, Eq, Structural)]
pub enum Algorithm {
    Brotli,
    Gzip,
    Deflate,
}

/// What the gzip decoder yields for `bytes`; `None` where it rejects them.
pub uninterp spec fn gzip_decoded(bytes: Seq<u8>) -> Option<Seq<u8>>;

/// What the deflate decoder yields for `bytes`; `None` where it rejects them.
pub uninterp spec fn deflate_decoded(bytes: Seq<u8>) -> Option<Seq<u8>>;

/// What the brotli decoder yields for `bytes`; `None` where it rejects them.
pub uninterp spec fn brotli_decoded(bytes: Seq<u8>) -> Option<Seq<u8>>;

/// What the gzip encoder at its fastest level yields for `bytes`.
pub uninterp spec fn gzip_encoded(bytes: Seq<u8>) -> Option<Seq<u8>>;

/// What the deflate encoder at its fastest level yields for `bytes`.
pub uninterp spec fn deflate_encoded(bytes: Seq<u8>) -> Option<Seq<u8>>;

/// What the brotli encoder at its fastest level yields for `bytes`.
pub uninterp spec fn brotli_encoded(bytes: Seq<u8>) -> Option<Seq<u8>>;

/// The payload carried by `bytes` under `algorithm`.
pub open spec fn decompressed(bytes: Seq<u8>, algorithm: Algorithm) -> Option<Seq<u8>> {
    match algorithm {
        Algorithm::Brotli => brotli_decoded(bytes),
        Algorithm::Gzip => gzip_decoded(bytes),
        Algorithm::Deflate => deflate_decoded(bytes),
    }
}

/// The encoded form of `bytes` under `algorithm`.
pub open spec fn compressed(bytes: Seq<u8>, algorithm: Algorithm) -> Option<Seq<u8>> {
    match algorithm {
        Algorithm::Brotli => brotli_encoded(bytes),
        Algorithm::Gzip => gzip_encoded(bytes),
        Algorithm::Deflate => deflate_encoded(bytes),
    }
}

/// The outcome of a codec call as an optional byte sequence.
pub open spec fn outcome(r: Result<Vec<u8>, String>) -> Option<Seq<u8>> {
    match r {
        Ok(v) => Some(v@),
        Err(_) => None,
    }
}

/// Writes the whole input to an `async_compression::tokio::write::GzipDecoder`
/// over a `Vec` and closes it, each future polled once by
/// `futures::FutureExt::now_or_never` (a write to a `Vec` is ready at once;
/// a future that were not counts as an error). Trusted: the result is the
/// decoder's output for these bytes, or its error as text.
#[verifier::external_body]
fn gzip_decode(bytes: &[u8]) -> (r: Result<Vec<u8>, String>)
    ensures
        outcome(r) == gzip_decoded(bytes@),
{
    let mut decoder = async_compression::tokio::write::GzipDecoder::new(Vec::new());
    let written = futures::FutureExt::now_or_never(tokio::io::AsyncWriteExt::write_all(&mut decoder, bytes));
    written.unwrap_or(Err(std::io::ErrorKind::WouldBlock.into())).map_err(|err| err.to_string())?;
    let closed = futures::FutureExt::now_or_never(tokio::io::AsyncWriteExt::shutdown(&mut decoder));
    closed.unwrap_or(Err(std::io::ErrorKind::WouldBlock.into())).map_err(|err| err.to_string())?;
    Ok(decoder.into_inner())
}

/// Writes the whole input to an `async_compression::tokio::write::DeflateDecoder`
/// over a `Vec` and closes it, each future polled once by
/// `futures::FutureExt::now_or_never` (a write to a `Vec` is ready at once;
/// a future that were not counts as an error). Trusted: the result is the
/// decoder's output for these bytes, or its error as text.
#[verifier::external_body]
fn deflate_decode(bytes: &[u8]) -> (r: Result<Vec<u8>, String>)
    ensures
        outcome(r) == deflate_decoded(bytes@),
{
    let mut decoder = async_compression::tokio::write::DeflateDecoder::new(Vec::new());
    let written = futures::FutureExt::now_or_never(tokio::io::AsyncWriteExt::write_all(&mut decoder, bytes));
    written.unwrap_or(Err(std::io::ErrorKind::WouldBlock.into())).map_err(|err| err.to_string())?;
    let closed = futures::FutureExt::now_or_never(tokio::io::AsyncWriteExt::shutdown(&mut decoder));
    closed.unwrap_or(Err(std::io::ErrorKind::WouldBlock.into())).map_err(|err| err.to_string())?;
    Ok(decoder.into_inner())
}

/// Writes the whole input to an `async_compression::tokio::write::BrotliDecoder`
/// over a `Vec` and closes it, each future polled once by
/// `futures::FutureExt::now_or_never` (a write to a `Vec` is ready at once;
/// a future that were not counts as an error). Trusted: the result is the
/// decoder's output for these bytes, or its error as text.
#[verifier::external_body]
fn brotli_decode(bytes: &[u8]) -> (r: Result<Vec<u8>, String>)
    ensures
        outcome(r) == brotli_decoded(bytes@),
{
    let mut decoder = async_compression::tokio::write::BrotliDecoder::new(Vec::new());
    let written = futures::FutureExt::now_or_never(tokio::io::AsyncWriteExt::write_all(&mut decoder, bytes));
    written.unwrap_or(Err(std::io::ErrorKind::WouldBlock.into())).map_err(|err| err.to_string())?;
    let closed = futures::FutureExt::now_or_never(tokio::io::AsyncWriteExt::shutdown(&mut decoder));
    closed.unwrap_or(Err(std::io::ErrorKind::WouldBlock.into())).map_err(|err| err.to_string())?;
    Ok(decoder.into_inner())
}

/// Writes the whole input to an `async_compression::tokio::write::GzipEncoder`
/// at `Level::Fastest` over a `Vec` and closes it, each future polled once
/// by `futures::FutureExt::now_or_never` (a write to a `Vec` is ready at
/// once; a future that were not counts as an error). Trusted: the result is
/// the encoder's output for these bytes, or its error as text.
#[verifier::external_body]
fn gzip_encode(bytes: &[u8]) -> (r: Result<Vec<u8>, String>)
    ensures
        outcome(r) == gzip_encoded(bytes@),
{
    let level = async_compression::Level::Fastest;
    let mut encoder = async_compression::tokio::write::GzipEncoder::with_quality(Vec::new(), level);
    let written = futures::FutureExt::now_or_never(tokio::io::AsyncWriteExt::write_all(&mut encoder, bytes));
    written.unwrap_or(Err(std::io::ErrorKind::WouldBlock.into())).map_err(|err| err.to_string())?;
    let closed = futures::FutureExt::now_or_never(tokio::io::AsyncWriteExt::shutdown(&mut encoder));
    closed.unwrap_or(Err(std::io::ErrorKind::WouldBlock.into())).map_err(|err| err.to_string())?;
    Ok(encoder.into_inner())
}

/// Writes the whole input to an `async_compression::tokio::write::DeflateEncoder`
/// at `Level::Fastest` over a `Vec` and closes it, each future polled once
/// by `futures::FutureExt::now_or_never` (a write to a `Vec` is ready at
/// once; a future that were not counts as an error). Trusted: the result is
/// the encoder's output for these bytes, or its error as text.
#[verifier::external_body]
fn deflate_encode(bytes: &[u8]) -> (r: Result<Vec<u8>, String>)
    ensures
        outcome(r) == deflate_encoded(bytes@),
{
    let level = async_compression::Level::Fastest;
    let mut encoder = async_compression::tokio::write::DeflateEncoder::with_quality(Vec::new(), level);
    let written = futures::FutureExt::now_or_never(tokio::io::AsyncWriteExt::write_all(&mut encoder, bytes));
    written.unwrap_or(Err(std::io::ErrorKind::WouldBlock.into())).map_err(|err| err.to_string())?;
    let closed = futures::FutureExt::now_or_never(tokio::io::AsyncWriteExt::shutdown(&mut encoder));
    closed.unwrap_or(Err(std::io::ErrorKind::WouldBlock.into())).map_err(|err| err.to_string())?;
    Ok(encoder.into_inner())
}

/// Writes the whole input to an `async_compression::tokio::write::BrotliEncoder`
/// at `Level::Fastest` over a `Vec` and closes it, each future polled once
/// by `futures::FutureExt::now_or_never` (a write to a `Vec` is ready at
/// once; a future that were not counts as an error). Trusted: the result is
/// the encoder's output for these bytes, or its error as text.
#[verifier::external_body]
fn brotli_encode(bytes: &[u8]) -> (r: Result<Vec<u8>, String>)
    ensures
        outcome(r) == brotli_encoded(bytes@),
{
    let level = async_compression::Level::Fastest;
    let mut encoder = async_compression::tokio::write::BrotliEncoder::with_quality(Vec::new(), level);
    let written = futures::FutureExt::now_or_never(tokio::io::AsyncWriteExt::write_all(&mut encoder, bytes));
    written.unwrap_or(Err(std::io::ErrorKind::WouldBlock.into())).map_err(|err| err.to_string())?;
    let closed = futures::FutureExt::now_or_never(tokio::io::AsyncWriteExt::shutdown(&mut encoder));
    closed.unwrap_or(Err(std::io::ErrorKind::WouldBlock.into())).map_err(|err| err.to_string())?;
    Ok(encoder.into_inner())
}

/// Decodes `bytes` with `algorithm`. Fails exactly where the decoder rejects
/// the input.
pub fn decompress(bytes: &Vec<u8>, algorithm: Algorithm) -> (r: Result<Vec<u8>, String>)
    ensures
        outcome(r) == decompressed(bytes@, algorithm),
{
    match algorithm {
        Algorithm::Brotli => brotli_decode(bytes.as_slice()),
        Algorithm::Gzip => gzip_decode(bytes.as_slice()),
        Algorithm::Deflate => deflate_decode(bytes.as_slice()),
    }
}

/// Encodes `bytes` with `algorithm`. Fails exactly where the encoder does.
pub fn compress(bytes: &Vec<u8>, algorithm: Algorithm) -> (r: Result<Vec<u8>, String>)
    ensures
        outcome(r) == compressed(bytes@, algorithm),
{
    match algorithm {
        Algorithm::Brotli => brotli_encode(bytes.as_slice()),
        Algorithm::Gzip => gzip_encode(bytes.as_slice()),
        Algorithm::Deflate => deflate_encode(bytes.as_slice()),
    }
}

/// The codec for `algorithm` loses nothing: whatever it encodes, it decodes
/// to the bytes that went in.
pub open spec fn lossless(algorithm: Algorithm) -> bool {
    forall|bytes: Seq<u8>, packed: Seq<u8>|
        #![trigger compressed(bytes, algorithm), decompressed(packed, algorithm)]
        compressed(bytes, algorithm) == Some(packed) ==> decompressed(packed, algorithm) == Some(
            bytes,
        )
}

/// With a codec that loses nothing, taking a stream apart and packing the
/// payload again gives a stream that carries the same payload. That the
/// codecs lose nothing is a hypothesis here: nothing in this library shows
/// it, and it rests on the tests.
pub proof fn lemma_repacking_keeps_the_payload(
    stream: Seq<u8>,
    algorithm: Algorithm,
    payload: Seq<u8>,
    repacked: Seq<u8>,
)
    requires
        lossless(algorithm),
        decompressed(stream, algorithm) == Some(payload),
        compressed(payload, algorithm) == Some(repacked),
    ensures
        decompressed(repacked, algorithm) == Some(payload),
{
}

/// The algorithm that a `Content-Encoding` value names: `gzip`, `deflate` or `br`.
pub open spec fn algorithm_of(encoding: Seq<char>) -> Option<Algorithm> {
    if encoding == "gzip"@ {
        Some(Algorithm::Gzip)
    } else if encoding == "deflate"@ {
        Some(Algorithm::Deflate)
    } else if encoding == "br"@ {
        Some(Algorithm::Brotli)
    } else {
        None
    }
}

/// Reads a `Content-Encoding` value; `None` for an encoding that is not supported.
pub fn unwrap_encoding_header(encoding: &str) -> (r: Option<Algorithm>)
    ensures
        r == algorithm_of(encoding@),
{
    if str_equal(encoding, "gzip") {
        Some(Algorithm::Gzip)
    } else if str_equal(encoding, "deflate") {
        Some(Algorithm::Deflate)
    } else if str_equal(encoding, "br") {
        Some(Algorithm::Brotli)
    } else {
        None
    }
}

} // verus!
