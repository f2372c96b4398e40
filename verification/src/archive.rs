//! Compression of an archive into the artifact that is uploaded.

use vstd::prelude::*;
use flate2::write::GzEncoder;
use flate2::Compression;
use std::io::Write;

verus! {

/// What the encoder makes of `data` at its default compression level, with
/// the header it writes when none is configured: the gzip stream, or nothing
/// where the encoder fails on `data`.
pub uninterp spec fn gzip_of(data: Seq<u8>) -> Option<Seq<u8>>;

/// Feeds `data` to a `flate2::write::GzEncoder` made by `GzEncoder::new` over
/// an empty `Vec` with `Compression::default()`, and ends the stream with
/// `GzEncoder::finish`. The encoder reads nothing but `data`, and its header
/// holds no time and a fixed system byte, so the outcome is a matter of
/// `data` alone: when both calls succeed, the bytes that come out are the
/// gzip stream of `data`; when either reports an error, there is no stream
/// for `data`, and the error's message is handed back.
#[verifier::external_body]
pub(crate) fn gzip_compress(data: &Vec<u8>) -> (r: Result<Vec<u8>, String>)
    ensures
        r matches Ok(bytes) ==> gzip_of(data@) == Some(bytes@),
        r is Err ==> gzip_of(data@) is None,
{
    let mut encoder = GzEncoder::new(Vec::new(), Compression::default());
    match encoder.write_all(data) {
        Ok(()) => match encoder.finish() {
            Ok(bytes) => Ok(bytes),
            Err(e) => Err(e.to_string()),
        },
        Err(e) => Err(e.to_string()),
    }
}

} // verus!
