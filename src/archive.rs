//! The package file is a gzip stream; flate2 decodes it.
use vstd::prelude::*;

verus! {

/// What decoding `data` as one gzip member gives, `None` where the data is no
/// valid gzip stream.
pub uninterp spec fn gunzipped(data: Seq<u8>) -> Option<Seq<u8>>;

pub open spec fn view_of_bytes(o: Option<Vec<u8>>) -> Option<Seq<u8>> {
    match o {
        Some(v) => Some(v@),
        None => None,
    }
}

/// Relies on flate2::read::GzDecoder, read to its end, to decode a gzip stream
/// held in memory; the outcome depends on the bytes alone.
#[verifier::external_body]
pub fn gunzip(data: &[u8]) -> (r: Option<Vec<u8>>)
    ensures
        view_of_bytes(r) == gunzipped(data@),
{
    let mut out = Vec::new();
    match std::io::Read::read_to_end(&mut flate2::read::GzDecoder::new(data), &mut out) {
        Ok(_) => Some(out),
        Err(_) => None,
    }
}

} // verus!
