use tokio::io::AsyncReadExt;
use tokio::io::AsyncWriteExt;
use crate::error::ParseError;
use crate::text::str_eq;
use vstd::prelude::*;
use vstd::slice::slice_to_vec;

verus! {

/// The closed set of codecs an object may be stored with.
#[derive(Debug, Clone, Copy, PartialEq, Eq, Structural)]
pub enum Compression {
    Uncompressed,
    Bzip2,
    Zstd,
}

/// What bzip2-compressing `b` with the default level yields.
pub uninterp spec fn bz2_compressed(b: Seq<u8>) -> Seq<u8>;

/// What bzip2-decompressing `b` yields, `None` when `b` is no bzip2 stream.
pub uninterp spec fn bz2_decompressed(b: Seq<u8>) -> Option<Seq<u8>>;

/// What zstd-compressing `b` with the default level yields.
pub uninterp spec fn zstd_compressed(b: Seq<u8>) -> Seq<u8>;

/// What zstd-decompressing `b` yields, `None` when `b` is no zstd frame.
pub uninterp spec fn zstd_decompressed(b: Seq<u8>) -> Option<Seq<u8>>;

/// Relies on async_compression's tokio `BzEncoder`, fed all of `data` and shut
/// down so that the stream is finished: the output is the bzip2 stream of
/// `data`, which bzip2 decompresses back to `data`. Writing into a `Vec`
/// fails only when allocation does, so the encoder always succeeds.
/// The codec runs on the caller's thread through
/// `futures::executor::block_on`: it blocks that thread, and must not be
/// called from inside a `futures` executor, where `block_on` panics.
#[verifier::external_body]
fn bz2_encode(data: &[u8]) -> (r: Option<Vec<u8>>)
    ensures
        r is Some,
        r matches Some(out) ==> out@ == bz2_compressed(data@) && bz2_decompressed(out@) == Some(
            data@,
        ),
{
    let mut encoder = async_compression::tokio::write::BzEncoder::new(Vec::new());
    futures::executor::block_on(encoder.write_all(data)).ok()?;
    futures::executor::block_on(encoder.shutdown()).ok()?;
    Some(encoder.into_inner())
}

/// Relies on async_compression's tokio `BzDecoder`, read to its end: the
/// result depends on the bytes alone.
/// The codec runs on the caller's thread through
/// `futures::executor::block_on`: it blocks that thread, and must not be
/// called from inside a `futures` executor, where `block_on` panics.
#[verifier::external_body]
fn bz2_decode(data: &[u8]) -> (r: Option<Vec<u8>>)
    ensures
        r matches Some(out) ==> bz2_decompressed(data@) == Some(out@),
        r is None ==> bz2_decompressed(data@) is None,
{
    let mut decoder = async_compression::tokio::bufread::BzDecoder::new(data);
    let mut out = Vec::new();
    futures::executor::block_on(decoder.read_to_end(&mut out)).ok()?;
    Some(out)
}

/// Relies on async_compression's tokio `ZstdEncoder`, fed all of `data` and
/// shut down so that the frame is finished: the output is the zstd frame of
/// `data`, which zstd decompresses back to `data`. Writing into a `Vec`
/// fails only when allocation does, so the encoder always succeeds.
/// The codec runs on the caller's thread through
/// `futures::executor::block_on`: it blocks that thread, and must not be
/// called from inside a `futures` executor, where `block_on` panics.
#[verifier::external_body]
fn zstd_encode(data: &[u8]) -> (r: Option<Vec<u8>>)
    ensures
        r is Some,
        r matches Some(out) ==> out@ == zstd_compressed(data@) && zstd_decompressed(out@) == Some(
            data@,
        ),
{
    let mut encoder = async_compression::tokio::write::ZstdEncoder::new(Vec::new());
    futures::executor::block_on(encoder.write_all(data)).ok()?;
    futures::executor::block_on(encoder.shutdown()).ok()?;
    Some(encoder.into_inner())
}

/// Relies on async_compression's tokio `ZstdDecoder`, read to its end: the
/// result depends on the bytes alone.
/// The codec runs on the caller's thread through
/// `futures::executor::block_on`: it blocks that thread, and must not be
/// called from inside a `futures` executor, where `block_on` panics.
#[verifier::external_body]
fn zstd_decode(data: &[u8]) -> (r: Option<Vec<u8>>)
    ensures
        r matches Some(out) ==> zstd_decompressed(data@) == Some(out@),
        r is None ==> zstd_decompressed(data@) is None,
{
    let mut decoder = async_compression::tokio::bufread::ZstdDecoder::new(data);
    let mut out = Vec::new();
    futures::executor::block_on(decoder.read_to_end(&mut out)).ok()?;
    Some(out)
}

/// The suffix a key carries for codec `c`; empty for uncompressed objects.
pub open spec fn suffix_of(c: Compression) -> Seq<char> {
    match c {
        Compression::Uncompressed => seq![],
        Compression::Bzip2 => seq!['b', 'z', '2'],
        Compression::Zstd => seq!['z', 's', 't'],
    }
}

/// The codec a non-empty key suffix names, if any.
pub open spec fn compression_from_suffix(s: Seq<char>) -> Option<Compression> {
    if s == seq!['b', 'z', '2'] {
        Some(Compression::Bzip2)
    } else if s == seq!['z', 's', 't'] {
        Some(Compression::Zstd)
    } else {
        None
    }
}

/// The bytes `c` turns `b` into.
pub open spec fn compressed_by(c: Compression, b: Seq<u8>) -> Seq<u8> {
    match c {
        Compression::Uncompressed => b,
        Compression::Bzip2 => bz2_compressed(b),
        Compression::Zstd => zstd_compressed(b),
    }
}

/// The bytes `c` restores from `b`, `None` when `b` is not in its format.
pub open spec fn decompressed_by(c: Compression, b: Seq<u8>) -> Option<Seq<u8>> {
    match c {
        Compression::Uncompressed => Some(b),
        Compression::Bzip2 => bz2_decompressed(b),
        Compression::Zstd => zstd_decompressed(b),
    }
}

impl Compression {
    /// The key suffix of this codec: `""`, `"bz2"` or `"zst"`.
    pub fn suffix(&self) -> (r: &'static str)
        ensures
            r@ == suffix_of(*self),
    {
        proof {
            reveal_strlit("");
            reveal_strlit("bz2");
            reveal_strlit("zst");
        }
        match self {
            Compression::Uncompressed => "",
            Compression::Bzip2 => "bz2",
            Compression::Zstd => "zst",
        }
    }

    /// The codec named by a key's third segment; an unknown suffix, the empty
    /// one included, is an error rather than a default.
    pub fn from_suffix(s: &str) -> (r: Result<Compression, ParseError>)
        ensures
            r matches Ok(c) ==> compression_from_suffix(s@) == Some(c),
            r is Err ==> compression_from_suffix(s@) is None && r == Err::<Compression, _>(
                ParseError::UnknownVariant,
            ),
    {
        proof {
            reveal_strlit("bz2");
            reveal_strlit("zst");
            assert("bz2"@ =~= seq!['b', 'z', '2']);
            assert("zst"@ =~= seq!['z', 's', 't']);
        }
        if str_eq(s, "bz2") {
            Ok(Compression::Bzip2)
        } else if str_eq(s, "zst") {
            Ok(Compression::Zstd)
        } else {
            Err(ParseError::UnknownVariant)
        }
    }

    /// Restores the payload of an object stored with this codec.
    pub fn decompress(&self, data: &[u8]) -> (r: Result<Vec<u8>, ParseError>)
        ensures
            r matches Ok(out) ==> decompressed_by(*self, data@) == Some(out@),
            r is Err ==> decompressed_by(*self, data@) is None && r == Err::<Vec<u8>, _>(
                ParseError::Decompress,
            ),
    {
        let out = match self {
            Compression::Uncompressed => Some(slice_to_vec(data)),
            Compression::Bzip2 => bz2_decode(data),
            Compression::Zstd => zstd_decode(data),
        };
        match out {
            Some(out) => Ok(out),
            None => Err(ParseError::Decompress),
        }
    }

    /// Encodes a payload with this codec; the stream is finished, so that
    /// decompressing the output gives the payload back. Encoding always
    /// succeeds.
    pub fn compress(&self, data: &[u8]) -> (r: Result<Vec<u8>, ParseError>)
        ensures
            r is Ok,
            r matches Ok(out) ==> out@ == compressed_by(*self, data@) && decompressed_by(
                *self,
                out@,
            ) == Some(data@),
    {
        let out = match self {
            Compression::Uncompressed => Some(slice_to_vec(data)),
            Compression::Bzip2 => bz2_encode(data),
            Compression::Zstd => zstd_encode(data),
        };
        match out {
            Some(out) => Ok(out),
            None => Err(ParseError::Decompress),
        }
    }
}

} // verus!
