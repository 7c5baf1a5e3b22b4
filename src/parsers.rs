use crate::compression::Compression;
use crate::error::ParseError;
use crate::file_type::FileType;
use crate::storage_key::FileData;
use crate::text::split_on;
use vstd::prelude::*;
use vstd::slice::{slice_subrange, slice_to_vec};

verus! {

/// What a parser made of an object: the record type and codec it recommends
/// for the next stage, the bytes to store there, and the decoded record.
#[derive(Debug, Clone)]
pub struct ParseResult<T> {
    pub file_type: FileType,
    pub compression: Compression,
    pub data: Vec<u8>,
    pub parsed_data: T,
}

/// What decoding bytes as a match-contents message gave.
#[derive(Debug, Clone)]
pub enum ContentsDecode<T> {
    /// The bytes are no such message.
    Malformed,
    /// The message decoded but has no `match_info`.
    NoMatchInfo,
    /// The message's `match_info`.
    MatchInfo(T),
}

/// What decoding bytes as a metadata envelope gave.
#[derive(Debug, Clone)]
pub enum EnvelopeDecode<T> {
    /// The bytes are no envelope message.
    Malformed,
    /// The envelope's embedded `match_details` bytes, and what they decode to
    /// as a match-contents message.
    Decoded { match_details: Vec<u8>, contents: ContentsDecode<T> },
}

/// The result of a match-contents decode, as the parsers report it.
pub open spec fn contents_result<T>(d: ContentsDecode<T>) -> Result<T, ParseError> {
    match d {
        ContentsDecode::Malformed => Err(ParseError::ProtobufDecode),
        ContentsDecode::NoMatchInfo => Err(ParseError::MissingField),
        ContentsDecode::MatchInfo(m) => Ok(m),
    }
}

/// Unwraps the match record of a decoded contents message.
fn match_info_of<T>(d: ContentsDecode<T>) -> (r: Result<T, ParseError>)
    ensures
        r == contents_result(d),
{
    match d {
        ContentsDecode::Malformed => Err(ParseError::ProtobufDecode),
        ContentsDecode::NoMatchInfo => Err(ParseError::MissingField),
        ContentsDecode::MatchInfo(m) => Ok(m),
    }
}

/// Parser of metadata envelopes: unwraps the embedded contents message and
/// hands it on as a metadata-contents object, always stored zstd-compressed.
#[derive(Debug, Default, Clone, Copy)]
pub struct MetaDataParser;

impl MetaDataParser {
    /// Parses an envelope, given what its bytes decoded to.
    pub fn parse<T>(&self, file_data: &FileData, decoded: EnvelopeDecode<T>) -> (r: Result<
        ParseResult<T>,
        ParseError,
    >)
        ensures
            decoded is Malformed ==> r == Err::<ParseResult<T>, _>(ParseError::ProtobufDecode),
            decoded matches EnvelopeDecode::Decoded { match_details, contents } ==> match contents_result(contents) {
                Err(e) => r == Err::<ParseResult<T>, _>(e),
                Ok(m) => r matches Ok(p) && p.file_type == FileType::MetadataContent
                    && p.compression == Compression::Zstd && p.data@ == match_details@
                    && p.parsed_data == m,
            },
    {
        match decoded {
            EnvelopeDecode::Malformed => Err(ParseError::ProtobufDecode),
            EnvelopeDecode::Decoded { match_details, contents } => {
                let parsed_data = match match_info_of(contents) {
                    Ok(m) => m,
                    Err(e) => return Err(e),
                };
                Ok(ParseResult {
                    file_type: FileType::MetadataContent,
                    compression: Compression::Zstd,
                    data: match_details,
                    parsed_data,
                })
            },
        }
    }
}

/// Parser of metadata-contents objects: checks them and keeps them as they
/// are, with the codec they already had.
#[derive(Debug, Default, Clone, Copy)]
pub struct MetaDataContentParser;

impl MetaDataContentParser {
    /// Parses a contents message `data`, given what it decoded to.
    pub fn parse<T>(&self, file_data: &FileData, data: &[u8], decoded: ContentsDecode<T>) -> (r:
        Result<ParseResult<T>, ParseError>)
        ensures
            match contents_result(decoded) {
                Err(e) => r == Err::<ParseResult<T>, _>(e),
                Ok(m) => r matches Ok(p) && p.file_type == FileType::MetadataContent
                    && p.compression == file_data.compression && p.data@ == data@
                    && p.parsed_data == m,
            },
    {
        let parsed_data = match match_info_of(decoded) {
            Ok(m) => m,
            Err(e) => return Err(e),
        };
        Ok(ParseResult {
            file_type: FileType::MetadataContent,
            compression: file_data.compression,
            data: slice_to_vec(data),
            parsed_data,
        })
    }
}

/// A line without its `\r` terminator, if it has one.
pub open spec fn strip_cr(l: Seq<u8>) -> Seq<u8> {
    if l.len() > 0 && l.last() == 13u8 {
        l.drop_last()
    } else {
        l
    }
}

/// The lines of a text, as `str::lines` gives them: split at `\n`, a `\r`
/// before the `\n` dropped, and no empty line after a final `\n`.
pub open spec fn lines_of(b: Seq<u8>) -> Seq<Seq<u8>> {
    let pieces = split_on(b, 10u8);
    let ended = pieces.drop_last().map_values(|l: Seq<u8>| strip_cr(l));
    if pieces.last().len() == 0 {
        ended
    } else {
        ended.push(pieces.last())
    }
}

/// Splits a batch file into its lines.
pub fn batch_lines(data: &[u8]) -> (r: Vec<Vec<u8>>)
    ensures
        r@.map_values(|l: Vec<u8>| l@) == lines_of(data@),
{
    let n = data.len();
    let mut lines: Vec<Vec<u8>> = Vec::new();
    let mut start: usize = 0;
    let mut i: usize = 0;
    assert(data@.subrange(0, 0) =~= Seq::<u8>::empty());
    assert(split_on(data@.subrange(0, 0), 10u8) == seq![Seq::<u8>::empty()]);
    assert(split_on(data@.subrange(0, 0), 10u8).drop_last() =~= Seq::<Seq<u8>>::empty());
    assert(lines@.map_values(|l: Vec<u8>| l@) =~= Seq::<Seq<u8>>::empty());
    while i < n
        invariant
            n == data@.len(),
            start <= i <= n,
            lines@.map_values(|l: Vec<u8>| l@) == split_on(data@.subrange(0, i as int), 10u8).drop_last().map_values(
                |l: Seq<u8>| strip_cr(l),
            ),
            split_on(data@.subrange(0, i as int), 10u8).last() == data@.subrange(start as int, i as int),
        decreases n - i,
    {
        let ghost prev = split_on(data@.subrange(0, i as int), 10u8);
        proof {
            crate::text::lemma_split_nonempty(data@.subrange(0, i as int), 10u8);
            assert(data@.subrange(0, i + 1).drop_last() =~= data@.subrange(0, i as int));
            assert(data@.subrange(0, i + 1).last() == data@[i as int]);
        }
        if data[i] == 10u8 {
            let end: usize = if i > start && data[i - 1] == 13u8 {
                i - 1
            } else {
                i
            };
            let line = slice_to_vec(slice_subrange(data, start, end));
            assert(line@ == strip_cr(prev.last())) by {
                assert(prev.last() == data@.subrange(start as int, i as int));
                if i > start && data@[i - 1] == 13u8 {
                    assert(data@.subrange(start as int, i as int).drop_last() =~= data@.subrange(
                        start as int,
                        i - 1,
                    ));
                }
            }
            let ghost before = lines@;
            lines.push(line);
            assert(split_on(data@.subrange(0, i + 1), 10u8) == prev.push(Seq::empty()));
            assert(prev.push(Seq::empty()).drop_last() =~= prev);
            assert(lines@.map_values(|l: Vec<u8>| l@) =~= before.map_values(|l: Vec<u8>| l@).push(
                line@,
            ));
            assert(prev.map_values(|l: Seq<u8>| strip_cr(l)) =~= prev.drop_last().map_values(
                |l: Seq<u8>| strip_cr(l),
            ).push(strip_cr(prev.last())));
            start = i + 1;
            assert(data@.subrange(start as int, i + 1) =~= Seq::<u8>::empty());
        } else {
            let ghost next = prev.update(prev.len() - 1, prev.last().push(data@[i as int]));
            assert(split_on(data@.subrange(0, i + 1), 10u8) == next);
            assert(next.drop_last() =~= prev.drop_last());
            assert(data@.subrange(start as int, i + 1) =~= data@.subrange(start as int, i as int).push(
                data@[i as int],
            ));
        }
        i = i + 1;
    }
    assert(data@.subrange(0, n as int) =~= data@);
    if start < n {
        let ghost before = lines@;
        lines.push(slice_to_vec(slice_subrange(data, start, n)));
        assert(lines@.map_values(|l: Vec<u8>| l@) =~= before.map_values(|l: Vec<u8>| l@).push(
            data@.subrange(start as int, n as int),
        ));
    }
    lines
}

/// The records of the lines that decoded, in order.
pub open spec fn kept<A>(decoded: Seq<Option<A>>) -> Seq<A>
    decreases decoded.len(),
{
    if decoded.len() == 0 {
        Seq::empty()
    } else {
        let prev = kept(decoded.drop_last());
        match decoded.last() {
            Some(a) => prev.push(a),
            None => prev,
        }
    }
}

/// How many lines did not decode.
pub open spec fn dropped_count<A>(decoded: Seq<Option<A>>) -> nat
    decreases decoded.len(),
{
    if decoded.len() == 0 {
        0
    } else {
        dropped_count(decoded.drop_last()) + if decoded.last() is None {
            1nat
        } else {
            0nat
        }
    }
}

/// The snapshots of a batch file, one list per line that decoded, and the
/// number of lines that did not.
#[derive(Debug, Clone)]
pub struct LineBatches<T> {
    pub batches: Vec<Vec<T>>,
    pub dropped: usize,
}

/// Parser of active-match batch files: a corrupt line is dropped, the others
/// are kept; the file is stored zstd-compressed.
#[derive(Debug, Default, Clone, Copy)]
pub struct ActiveMatchesJsonLinesParser;

impl ActiveMatchesJsonLinesParser {
    /// Parses a batch file `data`, given what each of its lines (see
    /// `batch_lines`) decoded to; `None` marks a line that did not decode.
    pub fn parse<T>(&self, file_data: &FileData, data: &[u8], decoded: Vec<Option<Vec<T>>>) -> (r:
        Result<ParseResult<LineBatches<T>>, ParseError>)
        ensures
            r matches Ok(p) && p.file_type == FileType::ActiveMatchesJsonLines && p.compression
                == Compression::Zstd && p.data@ == data@ && p.parsed_data.batches@ == kept(decoded@)
                && p.parsed_data.dropped == dropped_count(decoded@),
    {
        let n = decoded.len();
        let mut batches: Vec<Vec<T>> = Vec::new();
        let mut dropped: usize = 0;
        let mut rest = decoded;
        let mut taken: Vec<Option<Vec<T>>> = Vec::new();
        let ghost all = rest@;
        let mut i: usize = 0;
        while i < n
            invariant
                n == all.len(),
                i <= n,
                rest@ == all.subrange(i as int, n as int),
                batches@ == kept(all.subrange(0, i as int)),
                dropped == dropped_count(all.subrange(0, i as int)),
                dropped <= i,
            decreases n - i,
        {
            let ghost head = all.subrange(0, i + 1);
            assert(head.drop_last() =~= all.subrange(0, i as int));
            assert(head.last() == all[i as int]);
            let line = rest.remove(0);
            assert(rest@ =~= all.subrange(i + 1, n as int));
            match line {
                Some(b) => batches.push(b),
                None => dropped = dropped + 1,
            }
            i = i + 1;
        }
        assert(all.subrange(0, n as int) =~= all);
        Ok(ParseResult {
            file_type: FileType::ActiveMatchesJsonLines,
            compression: Compression::Zstd,
            data: slice_to_vec(data),
            parsed_data: LineBatches { batches, dropped },
        })
    }
}

/// All snapshots of a batch file, line after line.
pub fn flatten_batches<T>(batches: Vec<Vec<T>>) -> (r: Vec<T>)
    ensures
        r@ == batches@.map_values(|b: Vec<T>| b@).flatten(),
{
    let ghost all = batches@.map_values(|b: Vec<T>| b@);
    let n = batches.len();
    let mut rest = batches;
    let mut out: Vec<T> = Vec::new();
    let mut i: usize = 0;
    assert(all.subrange(0, 0) =~= Seq::<Seq<T>>::empty());
    while i < n
        invariant
            n == all.len(),
            i <= n,
            rest@.len() == n - i,
            forall|j: int| 0 <= j < n - i ==> (#[trigger] rest@[j])@ == all[i + j],
            out@ == all.subrange(0, i as int).flatten(),
        decreases n - i,
    {
        let mut b = rest.remove(0);
        assert(b@ == all[i as int]);
        let ghost before = out@;
        out.append(&mut b);
        proof {
            let next = all.subrange(0, i + 1);
            assert(next =~= all.subrange(0, i as int).push(all[i as int]));
            all.subrange(0, i as int).lemma_flatten_push(all[i as int]);
        }
        i = i + 1;
    }
    assert(all.subrange(0, n as int) =~= all);
    out
}

} // verus!
