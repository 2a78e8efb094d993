//! The zstd calls the engine makes, with what it relies on from each, and the
//! handle types that remember which dictionary they were built from.
use vstd::prelude::*;
use zstd::bulk::{Compressor, Decompressor};
use zstd::dict::DecoderDictionary;

verus! {

#[verifier::external_type_specification]
#[verifier::external_body]
pub struct ExIoError(std::io::Error);

#[verifier::external_type_specification]
#[verifier::external_body]
pub struct ExCompressor<'a>(Compressor<'a>);

#[verifier::external_type_specification]
#[verifier::external_body]
pub struct ExDecompressor<'a>(Decompressor<'a>);

#[verifier::external_type_specification]
#[verifier::external_body]
pub struct ExDecoderDictionary<'a>(DecoderDictionary<'a>);

/// Whether zstd's trainer succeeds on the concatenated samples and their sizes
/// with a dictionary buffer of `capacity` bytes.
pub uninterp spec fn trains(samples: Seq<u8>, sizes: Seq<usize>, capacity: usize) -> bool;

/// The dictionary that zstd's trainer writes for those arguments.
pub uninterp spec fn trained_dictionary(samples: Seq<u8>, sizes: Seq<usize>, capacity: usize) -> Seq<u8>;

/// Whether the block `src` decompresses with `dictionary`.
pub uninterp spec fn dict_decodes(dictionary: Seq<u8>, src: Seq<u8>) -> bool;

/// Whether zstd prepares a decoding dictionary from `dictionary`.
pub uninterp spec fn dictionary_loads(dictionary: Seq<u8>) -> bool;

/// What decompressing the block `src` with `dictionary` gives.
pub uninterp spec fn dict_decoded(dictionary: Seq<u8>, src: Seq<u8>) -> Seq<u8>;

/// The self-describing zstd frame that encoding `src` at the default level gives.
pub uninterp spec fn frame_encoded(src: Seq<u8>) -> Seq<u8>;

/// Whether `src` is a sequence of zstd frames that decodes.
pub uninterp spec fn frame_decodes(src: Seq<u8>) -> bool;

/// What decoding the zstd frames in `src` gives.
pub uninterp spec fn frame_decoded(src: Seq<u8>) -> Seq<u8>;

/// Sum of a sequence of sizes.
pub open spec fn total(sizes: Seq<usize>) -> int
    decreases sizes.len(),
{
    if sizes.len() == 0 {
        0
    } else {
        total(sizes.drop_last()) + sizes.last()
    }
}

/// Bytes that zstd's trainer produced from some samples.
pub open spec fn is_trained(d: Seq<u8>) -> bool {
    exists|s: Seq<u8>, z: Seq<usize>, c: usize|
        #![trigger trained_dictionary(s, z, c)]
        trains(s, z, c) && trained_dictionary(s, z, c) == d
}

/// Bytes from which a decoding dictionary can be prepared without fault: the
/// trainer's output, or bytes that zstd was seen to accept.
pub open spec fn is_usable(d: Seq<u8>) -> bool {
    is_trained(d) || dictionary_loads(d)
}

/// A compressor at the default level, bound to one dictionary.
pub struct ColumnCompressor {
    pub(crate) inner: Compressor<'static>,
    pub(crate) dictionary: Ghost<Seq<u8>>,
}

impl ColumnCompressor {
    /// The dictionary the compressor was built with.
    pub closed spec fn dictionary(&self) -> Seq<u8> {
        self.dictionary@
    }

    /// A compressor built from `dictionary`.
    pub(crate) fn from_parts(inner: Compressor<'static>, dictionary: Ghost<Seq<u8>>) -> (r: Self)
        ensures
            r.dictionary() == dictionary@,
    {
        ColumnCompressor { inner, dictionary }
    }
}

/// A prepared decoding dictionary holding its own copy of the bytes.
pub struct ColumnDecoderDictionary {
    pub(crate) inner: DecoderDictionary<'static>,
    pub(crate) dictionary: Ghost<Seq<u8>>,
}

impl ColumnDecoderDictionary {
    /// The bytes the dictionary was prepared from.
    pub closed spec fn dictionary(&self) -> Seq<u8> {
        self.dictionary@
    }

    /// A decoding dictionary prepared from `dictionary`.
    pub(crate) fn from_parts(inner: DecoderDictionary<'static>, dictionary: Ghost<Seq<u8>>) -> (r:
        Self)
        ensures
            r.dictionary() == dictionary@,
    {
        ColumnDecoderDictionary { inner, dictionary }
    }

    /// The prepared dictionary.
    pub(crate) fn prepared(&self) -> (r: &DecoderDictionary<'static>) {
        &self.inner
    }
}

/// A decompressor bound to a prepared decoding dictionary.
pub struct ColumnDecompressor<'a> {
    pub(crate) inner: Decompressor<'a>,
    pub(crate) dictionary: Ghost<Seq<u8>>,
}

impl<'a> ColumnDecompressor<'a> {
    /// The bytes of the dictionary the decompressor uses.
    pub closed spec fn dictionary(&self) -> Seq<u8> {
        self.dictionary@
    }

    /// A decompressor bound to a dictionary prepared from `dictionary`.
    pub(crate) fn from_parts(inner: Decompressor<'a>, dictionary: Ghost<Seq<u8>>) -> (r: Self)
        ensures
            r.dictionary() == dictionary@,
    {
        ColumnDecompressor { inner, dictionary }
    }
}

/// Relies on zstd_safe::train_from_buffer: it trains into the whole of
/// `buffer` (a slice of fixed length), returns the dictionary's size or zstd's
/// error code, and asserts that the sizes add up to the data.
#[verifier::external_body]
pub(crate) fn train_into(buffer: &mut Vec<u8>, samples: &[u8], sizes: &[usize]) -> (r: Result<
    usize,
    usize,
>)
    requires
        total(sizes@) == samples@.len(),
    ensures
        final(buffer)@.len() == old(buffer)@.len(),
        r is Ok <==> trains(samples@, sizes@, old(buffer)@.len() as usize),
        r matches Ok(n) ==> n <= old(buffer)@.len() && final(buffer)@.subrange(0, n as int)
            == trained_dictionary(samples@, sizes@, old(buffer)@.len() as usize),
{
    zstd::zstd_safe::train_from_buffer(&mut buffer[..], samples, sizes)
}

/// Relies on zstd_safe::get_error_name and io::Error::other: an I/O error
/// carrying zstd's name for the code.
#[verifier::external_body]
pub(crate) fn codec_error(code: usize) -> (r: std::io::Error) {
    std::io::Error::other(zstd::zstd_safe::get_error_name(code))
}

/// Relies on zstd::bulk::Compressor::with_dictionary: it sets the level and
/// loads the dictionary, which fails only when memory runs out.
#[verifier::external_body]
pub(crate) fn compressor_with_dictionary(dictionary: &[u8]) -> (r: std::io::Result<
    Compressor<'static>,
>)
    ensures
        r is Ok,
{
    Compressor::with_dictionary(0, dictionary)
}

/// Relies on zstd::bulk::Compressor::compress_to_buffer: it writes from the start
/// of `destination`'s allocation; on success the length is what was written, a
/// block that decodes back to `source` with the compressor's dictionary (zstd is
/// lossless); on failure the length is left as it was.
#[verifier::external_body]
pub(crate) fn compress_into(
    compressor: &mut ColumnCompressor,
    source: &[u8],
    destination: &mut Vec<u8>,
) -> (r: std::io::Result<usize>)
    ensures
        final(compressor).dictionary() == old(compressor).dictionary(),
        r matches Ok(n) ==> final(destination)@.len() == n,
        r is Ok ==> dict_decodes(old(compressor).dictionary(), final(destination)@)
            && dict_decoded(old(compressor).dictionary(), final(destination)@) == source@,
        r is Err ==> final(destination)@.len() == old(destination)@.len(),
{
    compressor.inner.compress_to_buffer(source, destination)
}

/// Relies on zstd_safe::DDict::try_create: whether zstd prepares a decoding
/// dictionary from the bytes (the check that DecoderDictionary::copy makes).
#[verifier::external_body]
pub(crate) fn dictionary_prepares(dictionary: &[u8]) -> (r: bool)
    ensures
        r == dictionary_loads(dictionary@),
{
    zstd::zstd_safe::DDict::try_create(dictionary).is_some()
}

/// Relies on zstd::dict::DecoderDictionary::copy: it copies the bytes into a
/// prepared dictionary. zstd refuses malformed dictionary headers there (a
/// panic), never the output of its own trainer nor bytes it accepted before.
#[verifier::external_body]
pub(crate) fn decoder_dictionary_copy(dictionary: &[u8]) -> (r: DecoderDictionary<'static>)
    requires
        is_usable(dictionary@),
{
    DecoderDictionary::copy(dictionary)
}

/// Relies on zstd::bulk::Decompressor::with_prepared_dictionary: referencing a
/// prepared dictionary on a fresh context does not fail.
#[verifier::external_body]
pub(crate) fn decompressor_with_prepared<'a>(dictionary: &'a DecoderDictionary<'a>) -> (r:
    std::io::Result<Decompressor<'a>>)
    ensures
        r is Ok,
{
    Decompressor::with_prepared_dictionary(dictionary)
}

/// Relies on zstd::bulk::Decompressor::decompress_to_buffer: it writes from the
/// start of `destination`'s allocation; it succeeds only on a block that decodes
/// with the decompressor's dictionary, and then holds what it decodes to; on
/// failure the length is left as it was.
#[verifier::external_body]
pub(crate) fn decompress_into(
    decompressor: &mut ColumnDecompressor<'_>,
    source: &[u8],
    destination: &mut Vec<u8>,
) -> (r: std::io::Result<usize>)
    ensures
        final(decompressor).dictionary() == old(decompressor).dictionary(),
        r matches Ok(n) ==> final(destination)@.len() == n && final(destination)@
            == dict_decoded(old(decompressor).dictionary(), source@),
        r is Ok ==> dict_decodes(old(decompressor).dictionary(), source@),
        r is Err ==> final(destination)@.len() == old(destination)@.len(),
{
    decompressor.inner.decompress_to_buffer(source, destination)
}

/// Relies on zstd::bulk::Decompressor::upper_bound: an estimate of the
/// decompressed size, when the codec can give one.
#[verifier::external_body]
pub(crate) fn decompressed_upper_bound(data: &[u8]) -> (r: Option<usize>) {
    Decompressor::upper_bound(data)
}

/// Relies on Vec::capacity: the number of elements the allocation holds, never
/// less than the length.
#[verifier::external_body]
pub(crate) fn capacity_of(v: &Vec<u8>) -> (r: usize)
    ensures
        r >= v@.len(),
{
    v.capacity()
}

/// Relies on zstd::stream::encode_all: writing into a `Vec` does not fail, and
/// the frame decodes back to `src` (zstd is lossless).
#[verifier::external_body]
pub(crate) fn encode_frame(src: &[u8]) -> (r: std::io::Result<Vec<u8>>)
    ensures
        r is Ok,
        r matches Ok(e) ==> e@ == frame_encoded(src@) && frame_decodes(e@) && frame_decoded(e@)
            == src@,
{
    zstd::stream::encode_all(src, 0)
}

/// Relies on zstd::stream::decode_all: the whole decoded content of the frames
/// in `src` when they decode, however long it is, and an error otherwise.
#[verifier::external_body]
pub(crate) fn decode_frame(src: &[u8]) -> (r: std::io::Result<Vec<u8>>)
    ensures
        r is Ok <==> frame_decodes(src@),
        r matches Ok(d) ==> d@ == frame_decoded(src@),
{
    zstd::stream::decode_all(src)
}

} // verus!
