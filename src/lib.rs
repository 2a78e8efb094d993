//! Dictionary-aware zstd compression for columnar storage.
//!
//! Per-column dictionaries are trained from sample values, turned into
//! compressors and decompressors, and used by bounded retry loops that grow
//! their scratch buffers until the codec has room for its output.
mod codec;
mod compression;
mod error;

pub use codec::{
    dict_decodes, dict_decoded, dictionary_loads, is_usable, frame_decodes, frame_decoded, frame_encoded, is_trained, total,
    trained_dictionary, trains, ColumnCompressor, ColumnDecoderDictionary, ColumnDecompressor,
};
pub use compression::{
    compress_bound, compress_bound_spec, concat_samples, concatenated, growth_reservation, growth_spec, next_reservation, retry_step, RetryStep,
    sample_sizes, Zstd, ZstdState, MAX_CODEC_ATTEMPTS,
};
pub use error::NippyJarError;
