use vstd::prelude::*;

verus! {

/// Errors of the compression engine.
#[derive(Debug)]
pub enum NippyJarError {
    /// A codec operation failed, also after the bounded buffer growth, or the
    /// codec could not build a handle.
    Disconnect(std::io::Error),
    /// Writing to the byte sink failed.
    Io(std::io::Error),
    /// Compressors were asked for before the dictionaries were trained.
    CompressorNotReady,
    /// Training data held another number of columns: (configured, supplied).
    ColumnLenMismatch(usize, usize),
}

} // verus!
