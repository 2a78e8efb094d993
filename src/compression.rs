use crate::codec::{
    capacity_of, codec_error, compress_into, compressor_with_dictionary, decode_frame,
    decoder_dictionary_copy, decompress_into, decompressed_upper_bound, decompressor_with_prepared,
    dict_decodes, dict_decoded, dictionary_loads, dictionary_prepares, encode_frame, frame_decodes, frame_decoded, frame_encoded,
    is_trained, is_usable, total, train_into, trained_dictionary, trains, ColumnCompressor,
    ColumnDecoderDictionary, ColumnDecompressor,
};
use crate::error::NippyJarError;
use vstd::prelude::*;

verus! {

/// How many times a codec operation is tried before it is given up.
pub const MAX_CODEC_ATTEMPTS: usize = 5;

/// Readiness of the engine: compressors exist only once it is `Ready`.
#[derive(Debug, Default, Clone, Copy, PartialEq, Eq, Structural)]
pub enum ZstdState {
    /// Dictionaries are in use and have not been trained yet.
    #[default]
    PendingDictionary,
    /// Compressors may be built.
    Ready,
}

/// Zstd compression, with an optional dictionary per column.
#[derive(Debug)]
pub struct Zstd {
    /// Readiness; `Ready` before compressors can be built.
    state: ZstdState,
    /// Whether values are compressed with per-column dictionaries.
    use_dict: bool,
    /// Largest dictionary to train, in bytes.
    max_dict_size: usize,
    /// The trained dictionaries, one per column.
    raw_dictionaries: Option<Vec<Vec<u8>>>,
    /// Number of columns.
    columns: usize,
}

/// The sample values of a column laid end to end.
pub open spec fn concatenated(column: Seq<Vec<u8>>) -> Seq<u8>
    decreases column.len(),
{
    if column.len() == 0 {
        Seq::empty()
    } else {
        concatenated(column.drop_last()) + column.last()@
    }
}

/// The length of each sample value of a column.
pub open spec fn sample_sizes(column: Seq<Vec<u8>>) -> Seq<usize> {
    column.map_values(|v: Vec<u8>| v@.len() as usize)
}

/// `base * attempt`, or `usize::MAX` where the product does not fit.
pub open spec fn growth_spec(base: usize, attempt: usize) -> usize {
    if base * attempt > usize::MAX {
        usize::MAX
    } else {
        (base * attempt) as usize
    }
}

/// How much room to reserve after the `attempt`-th failed try, when the output
/// is estimated at `base` bytes.
pub fn growth_reservation(base: usize, attempt: usize) -> (r: usize)
    ensures
        r == growth_spec(base, attempt),
{
    match base.checked_mul(attempt) {
        Some(p) => p,
        None => usize::MAX,
    }
}

/// zstd's bound on the size of a frame that compresses `n` bytes in one pass.
pub open spec fn compress_bound_spec(n: usize) -> int {
    n + n / 256 + if n < 131072 { (131072 - n) / 2048 } else { 0 }
}

/// zstd's bound on the size of a frame that compresses `n` bytes in one pass,
/// or `usize::MAX` where it does not fit.
pub fn compress_bound(n: usize) -> (r: usize)
    ensures
        r == (if compress_bound_spec(n) > usize::MAX { usize::MAX as int } else {
            compress_bound_spec(n)
        }),
        r > 0,
{
    let margin: usize = if n < 131072 {
        (131072 - n) / 2048
    } else {
        0
    };
    match n.checked_add(n / 256) {
        Some(a) => match a.checked_add(margin) {
            Some(b) => if b == 0 { usize::MAX } else { b },
            None => usize::MAX,
        },
        None => usize::MAX,
    }
}

/// What a retry loop does after one try of a codec operation.
#[derive(Debug, Clone, Copy, PartialEq, Eq, Structural)]
pub enum RetryStep {
    /// The try succeeded.
    Done,
    /// Every try failed: the operation is given up.
    GiveUp,
    /// Reserve this much more room and try again.
    Reserve(usize),
}

/// The step after the `attempt`-th try of a codec operation whose output is
/// estimated at `base` bytes, given whether that try succeeded.
pub fn retry_step(tried_ok: bool, base: usize, attempt: usize) -> (r: RetryStep)
    requires
        1 <= attempt <= MAX_CODEC_ATTEMPTS,
    ensures
        tried_ok ==> r == RetryStep::Done,
        !tried_ok && attempt == MAX_CODEC_ATTEMPTS ==> r == RetryStep::GiveUp,
        !tried_ok && attempt < MAX_CODEC_ATTEMPTS ==> r == RetryStep::Reserve(
            growth_spec(base, attempt),
        ),
{
    if tried_ok {
        RetryStep::Done
    } else {
        match next_reservation(base, attempt) {
            None => RetryStep::GiveUp,
            Some(additional) => RetryStep::Reserve(additional),
        }
    }
}

/// The decision after the `attempt`-th failed try of a codec operation whose
/// output is estimated at `base` bytes: `None` once `MAX_CODEC_ATTEMPTS` tries
/// have failed, else the room to reserve before the next try.
pub fn next_reservation(base: usize, attempt: usize) -> (r: Option<usize>)
    requires
        1 <= attempt <= MAX_CODEC_ATTEMPTS,
    ensures
        attempt == MAX_CODEC_ATTEMPTS ==> r is None,
        attempt < MAX_CODEC_ATTEMPTS ==> r == Some(growth_spec(base, attempt)),
{
    if attempt == MAX_CODEC_ATTEMPTS {
        None
    } else {
        Some(growth_reservation(base, attempt))
    }
}

/// Lays the sample values of a column end to end, and records the length of each,
/// as zstd's trainer takes them.
pub fn concat_samples(column: &Vec<Vec<u8>>) -> (r: (Vec<u8>, Vec<usize>))
    ensures
        r.0@ == concatenated(column@),
        r.1@ == sample_sizes(column@),
        total(r.1@) == r.0@.len(),
{
    let mut data: Vec<u8> = Vec::new();
    let mut sizes: Vec<usize> = Vec::new();
    let mut i: usize = 0;
    while i < column.len()
        invariant
            i <= column@.len(),
            data@ == concatenated(column@.subrange(0, i as int)),
            sizes@ == sample_sizes(column@.subrange(0, i as int)),
            total(sizes@) == data@.len(),
        decreases column@.len() - i,
    {
        let value = &column[i];
        let ghost before = data@;
        let mut j: usize = 0;
        while j < value.len()
            invariant
                j <= value@.len(),
                data@ == before + value@.subrange(0, j as int),
            decreases value@.len() - j,
        {
            data.push(value[j]);
            j += 1;
        }
        assert(value@.subrange(0, j as int) == value@);
        sizes.push(value.len());
        assert(column@.subrange(0, i + 1).drop_last() == column@.subrange(0, i as int));
        assert(sizes@.drop_last() == sample_sizes(column@.subrange(0, i as int)));
        assert(sample_sizes(column@.subrange(0, i + 1)) =~= sizes@);
        i += 1;
    }
    assert(column@.subrange(0, i as int) == column@);
    (data, sizes)
}

impl Zstd {
    /// The engine's invariant: without dictionaries it is always ready and holds
    /// none; trained dictionaries exist only when ready, one per column, each
    /// bytes zstd can prepare for decoding.
    pub open spec fn wf(&self) -> bool {
        &&& (!self.use_dict_spec() ==> self.state_spec() == ZstdState::Ready
            && self.raw_dictionaries_spec() is None)
        &&& (self.raw_dictionaries_spec() matches Some(d) ==> d@.len() == self.columns_spec()
            && self.state_spec() == ZstdState::Ready && forall|i: int|
            0 <= i < d@.len() ==> is_usable(#[trigger] d@[i]@))
    }

    /// Readiness.
    pub closed spec fn state_spec(&self) -> ZstdState {
        self.state
    }

    /// Whether dictionaries are in use.
    pub closed spec fn use_dict_spec(&self) -> bool {
        self.use_dict
    }

    /// Largest dictionary to train.
    pub closed spec fn max_dict_size_spec(&self) -> usize {
        self.max_dict_size
    }

    /// Number of columns.
    pub closed spec fn columns_spec(&self) -> usize {
        self.columns
    }

    /// The trained dictionaries, if any.
    pub closed spec fn raw_dictionaries_spec(&self) -> Option<Vec<Vec<u8>>> {
        self.raw_dictionaries
    }

    /// Creates an engine; with dictionaries it waits for training.
    pub fn new(use_dict: bool, max_dict_size: usize, columns: usize) -> (r: Self)
        ensures
            r.wf(),
            r.use_dict_spec() == use_dict,
            r.max_dict_size_spec() == max_dict_size,
            r.columns_spec() == columns,
            r.raw_dictionaries_spec() is None,
            r.state_spec() == (if use_dict {
                ZstdState::PendingDictionary
            } else {
                ZstdState::Ready
            }),
    {
        Self {
            state: if use_dict {
                ZstdState::PendingDictionary
            } else {
                ZstdState::Ready
            },
            use_dict,
            max_dict_size,
            raw_dictionaries: None,
            columns,
        }
    }

    /// Rebuilds an engine from stored parts. `None` where the parts break the
    /// engine's invariant or zstd cannot prepare one of the dictionaries.
    #[verifier::loop_isolation(false)]
    pub fn from_stored(
        state: ZstdState,
        use_dict: bool,
        max_dict_size: usize,
        raw_dictionaries: Option<Vec<Vec<u8>>>,
        columns: usize,
    ) -> (r: Option<Self>)
        ensures
            r is Some <==> {
                &&& (!use_dict ==> state == ZstdState::Ready && raw_dictionaries is None)
                &&& (raw_dictionaries matches Some(d) ==> d@.len() == columns && state
                    == ZstdState::Ready && forall|i: int|
                    0 <= i < d@.len() ==> dictionary_loads(#[trigger] d@[i]@))
            },
            r matches Some(z) ==> z.wf() && z.state_spec() == state && z.use_dict_spec() == use_dict
                && z.max_dict_size_spec() == max_dict_size && z.raw_dictionaries_spec()
                == raw_dictionaries && z.columns_spec() == columns,
    {
        let ready = match state {
            ZstdState::Ready => true,
            ZstdState::PendingDictionary => false,
        };
        if !use_dict && (!ready || raw_dictionaries.is_some()) {
            return None;
        }
        match &raw_dictionaries {
            None => {},
            Some(d) => {
                if d.len() != columns || !ready {
                    return None;
                }
                let mut i: usize = 0;
                while i < d.len()
                    invariant
                        i <= d@.len(),
                        forall|k: int| 0 <= k < i ==> dictionary_loads(#[trigger] d@[k]@),
                    decreases d@.len() - i,
                {
                    if !dictionary_prepares(d[i].as_slice()) {
                        return None;
                    }
                    i += 1;
                }
            },
        }
        Some(Zstd { state, use_dict, max_dict_size, raw_dictionaries, columns })
    }

    /// Readiness.
    pub fn state(&self) -> (r: ZstdState)
        ensures
            r == self.state_spec(),
    {
        self.state
    }

    /// Whether dictionaries are in use.
    pub fn use_dict(&self) -> (r: bool)
        ensures
            r == self.use_dict_spec(),
    {
        self.use_dict
    }

    /// Largest dictionary to train, in bytes.
    pub fn max_dict_size(&self) -> (r: usize)
        ensures
            r == self.max_dict_size_spec(),
    {
        self.max_dict_size
    }

    /// Number of columns.
    pub fn columns(&self) -> (r: usize)
        ensures
            r == self.columns_spec(),
    {
        self.columns
    }

    /// The trained dictionaries, if any.
    pub fn raw_dictionaries(&self) -> (r: &Option<Vec<Vec<u8>>>)
        ensures
            *r == self.raw_dictionaries_spec(),
    {
        &self.raw_dictionaries
    }

    /// Whether compressors can be built.
    pub fn is_ready(&self) -> (r: bool)
        ensures
            r == (self.state_spec() == ZstdState::Ready),
    {
        match self.state {
            ZstdState::Ready => true,
            ZstdState::PendingDictionary => false,
        }
    }

    /// Trains one dictionary per column from its sample values, each into a
    /// buffer of `max_dict_size` bytes, and becomes `Ready`. Without dictionaries
    /// nothing is done.
    #[verifier::loop_isolation(false)]
    pub fn prepare_compression(&mut self, columns: Vec<Vec<Vec<u8>>>) -> (r: Result<
        (),
        NippyJarError,
    >)
        requires
            old(self).wf(),
            old(self).use_dict_spec() && columns@.len() == old(self).columns_spec() ==> old(self).max_dict_size_spec()
                <= isize::MAX,
        ensures
            final(self).wf(),
            final(self).use_dict_spec() == old(self).use_dict_spec(),
            final(self).max_dict_size_spec() == old(self).max_dict_size_spec(),
            final(self).columns_spec() == old(self).columns_spec(),
            !old(self).use_dict_spec() ==> r is Ok && *final(self) == *old(self),
            old(self).use_dict_spec() && columns@.len() != old(self).columns_spec() ==> (r matches Err(
                NippyJarError::ColumnLenMismatch(expected, actual)) && expected == old(self).columns_spec()
                && actual == columns@.len()),
            r is Err ==> *final(self) == *old(self),
            old(self).use_dict_spec() && columns@.len() == old(self).columns_spec() ==> (r is Ok <==> forall|
                i: int,
            |
                0 <= i < columns@.len() ==> #[trigger] trains(
                    concatenated(columns@[i]@),
                    sample_sizes(columns@[i]@),
                    old(self).max_dict_size_spec(),
                )),
            r is Err && old(self).use_dict_spec() && columns@.len() == old(self).columns_spec() ==> r matches Err(
                NippyJarError::Disconnect(_),
            ),
            old(self).use_dict_spec() && r is Ok ==> {
                &&& final(self).state_spec() == ZstdState::Ready
                &&& final(self).raw_dictionaries_spec() matches Some(d)
                &&& d@.len() == columns@.len()
                &&& forall|i: int|
                    0 <= i < d@.len() ==> #[trigger] d@[i]@ == trained_dictionary(
                        concatenated(columns@[i]@),
                        sample_sizes(columns@[i]@),
                        old(self).max_dict_size_spec(),
                    )
            },
    {
        if !self.use_dict {
            return Ok(());
        }
        if columns.len() != self.columns {
            return Err(NippyJarError::ColumnLenMismatch(self.columns, columns.len()));
        }
        let mut dictionaries: Vec<Vec<u8>> = Vec::new();
        let mut i: usize = 0;
        while i < columns.len()
            invariant
                i <= columns@.len(),
                dictionaries@.len() == i,
                forall|k: int|
                    0 <= k < i ==> #[trigger] dictionaries@[k]@ == trained_dictionary(
                        concatenated(columns@[k]@),
                        sample_sizes(columns@[k]@),
                        self.max_dict_size,
                    ) && trains(
                        concatenated(columns@[k]@),
                        sample_sizes(columns@[k]@),
                        self.max_dict_size,
                    ),
            decreases columns@.len() - i,
        {
            let (data, sizes) = concat_samples(&columns[i]);
            let mut buffer: Vec<u8> = vec![0u8; self.max_dict_size];
            match train_into(&mut buffer, data.as_slice(), sizes.as_slice()) {
                Ok(n) => {
                    buffer.truncate(n);
                    assert(buffer@ == trained_dictionary(data@, sizes@, self.max_dict_size));
                    dictionaries.push(buffer);
                },
                Err(code) => {
                    assert(!trains(
                        concatenated(columns@[i as int]@),
                        sample_sizes(columns@[i as int]@),
                        self.max_dict_size,
                    ));
                    return Err(NippyJarError::Disconnect(codec_error(code)));
                },
            }
            i += 1;
        }
        assert forall|k: int| 0 <= k < dictionaries@.len() implies is_usable(
            #[trigger] dictionaries@[k]@,
        ) by {
            let s = concatenated(columns@[k]@);
            let z = sample_sizes(columns@[k]@);
            assert(dictionaries@[k]@ == trained_dictionary(s, z, self.max_dict_size));
            assert(trains(s, z, self.max_dict_size));
        }
        assert forall|k: int| 0 <= k < columns@.len() implies #[trigger] trains(
            concatenated(columns@[k]@),
            sample_sizes(columns@[k]@),
            self.max_dict_size,
        ) by {
            assert(dictionaries@[k]@ == trained_dictionary(
                concatenated(columns@[k]@),
                sample_sizes(columns@[k]@),
                self.max_dict_size,
            ) && trains(
                concatenated(columns@[k]@),
                sample_sizes(columns@[k]@),
                self.max_dict_size,
            ));
        }
        self.raw_dictionaries = Some(dictionaries);
        self.state = ZstdState::Ready;
        Ok(())
    }

    /// Turns the trained dictionaries into decoding dictionaries, each with its own
    /// copy of the bytes. The trained dictionaries are taken out of the engine.
    pub fn generate_decompress_dictionaries(&mut self) -> (r: Option<Vec<ColumnDecoderDictionary>>)
        requires
            old(self).wf(),
        ensures
            final(self).wf(),
            final(self).raw_dictionaries_spec() is None,
            final(self).state_spec() == old(self).state_spec(),
            final(self).use_dict_spec() == old(self).use_dict_spec(),
            final(self).max_dict_size_spec() == old(self).max_dict_size_spec(),
            final(self).columns_spec() == old(self).columns_spec(),
            r is Some <==> old(self).raw_dictionaries_spec() is Some,
            r matches Some(v) ==> (old(self).raw_dictionaries_spec() matches Some(d) && v@.len()
                == d@.len() && forall|i: int|
                0 <= i < v@.len() ==> #[trigger] v@[i].dictionary() == d@[i]@),
    {
        match self.raw_dictionaries.take() {
            None => None,
            Some(dicts) => {
                let mut out: Vec<ColumnDecoderDictionary> = Vec::new();
                let mut i: usize = 0;
                while i < dicts.len()
                    invariant
                        i <= dicts@.len(),
                        out@.len() == i,
                        forall|k: int| 0 <= k < dicts@.len() ==> is_usable(#[trigger] dicts@[k]@),
                        forall|k: int| 0 <= k < i ==> #[trigger] out@[k].dictionary() == dicts@[k]@,
                    decreases dicts@.len() - i,
                {
                    let inner = decoder_dictionary_copy(dicts[i].as_slice());
                    out.push(ColumnDecoderDictionary::from_parts(inner, Ghost(dicts[i as int]@)));
                    i += 1;
                }
                Some(out)
            },
        }
    }

    /// Builds one decompressor per column, each bound to that column's decoding
    /// dictionary.
    pub fn generate_decompressors<'a>(&self, dictionaries: &'a [ColumnDecoderDictionary]) -> (r:
        Result<Vec<ColumnDecompressor<'a>>, NippyJarError>)
        requires
            dictionaries@.len() == self.columns_spec(),
        ensures
            r matches Ok(v) && v@.len() == dictionaries@.len() && forall|i: int|
                0 <= i < v@.len() ==> #[trigger] v@[i].dictionary() == dictionaries@[i].dictionary(),
    {
        let mut out: Vec<ColumnDecompressor<'a>> = Vec::new();
        let mut i: usize = 0;
        while i < dictionaries.len()
            invariant
                i <= dictionaries@.len(),
                out@.len() == i,
                forall|k: int|
                    0 <= k < i ==> #[trigger] out@[k].dictionary() == dictionaries@[k].dictionary(),
            decreases dictionaries@.len() - i,
        {
            let d = &dictionaries[i];
            match decompressor_with_prepared(d.prepared()) {
                Ok(inner) => out.push(ColumnDecompressor::from_parts(inner, Ghost(d.dictionary()))),
                Err(e) => return Err(NippyJarError::Disconnect(e)),
            }
            i += 1;
        }
        Ok(out)
    }

    /// Builds one compressor per trained dictionary. Fails with
    /// `CompressorNotReady` before training; without dictionaries there are none.
    #[verifier::loop_isolation(false)]
    pub fn generate_compressors(&self) -> (r: Result<
        Option<Vec<ColumnCompressor>>,
        NippyJarError,
    >)
        requires
            self.wf(),
        ensures
            self.state_spec() == ZstdState::PendingDictionary <==> r matches Err(
                NippyJarError::CompressorNotReady,
            ),
            self.state_spec() == ZstdState::Ready && self.raw_dictionaries_spec() is None ==> r matches Ok(None),
            self.state_spec() == ZstdState::Ready && !self.use_dict_spec() ==> r matches Ok(None),
            self.raw_dictionaries_spec() matches Some(d) ==> (r matches Ok(Some(v)) && v@.len() == d@.len()
                && forall|i: int| 0 <= i < v@.len() ==> #[trigger] v@[i].dictionary() == d@[i]@),
    {
        match self.state {
            ZstdState::PendingDictionary => Err(NippyJarError::CompressorNotReady),
            ZstdState::Ready => {
                if !self.use_dict {
                    return Ok(None);
                }
                match &self.raw_dictionaries {
                    None => Ok(None),
                    Some(dictionaries) => {
                        let mut cmp: Vec<ColumnCompressor> = Vec::new();
                        let mut i: usize = 0;
                        while i < dictionaries.len()
                            invariant
                                i <= dictionaries@.len(),
                                cmp@.len() == i,
                                forall|k: int|
                                    0 <= k < i ==> #[trigger] cmp@[k].dictionary()
                                        == dictionaries@[k]@,
                            decreases dictionaries@.len() - i,
                        {
                            match compressor_with_dictionary(dictionaries[i].as_slice()) {
                                Ok(inner) => cmp.push(
                                    ColumnCompressor::from_parts(
                                        inner,
                                        Ghost(dictionaries[i as int]@),
                                    ),
                                ),
                                Err(e) => return Err(NippyJarError::Disconnect(e)),
                            }
                            i += 1;
                        }
                        Ok(Some(cmp))
                    },
                }
            },
        }
    }

    /// Compresses one column value and appends it to `handle`. With a compressor,
    /// the value goes through `tmp_buf`, whose room grows by zstd's compress bound
    /// of the value × attempt after each failed try, and after
    /// `MAX_CODEC_ATTEMPTS` failed tries the codec's error is returned as
    /// `Disconnect`. Without a compressor the value is appended as it is.
    pub fn compress_with_dictionary(
        column_value: &[u8],
        tmp_buf: &mut Vec<u8>,
        handle: &mut Vec<u8>,
        compressor: Option<&mut ColumnCompressor>,
    ) -> (r: Result<(), NippyJarError>)
        ensures
            compressor is None ==> r is Ok && final(handle)@ == old(handle)@ + column_value@
                && final(tmp_buf)@ == old(tmp_buf)@,
            r is Err ==> (r matches Err(NippyJarError::Disconnect(_))) && compressor is Some
                && final(handle)@ == old(handle)@,
            compressor matches Some(c) ==> (r is Ok ==> final(tmp_buf)@.len() == 0 && final(handle)@.len()
                >= old(handle)@.len() && final(handle)@.subrange(0, old(handle)@.len() as int)
                == old(handle)@ && dict_decodes(
                c.dictionary(),
                final(handle)@.subrange(old(handle)@.len() as int, final(handle)@.len() as int),
            ) && dict_decoded(
                c.dictionary(),
                final(handle)@.subrange(old(handle)@.len() as int, final(handle)@.len() as int),
            ) == column_value@),
    {
        match compressor {
            Some(c) => {
                let ghost dict = c.dictionary();
                let base = compress_bound(column_value.len());
                let mut attempt: usize = 1;
                loop
                    invariant_except_break
                        handle@ == old(handle)@,
                    invariant
                        1 <= attempt <= MAX_CODEC_ATTEMPTS,
                        compressor matches Some(c0) && c0.dictionary() == dict,
                        c.dictionary() == dict,
                        handle@ == old(handle)@,
                    ensures
                        dict_decodes(dict, tmp_buf@),
                        dict_decoded(dict, tmp_buf@) == column_value@,
                    decreases MAX_CODEC_ATTEMPTS - attempt,
                {
                    let tried = compress_into(c, column_value, tmp_buf);
                    match retry_step(tried.is_ok(), base, attempt) {
                        RetryStep::Done => break,
                        RetryStep::GiveUp => {
                            return match tried {
                                Ok(_) => Ok(()),
                                Err(err) => Err(NippyJarError::Disconnect(err)),
                            };
                        },
                        RetryStep::Reserve(additional) => {
                            let _ = tmp_buf.try_reserve(additional);
                            attempt += 1;
                        },
                    }
                }
                let ghost block = tmp_buf@;
                handle.extend_from_slice(tmp_buf.as_slice());
                tmp_buf.clear();
                assert(handle@ =~= old(handle)@ + block);
                assert(handle@.subrange(old(handle)@.len() as int, handle@.len() as int) =~= block);
                assert(handle@.subrange(0, old(handle)@.len() as int) =~= old(handle)@);
            },
            None => {
                handle.extend_from_slice(column_value);
                assert(handle@ =~= old(handle)@ + column_value@);
            },
        }
        Ok(())
    }

    /// Decompresses one column value into `output`, which holds exactly the
    /// decompressed bytes afterwards. Room for twice the compressed length is
    /// made first; after each failed try the room grows by the codec's size
    /// estimate (or that first estimate) × attempt, and after `MAX_CODEC_ATTEMPTS`
    /// failed tries the codec's error is returned as `Disconnect`.
    pub fn decompress_with_dictionary(
        column_value: &[u8],
        output: &mut Vec<u8>,
        decompressor: &mut ColumnDecompressor<'_>,
    ) -> (r: Result<(), NippyJarError>)
        ensures
            final(decompressor).dictionary() == old(decompressor).dictionary(),
            r is Ok ==> final(output)@ == dict_decoded(old(decompressor).dictionary(), column_value@),
            !dict_decodes(old(decompressor).dictionary(), column_value@) ==> r is Err,
            r is Err ==> (r matches Err(NippyJarError::Disconnect(_))) && final(output)@.len()
                == old(output)@.len(),
    {
        let required_capacity = growth_reservation(column_value.len(), 2);
        let capacity = capacity_of(output);
        let additional: usize = if required_capacity > capacity {
            required_capacity - capacity
        } else {
            0
        };
        let _ = output.try_reserve(additional);
        let mut attempt: usize = 1;
        loop
            invariant_except_break
                output@.len() == old(output)@.len(),
            invariant
                1 <= attempt <= MAX_CODEC_ATTEMPTS,
                decompressor.dictionary() == old(decompressor).dictionary(),
            ensures
                output@ == dict_decoded(old(decompressor).dictionary(), column_value@),
                dict_decodes(old(decompressor).dictionary(), column_value@),
                decompressor.dictionary() == old(decompressor).dictionary(),
            decreases MAX_CODEC_ATTEMPTS - attempt,
        {
            let tried = decompress_into(decompressor, column_value, output);
            let estimate = match decompressed_upper_bound(column_value) {
                Some(bound) => bound,
                None => required_capacity,
            };
            match retry_step(tried.is_ok(), estimate, attempt) {
                RetryStep::Done => break,
                RetryStep::GiveUp => {
                    return match tried {
                        Ok(_) => Ok(()),
                        Err(err) => Err(NippyJarError::Disconnect(err)),
                    };
                },
                RetryStep::Reserve(additional) => {
                    let _ = output.try_reserve(additional);
                    attempt += 1;
                },
            }
        }
        Ok(())
    }

    /// Compresses `src` as one self-describing zstd frame at the default level and
    /// appends it to `dest`; the frame decodes back to `src`.
    pub fn compress_to(&self, src: &[u8], dest: &mut Vec<u8>) -> (r: Result<(), NippyJarError>)
        ensures
            r is Ok,
            final(dest)@ == old(dest)@ + frame_encoded(src@),
            frame_decodes(frame_encoded(src@)),
            frame_decoded(frame_encoded(src@)) == src@,
    {
        match encode_frame(src) {
            Ok(mut encoded) => {
                dest.append(&mut encoded);
                Ok(())
            },
            Err(e) => Err(NippyJarError::Disconnect(e)),
        }
    }

    /// Decodes a self-describing zstd stream in full, whatever its decoded size.
    pub fn decompress(&self, value: &[u8]) -> (r: Result<Vec<u8>, NippyJarError>)
        ensures
            r is Ok <==> frame_decodes(value@),
            r matches Ok(d) ==> d@ == frame_decoded(value@),
            r is Err ==> r matches Err(NippyJarError::Disconnect(_)),
    {
        match decode_frame(value) {
            Ok(decoded) => Ok(decoded),
            Err(e) => Err(NippyJarError::Disconnect(e)),
        }
    }
}

} // verus!
