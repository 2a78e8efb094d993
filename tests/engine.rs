use nippy_jar::{
    compress_bound, concat_samples, growth_reservation, next_reservation, retry_step, RetryStep, NippyJarError, Zstd, ZstdState, MAX_CODEC_ATTEMPTS,
};

fn samples(prefix: &str, n: usize) -> Vec<Vec<u8>> {
    (0..n)
        .map(|i| format!("{prefix}-record-{}-{}-payload", i % 17, i * 7919 % 1000).into_bytes())
        .collect()
}

fn trained_engine() -> (Zstd, Vec<Vec<Vec<u8>>>) {
    let mut engine = Zstd::new(true, 4096, 2);
    let columns = vec![samples("aaa", 600), samples("xyz", 600)];
    engine.prepare_compression(columns.clone()).expect("training");
    (engine, columns)
}

#[test]
fn new_with_dictionaries_waits_for_training() {
    let engine = Zstd::new(true, 1024, 3);
    assert_eq!(engine.state(), ZstdState::PendingDictionary);
    assert!(!engine.is_ready());
    assert!(engine.raw_dictionaries().is_none());
    assert_eq!(engine.columns(), 3);
    assert_eq!(engine.max_dict_size(), 1024);
}

#[test]
fn new_without_dictionaries_is_ready() {
    let engine = Zstd::new(false, 1024, 3);
    assert_eq!(engine.state(), ZstdState::Ready);
    assert!(engine.is_ready());
}

#[test]
fn compressors_refused_before_training() {
    let engine = Zstd::new(true, 1024, 2);
    assert!(matches!(engine.generate_compressors(), Err(NippyJarError::CompressorNotReady)));
}

#[test]
fn compressors_absent_without_dictionaries() {
    let engine = Zstd::new(false, 1024, 2);
    assert!(matches!(engine.generate_compressors(), Ok(None)));
}

#[test]
fn training_with_wrong_column_count_is_refused() {
    let mut engine = Zstd::new(true, 1024, 2);
    let r = engine.prepare_compression(vec![samples("a", 10)]);
    assert!(matches!(r, Err(NippyJarError::ColumnLenMismatch(2, 1))));
    assert_eq!(engine.state(), ZstdState::PendingDictionary);
    assert!(engine.raw_dictionaries().is_none());
    let r = engine.prepare_compression(vec![samples("a", 10), samples("b", 10), samples("c", 10)]);
    assert!(matches!(r, Err(NippyJarError::ColumnLenMismatch(2, 3))));
    assert_eq!(engine.state(), ZstdState::PendingDictionary);
}

#[test]
fn training_without_dictionaries_does_nothing() {
    let mut engine = Zstd::new(false, 1024, 2);
    assert!(engine.prepare_compression(vec![]).is_ok());
    assert_eq!(engine.state(), ZstdState::Ready);
    assert!(engine.raw_dictionaries().is_none());
}

#[test]
fn too_few_samples_leave_engine_pending() {
    let mut engine = Zstd::new(true, 1024, 2);
    let columns = vec![vec![b"aaa".to_vec(), b"aaab".to_vec()], vec![b"xyz".to_vec()]];
    let r = engine.prepare_compression(columns);
    assert!(matches!(r, Err(NippyJarError::Disconnect(_))));
    assert_eq!(engine.state(), ZstdState::PendingDictionary);
    assert!(engine.raw_dictionaries().is_none());
}

#[test]
fn two_column_scenario() {
    let (mut engine, _) = trained_engine();
    assert_eq!(engine.state(), ZstdState::Ready);
    assert_eq!(engine.raw_dictionaries().as_ref().map(|d| d.len()), Some(2));
    let (concatenated, _) = concat_samples(&samples("aaa", 600));
    let first = &engine.raw_dictionaries().as_ref().unwrap()[0];
    assert!(!first.is_empty());
    assert!(first.len() <= 4096);
    assert_ne!(first, &concatenated);
    let mut compressors = engine.generate_compressors().unwrap().unwrap();
    assert_eq!(compressors.len(), 2);

    let mut tmp = Vec::with_capacity(1_000_000);
    let mut sink = Vec::new();
    Zstd::compress_with_dictionary(b"aaab", &mut tmp, &mut sink, Some(&mut compressors[0]))
        .unwrap();
    assert!(tmp.is_empty());
    assert!(!sink.is_empty());

    let dictionaries = engine.generate_decompress_dictionaries().unwrap();
    assert_eq!(dictionaries.len(), 2);
    assert!(engine.raw_dictionaries().is_none());
    let mut decompressors = engine.generate_decompressors(&dictionaries).unwrap();
    assert_eq!(decompressors.len(), 2);
    let mut out = Vec::new();
    Zstd::decompress_with_dictionary(&sink, &mut out, &mut decompressors[0]).unwrap();
    assert_eq!(out, b"aaab".to_vec());
}

#[test]
fn dictionary_round_trip_for_many_values() {
    let (mut engine, columns) = trained_engine();
    let mut compressors = engine.generate_compressors().unwrap().unwrap();
    let dictionaries = engine.generate_decompress_dictionaries().unwrap();
    let mut decompressors = engine.generate_decompressors(&dictionaries).unwrap();
    let mut tmp = Vec::with_capacity(1_000_000);
    for (c, column) in columns.iter().enumerate() {
        for value in column.iter().take(50) {
            let mut sink = Vec::new();
            Zstd::compress_with_dictionary(value, &mut tmp, &mut sink, Some(&mut compressors[c]))
                .unwrap();
            let mut out = Vec::new();
            Zstd::decompress_with_dictionary(&sink, &mut out, &mut decompressors[c]).unwrap();
            assert_eq!(&out, value);
        }
    }
}

#[test]
fn dictionary_round_trip_of_empty_value() {
    let (mut engine, _) = trained_engine();
    let mut compressors = engine.generate_compressors().unwrap().unwrap();
    let dictionaries = engine.generate_decompress_dictionaries().unwrap();
    let mut decompressors = engine.generate_decompressors(&dictionaries).unwrap();
    let mut tmp = Vec::with_capacity(1_000_000);
    let mut sink = Vec::new();
    Zstd::compress_with_dictionary(b"", &mut tmp, &mut sink, Some(&mut compressors[1])).unwrap();
    let mut out = vec![9u8; 3];
    Zstd::decompress_with_dictionary(&sink, &mut out, &mut decompressors[1]).unwrap();
    assert!(out.is_empty());
}

#[test]
fn compressed_values_are_appended_to_the_sink() {
    let (engine, _) = trained_engine();
    let mut compressors = engine.generate_compressors().unwrap().unwrap();
    let mut tmp = Vec::with_capacity(1_000_000);
    let mut sink = b"head".to_vec();
    Zstd::compress_with_dictionary(b"aaab", &mut tmp, &mut sink, Some(&mut compressors[0]))
        .unwrap();
    assert!(sink.starts_with(b"head"));
    assert!(sink.len() > 4);
    assert!(tmp.is_empty());
}

#[test]
fn passthrough_without_compressor() {
    let mut tmp = vec![1u8];
    let mut sink = b"ab".to_vec();
    Zstd::compress_with_dictionary(b"cde", &mut tmp, &mut sink, None).unwrap();
    assert_eq!(sink, b"abcde".to_vec());
    assert_eq!(tmp, vec![1u8]);
}

#[test]
fn corrupt_input_fails_with_disconnect() {
    let (mut engine, _) = trained_engine();
    let dictionaries = engine.generate_decompress_dictionaries().unwrap();
    let mut decompressors = engine.generate_decompressors(&dictionaries).unwrap();
    let mut out = Vec::new();
    let r = Zstd::decompress_with_dictionary(b"not a zstd frame", &mut out, &mut decompressors[0]);
    assert!(matches!(r, Err(NippyJarError::Disconnect(_))));
    assert!(out.is_empty());
}

#[test]
fn large_value_round_trips_within_attempt_cap() {
    let (mut engine, _) = trained_engine();
    let mut compressors = engine.generate_compressors().unwrap().unwrap();
    let dictionaries = engine.generate_decompress_dictionaries().unwrap();
    let mut decompressors = engine.generate_decompressors(&dictionaries).unwrap();
    let value: Vec<u8> = (0..10_000_000u32).map(|i| (i % 251) as u8 ^ (i / 1000) as u8).collect();
    let mut tmp = Vec::with_capacity(1_000_000);
    let mut sink = Vec::new();
    Zstd::compress_with_dictionary(&value, &mut tmp, &mut sink, Some(&mut compressors[0])).unwrap();
    let mut out = Vec::new();
    Zstd::decompress_with_dictionary(&sink, &mut out, &mut decompressors[0]).unwrap();
    assert_eq!(out, value);
}

#[test]
fn incompressible_value_grows_scratch_buffer() {
    let (engine, _) = trained_engine();
    let mut compressors = engine.generate_compressors().unwrap().unwrap();
    let mut state: u32 = 12345;
    let value: Vec<u8> = (0..64)
        .map(|_| {
            state = state.wrapping_mul(1103515245).wrapping_add(12345);
            (state >> 16) as u8
        })
        .collect();
    let mut tmp = Vec::new();
    let mut sink = Vec::new();
    Zstd::compress_with_dictionary(&value, &mut tmp, &mut sink, Some(&mut compressors[0])).unwrap();
    assert!(sink.len() > value.len());
}

#[test]
fn stream_round_trip() {
    let engine = Zstd::new(false, 0, 1);
    for value in [Vec::new(), b"hello hello hello".to_vec(), vec![7u8; 100_000]] {
        let mut dest = b"xy".to_vec();
        engine.compress_to(&value, &mut dest).unwrap();
        assert_eq!(&dest[..2], b"xy");
        assert_ne!(dest[2..].to_vec(), value);
        assert_eq!(engine.decompress(&dest[2..]).unwrap(), value);
    }
}

#[test]
fn stream_round_trip_with_dictionary_engine() {
    let (engine, _) = trained_engine();
    let value = b"some bytes that are not in any column".repeat(40);
    let mut dest = Vec::new();
    engine.compress_to(&value, &mut dest).unwrap();
    assert!(dest.len() < value.len());
    assert_eq!(engine.decompress(&dest).unwrap(), value);
}

#[test]
fn stream_decompress_of_garbage_fails() {
    let engine = Zstd::new(false, 0, 1);
    assert!(matches!(engine.decompress(b"garbage!"), Err(NippyJarError::Disconnect(_))));
}

#[test]
fn samples_are_concatenated_with_sizes() {
    let column = vec![b"aaa".to_vec(), b"aaab".to_vec(), Vec::new(), b"z".to_vec()];
    let (data, sizes) = concat_samples(&column);
    assert_eq!(data, b"aaaaaabz".to_vec());
    assert_eq!(sizes, vec![3, 4, 0, 1]);
    let (data, sizes) = concat_samples(&Vec::new());
    assert!(data.is_empty());
    assert!(sizes.is_empty());
}

#[test]
fn growth_is_length_times_attempt() {
    assert_eq!(growth_reservation(10, 1), 10);
    assert_eq!(growth_reservation(10, 4), 40);
    assert_eq!(growth_reservation(0, 3), 0);
    assert_eq!(growth_reservation(usize::MAX / 2 + 1, 2), usize::MAX);
    assert_eq!(MAX_CODEC_ATTEMPTS, 5);
}

#[test]
fn empty_scratch_buffer_grows_for_tiny_and_empty_values() {
    let (mut engine, _) = trained_engine();
    let mut compressors = engine.generate_compressors().unwrap().unwrap();
    let dictionaries = engine.generate_decompress_dictionaries().unwrap();
    let mut decompressors = engine.generate_decompressors(&dictionaries).unwrap();
    for value in [b"aaab".to_vec(), Vec::new()] {
        let mut tmp = Vec::new();
        let mut sink = b"kept".to_vec();
        Zstd::compress_with_dictionary(&value, &mut tmp, &mut sink, Some(&mut compressors[0]))
            .unwrap();
        assert!(sink.starts_with(b"kept"));
        let mut out = Vec::new();
        Zstd::decompress_with_dictionary(&sink[4..], &mut out, &mut decompressors[0]).unwrap();
        assert_eq!(out, value);
    }
}

#[test]
fn compress_bound_matches_zstd() {
    assert_eq!(compress_bound(0), 64);
    assert_eq!(compress_bound(4), 67);
    assert_eq!(compress_bound(131072), 131072 + 512);
    for n in [0usize, 1, 100, 5000, 131071, 131072, 1 << 20] {
        assert_eq!(compress_bound(n), zstd::zstd_safe::compress_bound(n));
    }
}

#[test]
fn retries_stop_after_the_last_attempt() {
    assert_eq!(next_reservation(7, 1), Some(7));
    assert_eq!(next_reservation(7, 4), Some(28));
    assert_eq!(next_reservation(7, MAX_CODEC_ATTEMPTS), None);
    assert_eq!(next_reservation(usize::MAX, 3), Some(usize::MAX));
}

#[test]
fn retry_step_decides_after_each_try() {
    assert_eq!(retry_step(true, 10, 1), RetryStep::Done);
    assert_eq!(retry_step(true, 10, MAX_CODEC_ATTEMPTS), RetryStep::Done);
    assert_eq!(retry_step(false, 10, 3), RetryStep::Reserve(30));
    assert_eq!(retry_step(false, 10, MAX_CODEC_ATTEMPTS), RetryStep::GiveUp);
}

#[test]
fn non_block_input_fails_to_decompress() {
    let (mut engine, _) = trained_engine();
    let dictionaries = engine.generate_decompress_dictionaries().unwrap();
    let mut decompressors = engine.generate_decompressors(&dictionaries).unwrap();
    let mut out = vec![1u8, 2];
    let r = Zstd::decompress_with_dictionary(b"abc", &mut out, &mut decompressors[1]);
    assert!(matches!(r, Err(NippyJarError::Disconnect(_))));
    assert_eq!(out.len(), 2);
}

#[test]
fn engine_restored_from_parts_decompresses() {
    let (engine, _) = trained_engine();
    let mut compressors = engine.generate_compressors().unwrap().unwrap();
    let mut tmp = Vec::new();
    let mut sink = Vec::new();
    Zstd::compress_with_dictionary(b"aaab", &mut tmp, &mut sink, Some(&mut compressors[0]))
        .unwrap();
    let mut restored = Zstd::from_stored(
        engine.state(),
        engine.use_dict(),
        engine.max_dict_size(),
        engine.raw_dictionaries().clone(),
        engine.columns(),
    )
    .unwrap();
    let dictionaries = restored.generate_decompress_dictionaries().unwrap();
    let mut decompressors = restored.generate_decompressors(&dictionaries).unwrap();
    let mut out = Vec::new();
    Zstd::decompress_with_dictionary(&sink, &mut out, &mut decompressors[0]).unwrap();
    assert_eq!(out, b"aaab".to_vec());
}

#[test]
fn inconsistent_stored_parts_are_refused() {
    assert!(Zstd::from_stored(ZstdState::PendingDictionary, false, 0, None, 1).is_none());
    assert!(Zstd::from_stored(ZstdState::Ready, true, 0, Some(vec![]), 1).is_none());
    assert!(Zstd::from_stored(ZstdState::PendingDictionary, true, 0, Some(vec![vec![]]), 1)
        .is_none());
    let mut bad = vec![0x37u8, 0xA4, 0x30, 0xEC];
    bad.extend_from_slice(&[0xFF; 60]);
    assert!(Zstd::from_stored(ZstdState::Ready, true, 0, Some(vec![bad]), 1).is_none());
    assert!(Zstd::from_stored(ZstdState::Ready, false, 0, None, 1).is_some());
    assert!(Zstd::from_stored(ZstdState::PendingDictionary, true, 0, None, 1).is_some());
}
