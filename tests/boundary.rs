use agc::{
    collect_names, length_outcome, open_request, reference_outcome, sequence_buffer,
    sequence_outcome, to_c_text, to_c_text_opt, AgcError, AgcFile,
};

#[test]
fn c_text_appends_terminator() {
    let b = to_c_text("chr1").expect("plain text converts");
    assert_eq!(b, vec![b'c', b'h', b'r', b'1', 0]);
}

#[test]
fn c_text_of_empty_is_terminator_only() {
    assert_eq!(to_c_text("").expect("empty text converts"), vec![0u8]);
}

#[test]
fn c_text_keeps_multibyte_utf8() {
    assert_eq!(to_c_text("é").expect("converts"), vec![0xC3, 0xA9, 0]);
}

#[test]
fn c_text_rejects_embedded_nul() {
    match to_c_text("chr\0x") {
        Err(AgcError::Encoding { text }) => assert_eq!(text, "chr\0x"),
        other => panic!("expected an encoding error, got {:?}", other),
    }
}

#[test]
fn optional_c_text_passes_none_through() {
    assert!(matches!(to_c_text_opt(None), Ok(None)));
    assert!(matches!(to_c_text_opt(Some("s\0")), Err(AgcError::Encoding { .. })));
    assert_eq!(to_c_text_opt(Some("s")).expect("converts"), Some(vec![b's', 0]));
}

#[test]
fn open_request_sets_prefetch_flag() {
    let (b, flag) = open_request("a.agc", true).expect("valid path");
    assert_eq!(b, b"a.agc\0".to_vec());
    assert_eq!(flag, 1);
    let (_, flag) = open_request("a.agc", false).expect("valid path");
    assert_eq!(flag, 0);
}

#[test]
fn open_request_rejects_nul_in_path() {
    assert!(matches!(open_request("a\0.agc", true), Err(AgcError::Encoding { .. })));
}

#[test]
fn null_handle_is_an_open_error() {
    match AgcFile::<u32>::from_native("nonexistent.agc", None) {
        Err(AgcError::Open { path }) => assert_eq!(path, "nonexistent.agc"),
        Err(e) => panic!("expected an open error, got {:?}", e),
        Ok(_) => panic!("a null handle must not open"),
    }
}

#[test]
fn close_releases_handle_once() {
    let mut f = AgcFile::from_native("test.agc", Some(7u32)).expect("handle present");
    assert!(f.is_open_now());
    assert_eq!(*f.native().expect("open file answers"), 7);
    assert_eq!(f.close(), Some(7));
    assert!(!f.is_open_now());
    assert_eq!(f.close(), None);
}

#[test]
fn closed_file_refuses_queries() {
    let mut f = AgcFile::from_native("test.agc", Some(1u8)).expect("handle present");
    f.close();
    assert!(matches!(f.native(), Err(AgcError::Closed)));
}

#[test]
fn buffer_holds_one_byte_more_than_range() {
    let b = sequence_buffer(10, 50);
    assert_eq!(b.len(), 41);
    assert!(b.iter().all(|x| *x == 0));
    assert_eq!(sequence_buffer(5, 5).len(), 1);
}

#[test]
fn range_of_forty_bases_yields_forty_bases() {
    let mut buf = sequence_buffer(10, 50);
    for (i, x) in buf.iter_mut().take(40).enumerate() {
        *x = b"ACGT"[i % 4];
    }
    let seq = sequence_outcome(40, buf, Some("s1"), "chr1", 10, 50).expect("fetched");
    assert_eq!(seq.len(), 40);
    assert_eq!(&seq[..8], "ACGTACGT");
}

#[test]
fn negative_code_is_fetch_failure() {
    let buf = sequence_buffer(0, 100);
    match sequence_outcome(-1, buf, None, "nonexistent_contig", 0, 100) {
        Err(AgcError::SequenceFetchFailed { sample, name, start, end }) => {
            assert_eq!(sample, None);
            assert_eq!(name, "nonexistent_contig");
            assert_eq!((start, end), (0, 100));
        }
        other => panic!("expected a fetch failure, got {:?}", other),
    }
}

#[test]
fn code_past_buffer_is_fetch_failure() {
    let buf = sequence_buffer(0, 3);
    let r = sequence_outcome(5, buf, Some("s"), "c", 0, 3);
    assert!(matches!(r, Err(AgcError::SequenceFetchFailed { .. })));
}

#[test]
fn zero_written_is_empty_sequence() {
    let buf = sequence_buffer(0, 3);
    assert_eq!(sequence_outcome(0, buf, None, "c", 0, 3).expect("fetched"), "");
}

#[test]
fn invalid_utf8_is_decoding_error() {
    let buf = vec![b'A', 0xFF, b'C'];
    assert!(matches!(sequence_outcome(3, buf, None, "c", 0, 2), Err(AgcError::Decoding)));
}

#[test]
fn length_code_maps_to_length_or_not_found() {
    assert_eq!(length_outcome(1234, Some("s"), "chr1").expect("found"), 1234);
    assert_eq!(length_outcome(0, None, "chr1").expect("found"), 0);
    match length_outcome(-1, Some("s"), "chrX") {
        Err(AgcError::NotFound { sample, name }) => {
            assert_eq!(sample.as_deref(), Some("s"));
            assert_eq!(name, "chrX");
        }
        other => panic!("expected not found, got {:?}", other),
    }
}

#[test]
fn reference_name_or_missing() {
    assert!(matches!(reference_outcome(None), Err(AgcError::NoReferenceSample)));
    assert_eq!(reference_outcome(Some(b"ref".to_vec())).expect("present"), "ref");
}

#[test]
fn reference_name_is_decoded_lossily() {
    let name = reference_outcome(Some(vec![b'r', 0xFF])).expect("present");
    assert_eq!(name, "r\u{FFFD}");
}

#[test]
fn null_list_is_list_failure() {
    assert!(matches!(collect_names(None), Err(AgcError::ListFailed)));
}

#[test]
fn list_keeps_order_and_skips_null_entries() {
    let entries = vec![Some(b"HG002".to_vec()), None, Some(b"HG001".to_vec())];
    let names = collect_names(Some(entries)).expect("listed");
    assert_eq!(names, vec!["HG002".to_string(), "HG001".to_string()]);
}

#[test]
fn list_without_nulls_matches_reported_count() {
    let entries = vec![Some(b"a".to_vec()), Some(b"b".to_vec()), Some(b"c".to_vec())];
    let count = entries.len();
    assert_eq!(collect_names(Some(entries)).expect("listed").len(), count);
    assert!(collect_names(Some(Vec::new())).expect("listed").is_empty());
}

#[test]
fn list_entries_decode_lossily() {
    let names = collect_names(Some(vec![Some(vec![0xC3, b'x'])])).expect("listed");
    assert_eq!(names, vec!["\u{FFFD}x".to_string()]);
}

#[test]
fn same_engine_output_gives_same_results() {
    let make = || vec![Some(b"s1".to_vec()), Some(b"s2".to_vec())];
    assert_eq!(collect_names(Some(make())).unwrap(), collect_names(Some(make())).unwrap());
    let buf = || b"ACGTN\0".to_vec();
    assert_eq!(
        sequence_outcome(5, buf(), Some("s1"), "c", 0, 5).unwrap(),
        sequence_outcome(5, buf(), Some("s1"), "c", 0, 5).unwrap()
    );
}
