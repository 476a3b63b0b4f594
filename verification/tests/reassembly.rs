use safebox_client::error::CoreError;
use safebox_client::reassembly::assemble;
use safebox_client::reassembly::fill_empty;
use safebox_client::reassembly::reserve_slots;
use safebox_client::reassembly::is_complete;
use safebox_client::reassembly::FragmentOutcome;
use safebox_client::reassembly::SessionTable;
use safebox_client::reassembly::MAX_CHUNKS;
use safebox_client::types::Chunk;
use safebox_client::types::ChunkMetadata;
use safebox_client::types::UploadFilePayload;

#[allow(deprecated)]
fn fragment(upload_id: &str, index: usize, total: usize, bytes: &[u8]) -> Chunk {
    Chunk {
        msg_type: "chunk".to_string(),
        metadata: ChunkMetadata {
            filename: "report.pdf".to_string(),
            mime_type: "application/pdf".to_string(),
            chunk_index: index,
            total_chunks: total,
            upload_id: upload_id.to_string(),
        },
        data: base64::encode(bytes),
    }
}

fn piece(index: usize, len: usize) -> Vec<u8> {
    (0..len).map(|k| (index * 16 + k) as u8).collect()
}

#[test]
fn three_fragments_out_of_order_assemble_in_index_order() {
    let mut table = SessionTable::new();
    let first = table.accept_fragment(&fragment("u1", 2, 3, &piece(2, 10)));
    assert_eq!(first, FragmentOutcome::Stored { chunk_index: 2 });
    assert_eq!(table.len(), 1);
    let second = table.accept_fragment(&fragment("u1", 0, 3, &piece(0, 10)));
    assert_eq!(second, FragmentOutcome::Stored { chunk_index: 0 });
    let third = table.accept_fragment(&fragment("u1", 1, 3, &piece(1, 10)));
    let mut expected = piece(0, 10);
    expected.extend(piece(1, 10));
    expected.extend(piece(2, 10));
    assert_eq!(expected.len(), 30);
    assert_eq!(
        third,
        FragmentOutcome::Completed {
            chunk_index: 1,
            payload: UploadFilePayload {
                name: "report.pdf".to_string(),
                mime_type: "application/pdf".to_string(),
                data: expected,
            },
        }
    );
    assert_eq!(table.len(), 0);
    assert!(!table.contains(&"u1".to_string()));
}

#[test]
fn every_order_of_four_pieces_gives_the_same_file() {
    let parts: Vec<Vec<u8>> = vec![piece(0, 3), piece(1, 0), piece(2, 7), piece(3, 1)];
    let whole: Vec<u8> = parts.iter().flatten().copied().collect();
    let orders: [[usize; 4]; 5] =
        [[0, 1, 2, 3], [3, 2, 1, 0], [1, 3, 0, 2], [2, 0, 3, 1], [3, 0, 1, 2]];
    for order in orders.iter() {
        let mut table = SessionTable::new();
        for (k, &i) in order.iter().enumerate() {
            let out = table.accept_fragment(&fragment("file", i, 4, &parts[i]));
            if k < 3 {
                assert_eq!(out, FragmentOutcome::Stored { chunk_index: i });
            } else {
                match out {
                    FragmentOutcome::Completed { chunk_index, payload } => {
                        assert_eq!(chunk_index, i);
                        assert_eq!(payload.data, whole);
                    }
                    other => panic!("not completed: {:?}", other),
                }
            }
        }
        assert_eq!(table.len(), 0);
    }
}

#[test]
fn single_fragment_upload_completes_at_once() {
    let mut table = SessionTable::new();
    let out = table.accept_fragment(&fragment("one", 0, 1, b"hello"));
    match out {
        FragmentOutcome::Completed { chunk_index, payload } => {
            assert_eq!(chunk_index, 0);
            assert_eq!(payload.data, b"hello".to_vec());
            assert_eq!(payload.name, "report.pdf");
            assert_eq!(payload.mime_type, "application/pdf");
        }
        other => panic!("not completed: {:?}", other),
    }
    assert_eq!(table.len(), 0);
}

#[test]
fn payload_is_decoded_not_copied() {
    let mut table = SessionTable::new();
    let mut chunk = fragment("b64", 0, 1, b"");
    chunk.data = "aGVsbG8gd29ybGQ=".to_string();
    match table.accept_fragment(&chunk) {
        FragmentOutcome::Completed { payload, .. } => {
            assert_eq!(payload.data, b"hello world".to_vec());
        }
        other => panic!("not completed: {:?}", other),
    }
}

#[test]
fn zero_total_is_rejected_and_changes_nothing() {
    let mut table = SessionTable::new();
    table.accept_fragment(&fragment("keep", 0, 2, b"x"));
    let before = table.clone();
    let out = table.accept_fragment(&fragment("u", 0, 0, b"abc"));
    assert_eq!(out, FragmentOutcome::Rejected(CoreError::InvalidChunkMetadata));
    assert_eq!(table, before);
}

#[test]
fn index_at_or_past_total_is_rejected_and_changes_nothing() {
    let mut table = SessionTable::new();
    table.accept_fragment(&fragment("u", 0, 3, b"x"));
    let before = table.clone();
    let at = table.accept_fragment(&fragment("u", 3, 3, b"abc"));
    assert_eq!(at, FragmentOutcome::Rejected(CoreError::InvalidChunkMetadata));
    let past = table.accept_fragment(&fragment("v", 9, 3, b"abc"));
    assert_eq!(past, FragmentOutcome::Rejected(CoreError::InvalidChunkMetadata));
    assert_eq!(table, before);
}

#[test]
fn total_above_the_ceiling_is_rejected() {
    let mut table = SessionTable::new();
    let out = table.accept_fragment(&fragment("big", 0, MAX_CHUNKS + 1, b"abc"));
    assert_eq!(out, FragmentOutcome::Rejected(CoreError::InvalidChunkMetadata));
    assert_eq!(table.len(), 0);
    assert_eq!(MAX_CHUNKS, 100_000);
}

#[test]
fn total_at_the_ceiling_is_accepted() {
    let mut table = SessionTable::new();
    let out = table.accept_fragment(&fragment("big", MAX_CHUNKS - 1, MAX_CHUNKS, b"abc"));
    assert_eq!(out, FragmentOutcome::Stored { chunk_index: MAX_CHUNKS - 1 });
    assert_eq!(table.len(), 1);
    assert_eq!(table.session(&"big".to_string()).unwrap().slots.len(), MAX_CHUNKS);
}

#[test]
fn index_outside_the_session_created_earlier_is_rejected() {
    let mut table = SessionTable::new();
    table.accept_fragment(&fragment("u", 0, 2, b"x"));
    let before = table.clone();
    let out = table.accept_fragment(&fragment("u", 4, 5, b"y"));
    assert_eq!(out, FragmentOutcome::Rejected(CoreError::InvalidChunkMetadata));
    assert_eq!(table, before);
}

#[test]
fn bad_base64_is_rejected_and_changes_nothing() {
    let mut table = SessionTable::new();
    let mut chunk = fragment("u", 0, 2, b"abc");
    chunk.data = "not base64!!".to_string();
    let out = table.accept_fragment(&chunk);
    assert_eq!(out, FragmentOutcome::Rejected(CoreError::DecodeFailed));
    assert_eq!(table.len(), 0);
}

#[test]
fn decode_failure_is_reported_before_bad_metadata() {
    let mut table = SessionTable::new();
    let mut chunk = fragment("u", 7, 0, b"abc");
    chunk.data = "%%%".to_string();
    assert_eq!(table.accept_fragment(&chunk), FragmentOutcome::Rejected(CoreError::DecodeFailed));
}

#[test]
fn later_payload_at_the_same_index_wins() {
    let mut table = SessionTable::new();
    assert_eq!(
        table.accept_fragment(&fragment("u", 0, 2, b"first")),
        FragmentOutcome::Stored { chunk_index: 0 }
    );
    assert_eq!(
        table.accept_fragment(&fragment("u", 0, 2, b"second")),
        FragmentOutcome::Stored { chunk_index: 0 }
    );
    assert_eq!(table.len(), 1);
    assert_eq!(table.session(&"u".to_string()).unwrap().slots[0], Some(b"second".to_vec()));
    match table.accept_fragment(&fragment("u", 1, 2, b"!")) {
        FragmentOutcome::Completed { payload, .. } => {
            assert_eq!(payload.data, b"second!".to_vec());
        }
        other => panic!("not completed: {:?}", other),
    }
}

#[test]
fn duplicates_complete_a_session_only_once() {
    let mut table = SessionTable::new();
    let mut completions = 0;
    let deliveries: [(usize, &[u8]); 5] =
        [(0, b"a"), (0, b"a"), (2, b"c"), (2, b"c"), (1, b"b")];
    for (index, bytes) in deliveries.iter() {
        if let FragmentOutcome::Completed { payload, .. } =
            table.accept_fragment(&fragment("dup", *index, 3, bytes))
        {
            completions += 1;
            assert_eq!(payload.data, b"abc".to_vec());
        }
    }
    assert_eq!(completions, 1);
    assert_eq!(table.len(), 0);
}

#[test]
fn sessions_of_different_uploads_do_not_mix() {
    let mut table = SessionTable::new();
    table.accept_fragment(&fragment("a", 0, 2, b"a0"));
    table.accept_fragment(&fragment("b", 1, 2, b"b1"));
    assert_eq!(table.len(), 2);
    match table.accept_fragment(&fragment("a", 1, 2, b"a1")) {
        FragmentOutcome::Completed { payload, .. } => assert_eq!(payload.data, b"a0a1".to_vec()),
        other => panic!("not completed: {:?}", other),
    }
    assert_eq!(table.len(), 1);
    assert!(table.contains(&"b".to_string()));
    assert_eq!(table.session(&"b".to_string()).unwrap().slots, vec![None, Some(b"b1".to_vec())]);
    assert_eq!(table.session(&"a".to_string()), None);
}

#[test]
fn filename_and_mime_type_are_those_of_the_first_fragment() {
    let mut table = SessionTable::new();
    table.accept_fragment(&fragment("u", 0, 2, b"x"));
    let mut last = fragment("u", 1, 2, b"y");
    last.metadata.filename = "other.bin".to_string();
    last.metadata.mime_type = "application/octet-stream".to_string();
    match table.accept_fragment(&last) {
        FragmentOutcome::Completed { payload, .. } => {
            assert_eq!(payload.name, "report.pdf");
            assert_eq!(payload.mime_type, "application/pdf");
        }
        other => panic!("not completed: {:?}", other),
    }
}

#[test]
fn missing_memory_for_a_new_session_is_allocation_failed() {
    let mut table = SessionTable::new();
    let chunk = fragment("u", 0, 2, b"x");
    let out = table.accept_with(&chunk.metadata, Some(b"x".to_vec()), None);
    assert_eq!(out, FragmentOutcome::Rejected(CoreError::AllocationFailed));
    assert_eq!(table.len(), 0);
}

#[test]
fn accept_with_stores_into_fresh_slots() {
    let mut table = SessionTable::new();
    let chunk = fragment("u", 1, 2, b"x");
    let out = table.accept_with(&chunk.metadata, Some(b"x".to_vec()), reserve_slots(2));
    assert_eq!(out, FragmentOutcome::Stored { chunk_index: 1 });
    assert_eq!(table.session(&"u".to_string()).unwrap().slots, vec![None, Some(b"x".to_vec())]);
    let again = table.accept_with(&chunk.metadata, None, None);
    assert_eq!(again, FragmentOutcome::Rejected(CoreError::DecodeFailed));
    let existing = table.accept_with(&chunk.metadata, Some(b"y".to_vec()), None);
    assert_eq!(existing, FragmentOutcome::Stored { chunk_index: 1 });
    assert_eq!(table.session(&"u".to_string()).unwrap().slots, vec![None, Some(b"y".to_vec())]);
}

#[test]
fn memory_handed_to_a_new_session_is_emptied_first() {
    let mut table = SessionTable::new();
    let chunk = fragment("u", 0, 3, b"x");
    let stale = vec![Some(b"old".to_vec()), Some(b"older".to_vec())];
    let out = table.accept_with(&chunk.metadata, Some(b"x".to_vec()), Some(stale));
    assert_eq!(out, FragmentOutcome::Stored { chunk_index: 0 });
    assert_eq!(
        table.session(&"u".to_string()).unwrap().slots,
        vec![Some(b"x".to_vec()), None, None]
    );
    assert_eq!(reserve_slots(5), Some(vec![]));
    assert_eq!(reserve_slots(0), Some(vec![]));
    assert_eq!(fill_empty(vec![Some(vec![1u8])], 2), vec![None, None]);
}

#[test]
fn filled_slots_are_all_empty() {
    assert_eq!(fill_empty(vec![], 3), vec![None, None, None]);
    assert_eq!(fill_empty(vec![None], 0), Vec::<Option<Vec<u8>>>::new());
}

#[test]
fn assemble_joins_in_index_order_and_skips_empty_slots() {
    let slots = vec![Some(vec![1u8, 2]), None, Some(vec![]), Some(vec![3u8])];
    assert_eq!(assemble(&slots), vec![1u8, 2, 3]);
    assert!(!is_complete(&slots));
    assert!(is_complete(&vec![Some(vec![1u8]), Some(vec![])]));
    assert!(is_complete(&vec![]));
    assert_eq!(assemble(&vec![]), Vec::<u8>::new());
}
