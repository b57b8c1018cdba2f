use dataloader::batch::{collate, padded_len, DsBatch, Sample};
use dataloader::error::{worker_shutdown_outcome, DfDataloaderError};
use dataloader::sequence::{build_index_sequence, classify_ticket, TicketKind, SENTINEL_TAG};

fn mk_sample(payload: u32, len: usize) -> Sample<u32> {
    Sample {
        payload,
        len,
        max_freq: 12000,
        snr: -3,
        gain: 6,
        attenuation: Some(12),
    }
}

fn indices_of(seq: &[(usize, isize)]) -> Vec<usize> {
    seq.iter().map(|t| t.0).collect()
}

#[test]
fn sequence_is_a_tagged_permutation() {
    let seq = build_index_sequence(32, 7, false);
    assert_eq!(seq.len(), 32);
    for (pos, t) in seq.iter().enumerate() {
        assert_eq!(t.1, pos as isize);
    }
    let mut idcs = indices_of(&seq);
    idcs.sort_unstable();
    assert_eq!(idcs, (0..32).collect::<Vec<usize>>());
}

#[test]
fn different_seeds_give_different_orders() {
    let a = build_index_sequence(32, 1, false);
    let b = build_index_sequence(32, 2, false);
    assert_ne!(indices_of(&a), indices_of(&b));
}

#[test]
fn same_seed_gives_same_order() {
    let a = build_index_sequence(32, 5, false);
    let b = build_index_sequence(32, 5, false);
    assert_eq!(indices_of(&a), indices_of(&b));
}

#[test]
fn overfit_ignores_seed_and_keeps_identity() {
    for seed in [0u64, 1, 42, 1_000_000] {
        let seq = build_index_sequence(16, seed, true);
        assert_eq!(indices_of(&seq), (0..16).collect::<Vec<usize>>());
        for (pos, t) in seq.iter().enumerate() {
            assert_eq!(t.1, pos as isize);
        }
    }
}

#[test]
fn ticket_classification() {
    assert_eq!(classify_ticket((0, SENTINEL_TAG)), TicketKind::Sentinel);
    assert_eq!(
        classify_ticket((9, 4)),
        TicketKind::Work { sample_idx: 9, order_tag: 4 }
    );
}

#[test]
fn padding_never_truncates() {
    assert_eq!(padded_len(3, 10), 10);
    assert_eq!(padded_len(10, 10), 10);
    assert_eq!(padded_len(12, 10), 12);
    assert_eq!(padded_len(0, 0), 0);
}

#[test]
fn collate_pads_all_fields_to_declared_maximum() {
    // every padded field shares the declared maximum sample length
    let samples = vec![mk_sample(0, 5), mk_sample(1, 3), mk_sample(2, 10)];
    let b: DsBatch<u32> = collate(samples, 10).unwrap();
    assert_eq!(b.sample_len(), 10);
    assert_eq!(b.batch_size(), 3);
    assert_eq!(b.lengths, vec![5, 3, 10]);
    assert_eq!(b.payloads, vec![0, 1, 2]);
    assert_eq!(b.snr, vec![-3, -3, -3]);
    assert_eq!(b.gain, vec![6, 6, 6]);
    assert_eq!(b.atten, vec![12, 12, 12]);
    assert_eq!(b.max_freq, vec![12000, 12000, 12000]);
    assert!(b.ids.is_empty());
}

#[test]
fn collate_missing_attenuation_becomes_zero() {
    let mut s = mk_sample(7, 4);
    s.attenuation = None;
    let b: DsBatch<u32> = collate(vec![s], 4).unwrap();
    assert_eq!(b.atten, vec![0]);
}

#[test]
fn collate_reports_shape_mismatch() {
    // a payload longer than the target keeps its length, so it can no longer
    // match the padded others: a data-integrity defect, reported as an error
    let samples = vec![mk_sample(0, 5), mk_sample(1, 12)];
    match collate(samples, 10) {
        Err(DfDataloaderError::ShapeMismatch { expected, actual }) => {
            assert_eq!(expected, 10);
            assert_eq!(actual, 12);
        }
        _ => panic!("expected the shape-mismatch error"),
    }
}

#[test]
fn collate_equal_overlong_payloads_agree() {
    let samples = vec![mk_sample(0, 12), mk_sample(1, 12)];
    let b: DsBatch<u32> = collate(samples, 10).unwrap();
    assert_eq!(b.sample_len(), 12);
}

#[test]
fn shutdown_swallows_only_send_errors() {
    assert_eq!(worker_shutdown_outcome(Ok(())), Ok(()));
    assert_eq!(
        worker_shutdown_outcome(Err(DfDataloaderError::SendError("channel closed".to_string()))),
        Ok(())
    );
    assert_eq!(
        worker_shutdown_outcome(Err(DfDataloaderError::TimeoutError)),
        Err(DfDataloaderError::TimeoutError)
    );
}

#[test]
fn error_messages_name_their_kind() {
    assert_eq!(DfDataloaderError::TimeoutError.message(), "Dataloading Timeout");
    assert_eq!(DfDataloaderError::DatasetDrained.message(), "Dataset Drained");
    assert!(
        DfDataloaderError::ChannelsNotInitializedError
            .message()
            .contains("start_epoch")
    );
}
